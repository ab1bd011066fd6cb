use vstd::prelude::*;

verus! {

broadcast use vstd::seq::group_seq_axioms;

/// One position of the secret word: its character together with a flag
/// saying whether the player has revealed it by a correct guess.
#[derive(Clone, Copy, Debug)]
pub struct Letter {
    pub character: char,
    pub revealed: bool,
}

/// The letter track a word starts with: one slot per character of the
/// word, in the word's order, nothing revealed yet.
pub open spec fn fresh_track(word: Seq<char>, letters: Seq<Letter>) -> bool {
    &&& letters.len() == word.len()
    &&& forall|i: int|
        0 <= i < letters.len() ==> letters[i].character == word[i] && !letters[i].revealed
}

/// Build the letter track for a freshly chosen secret word.
pub fn create_letters(word: &String) -> (letters: Vec<Letter>)
    ensures
        fresh_track(word@, letters@),
{
    let n: usize = word.as_str().unicode_len();
    let mut letters: Vec<Letter> = Vec::new();
    let mut k: usize = 0;
    while k < n
        invariant
            n == word@.len(),
            k <= n,
            letters@.len() == k,
            forall|i: int|
                0 <= i < k ==> letters@[i].character == word@[i] && !letters@[i].revealed,
        decreases n - k,
    {
        letters.push(Letter { character: word.as_str().get_char(k), revealed: false });
        k = k + 1;
    }
    letters
}

/// What one slot contributes to the progress line: its character once
/// revealed, the placeholder before that.
pub open spec fn display_char(l: Letter) -> char {
    if l.revealed {
        l.character
    } else {
        '_'
    }
}

/// The characters that the progress line appends after its label: each
/// slot's display character, framed by one space on either side.
pub open spec fn progress_chars(letters: Seq<Letter>) -> Seq<char>
    decreases letters.len(),
{
    if letters.len() == 0 {
        Seq::empty()
    } else {
        progress_chars(letters.drop_last()) + seq![' ', display_char(letters.last()), ' ']
    }
}

/// Relies on `String::push`: appends exactly the given character to the
/// end of the string.
#[verifier::external_body]
pub(crate) fn push_char(s: &mut String, c: char)
    ensures
        final(s)@ == old(s)@ + seq![c],
{
    s.push(c);
}

/// Render the current progress of the game: the label, then each slot as
/// its revealed character or an underscore.
pub fn display_progress(letters: &Vec<Letter>) -> (line: String)
    ensures
        line@ == "Progress:"@ + progress_chars(letters@),
{
    let mut line = String::from_str("Progress:");
    let mut k: usize = 0;
    while k < letters.len()
        invariant
            k <= letters@.len(),
            line@ == "Progress:"@ + progress_chars(letters@.take(k as int)),
        decreases letters@.len() - k,
    {
        let l = letters[k];
        push_char(&mut line, ' ');
        if l.revealed {
            push_char(&mut line, l.character);
        } else {
            push_char(&mut line, '_');
        }
        push_char(&mut line, ' ');
        proof {
            let taken = letters@.take(k + 1);
            assert(taken.drop_last() =~= letters@.take(k as int));
            assert(line@ =~= "Progress:"@ + progress_chars(letters@.take(k + 1)));
        }
        k = k + 1;
    }
    proof {
        assert(letters@.take(letters@.len() as int) =~= letters@);
    }
    line
}

} // verus!
