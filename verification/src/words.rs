use vstd::prelude::*;

use crate::letters::push_char;

verus! {

broadcast use vstd::seq::group_seq_axioms;

/// The one fatal failure: the backing word list yields no candidate
/// word to play with.
#[derive(Clone, Copy, Debug, PartialEq, Eq, Structural)]
pub enum SourceError {
    SourceUnavailable,
}

/// The views of a sequence of words.
pub open spec fn views_of(words: Seq<String>) -> Seq<Seq<char>> {
    words.map_values(|w: String| w@)
}

/// Splitting a character sequence on a delimiter: one entry more than
/// there are delimiters, each entry holding the characters between two
/// of them. Nothing is trimmed or escaped, and an empty input gives one
/// empty entry.
pub open spec fn spec_split(s: Seq<char>, delim: char) -> Seq<Seq<char>>
    decreases s.len(),
{
    if s.len() == 0 {
        seq![Seq::<char>::empty()]
    } else if s.last() == delim {
        spec_split(s.drop_last(), delim).push(Seq::empty())
    } else {
        let entries = spec_split(s.drop_last(), delim);
        entries.update(entries.len() - 1, entries.last().push(s.last()))
    }
}

/// A split is never empty: it always holds at least one entry.
pub proof fn lemma_split_nonempty(s: Seq<char>, delim: char)
    ensures
        spec_split(s, delim).len() >= 1,
    decreases s.len(),
{
    if s.len() > 0 {
        lemma_split_nonempty(s.drop_last(), delim);
    }
}

/// Parse the backing word list: the candidate words are the entries of
/// the contents split on the comma.
pub fn parse_word_list(contents: &String) -> (words: Vec<String>)
    ensures
        views_of(words@) == spec_split(contents@, ','),
        words@.len() >= 1,
{
    let n: usize = contents.as_str().unicode_len();
    let mut words: Vec<String> = Vec::new();
    let mut current: String = String::new();
    let mut k: usize = 0;
    while k < n
        invariant
            n == contents@.len(),
            k <= n,
            views_of(words@).push(current@) == spec_split(contents@.take(k as int), ','),
        decreases n - k,
    {
        let c = contents.as_str().get_char(k);
        let ghost ws0 = words@;
        let ghost cur0 = current@;
        proof {
            let prefix = contents@.take(k + 1);
            assert(prefix.drop_last() =~= contents@.take(k as int));
            assert(prefix.last() == contents@[k as int]);
        }
        if c == ',' {
            words.push(current);
            current = String::new();
            proof {
                assert(views_of(words@) =~= views_of(ws0).push(cur0));
                assert(views_of(words@).push(current@) =~= spec_split(
                    contents@.take(k as int),
                    ',',
                ).push(Seq::empty()));
                assert(views_of(words@).push(current@) =~= spec_split(contents@.take(k + 1), ','));
            }
        } else {
            push_char(&mut current, c);
            proof {
                let entries = spec_split(contents@.take(k as int), ',');
                assert(entries == views_of(ws0).push(cur0));
                assert(entries.last() == cur0);
                assert(current@ =~= cur0.push(contents@[k as int]));
                assert(views_of(words@).push(current@) =~= entries.update(
                    entries.len() - 1,
                    entries.last().push(contents@[k as int]),
                ));
                assert(views_of(words@).push(current@) =~= spec_split(contents@.take(k + 1), ','));
            }
        }
        k = k + 1;
    }
    let ghost ws0 = words@;
    let ghost cur0 = current@;
    words.push(current);
    proof {
        assert(contents@.take(n as int) =~= contents@);
        assert(views_of(words@) =~= views_of(ws0).push(cur0));
        assert(views_of(words@) == spec_split(contents@, ','));
        lemma_split_nonempty(contents@, ',');
        assert(views_of(words@).len() == words@.len());
    }
    words
}

/// Relies on `rand::random_range` over `0..bound`: the sampled value
/// lies inside that non-empty range.
#[verifier::external_body]
fn random_index(bound: usize) -> (index: usize)
    requires
        bound > 0,
    ensures
        index < bound,
{
    rand::random_range(0..bound)
}

/// Select the secret word: one candidate, chosen at random, from a
/// non-empty list; an empty list is the fatal source failure.
pub fn select_word(words: &Vec<String>) -> (selected: Result<String, SourceError>)
    ensures
        selected is Ok <==> words@.len() > 0,
        selected is Err ==> selected == Err::<String, SourceError>(SourceError::SourceUnavailable),
        selected is Ok ==> exists|i: int| 0 <= i < words@.len() && selected->Ok_0@ == words@[i]@,
{
    if words.len() == 0 {
        Err(SourceError::SourceUnavailable)
    } else {
        let index: usize = random_index(words.len());
        Ok(words[index].clone())
    }
}

} // verus!
