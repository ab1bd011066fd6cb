use vstd::prelude::*;

pub mod game;
pub mod laws;
pub mod letters;
pub mod words;

pub use game::advance;
pub use game::check_progress;
pub use game::guess_from_line;
pub use game::GameProgress;
pub use game::GameState;
pub use letters::create_letters;
pub use letters::display_progress;
pub use letters::Letter;
pub use words::parse_word_list;
pub use words::select_word;
pub use words::SourceError;

verus! {

/// Number of wrong guesses a player is allowed before the game is lost.
pub const ALLOWED_ATTEMPTS: u8 = 5;

/// The input symbol that ends the session immediately, without any
/// outcome evaluation.
pub const QUIT_SYMBOL: char = '*';

} // verus!
