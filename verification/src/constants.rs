//! Values that every reply shares.

use vstd::prelude::*;

verus! {

/// Exit codes of the program.
#[derive(Clone, Copy, Debug, PartialEq, Eq, Structural)]
pub enum ErrorCodes {
    ConfigFileError,
}

impl ErrorCodes {
    /// The number the process exits with.
    pub fn code(&self) -> (c: i32)
        ensures
            c == 10,
    {
        match self {
            ErrorCodes::ConfigFileError => 10,
        }
    }
}

/// The picture shown for a track that has none of its own.
pub fn placeholder_img() -> (r: String)
    ensures
        r@ == "https://karei.dev/files/capybara-default.jpg"@,
{
    String::from_str("https://karei.dev/files/capybara-default.jpg")
}

/// The colour of every embed, as `0xRRGGBB`.
pub const EMBED_COLOUR: u32 = 0xE80C74;

} // verus!
