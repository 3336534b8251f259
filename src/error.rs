use vstd::prelude::*;

use crate::text::{decimal, decimal_string, push_char};

verus! {

/// Why a text could not be rendered.
#[derive(Debug, Clone, Copy, PartialEq, Eq, Structural)]
pub enum PixelArtError {
    /// The text is longer than the limit; carries its length in bytes.
    TextTooLong(usize),
    /// The text holds a character that the font does not cover; carries the first such
    /// character.
    UnsupportedCharacter(char),
}

/// The human-readable description of `e`.
pub open spec fn error_message(e: PixelArtError) -> Seq<char> {
    match e {
        PixelArtError::TextTooLong(len) => "Text too long: "@ + decimal(len as nat)
            + " characters (max: 1000)"@,
        PixelArtError::UnsupportedCharacter(ch) => "Unsupported character: '"@ + seq![ch] + "'"@,
    }
}

impl PixelArtError {
    /// Describes the error in one line.
    pub fn message(&self) -> (r: String)
        ensures
            r@ == error_message(*self),
    {
        let mut s = String::new();
        match self {
            PixelArtError::TextTooLong(len) => {
                s.append("Text too long: ");
                let digits = decimal_string(*len);
                s.append(digits.as_str());
                s.append(" characters (max: 1000)");
            },
            PixelArtError::UnsupportedCharacter(ch) => {
                s.append("Unsupported character: '");
                push_char(&mut s, *ch);
                s.append("'");
            },
        }
        s
    }
}

} // verus!
