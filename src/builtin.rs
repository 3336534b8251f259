use vstd::prelude::*;

use crate::glyph::{glyph_wf, CharacterPattern, Rows};

verus! {

/// The bitmap of `c` in the built-in font, or `None` when the font has no glyph for it.
///
/// The font covers the Latin letters in both cases, the digits and a fixed set of
/// symbols. The space character is not part of it: layout gives it a blank gap.
#[verifier::opaque]
pub open spec fn builtin_glyph(c: char) -> Option<Rows> {
    match c {
        'A' => Some(seq![
            seq![0, 1, 1, 0],
            seq![1, 0, 0, 1],
            seq![1, 1, 1, 1],
            seq![1, 0, 0, 1],
            seq![1, 0, 0, 1],
        ]),
        'B' => Some(seq![
            seq![1, 1, 1, 0],
            seq![1, 0, 0, 1],
            seq![1, 1, 1, 0],
            seq![1, 0, 0, 1],
            seq![1, 1, 1, 0],
        ]),
        'C' => Some(seq![
            seq![0, 1, 1, 1],
            seq![1, 0, 0, 0],
            seq![1, 0, 0, 0],
            seq![1, 0, 0, 0],
            seq![0, 1, 1, 1],
        ]),
        'D' => Some(seq![
            seq![1, 1, 1, 0],
            seq![1, 0, 0, 1],
            seq![1, 0, 0, 1],
            seq![1, 0, 0, 1],
            seq![1, 1, 1, 0],
        ]),
        'E' => Some(seq![
            seq![1, 1, 1, 1],
            seq![1, 0, 0, 0],
            seq![1, 1, 1, 0],
            seq![1, 0, 0, 0],
            seq![1, 1, 1, 1],
        ]),
        'F' => Some(seq![
            seq![1, 1, 1, 1],
            seq![1, 0, 0, 0],
            seq![1, 1, 1, 0],
            seq![1, 0, 0, 0],
            seq![1, 0, 0, 0],
        ]),
        'G' => Some(seq![
            seq![0, 1, 1, 1],
            seq![1, 0, 0, 0],
            seq![1, 0, 1, 1],
            seq![1, 0, 0, 1],
            seq![0, 1, 1, 1],
        ]),
        'H' => Some(seq![
            seq![1, 0, 0, 1],
            seq![1, 0, 0, 1],
            seq![1, 1, 1, 1],
            seq![1, 0, 0, 1],
            seq![1, 0, 0, 1],
        ]),
        'I' => Some(seq![
            seq![1],
            seq![1],
            seq![1],
            seq![1],
            seq![1],
        ]),
        'J' => Some(seq![
            seq![0, 0, 0, 1],
            seq![0, 0, 0, 1],
            seq![0, 0, 0, 1],
            seq![1, 0, 0, 1],
            seq![0, 1, 1, 0],
        ]),
        'K' => Some(seq![
            seq![1, 0, 0, 1],
            seq![1, 0, 1, 0],
            seq![1, 1, 0, 0],
            seq![1, 0, 1, 0],
            seq![1, 0, 0, 1],
        ]),
        'L' => Some(seq![
            seq![1, 0, 0],
            seq![1, 0, 0],
            seq![1, 0, 0],
            seq![1, 0, 0],
            seq![1, 1, 1],
        ]),
        'M' => Some(seq![
            seq![1, 0, 0, 0, 1],
            seq![1, 1, 0, 1, 1],
            seq![1, 0, 1, 0, 1],
            seq![1, 0, 0, 0, 1],
            seq![1, 0, 0, 0, 1],
        ]),
        'N' => Some(seq![
            seq![1, 0, 0, 1],
            seq![1, 1, 0, 1],
            seq![1, 0, 1, 1],
            seq![1, 0, 0, 1],
            seq![1, 0, 0, 1],
        ]),
        'O' => Some(seq![
            seq![0, 1, 1, 0],
            seq![1, 0, 0, 1],
            seq![1, 0, 0, 1],
            seq![1, 0, 0, 1],
            seq![0, 1, 1, 0],
        ]),
        'P' => Some(seq![
            seq![1, 1, 1, 0],
            seq![1, 0, 0, 1],
            seq![1, 1, 1, 0],
            seq![1, 0, 0, 0],
            seq![1, 0, 0, 0],
        ]),
        'Q' => Some(seq![
            seq![0, 1, 1, 0],
            seq![1, 0, 0, 1],
            seq![1, 0, 0, 1],
            seq![1, 0, 1, 1],
            seq![0, 1, 1, 1],
        ]),
        'R' => Some(seq![
            seq![1, 1, 1, 0],
            seq![1, 0, 0, 1],
            seq![1, 1, 1, 0],
            seq![1, 0, 1, 0],
            seq![1, 0, 0, 1],
        ]),
        'S' => Some(seq![
            seq![0, 1, 1, 1],
            seq![1, 0, 0, 0],
            seq![0, 1, 1, 0],
            seq![0, 0, 0, 1],
            seq![1, 1, 1, 0],
        ]),
        'T' => Some(seq![
            seq![1, 1, 1],
            seq![0, 1, 0],
            seq![0, 1, 0],
            seq![0, 1, 0],
            seq![0, 1, 0],
        ]),
        'U' => Some(seq![
            seq![1, 0, 0, 1],
            seq![1, 0, 0, 1],
            seq![1, 0, 0, 1],
            seq![1, 0, 0, 1],
            seq![1, 1, 1, 1],
        ]),
        'V' => Some(seq![
            seq![1, 0, 1],
            seq![1, 0, 1],
            seq![1, 0, 1],
            seq![1, 0, 1],
            seq![0, 1, 0],
        ]),
        'W' => Some(seq![
            seq![1, 0, 0, 0, 1],
            seq![1, 0, 0, 0, 1],
            seq![1, 0, 0, 0, 1],
            seq![1, 0, 1, 0, 1],
            seq![0, 1, 0, 1, 0],
        ]),
        'X' => Some(seq![
            seq![1, 0, 1],
            seq![1, 0, 1],
            seq![0, 1, 0],
            seq![1, 0, 1],
            seq![1, 0, 1],
        ]),
        'Y' => Some(seq![
            seq![1, 0, 1],
            seq![1, 0, 1],
            seq![1, 1, 1],
            seq![0, 1, 0],
            seq![0, 1, 0],
        ]),
        'Z' => Some(seq![
            seq![1, 1, 1, 1],
            seq![0, 0, 0, 1],
            seq![0, 0, 1, 0],
            seq![0, 1, 0, 0],
            seq![1, 1, 1, 1],
        ]),
        'a' => Some(seq![
            seq![0, 0, 0],
            seq![0, 1, 1],
            seq![1, 0, 1],
            seq![1, 0, 1],
            seq![0, 1, 1],
        ]),
        'b' => Some(seq![
            seq![1, 0, 0],
            seq![1, 0, 0],
            seq![1, 1, 0],
            seq![1, 0, 1],
            seq![1, 1, 0],
        ]),
        'c' => Some(seq![
            seq![0, 0, 0],
            seq![0, 1, 1],
            seq![1, 0, 0],
            seq![1, 0, 0],
            seq![0, 1, 1],
        ]),
        'd' => Some(seq![
            seq![0, 0, 1],
            seq![0, 0, 1],
            seq![0, 1, 1],
            seq![1, 0, 1],
            seq![0, 1, 1],
        ]),
        'e' => Some(seq![
            seq![0, 0, 0],
            seq![0, 1, 1],
            seq![1, 0, 1],
            seq![1, 1, 0],
            seq![0, 1, 1],
        ]),
        'f' => Some(seq![
            seq![0, 1, 1],
            seq![0, 1, 0],
            seq![1, 1, 1],
            seq![0, 1, 0],
            seq![0, 1, 0],
        ]),
        'g' => Some(seq![
            seq![0, 1, 1],
            seq![1, 0, 1],
            seq![0, 1, 1],
            seq![0, 0, 1],
            seq![1, 1, 0],
        ]),
        'h' => Some(seq![
            seq![1, 0, 0],
            seq![1, 0, 0],
            seq![1, 1, 0],
            seq![1, 0, 1],
            seq![1, 0, 1],
        ]),
        'i' => Some(seq![
            seq![1],
            seq![0],
            seq![1],
            seq![1],
            seq![1],
        ]),
        'j' => Some(seq![
            seq![0, 1],
            seq![0, 0],
            seq![0, 1],
            seq![0, 1],
            seq![1, 0],
        ]),
        'k' => Some(seq![
            seq![1, 0, 0],
            seq![1, 0, 0],
            seq![1, 0, 1],
            seq![1, 1, 0],
            seq![1, 0, 1],
        ]),
        'l' => Some(seq![
            seq![1, 0],
            seq![1, 0],
            seq![1, 0],
            seq![1, 0],
            seq![1, 1],
        ]),
        'm' => Some(seq![
            seq![0, 0, 0, 0, 0],
            seq![1, 1, 0, 1, 1],
            seq![1, 0, 1, 0, 1],
            seq![1, 0, 0, 0, 1],
            seq![1, 0, 0, 0, 1],
        ]),
        'n' => Some(seq![
            seq![0, 0, 0, 0],
            seq![1, 1, 1, 0],
            seq![1, 0, 0, 1],
            seq![1, 0, 0, 1],
            seq![1, 0, 0, 1],
        ]),
        'o' => Some(seq![
            seq![0, 0, 0, 0],
            seq![0, 1, 1, 0],
            seq![1, 0, 0, 1],
            seq![1, 0, 0, 1],
            seq![0, 1, 1, 0],
        ]),
        'p' => Some(seq![
            seq![0, 0, 0],
            seq![1, 1, 0],
            seq![1, 0, 1],
            seq![1, 1, 0],
            seq![1, 0, 0],
        ]),
        'q' => Some(seq![
            seq![0, 0, 0],
            seq![0, 1, 1],
            seq![1, 0, 1],
            seq![0, 1, 1],
            seq![0, 0, 1],
        ]),
        'r' => Some(seq![
            seq![0, 0, 0],
            seq![1, 0, 1],
            seq![1, 1, 0],
            seq![1, 0, 0],
            seq![1, 0, 0],
        ]),
        's' => Some(seq![
            seq![0, 0, 0],
            seq![0, 1, 1],
            seq![1, 1, 0],
            seq![0, 0, 1],
            seq![1, 1, 0],
        ]),
        't' => Some(seq![
            seq![0, 1, 0],
            seq![1, 1, 1],
            seq![0, 1, 0],
            seq![0, 1, 0],
            seq![0, 1, 1],
        ]),
        'u' => Some(seq![
            seq![0, 0, 0],
            seq![1, 0, 1],
            seq![1, 0, 1],
            seq![1, 0, 1],
            seq![0, 1, 1],
        ]),
        'v' => Some(seq![
            seq![0, 0, 0],
            seq![1, 0, 1],
            seq![1, 0, 1],
            seq![1, 0, 1],
            seq![0, 1, 0],
        ]),
        'w' => Some(seq![
            seq![0, 0, 0, 0, 0],
            seq![1, 0, 0, 0, 1],
            seq![1, 0, 0, 0, 1],
            seq![1, 0, 1, 0, 1],
            seq![0, 1, 0, 1, 0],
        ]),
        'x' => Some(seq![
            seq![0, 0, 0],
            seq![1, 0, 1],
            seq![0, 1, 0],
            seq![1, 0, 1],
            seq![1, 0, 1],
        ]),
        'y' => Some(seq![
            seq![0, 0, 0],
            seq![1, 0, 1],
            seq![1, 0, 1],
            seq![0, 1, 0],
            seq![1, 0, 0],
        ]),
        'z' => Some(seq![
            seq![0, 0, 0],
            seq![1, 1, 1],
            seq![0, 0, 1],
            seq![0, 1, 0],
            seq![1, 1, 1],
        ]),
        '0' => Some(seq![
            seq![0, 1, 1, 0],
            seq![1, 0, 0, 1],
            seq![1, 0, 0, 1],
            seq![1, 0, 0, 1],
            seq![0, 1, 1, 0],
        ]),
        '1' => Some(seq![
            seq![0, 1, 0],
            seq![1, 1, 0],
            seq![0, 1, 0],
            seq![0, 1, 0],
            seq![1, 1, 1],
        ]),
        '2' => Some(seq![
            seq![0, 1, 1, 0],
            seq![1, 0, 0, 1],
            seq![0, 0, 1, 0],
            seq![0, 1, 0, 0],
            seq![1, 1, 1, 1],
        ]),
        '3' => Some(seq![
            seq![0, 1, 1, 0],
            seq![1, 0, 0, 1],
            seq![0, 0, 1, 0],
            seq![1, 0, 0, 1],
            seq![0, 1, 1, 0],
        ]),
        '4' => Some(seq![
            seq![0, 1, 1, 0],
            seq![1, 0, 1, 0],
            seq![1, 1, 1, 1],
            seq![0, 0, 1, 0],
            seq![0, 0, 1, 0],
        ]),
        '5' => Some(seq![
            seq![1, 1, 1, 1],
            seq![1, 0, 0, 0],
            seq![1, 1, 1, 0],
            seq![0, 0, 0, 1],
            seq![1, 1, 1, 0],
        ]),
        '6' => Some(seq![
            seq![0, 1, 1, 0],
            seq![1, 0, 0, 0],
            seq![1, 1, 1, 0],
            seq![1, 0, 0, 1],
            seq![0, 1, 1, 0],
        ]),
        '7' => Some(seq![
            seq![1, 1, 1, 1],
            seq![0, 0, 0, 1],
            seq![0, 0, 1, 0],
            seq![0, 1, 0, 0],
            seq![0, 1, 0, 0],
        ]),
        '8' => Some(seq![
            seq![0, 1, 1, 0],
            seq![1, 0, 0, 1],
            seq![0, 1, 1, 0],
            seq![1, 0, 0, 1],
            seq![0, 1, 1, 0],
        ]),
        '9' => Some(seq![
            seq![0, 1, 1, 0],
            seq![1, 0, 0, 1],
            seq![0, 1, 1, 1],
            seq![0, 0, 0, 1],
            seq![0, 1, 1, 0],
        ]),
        '@' => Some(seq![
            seq![0, 1, 1, 0],
            seq![1, 0, 0, 1],
            seq![1, 0, 1, 1],
            seq![1, 0, 0, 0],
            seq![0, 1, 1, 1],
        ]),
        '!' => Some(seq![
            seq![1],
            seq![1],
            seq![1],
            seq![0],
            seq![1],
        ]),
        '#' => Some(seq![
            seq![0, 1, 0, 1, 0],
            seq![1, 1, 1, 1, 1],
            seq![0, 1, 0, 1, 0],
            seq![1, 1, 1, 1, 1],
            seq![0, 1, 0, 1, 0],
        ]),
        '$' => Some(seq![
            seq![0, 1, 1, 1, 0],
            seq![1, 0, 1, 0, 0],
            seq![0, 1, 1, 1, 0],
            seq![0, 0, 1, 0, 1],
            seq![0, 1, 1, 1, 0],
        ]),
        '%' => Some(seq![
            seq![1, 1, 0, 0, 1],
            seq![1, 1, 0, 1, 0],
            seq![0, 0, 1, 0, 0],
            seq![0, 1, 0, 1, 1],
            seq![1, 0, 0, 1, 1],
        ]),
        '^' => Some(seq![
            seq![0, 1, 0],
            seq![1, 0, 1],
            seq![0, 0, 0],
            seq![0, 0, 0],
            seq![0, 0, 0],
        ]),
        '&' => Some(seq![
            seq![0, 1, 0, 0, 0],
            seq![1, 0, 1, 0, 0],
            seq![0, 1, 0, 1, 0],
            seq![1, 0, 1, 0, 0],
            seq![0, 1, 0, 1, 0],
        ]),
        '*' => Some(seq![
            seq![1, 0, 1],
            seq![0, 1, 0],
            seq![1, 0, 1],
            seq![0, 0, 0],
            seq![0, 0, 0],
        ]),
        '(' => Some(seq![
            seq![0, 1],
            seq![1, 0],
            seq![1, 0],
            seq![1, 0],
            seq![0, 1],
        ]),
        ')' => Some(seq![
            seq![1, 0],
            seq![0, 1],
            seq![0, 1],
            seq![0, 1],
            seq![1, 0],
        ]),
        '-' => Some(seq![
            seq![0, 0, 0],
            seq![0, 0, 0],
            seq![1, 1, 1],
            seq![0, 0, 0],
            seq![0, 0, 0],
        ]),
        '_' => Some(seq![
            seq![0, 0, 0],
            seq![0, 0, 0],
            seq![0, 0, 0],
            seq![0, 0, 0],
            seq![1, 1, 1],
        ]),
        '=' => Some(seq![
            seq![0, 0, 0],
            seq![1, 1, 1],
            seq![0, 0, 0],
            seq![1, 1, 1],
            seq![0, 0, 0],
        ]),
        '+' => Some(seq![
            seq![0, 0, 0],
            seq![0, 1, 0],
            seq![1, 1, 1],
            seq![0, 1, 0],
            seq![0, 0, 0],
        ]),
        '?' => Some(seq![
            seq![0, 1, 1, 0],
            seq![1, 0, 0, 1],
            seq![0, 0, 1, 0],
            seq![0, 0, 0, 0],
            seq![0, 0, 1, 0],
        ]),
        '.' => Some(seq![
            seq![0],
            seq![0],
            seq![0],
            seq![0],
            seq![1],
        ]),
        '/' => Some(seq![
            seq![0, 0, 0, 0, 1],
            seq![0, 0, 0, 1, 0],
            seq![0, 0, 1, 0, 0],
            seq![0, 1, 0, 0, 0],
            seq![1, 0, 0, 0, 0],
        ]),
        '|' => Some(seq![
            seq![1],
            seq![1],
            seq![1],
            seq![1],
            seq![1],
        ]),
        ':' => Some(seq![
            seq![0],
            seq![1],
            seq![0],
            seq![1],
            seq![0],
        ]),
        ';' => Some(seq![
            seq![0, 0],
            seq![0, 1],
            seq![0, 0],
            seq![0, 1],
            seq![1, 1],
        ]),
        ',' => Some(seq![
            seq![0, 0],
            seq![0, 0],
            seq![0, 0],
            seq![0, 1],
            seq![1, 1],
        ]),
        '<' => Some(seq![
            seq![0, 0, 1],
            seq![0, 1, 0],
            seq![1, 0, 0],
            seq![0, 1, 0],
            seq![0, 0, 1],
        ]),
        '>' => Some(seq![
            seq![1, 0, 0],
            seq![0, 1, 0],
            seq![0, 0, 1],
            seq![0, 1, 0],
            seq![1, 0, 0],
        ]),
        '[' => Some(seq![
            seq![1, 1],
            seq![1, 0],
            seq![1, 0],
            seq![1, 0],
            seq![1, 1],
        ]),
        ']' => Some(seq![
            seq![1, 1],
            seq![0, 1],
            seq![0, 1],
            seq![0, 1],
            seq![1, 1],
        ]),
        '{' => Some(seq![
            seq![0, 1, 1],
            seq![0, 1, 0],
            seq![1, 0, 0],
            seq![0, 1, 0],
            seq![0, 1, 1],
        ]),
        '}' => Some(seq![
            seq![1, 1, 0],
            seq![0, 1, 0],
            seq![0, 0, 1],
            seq![0, 1, 0],
            seq![1, 1, 0],
        ]),
        '~' => Some(seq![
            seq![0, 0, 0],
            seq![0, 1, 1],
            seq![1, 1, 0],
            seq![0, 0, 0],
            seq![0, 0, 0],
        ]),
        '"' => Some(seq![
            seq![1, 0, 1],
            seq![1, 0, 1],
            seq![0, 0, 0],
            seq![0, 0, 0],
            seq![0, 0, 0],
        ]),
        '\'' => Some(seq![
            seq![1, 0, 0, 0, 0],
            seq![0, 1, 0, 0, 0],
            seq![0, 0, 1, 0, 0],
            seq![0, 0, 0, 1, 0],
            seq![0, 0, 0, 0, 1],
        ]),
        '`' => Some(seq![
            seq![1, 0],
            seq![0, 1],
            seq![0, 0],
            seq![0, 0],
            seq![0, 0],
        ]),
        _ => None,
    }
}

/// Every character of the built-in font is ASCII.
pub proof fn lemma_builtin_ascii(c: char)
    ensures
        builtin_glyph(c) is Some ==> (c as u32) < 128,
{
    reveal(builtin_glyph);
}

/// Every glyph of the built-in font is well formed and at most five columns wide.
pub proof fn lemma_builtin_glyph_wf(c: char)
    ensures
        builtin_glyph(c) matches Some(g) ==> glyph_wf(g) && g[0].len() <= 5,
{
    reveal(builtin_glyph);
}

/// Builds the pattern of `c` in the built-in font.
pub fn builtin_pattern(c: char) -> (r: Option<CharacterPattern>)
    ensures
        match r {
            Some(p) => p.wf() && p.width <= 5 && builtin_glyph(c) is Some && p@ =~~= builtin_glyph(
                c,
            )->0,
            None => builtin_glyph(c) is None,
        },
{
    proof {
        reveal(builtin_glyph);
    }
    match c {
        'A' => Some(CharacterPattern::new(&[
            &[0, 1, 1, 0],
            &[1, 0, 0, 1],
            &[1, 1, 1, 1],
            &[1, 0, 0, 1],
            &[1, 0, 0, 1],
        ])),
        'B' => Some(CharacterPattern::new(&[
            &[1, 1, 1, 0],
            &[1, 0, 0, 1],
            &[1, 1, 1, 0],
            &[1, 0, 0, 1],
            &[1, 1, 1, 0],
        ])),
        'C' => Some(CharacterPattern::new(&[
            &[0, 1, 1, 1],
            &[1, 0, 0, 0],
            &[1, 0, 0, 0],
            &[1, 0, 0, 0],
            &[0, 1, 1, 1],
        ])),
        'D' => Some(CharacterPattern::new(&[
            &[1, 1, 1, 0],
            &[1, 0, 0, 1],
            &[1, 0, 0, 1],
            &[1, 0, 0, 1],
            &[1, 1, 1, 0],
        ])),
        'E' => Some(CharacterPattern::new(&[
            &[1, 1, 1, 1],
            &[1, 0, 0, 0],
            &[1, 1, 1, 0],
            &[1, 0, 0, 0],
            &[1, 1, 1, 1],
        ])),
        'F' => Some(CharacterPattern::new(&[
            &[1, 1, 1, 1],
            &[1, 0, 0, 0],
            &[1, 1, 1, 0],
            &[1, 0, 0, 0],
            &[1, 0, 0, 0],
        ])),
        'G' => Some(CharacterPattern::new(&[
            &[0, 1, 1, 1],
            &[1, 0, 0, 0],
            &[1, 0, 1, 1],
            &[1, 0, 0, 1],
            &[0, 1, 1, 1],
        ])),
        'H' => Some(CharacterPattern::new(&[
            &[1, 0, 0, 1],
            &[1, 0, 0, 1],
            &[1, 1, 1, 1],
            &[1, 0, 0, 1],
            &[1, 0, 0, 1],
        ])),
        'I' => Some(CharacterPattern::new(&[
            &[1],
            &[1],
            &[1],
            &[1],
            &[1],
        ])),
        'J' => Some(CharacterPattern::new(&[
            &[0, 0, 0, 1],
            &[0, 0, 0, 1],
            &[0, 0, 0, 1],
            &[1, 0, 0, 1],
            &[0, 1, 1, 0],
        ])),
        'K' => Some(CharacterPattern::new(&[
            &[1, 0, 0, 1],
            &[1, 0, 1, 0],
            &[1, 1, 0, 0],
            &[1, 0, 1, 0],
            &[1, 0, 0, 1],
        ])),
        'L' => Some(CharacterPattern::new(&[
            &[1, 0, 0],
            &[1, 0, 0],
            &[1, 0, 0],
            &[1, 0, 0],
            &[1, 1, 1],
        ])),
        'M' => Some(CharacterPattern::new(&[
            &[1, 0, 0, 0, 1],
            &[1, 1, 0, 1, 1],
            &[1, 0, 1, 0, 1],
            &[1, 0, 0, 0, 1],
            &[1, 0, 0, 0, 1],
        ])),
        'N' => Some(CharacterPattern::new(&[
            &[1, 0, 0, 1],
            &[1, 1, 0, 1],
            &[1, 0, 1, 1],
            &[1, 0, 0, 1],
            &[1, 0, 0, 1],
        ])),
        'O' => Some(CharacterPattern::new(&[
            &[0, 1, 1, 0],
            &[1, 0, 0, 1],
            &[1, 0, 0, 1],
            &[1, 0, 0, 1],
            &[0, 1, 1, 0],
        ])),
        'P' => Some(CharacterPattern::new(&[
            &[1, 1, 1, 0],
            &[1, 0, 0, 1],
            &[1, 1, 1, 0],
            &[1, 0, 0, 0],
            &[1, 0, 0, 0],
        ])),
        'Q' => Some(CharacterPattern::new(&[
            &[0, 1, 1, 0],
            &[1, 0, 0, 1],
            &[1, 0, 0, 1],
            &[1, 0, 1, 1],
            &[0, 1, 1, 1],
        ])),
        'R' => Some(CharacterPattern::new(&[
            &[1, 1, 1, 0],
            &[1, 0, 0, 1],
            &[1, 1, 1, 0],
            &[1, 0, 1, 0],
            &[1, 0, 0, 1],
        ])),
        'S' => Some(CharacterPattern::new(&[
            &[0, 1, 1, 1],
            &[1, 0, 0, 0],
            &[0, 1, 1, 0],
            &[0, 0, 0, 1],
            &[1, 1, 1, 0],
        ])),
        'T' => Some(CharacterPattern::new(&[
            &[1, 1, 1],
            &[0, 1, 0],
            &[0, 1, 0],
            &[0, 1, 0],
            &[0, 1, 0],
        ])),
        'U' => Some(CharacterPattern::new(&[
            &[1, 0, 0, 1],
            &[1, 0, 0, 1],
            &[1, 0, 0, 1],
            &[1, 0, 0, 1],
            &[1, 1, 1, 1],
        ])),
        'V' => Some(CharacterPattern::new(&[
            &[1, 0, 1],
            &[1, 0, 1],
            &[1, 0, 1],
            &[1, 0, 1],
            &[0, 1, 0],
        ])),
        'W' => Some(CharacterPattern::new(&[
            &[1, 0, 0, 0, 1],
            &[1, 0, 0, 0, 1],
            &[1, 0, 0, 0, 1],
            &[1, 0, 1, 0, 1],
            &[0, 1, 0, 1, 0],
        ])),
        'X' => Some(CharacterPattern::new(&[
            &[1, 0, 1],
            &[1, 0, 1],
            &[0, 1, 0],
            &[1, 0, 1],
            &[1, 0, 1],
        ])),
        'Y' => Some(CharacterPattern::new(&[
            &[1, 0, 1],
            &[1, 0, 1],
            &[1, 1, 1],
            &[0, 1, 0],
            &[0, 1, 0],
        ])),
        'Z' => Some(CharacterPattern::new(&[
            &[1, 1, 1, 1],
            &[0, 0, 0, 1],
            &[0, 0, 1, 0],
            &[0, 1, 0, 0],
            &[1, 1, 1, 1],
        ])),
        'a' => Some(CharacterPattern::new(&[
            &[0, 0, 0],
            &[0, 1, 1],
            &[1, 0, 1],
            &[1, 0, 1],
            &[0, 1, 1],
        ])),
        'b' => Some(CharacterPattern::new(&[
            &[1, 0, 0],
            &[1, 0, 0],
            &[1, 1, 0],
            &[1, 0, 1],
            &[1, 1, 0],
        ])),
        'c' => Some(CharacterPattern::new(&[
            &[0, 0, 0],
            &[0, 1, 1],
            &[1, 0, 0],
            &[1, 0, 0],
            &[0, 1, 1],
        ])),
        'd' => Some(CharacterPattern::new(&[
            &[0, 0, 1],
            &[0, 0, 1],
            &[0, 1, 1],
            &[1, 0, 1],
            &[0, 1, 1],
        ])),
        'e' => Some(CharacterPattern::new(&[
            &[0, 0, 0],
            &[0, 1, 1],
            &[1, 0, 1],
            &[1, 1, 0],
            &[0, 1, 1],
        ])),
        'f' => Some(CharacterPattern::new(&[
            &[0, 1, 1],
            &[0, 1, 0],
            &[1, 1, 1],
            &[0, 1, 0],
            &[0, 1, 0],
        ])),
        'g' => Some(CharacterPattern::new(&[
            &[0, 1, 1],
            &[1, 0, 1],
            &[0, 1, 1],
            &[0, 0, 1],
            &[1, 1, 0],
        ])),
        'h' => Some(CharacterPattern::new(&[
            &[1, 0, 0],
            &[1, 0, 0],
            &[1, 1, 0],
            &[1, 0, 1],
            &[1, 0, 1],
        ])),
        'i' => Some(CharacterPattern::new(&[
            &[1],
            &[0],
            &[1],
            &[1],
            &[1],
        ])),
        'j' => Some(CharacterPattern::new(&[
            &[0, 1],
            &[0, 0],
            &[0, 1],
            &[0, 1],
            &[1, 0],
        ])),
        'k' => Some(CharacterPattern::new(&[
            &[1, 0, 0],
            &[1, 0, 0],
            &[1, 0, 1],
            &[1, 1, 0],
            &[1, 0, 1],
        ])),
        'l' => Some(CharacterPattern::new(&[
            &[1, 0],
            &[1, 0],
            &[1, 0],
            &[1, 0],
            &[1, 1],
        ])),
        'm' => Some(CharacterPattern::new(&[
            &[0, 0, 0, 0, 0],
            &[1, 1, 0, 1, 1],
            &[1, 0, 1, 0, 1],
            &[1, 0, 0, 0, 1],
            &[1, 0, 0, 0, 1],
        ])),
        'n' => Some(CharacterPattern::new(&[
            &[0, 0, 0, 0],
            &[1, 1, 1, 0],
            &[1, 0, 0, 1],
            &[1, 0, 0, 1],
            &[1, 0, 0, 1],
        ])),
        'o' => Some(CharacterPattern::new(&[
            &[0, 0, 0, 0],
            &[0, 1, 1, 0],
            &[1, 0, 0, 1],
            &[1, 0, 0, 1],
            &[0, 1, 1, 0],
        ])),
        'p' => Some(CharacterPattern::new(&[
            &[0, 0, 0],
            &[1, 1, 0],
            &[1, 0, 1],
            &[1, 1, 0],
            &[1, 0, 0],
        ])),
        'q' => Some(CharacterPattern::new(&[
            &[0, 0, 0],
            &[0, 1, 1],
            &[1, 0, 1],
            &[0, 1, 1],
            &[0, 0, 1],
        ])),
        'r' => Some(CharacterPattern::new(&[
            &[0, 0, 0],
            &[1, 0, 1],
            &[1, 1, 0],
            &[1, 0, 0],
            &[1, 0, 0],
        ])),
        's' => Some(CharacterPattern::new(&[
            &[0, 0, 0],
            &[0, 1, 1],
            &[1, 1, 0],
            &[0, 0, 1],
            &[1, 1, 0],
        ])),
        't' => Some(CharacterPattern::new(&[
            &[0, 1, 0],
            &[1, 1, 1],
            &[0, 1, 0],
            &[0, 1, 0],
            &[0, 1, 1],
        ])),
        'u' => Some(CharacterPattern::new(&[
            &[0, 0, 0],
            &[1, 0, 1],
            &[1, 0, 1],
            &[1, 0, 1],
            &[0, 1, 1],
        ])),
        'v' => Some(CharacterPattern::new(&[
            &[0, 0, 0],
            &[1, 0, 1],
            &[1, 0, 1],
            &[1, 0, 1],
            &[0, 1, 0],
        ])),
        'w' => Some(CharacterPattern::new(&[
            &[0, 0, 0, 0, 0],
            &[1, 0, 0, 0, 1],
            &[1, 0, 0, 0, 1],
            &[1, 0, 1, 0, 1],
            &[0, 1, 0, 1, 0],
        ])),
        'x' => Some(CharacterPattern::new(&[
            &[0, 0, 0],
            &[1, 0, 1],
            &[0, 1, 0],
            &[1, 0, 1],
            &[1, 0, 1],
        ])),
        'y' => Some(CharacterPattern::new(&[
            &[0, 0, 0],
            &[1, 0, 1],
            &[1, 0, 1],
            &[0, 1, 0],
            &[1, 0, 0],
        ])),
        'z' => Some(CharacterPattern::new(&[
            &[0, 0, 0],
            &[1, 1, 1],
            &[0, 0, 1],
            &[0, 1, 0],
            &[1, 1, 1],
        ])),
        '0' => Some(CharacterPattern::new(&[
            &[0, 1, 1, 0],
            &[1, 0, 0, 1],
            &[1, 0, 0, 1],
            &[1, 0, 0, 1],
            &[0, 1, 1, 0],
        ])),
        '1' => Some(CharacterPattern::new(&[
            &[0, 1, 0],
            &[1, 1, 0],
            &[0, 1, 0],
            &[0, 1, 0],
            &[1, 1, 1],
        ])),
        '2' => Some(CharacterPattern::new(&[
            &[0, 1, 1, 0],
            &[1, 0, 0, 1],
            &[0, 0, 1, 0],
            &[0, 1, 0, 0],
            &[1, 1, 1, 1],
        ])),
        '3' => Some(CharacterPattern::new(&[
            &[0, 1, 1, 0],
            &[1, 0, 0, 1],
            &[0, 0, 1, 0],
            &[1, 0, 0, 1],
            &[0, 1, 1, 0],
        ])),
        '4' => Some(CharacterPattern::new(&[
            &[0, 1, 1, 0],
            &[1, 0, 1, 0],
            &[1, 1, 1, 1],
            &[0, 0, 1, 0],
            &[0, 0, 1, 0],
        ])),
        '5' => Some(CharacterPattern::new(&[
            &[1, 1, 1, 1],
            &[1, 0, 0, 0],
            &[1, 1, 1, 0],
            &[0, 0, 0, 1],
            &[1, 1, 1, 0],
        ])),
        '6' => Some(CharacterPattern::new(&[
            &[0, 1, 1, 0],
            &[1, 0, 0, 0],
            &[1, 1, 1, 0],
            &[1, 0, 0, 1],
            &[0, 1, 1, 0],
        ])),
        '7' => Some(CharacterPattern::new(&[
            &[1, 1, 1, 1],
            &[0, 0, 0, 1],
            &[0, 0, 1, 0],
            &[0, 1, 0, 0],
            &[0, 1, 0, 0],
        ])),
        '8' => Some(CharacterPattern::new(&[
            &[0, 1, 1, 0],
            &[1, 0, 0, 1],
            &[0, 1, 1, 0],
            &[1, 0, 0, 1],
            &[0, 1, 1, 0],
        ])),
        '9' => Some(CharacterPattern::new(&[
            &[0, 1, 1, 0],
            &[1, 0, 0, 1],
            &[0, 1, 1, 1],
            &[0, 0, 0, 1],
            &[0, 1, 1, 0],
        ])),
        '@' => Some(CharacterPattern::new(&[
            &[0, 1, 1, 0],
            &[1, 0, 0, 1],
            &[1, 0, 1, 1],
            &[1, 0, 0, 0],
            &[0, 1, 1, 1],
        ])),
        '!' => Some(CharacterPattern::new(&[
            &[1],
            &[1],
            &[1],
            &[0],
            &[1],
        ])),
        '#' => Some(CharacterPattern::new(&[
            &[0, 1, 0, 1, 0],
            &[1, 1, 1, 1, 1],
            &[0, 1, 0, 1, 0],
            &[1, 1, 1, 1, 1],
            &[0, 1, 0, 1, 0],
        ])),
        '$' => Some(CharacterPattern::new(&[
            &[0, 1, 1, 1, 0],
            &[1, 0, 1, 0, 0],
            &[0, 1, 1, 1, 0],
            &[0, 0, 1, 0, 1],
            &[0, 1, 1, 1, 0],
        ])),
        '%' => Some(CharacterPattern::new(&[
            &[1, 1, 0, 0, 1],
            &[1, 1, 0, 1, 0],
            &[0, 0, 1, 0, 0],
            &[0, 1, 0, 1, 1],
            &[1, 0, 0, 1, 1],
        ])),
        '^' => Some(CharacterPattern::new(&[
            &[0, 1, 0],
            &[1, 0, 1],
            &[0, 0, 0],
            &[0, 0, 0],
            &[0, 0, 0],
        ])),
        '&' => Some(CharacterPattern::new(&[
            &[0, 1, 0, 0, 0],
            &[1, 0, 1, 0, 0],
            &[0, 1, 0, 1, 0],
            &[1, 0, 1, 0, 0],
            &[0, 1, 0, 1, 0],
        ])),
        '*' => Some(CharacterPattern::new(&[
            &[1, 0, 1],
            &[0, 1, 0],
            &[1, 0, 1],
            &[0, 0, 0],
            &[0, 0, 0],
        ])),
        '(' => Some(CharacterPattern::new(&[
            &[0, 1],
            &[1, 0],
            &[1, 0],
            &[1, 0],
            &[0, 1],
        ])),
        ')' => Some(CharacterPattern::new(&[
            &[1, 0],
            &[0, 1],
            &[0, 1],
            &[0, 1],
            &[1, 0],
        ])),
        '-' => Some(CharacterPattern::new(&[
            &[0, 0, 0],
            &[0, 0, 0],
            &[1, 1, 1],
            &[0, 0, 0],
            &[0, 0, 0],
        ])),
        '_' => Some(CharacterPattern::new(&[
            &[0, 0, 0],
            &[0, 0, 0],
            &[0, 0, 0],
            &[0, 0, 0],
            &[1, 1, 1],
        ])),
        '=' => Some(CharacterPattern::new(&[
            &[0, 0, 0],
            &[1, 1, 1],
            &[0, 0, 0],
            &[1, 1, 1],
            &[0, 0, 0],
        ])),
        '+' => Some(CharacterPattern::new(&[
            &[0, 0, 0],
            &[0, 1, 0],
            &[1, 1, 1],
            &[0, 1, 0],
            &[0, 0, 0],
        ])),
        '?' => Some(CharacterPattern::new(&[
            &[0, 1, 1, 0],
            &[1, 0, 0, 1],
            &[0, 0, 1, 0],
            &[0, 0, 0, 0],
            &[0, 0, 1, 0],
        ])),
        '.' => Some(CharacterPattern::new(&[
            &[0],
            &[0],
            &[0],
            &[0],
            &[1],
        ])),
        '/' => Some(CharacterPattern::new(&[
            &[0, 0, 0, 0, 1],
            &[0, 0, 0, 1, 0],
            &[0, 0, 1, 0, 0],
            &[0, 1, 0, 0, 0],
            &[1, 0, 0, 0, 0],
        ])),
        '|' => Some(CharacterPattern::new(&[
            &[1],
            &[1],
            &[1],
            &[1],
            &[1],
        ])),
        ':' => Some(CharacterPattern::new(&[
            &[0],
            &[1],
            &[0],
            &[1],
            &[0],
        ])),
        ';' => Some(CharacterPattern::new(&[
            &[0, 0],
            &[0, 1],
            &[0, 0],
            &[0, 1],
            &[1, 1],
        ])),
        ',' => Some(CharacterPattern::new(&[
            &[0, 0],
            &[0, 0],
            &[0, 0],
            &[0, 1],
            &[1, 1],
        ])),
        '<' => Some(CharacterPattern::new(&[
            &[0, 0, 1],
            &[0, 1, 0],
            &[1, 0, 0],
            &[0, 1, 0],
            &[0, 0, 1],
        ])),
        '>' => Some(CharacterPattern::new(&[
            &[1, 0, 0],
            &[0, 1, 0],
            &[0, 0, 1],
            &[0, 1, 0],
            &[1, 0, 0],
        ])),
        '[' => Some(CharacterPattern::new(&[
            &[1, 1],
            &[1, 0],
            &[1, 0],
            &[1, 0],
            &[1, 1],
        ])),
        ']' => Some(CharacterPattern::new(&[
            &[1, 1],
            &[0, 1],
            &[0, 1],
            &[0, 1],
            &[1, 1],
        ])),
        '{' => Some(CharacterPattern::new(&[
            &[0, 1, 1],
            &[0, 1, 0],
            &[1, 0, 0],
            &[0, 1, 0],
            &[0, 1, 1],
        ])),
        '}' => Some(CharacterPattern::new(&[
            &[1, 1, 0],
            &[0, 1, 0],
            &[0, 0, 1],
            &[0, 1, 0],
            &[1, 1, 0],
        ])),
        '~' => Some(CharacterPattern::new(&[
            &[0, 0, 0],
            &[0, 1, 1],
            &[1, 1, 0],
            &[0, 0, 0],
            &[0, 0, 0],
        ])),
        '"' => Some(CharacterPattern::new(&[
            &[1, 0, 1],
            &[1, 0, 1],
            &[0, 0, 0],
            &[0, 0, 0],
            &[0, 0, 0],
        ])),
        '\'' => Some(CharacterPattern::new(&[
            &[1, 0, 0, 0, 0],
            &[0, 1, 0, 0, 0],
            &[0, 0, 1, 0, 0],
            &[0, 0, 0, 1, 0],
            &[0, 0, 0, 0, 1],
        ])),
        '`' => Some(CharacterPattern::new(&[
            &[1, 0],
            &[0, 1],
            &[0, 0],
            &[0, 0],
            &[0, 0],
        ])),
        _ => None,
    }
}

} // verus!
