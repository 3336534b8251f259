use std::collections::HashMap;

use vstd::prelude::*;

use crate::builtin::{builtin_glyph, builtin_pattern, lemma_builtin_ascii, lemma_builtin_glyph_wf};
use crate::glyph::{glyph_wf, CharacterPattern, Rows};

verus! {

broadcast use vstd::std_specs::hash::group_hash_axioms;

/// Every glyph of `font` is well formed and at most five columns wide.
pub open spec fn font_wf(font: Map<char, Rows>) -> bool {
    forall|c: char| #[trigger] font.contains_key(c) ==> glyph_wf(font[c]) && font[c][0].len() <= 5
}

/// The built-in font as a map from character to bitmap.
pub open spec fn builtin_font() -> Map<char, Rows> {
    Map::new(|c: char| builtin_glyph(c) is Some, |c: char| builtin_glyph(c)->0)
}

/// The built-in font satisfies `font_wf`.
pub proof fn lemma_builtin_font_wf()
    ensures
        font_wf(builtin_font()),
{
    assert forall|c: char| #[trigger] builtin_font().contains_key(c) implies glyph_wf(
        builtin_font()[c],
    ) && builtin_font()[c][0].len() <= 5 by {
        lemma_builtin_glyph_wf(c);
    }
}

/// A table of character patterns, looked up by character.
pub struct PixelFont {
    characters: HashMap<u32, CharacterPattern>,
}

impl View for PixelFont {
    type V = Map<char, Rows>;

    closed spec fn view(&self) -> Map<char, Rows> {
        Map::new(
            |c: char| self.characters@.contains_key(c as u32),
            |c: char| self.characters@[c as u32]@,
        )
    }
}

impl Default for PixelFont {
    /// The built-in font.
    fn default() -> (r: Self)
        ensures
            r.wf(),
            r@ == builtin_font(),
    {
        Self::new()
    }
}

impl PixelFont {
    /// Each key is the code of an ASCII character, and each pattern is well formed and
    /// at most five columns wide.
    pub closed spec fn wf(&self) -> bool {
        forall|k: u32| #[trigger]
            self.characters@.contains_key(k) ==> k < 128 && self.characters@[k].wf()
                && self.characters@[k].width <= 5
    }

    /// A well-formed font satisfies `font_wf`.
    pub proof fn lemma_wf(&self)
        requires
            self.wf(),
        ensures
            font_wf(self@),
    {
        assert forall|c: char| #[trigger] self@.contains_key(c) implies glyph_wf(self@[c])
            && self@[c][0].len() <= 5 by {
            assert(self.characters@.contains_key(c as u32));
        }
    }

    /// The table holds, under the code of each ASCII character, that character's
    /// built-in pattern, and nothing else.
    spec fn matches_builtin(&self) -> bool {
        &&& forall|c: char| #[trigger]
            self.characters@.contains_key(c as u32) <==> ((c as u32) < 128 && builtin_glyph(c) is Some)
        &&& forall|c: char| #[trigger]
            self.characters@.contains_key(c as u32) ==> self.characters@[c as u32]@ == builtin_glyph(
                c,
            )->0
    }

    /// A table that matches the built-in font agrees with it on `c`.
    proof fn lemma_matches_builtin_at(&self, c: char)
        requires
            self.matches_builtin(),
        ensures
            self@.contains_key(c) <==> builtin_font().contains_key(c),
            self@.contains_key(c) ==> self@[c] == builtin_font()[c],
    {
        lemma_builtin_ascii(c);
    }

    /// A table that matches the built-in font is viewed as the built-in font.
    proof fn lemma_matches_builtin(&self)
        requires
            self.matches_builtin(),
        ensures
            self@ == builtin_font(),
    {
        assert forall|c: char| #[trigger] self@.contains_key(c) <==> builtin_font().contains_key(c) by {
            self.lemma_matches_builtin_at(c);
        }
        assert forall|c: char| #[trigger] self@.contains_key(c) implies self@[c] == builtin_font()[c] by {
            self.lemma_matches_builtin_at(c);
        }
        assert(self@ =~= builtin_font());
    }

    /// Builds the built-in font.
    pub fn new() -> (r: Self)
        ensures
            r.wf(),
            r@ == builtin_font(),
    {
        let mut characters: HashMap<u32, CharacterPattern> = HashMap::with_capacity(100);
        let mut b: u8 = 0;
        while b < 128
            invariant
                b <= 128,
                forall|k: u32| #[trigger]
                    characters@.contains_key(k) ==> k < b && characters@[k].wf()
                        && characters@[k].width <= 5,
                forall|c: char| #[trigger]
                    characters@.contains_key(c as u32) <==> ((c as u32) < b && builtin_glyph(c) is Some),
                forall|c: char| #[trigger] characters@.contains_key(c as u32) ==> characters@[c
                    as u32]@ == builtin_glyph(c)->0,
            decreases 128 - b,
        {
            let c = b as char;
            match builtin_pattern(c) {
                Some(p) => {
                    characters.insert(b as u32, p);
                },
                None => {},
            }
            b = b + 1;
        }
        let r = PixelFont { characters };
        proof {
            r.lemma_matches_builtin();
        }
        r
    }

    /// The pattern of `ch`, if the font has one.
    pub fn get_pattern(&self, ch: char) -> (r: Option<&CharacterPattern>)
        requires
            self.wf(),
        ensures
            match r {
                Some(p) => self@.contains_key(ch) && p@ == self@[ch] && p.wf(),
                None => !self@.contains_key(ch),
            },
    {
        self.characters.get(&(ch as u32))
    }

    /// Whether the font has a pattern for `ch`.
    pub fn contains(&self, ch: char) -> (r: bool)
        ensures
            r == self@.contains_key(ch),
    {
        self.characters.contains_key(&(ch as u32))
    }

    proof fn lemma_listed(&self, r: Seq<char>, c: char)
        requires
            self.wf(),
            forall|k: u32| #[trigger] self.characters@.contains_key(k) ==> r.contains(k as char),
            forall|i: int| 0 <= i < r.len() ==> #[trigger] self@.contains_key(r[i]),
        ensures
            r.contains(c) <==> self@.contains_key(c),
    {
        if self@.contains_key(c) {
            assert(self.characters@.contains_key(c as u32));
            vstd::utf8::char_u32_cast(c, c as u32);
        }
    }

    /// The characters the font covers, in increasing order.
    pub fn supported_characters(&self) -> (r: Vec<char>)
        requires
            self.wf(),
        ensures
            forall|i: int, j: int| 0 <= i < j < r@.len() ==> r@[i] < r@[j],
            forall|c: char| r@.contains(c) <==> self@.contains_key(c),
    {
        let mut r: Vec<char> = Vec::new();
        let mut b: u8 = 0;
        while b < 128
            invariant
                b <= 128,
                self.wf(),
                forall|i: int, j: int| 0 <= i < j < r@.len() ==> r@[i] < r@[j],
                forall|i: int| 0 <= i < r@.len() ==> r@[i] < (b as char),
                forall|i: int| 0 <= i < r@.len() ==> #[trigger] self@.contains_key(r@[i]),
                forall|k: u32| #[trigger]
                    self.characters@.contains_key(k) && k < b ==> r@.contains(k as char),
            decreases 128 - b,
        {
            let c = b as char;
            let ghost before = r@;
            if self.contains(c) {
                r.push(c);
            }
            proof {
                assert forall|k: u32| #[trigger]
                    self.characters@.contains_key(k) && k < b + 1 implies r@.contains(k as char) by {
                    if k < b {
                        let i = choose|i: int| 0 <= i < before.len() && before[i] == k as char;
                        assert(r@[i] == k as char);
                    } else {
                        assert(c as u32 == k);
                        assert(r@[r@.len() - 1] == c);
                    }
                }
            }
            b = b + 1;
        }
        proof {
            assert forall|c: char| r@.contains(c) <==> self@.contains_key(c) by {
                self.lemma_listed(r@, c);
            }
        }
        r
    }
}

} // verus!
