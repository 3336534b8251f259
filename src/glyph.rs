use vstd::prelude::*;

verus! {

/// A glyph's bitmap as rows of bits, top row first.
pub type Rows = Seq<Seq<u8>>;

/// The bits of rows held in vectors.
pub open spec fn rows_view(rows: Seq<Vec<u8>>) -> Rows {
    rows.map_values(|row: Vec<u8>| row@)
}

/// A glyph is well formed when it has five rows of one common, nonzero width,
/// and every entry is a bit.
pub open spec fn glyph_wf(rows: Rows) -> bool {
    &&& rows.len() == 5
    &&& rows[0].len() >= 1
    &&& forall|i: int| 0 <= i < 5 ==> #[trigger] rows[i].len() == rows[0].len()
    &&& forall|i: int, j: int| 0 <= i < 5 && 0 <= j < rows[i].len() ==> #[trigger] rows[i][j] <= 1
}

/// The bitmap of one character: five rows of equal width.
#[derive(Debug, Clone)]
pub struct CharacterPattern {
    /// The pixel data, five rows of `width` bits each.
    pub pixels: Vec<Vec<u8>>,
    /// The number of columns.
    pub width: usize,
}

impl View for CharacterPattern {
    type V = Rows;

    open spec fn view(&self) -> Rows {
        rows_view(self.pixels@)
    }
}

impl CharacterPattern {
    pub open spec fn wf(&self) -> bool {
        &&& glyph_wf(self@)
        &&& self.width == self@[0].len()
    }

    /// Builds a pattern from five rows of bits, all of the same nonzero width.
    pub fn new(rows: &[&[u8]]) -> (r: Self)
        requires
            glyph_wf(rows@.map_values(|row: &[u8]| row@)),
        ensures
            r.wf(),
            r@ == rows@.map_values(|row: &[u8]| row@),
    {
        let width = rows[0].len();
        let mut pixels: Vec<Vec<u8>> = Vec::new();
        let mut i: usize = 0;
        while i < rows.len()
            invariant
                0 <= i <= rows@.len(),
                pixels@.len() == i,
                forall|k: int| 0 <= k < i ==> #[trigger] pixels@[k]@ == rows@[k]@,
            decreases rows@.len() - i,
        {
            pixels.push(vstd::slice::slice_to_vec(rows[i]));
            i = i + 1;
        }
        let r = CharacterPattern { pixels, width };
        assert(r@ =~= rows@.map_values(|row: &[u8]| row@));
        r
    }
}

} // verus!
