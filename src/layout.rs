use vstd::prelude::*;
use vstd::utf8::encode_utf8;

use crate::error::PixelArtError;
use crate::font::{builtin_font, font_wf, lemma_builtin_font_wf, PixelFont};
use crate::glyph::{rows_view, Rows};
use crate::text::push_char;

verus! {

/// The longest text, in bytes, that can be rendered.
pub const MAX_TEXT_LEN: usize = 1000;

/// Columns that a space takes: it has no glyph and leaves a blank gap.
pub const SPACE_WIDTH: usize = 2;

/// Rows of a glyph.
pub const GLYPH_HEIGHT: usize = 5;

/// Rows of a canvas: the glyph rows with a blank row above and below them.
pub const CANVAS_HEIGHT: usize = 7;

/// The number of bytes in the UTF-8 encoding of `text`.
pub open spec fn byte_len(text: Seq<char>) -> nat {
    encode_utf8(text).len()
}

/// Whether `c` can be laid out with `font`: it has a glyph there, or it is a space.
pub open spec fn is_supported(font: Map<char, Rows>, c: char) -> bool {
    c == ' ' || font.contains_key(c)
}

/// The first character of `s`, from the left, that `font` cannot lay out.
pub open spec fn first_unsupported(font: Map<char, Rows>, s: Seq<char>) -> Option<char>
    decreases s.len(),
{
    if s.len() == 0 {
        None
    } else if !is_supported(font, s[0]) {
        Some(s[0])
    } else {
        first_unsupported(font, s.drop_first())
    }
}

/// Columns that `c` takes in `font`: its glyph's width, or the width of a space.
pub open spec fn char_width(font: Map<char, Rows>, c: char) -> nat {
    if c == ' ' {
        SPACE_WIDTH as nat
    } else {
        font[c][0].len()
    }
}

/// The sum of the widths of the characters of `s`.
pub open spec fn widths_sum(font: Map<char, Rows>, s: Seq<char>) -> nat
    decreases s.len(),
{
    if s.len() == 0 {
        0
    } else {
        widths_sum(font, s.drop_last()) + char_width(font, s.last())
    }
}

/// Columns taken by the glyphs of `s` and one blank column between each two of them.
pub open spec fn content_width(font: Map<char, Rows>, s: Seq<char>) -> nat {
    if s.len() == 0 {
        0
    } else {
        widths_sum(font, s) + (s.len() - 1) as nat
    }
}

/// A row of `n` blank pixels.
pub open spec fn zeros(n: nat) -> Seq<u8> {
    Seq::new(n, |j: int| 0u8)
}

/// Row `r` of the glyph of `c`; a space is a blank gap.
pub open spec fn glyph_row(font: Map<char, Rows>, c: char, r: int) -> Seq<u8> {
    if c == ' ' {
        zeros(SPACE_WIDTH as nat)
    } else {
        font[c][r]
    }
}

/// Row `r` of the glyphs of `s` set side by side, one blank column between each two.
pub open spec fn content_row(font: Map<char, Rows>, s: Seq<char>, r: int) -> Seq<u8>
    decreases s.len(),
{
    if s.len() == 0 {
        Seq::empty()
    } else if s.len() == 1 {
        glyph_row(font, s[0], r)
    } else {
        content_row(font, s.drop_last(), r) + seq![0u8] + glyph_row(font, s.last(), r)
    }
}

/// The canvas of `s`: the glyph rows framed by one blank row or column on every side.
/// An empty text gives an empty canvas, with no rows at all.
pub open spec fn canvas(font: Map<char, Rows>, s: Seq<char>) -> Rows {
    if s.len() == 0 {
        Seq::empty()
    } else {
        Seq::new(
            CANVAS_HEIGHT as nat,
            |r: int|
                if r == 0 || r == CANVAS_HEIGHT - 1 {
                    zeros(content_width(font, s) + 2)
                } else {
                    seq![0u8] + content_row(font, s, r - 1) + seq![0u8]
                },
        )
    }
}

/// What rendering `text` with `font` gives: the length check comes first, then the
/// check that every character can be laid out, then the canvas.
pub open spec fn render(font: Map<char, Rows>, text: Seq<char>) -> Result<Rows, PixelArtError> {
    if byte_len(text) > MAX_TEXT_LEN {
        Err(PixelArtError::TextTooLong(byte_len(text) as usize))
    } else {
        match first_unsupported(font, text) {
            Some(c) => Err(PixelArtError::UnsupportedCharacter(c)),
            None => Ok(canvas(font, text)),
        }
    }
}

/// The character that shows bit `b`.
pub open spec fn bit_char(b: u8) -> char {
    if b == 1 {
        '1'
    } else {
        '0'
    }
}

/// A row as text: one character per pixel, then a line break.
pub open spec fn row_text(row: Seq<u8>) -> Seq<char> {
    row.map_values(|b: u8| bit_char(b)).push('\n')
}

/// A canvas as text, one line per row.
pub open spec fn canvas_text(rows: Rows) -> Seq<char>
    decreases rows.len(),
{
    if rows.len() == 0 {
        Seq::empty()
    } else {
        canvas_text(rows.drop_last()) + row_text(rows.last())
    }
}

/// `r` is what rendering `text` with `font` returns: the canvas as text, or the error.
pub open spec fn renders_as(
    font: Map<char, Rows>,
    text: Seq<char>,
    r: Result<String, PixelArtError>,
) -> bool {
    match render(font, text) {
        Ok(rows) => r is Ok && r->Ok_0@ == canvas_text(rows),
        Err(e) => r is Err && r->Err_0 == e,
    }
}

/// A text has at least as many bytes as characters.
pub proof fn lemma_chars_within_bytes(s: Seq<char>)
    ensures
        s.len() <= byte_len(s),
    decreases s.len(),
{
    if s.len() > 0 {
        lemma_chars_within_bytes(s.drop_first());
    }
}

/// No character of `s` is unsupported exactly when every character is supported.
pub proof fn lemma_all_supported(font: Map<char, Rows>, s: Seq<char>)
    ensures
        first_unsupported(font, s) is None <==> forall|i: int|
            0 <= i < s.len() ==> #[trigger] is_supported(font, s[i]),
    decreases s.len(),
{
    if s.len() > 0 {
        lemma_all_supported(font, s.drop_first());
        if first_unsupported(font, s) is None {
            assert forall|i: int| 0 <= i < s.len() implies #[trigger] is_supported(font, s[i]) by {
                if i > 0 {
                    assert(s[i] == s.drop_first()[i - 1]);
                }
            }
        }
        if forall|i: int| 0 <= i < s.len() ==> #[trigger] is_supported(font, s[i]) {
            assert forall|i: int| 0 <= i < s.drop_first().len() implies #[trigger] is_supported(
                font,
                s.drop_first()[i],
            ) by {
                assert(s.drop_first()[i] == s[i + 1]);
            }
        }
    }
}

/// The sum of the widths of a prefix grows by the width of the next character.
proof fn lemma_widths_sum_step(font: Map<char, Rows>, s: Seq<char>, i: int)
    requires
        0 <= i < s.len(),
    ensures
        widths_sum(font, s.take(i + 1)) == widths_sum(font, s.take(i)) + char_width(font, s[i]),
{
    assert(s.take(i + 1).drop_last() =~= s.take(i));
}

/// The number of columns of the canvas content of `chars`.
fn measure(font: &PixelFont, chars: &Vec<char>) -> (w: usize)
    requires
        font.wf(),
        chars@.len() <= MAX_TEXT_LEN,
        forall|i: int| 0 <= i < chars@.len() ==> #[trigger] is_supported(font@, chars@[i]),
    ensures
        w == content_width(font@, chars@),
        w <= 6 * chars@.len(),
{
    proof {
        font.lemma_wf();
    }
    let n = chars.len();
    let mut w: usize = 0;
    let mut i: usize = 0;
    while i < n
        invariant
            n == chars@.len() <= MAX_TEXT_LEN,
            font_wf(font@),
            forall|k: int| 0 <= k < chars@.len() ==> #[trigger] is_supported(font@, chars@[k]),
            font.wf(),
            i <= n,
            w == widths_sum(font@, chars@.take(i as int)) + if i == 0 { 0 } else { i - 1 },
            w <= 6 * i,
        decreases n - i,
    {
        let ch = chars[i];
        if i > 0 {
            w = w + 1;
        }
        proof {
            lemma_widths_sum_step(font@, chars@, i as int);
            assert(is_supported(font@, chars@[i as int]));
        }
        if ch == ' ' {
            w = w + SPACE_WIDTH;
        } else {
            match font.get_pattern(ch) {
                Some(p) => {
                    w = w + p.width;
                },
                None => {},
            }
        }
        i = i + 1;
    }
    proof {
        assert(chars@.take(n as int) =~= chars@);
    }
    w
}

/// Every row of a glyph is as wide as the glyph.
proof fn lemma_glyph_row_len(font: Map<char, Rows>, c: char, r: int)
    requires
        font_wf(font),
        is_supported(font, c),
        0 <= r < GLYPH_HEIGHT,
    ensures
        glyph_row(font, c, r).len() == char_width(font, c),
        char_width(font, c) <= 5,
{
    if c != ' ' {
        assert(font.contains_key(c));
    }
}

/// Each row of the content is as wide as the content.
pub proof fn lemma_content_row_len(font: Map<char, Rows>, s: Seq<char>, r: int)
    requires
        font_wf(font),
        forall|i: int| 0 <= i < s.len() ==> #[trigger] is_supported(font, s[i]),
        0 <= r < GLYPH_HEIGHT,
    ensures
        content_row(font, s, r).len() == content_width(font, s),
        content_width(font, s) <= 6 * s.len(),
    decreases s.len(),
{
    if s.len() == 1 {
        assert(is_supported(font, s[0]));
        lemma_glyph_row_len(font, s[0], r);
        assert(widths_sum(font, s.drop_last()) == 0);
        assert(widths_sum(font, s) == char_width(font, s[0]));
    } else if s.len() > 1 {
        let t = s.drop_last();
        assert forall|i: int| 0 <= i < t.len() implies #[trigger] is_supported(font, t[i]) by {
            assert(t[i] == s[i]);
        }
        lemma_content_row_len(font, t, r);
        assert(is_supported(font, s[s.len() - 1]));
        lemma_glyph_row_len(font, s.last(), r);
        assert(widths_sum(font, s) == widths_sum(font, t) + char_width(font, s.last()));
        assert(content_row(font, s, r) == content_row(font, t, r) + seq![0u8] + glyph_row(font, s.last(), r));
    }
}

/// The content of a prefix grows by a blank column and the next glyph.
proof fn lemma_content_row_step(font: Map<char, Rows>, s: Seq<char>, i: int, r: int)
    requires
        0 <= i < s.len(),
    ensures
        content_row(font, s.take(i + 1), r) == if i == 0 {
            glyph_row(font, s[0], r)
        } else {
            content_row(font, s.take(i), r) + seq![0u8] + glyph_row(font, s[i], r)
        },
{
    assert(s.take(i + 1).drop_last() =~= s.take(i));
}

/// Appends row `r` of the glyph of `ch` to `row`.
fn push_glyph_row(row: &mut Vec<u8>, font: &PixelFont, ch: char, r: usize)
    requires
        font.wf(),
        is_supported(font@, ch),
        r < GLYPH_HEIGHT,
    ensures
        final(row)@ == old(row)@ + glyph_row(font@, ch, r as int),
{
    proof {
        font.lemma_wf();
    }
    let ghost before = row@;
    if ch == ' ' {
        let mut k: usize = 0;
        while k < SPACE_WIDTH
            invariant
                k <= SPACE_WIDTH,
                row@ == before + zeros(k as nat),
            decreases SPACE_WIDTH - k,
        {
            row.push(0);
            k = k + 1;
            proof {
                assert(row@ =~= before + zeros(k as nat));
            }
        }
    } else {
        match font.get_pattern(ch) {
            Some(p) => {
                let bits = &p.pixels[r];
                assert(bits@ == font@[ch][r as int]);
                let mut k: usize = 0;
                while k < p.width
                    invariant
                        k <= p.width == bits@.len(),
                        row@ == before + bits@.take(k as int),
                    decreases p.width - k,
                {
                    row.push(bits[k]);
                    k = k + 1;
                    proof {
                        assert(row@ =~= before + bits@.take(k as int));
                    }
                }
                proof {
                    assert(bits@.take(k as int) =~= bits@);
                }
            },
            None => {},
        }
    }
}

/// Row `r` of the glyph rows of `chars`, framed by a blank column on each side.
fn compose_row(font: &PixelFont, chars: &Vec<char>, r: usize) -> (row: Vec<u8>)
    requires
        font.wf(),
        chars@.len() <= MAX_TEXT_LEN,
        forall|i: int| 0 <= i < chars@.len() ==> #[trigger] is_supported(font@, chars@[i]),
        r < GLYPH_HEIGHT,
    ensures
        row@ == seq![0u8] + content_row(font@, chars@, r as int) + seq![0u8],
{
    proof {
        font.lemma_wf();
    }
    let n = chars.len();
    let mut row: Vec<u8> = Vec::new();
    row.push(0);
    let mut i: usize = 0;
    while i < n
        invariant
            n == chars@.len() <= MAX_TEXT_LEN,
            font.wf(),
            font_wf(font@),
            forall|k: int| 0 <= k < chars@.len() ==> #[trigger] is_supported(font@, chars@[k]),
            r < GLYPH_HEIGHT,
            i <= n,
            row@ == seq![0u8] + content_row(font@, chars@.take(i as int), r as int),
        decreases n - i,
    {
        proof {
            lemma_content_row_step(font@, chars@, i as int, r as int);
            assert(is_supported(font@, chars@[i as int]));
        }
        if i > 0 {
            row.push(0);
        }
        push_glyph_row(&mut row, font, chars[i], r);
        i = i + 1;
        proof {
            assert(row@ =~= seq![0u8] + content_row(font@, chars@.take(i as int), r as int));
        }
    }
    row.push(0);
    proof {
        assert(chars@.take(n as int) =~= chars@);
    }
    row
}

/// A row of `n` blank pixels.
fn blank_row(n: usize) -> (row: Vec<u8>)
    ensures
        row@ == zeros(n as nat),
{
    let mut row: Vec<u8> = Vec::new();
    let mut k: usize = 0;
    while k < n
        invariant
            k <= n,
            row@ == zeros(k as nat),
        decreases n - k,
    {
        row.push(0);
        k = k + 1;
        proof {
            assert(row@ =~= zeros(k as nat));
        }
    }
    row
}

/// The canvas of a nonempty text whose characters `font` can all lay out.
fn compose_canvas(font: &PixelFont, chars: &Vec<char>) -> (rows: Vec<Vec<u8>>)
    requires
        font.wf(),
        1 <= chars@.len() <= MAX_TEXT_LEN,
        forall|i: int| 0 <= i < chars@.len() ==> #[trigger] is_supported(font@, chars@[i]),
    ensures
        rows_view(rows@) == canvas(font@, chars@),
{
    let width = measure(font, chars) + 2;
    let mut rows: Vec<Vec<u8>> = Vec::new();
    rows.push(blank_row(width));
    let mut r: usize = 0;
    while r < GLYPH_HEIGHT
        invariant
            font.wf(),
            1 <= chars@.len() <= MAX_TEXT_LEN,
            forall|i: int| 0 <= i < chars@.len() ==> #[trigger] is_supported(font@, chars@[i]),
            r <= GLYPH_HEIGHT,
            width == content_width(font@, chars@) + 2,
            rows@.len() == r + 1,
            forall|k: int| 0 <= k <= r ==> #[trigger] rows@[k]@ == canvas(font@, chars@)[k],
        decreases GLYPH_HEIGHT - r,
    {
        let row = compose_row(font, chars, r);
        rows.push(row);
        r = r + 1;
    }
    rows.push(blank_row(width));
    proof {
        assert(rows_view(rows@) =~= canvas(font@, chars@));
    }
    rows
}

/// The text of a canvas, one line per row.
fn canvas_to_string(rows: &Vec<Vec<u8>>) -> (s: String)
    ensures
        s@ == canvas_text(rows_view(rows@)),
{
    let mut s = String::new();
    let mut i: usize = 0;
    while i < rows.len()
        invariant
            i <= rows@.len(),
            s@ == canvas_text(rows_view(rows@).take(i as int)),
        decreases rows@.len() - i,
    {
        let row = &rows[i];
        let ghost before = s@;
        let mut j: usize = 0;
        while j < row.len()
            invariant
                j <= row@.len(),
                s@ == before + row@.map_values(|b: u8| bit_char(b)).take(j as int),
            decreases row@.len() - j,
        {
            if row[j] == 1 {
                push_char(&mut s, '1');
            } else {
                push_char(&mut s, '0');
            }
            j = j + 1;
            proof {
                assert(s@ =~= before + row@.map_values(|b: u8| bit_char(b)).take(j as int));
            }
        }
        push_char(&mut s, '\n');
        proof {
            let done = rows_view(rows@).take(i + 1);
            assert(done.drop_last() =~= rows_view(rows@).take(i as int));
            assert(row@.map_values(|b: u8| bit_char(b)).take(j as int) =~= row@.map_values(
                |b: u8| bit_char(b),
            ));
            assert(s@ =~= canvas_text(done));
        }
        i = i + 1;
    }
    proof {
        assert(rows_view(rows@).take(i as int) =~= rows_view(rows@));
    }
    s
}

/// The characters of `text`, in order.
fn collect_chars(text: &str) -> (r: Vec<char>)
    ensures
        r@ == text@,
{
    let mut r: Vec<char> = Vec::new();
    for c in it: text.chars()
        invariant
            r@ == it.seq().take(it.index()),
    {
        r.push(c);
    }
    r
}

/// Checks that `font` can lay out every character of `text`, scanning from the left.
fn validate_text(text: &str, font: &PixelFont) -> (r: Result<(), PixelArtError>)
    ensures
        match first_unsupported(font@, text@) {
            Some(c) => r == Err::<(), PixelArtError>(PixelArtError::UnsupportedCharacter(c)),
            None => r is Ok,
        },
{
    proof {
        assert(text@.skip(0) =~= text@);
    }
    for ch in it: text.chars()
        invariant
            it.seq() == text@,
            first_unsupported(font@, text@) == first_unsupported(font@, text@.skip(it.index())),
    {
        proof {
            assert(text@.skip(it.index()).drop_first() =~= text@.skip(it.index() + 1));
        }
        if ch != ' ' && !font.contains(ch) {
            return Err(PixelArtError::UnsupportedCharacter(ch));
        }
    }
    proof {
        assert(text@.skip(text@.len() as int).len() == 0);
    }
    Ok(())
}

/// Renders `text` with `font`.
fn render_text(font: &PixelFont, text: &str) -> (r: Result<String, PixelArtError>)
    requires
        font.wf(),
    ensures
        renders_as(font@, text@, r),
{
    let len = text.as_bytes().len();
    if len > MAX_TEXT_LEN {
        return Err(PixelArtError::TextTooLong(len));
    }
    match validate_text(text, font) {
        Err(e) => {
            return Err(e);
        },
        Ok(()) => {},
    }
    let chars = collect_chars(text);
    if chars.len() == 0 {
        return Ok(String::new());
    }
    proof {
        lemma_chars_within_bytes(text@);
        lemma_all_supported(font@, text@);
    }
    let rows = compose_canvas(font, &chars);
    Ok(canvas_to_string(&rows))
}

/// Renders `text` with the built-in font as rows of `0` and `1`, each row ending in a
/// line break.
///
/// The text may hold at most `MAX_TEXT_LEN` bytes; a space leaves a blank gap, and any
/// other character must have a glyph. An empty text gives an empty string.
pub fn text_to_pixel_art(text: &str) -> (r: Result<String, PixelArtError>)
    ensures
        renders_as(builtin_font(), text@, r),
{
    let font = PixelFont::new();
    render_text(&font, text)
}

/// The first unsupported character of a text is the one at `i` when all those before
/// it are supported.
proof fn lemma_first_unsupported_at(font: Map<char, Rows>, s: Seq<char>, i: int)
    requires
        0 <= i < s.len(),
        !is_supported(font, s[i]),
        forall|j: int| 0 <= j < i ==> #[trigger] is_supported(font, s[j]),
    ensures
        first_unsupported(font, s) == Some(s[i]),
    decreases i,
{
    if i > 0 {
        let t = s.drop_first();
        assert(is_supported(font, s[0]));
        assert forall|j: int| 0 <= j < i - 1 implies #[trigger] is_supported(font, t[j]) by {
            assert(t[j] == s[j + 1]);
        }
        lemma_first_unsupported_at(font, t, i - 1);
    }
}

/// Every supported character, a space included, renders on its own to a canvas of
/// seven rows.
pub proof fn lemma_single_char_renders(c: char)
    requires
        is_supported(builtin_font(), c),
    ensures
        render(builtin_font(), seq![c]) is Ok,
        render(builtin_font(), seq![c])->Ok_0.len() == CANVAS_HEIGHT,
{
    let s = seq![c];
    assert(s.drop_first().len() == 0);
    assert(encode_utf8(s) == vstd::utf8::encode_scalar(c as u32) + encode_utf8(s.drop_first()));
    assert(first_unsupported(builtin_font(), s.drop_first()) is None);
    assert(s[0] == c);
}

/// A text longer than `MAX_TEXT_LEN` bytes is refused with its length, whatever it holds.
pub proof fn lemma_too_long_refused(text: Seq<char>)
    requires
        byte_len(text) > MAX_TEXT_LEN,
    ensures
        render(builtin_font(), text) == Err::<Rows, PixelArtError>(
            PixelArtError::TextTooLong(byte_len(text) as usize),
        ),
{
}

/// A text within the length limit that holds a character with no glyph, other than a
/// space, is refused with the first such character from the left.
pub proof fn lemma_first_unsupported_refused(text: Seq<char>, i: int)
    requires
        byte_len(text) <= MAX_TEXT_LEN,
        0 <= i < text.len(),
        !is_supported(builtin_font(), text[i]),
        forall|j: int| 0 <= j < i ==> #[trigger] is_supported(builtin_font(), text[j]),
    ensures
        render(builtin_font(), text) == Err::<Rows, PixelArtError>(
            PixelArtError::UnsupportedCharacter(text[i]),
        ),
{
    lemma_first_unsupported_at(builtin_font(), text, i);
}

/// Every row of a rendered canvas has the same width: the widths of the characters, one
/// spacer column between each two, and one padding column on each side.
pub proof fn lemma_rows_same_width(text: Seq<char>)
    requires
        render(builtin_font(), text) is Ok,
    ensures
        forall|r: int|
            0 <= r < render(builtin_font(), text)->Ok_0.len() ==> #[trigger] render(
                builtin_font(),
                text,
            )->Ok_0[r].len() == 2 + widths_sum(builtin_font(), text) + text.len() - 1,
        text.len() == 0 ==> render(builtin_font(), text)->Ok_0.len() == 0,
{
    let font = builtin_font();
    if text.len() > 0 {
        lemma_builtin_font_wf();
        lemma_all_supported(font, text);
        let rows = render(font, text)->Ok_0;
        assert forall|r: int| 0 <= r < rows.len() implies #[trigger] rows[r].len() == 2
            + widths_sum(font, text) + text.len() - 1 by {
            if 1 <= r <= GLYPH_HEIGHT {
                lemma_content_row_len(font, text, r - 1);
            }
        }
    }
}

/// Rendering depends on the text alone: two results for the same text are the same.
pub proof fn lemma_render_deterministic(
    text: Seq<char>,
    r1: Result<String, PixelArtError>,
    r2: Result<String, PixelArtError>,
)
    requires
        renders_as(builtin_font(), text, r1),
        renders_as(builtin_font(), text, r2),
    ensures
        r1 is Ok <==> r2 is Ok,
        r1 is Ok ==> r1->Ok_0@ == r2->Ok_0@,
        r1 is Err ==> r1->Err_0 == r2->Err_0,
{
}

} // verus!
