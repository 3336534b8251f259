use pixel_text::{text_to_pixel_art, PixelArtError, PixelFont};

fn lines(s: &str) -> Vec<String> {
    s.lines().map(|l| l.to_string()).collect()
}

#[test]
fn single_letter_is_framed_by_blank_pixels() {
    let out = text_to_pixel_art("A").unwrap();
    assert_eq!(out, "000000\n001100\n010010\n011110\n010010\n010010\n000000\n");
}

#[test]
fn two_glyphs_are_separated_by_one_blank_column() {
    // 'i' is one column wide and 'l' two: 2 + 1 + 2 + 1 columns.
    let out = text_to_pixel_art("il").unwrap();
    assert_eq!(out, "000000\n010100\n000100\n010100\n010100\n010110\n000000\n");
}

#[test]
fn two_letters_exact_canvas() {
    let out = text_to_pixel_art("Hi").unwrap();
    assert_eq!(out, "00000000\n01001010\n01001000\n01111010\n01001010\n01001010\n00000000\n");
}

#[test]
fn space_is_a_blank_gap_two_columns_wide() {
    let out = text_to_pixel_art(" ").unwrap();
    assert_eq!(out, "0000\n0000\n0000\n0000\n0000\n0000\n0000\n");
    let out = text_to_pixel_art("a b").unwrap();
    assert_eq!(
        out,
        "000000000000\n000000001000\n001100001000\n010100001100\n010100001010\n001100001100\n000000000000\n"
    );
}

#[test]
fn every_glyph_is_copied_bit_for_bit() {
    let font = PixelFont::new();
    for ch in font.supported_characters() {
        let p = font.get_pattern(ch).unwrap();
        let out = text_to_pixel_art(&ch.to_string()).unwrap();
        let rows = lines(&out);
        assert_eq!(rows.len(), 7);
        assert_eq!(rows[0], "0".repeat(p.width + 2));
        assert_eq!(rows[6], "0".repeat(p.width + 2));
        for r in 0..5 {
            let mut expected = String::from("0");
            for &b in &p.pixels[r] {
                expected.push(if b == 1 { '1' } else { '0' });
            }
            expected.push('0');
            assert_eq!(rows[r + 1], expected);
        }
    }
}

#[test]
fn every_row_has_the_computed_width() {
    let font = PixelFont::new();
    let text = "Hello World!";
    let mut widths = 0;
    for ch in text.chars() {
        widths += if ch == ' ' { 2 } else { font.get_pattern(ch).unwrap().width };
    }
    let expected = 2 + widths + text.chars().count() - 1;
    let out = text_to_pixel_art(text).unwrap();
    let rows = lines(&out);
    assert_eq!(rows.len(), 7);
    for row in &rows {
        assert_eq!(row.len(), expected);
    }
}

#[test]
fn text_over_the_limit_is_refused_with_its_length() {
    let text = "a".repeat(1001);
    assert_eq!(text_to_pixel_art(&text), Err(PixelArtError::TextTooLong(1001)));
}

#[test]
fn text_at_the_limit_is_rendered() {
    let text = "a".repeat(1000);
    let out = text_to_pixel_art(&text).unwrap();
    let rows = lines(&out);
    assert_eq!(rows.len(), 7);
    assert_eq!(rows[0].len(), 2 + 1000 * 3 + 999);
}

#[test]
fn length_is_counted_in_bytes_and_checked_first() {
    // 501 characters of two bytes each, none of them in the font.
    let text = "ñ".repeat(501);
    assert_eq!(text_to_pixel_art(&text), Err(PixelArtError::TextTooLong(1002)));
}

#[test]
fn first_unsupported_character_is_reported() {
    assert_eq!(
        text_to_pixel_art("Hello ñ€"),
        Err(PixelArtError::UnsupportedCharacter('ñ'))
    );
    assert_eq!(
        text_to_pixel_art("ab\tc"),
        Err(PixelArtError::UnsupportedCharacter('\t'))
    );
}

#[test]
fn punctuation_of_the_font_is_accepted() {
    assert!(text_to_pixel_art("Hello!").is_ok());
}

#[test]
fn rendering_twice_gives_the_same_output() {
    let a = text_to_pixel_art("Pixel art 42!");
    let b = text_to_pixel_art("Pixel art 42!");
    assert_eq!(a, b);
    assert!(a.is_ok());
}

#[test]
fn font_covers_letters_digits_and_symbols_but_not_space() {
    let font = PixelFont::new();
    let supported = font.supported_characters();
    assert_eq!(supported.len(), 93);
    assert!(font.contains('Z'));
    assert!(font.contains('~'));
    assert!(!font.contains(' '));
    assert!(!font.contains('é'));
    for w in supported.windows(2) {
        assert!(w[0] < w[1]);
    }
}

#[test]
fn default_font_is_the_built_in_font() {
    let a = PixelFont::default().supported_characters();
    let b = PixelFont::new().supported_characters();
    assert_eq!(a, b);
}

#[test]
fn glyph_widths_vary() {
    let font = PixelFont::new();
    assert_eq!(font.get_pattern('A').unwrap().width, 4);
    assert_eq!(font.get_pattern('I').unwrap().width, 1);
    assert_eq!(font.get_pattern('M').unwrap().width, 5);
    assert_eq!(font.get_pattern('l').unwrap().width, 2);
}

#[test]
fn error_messages_name_the_cause() {
    assert_eq!(
        PixelArtError::TextTooLong(1001).message(),
        "Text too long: 1001 characters (max: 1000)"
    );
    assert_eq!(
        PixelArtError::UnsupportedCharacter('ñ').message(),
        "Unsupported character: 'ñ'"
    );
}
