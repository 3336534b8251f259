use pixel_text::{text_to_pixel_art, CharacterPattern, PixelArtError, PixelFont};

#[test]
fn test_character_pattern_creation() {
    let pattern = CharacterPattern::new(&[
        &[1, 0, 1],
        &[0, 1, 0],
        &[1, 0, 1],
        &[0, 1, 0],
        &[1, 0, 1],
    ]);

    assert_eq!(pattern.width, 3);
    assert_eq!(pattern.pixels.len(), 5);
    assert_eq!(pattern.pixels[0], vec![1, 0, 1]);
}

#[test]
fn test_font_creation() {
    let font = PixelFont::new();

    assert!(font.get_pattern('A').is_some());
    assert!(font.get_pattern('a').is_some());
    assert!(font.get_pattern('0').is_some());
    assert!(font.get_pattern('@').is_some());

    assert!(font.get_pattern('ñ').is_none());
}

#[test]
fn test_empty_string() {
    let result = text_to_pixel_art("").unwrap();
    assert_eq!(result, "");
}

#[test]
fn test_unsupported_character() {
    let result = text_to_pixel_art("ñ");
    assert!(matches!(result, Err(PixelArtError::UnsupportedCharacter('ñ'))));
}

#[test]
fn test_supported_characters() {
    let font = PixelFont::new();
    let supported = font.supported_characters();

    assert!(supported.contains(&'A'));
    assert!(supported.contains(&'a'));
    assert!(supported.contains(&'0'));
    assert!(supported.contains(&'@'));
    assert!(supported.contains(&'!'));

    let mut sorted_supported = supported.clone();
    sorted_supported.sort();
    assert_eq!(supported, sorted_supported);
}

#[test]
fn test_all_uppercase_letters() {
    for ch in 'A'..='Z' {
        let result = text_to_pixel_art(&ch.to_string());
        assert!(result.is_ok(), "Failed to convert character: {}", ch);
    }
}

#[test]
fn test_all_lowercase_letters() {
    for ch in 'a'..='z' {
        let result = text_to_pixel_art(&ch.to_string());
        assert!(result.is_ok(), "Failed to convert character: {}", ch);
    }
}

#[test]
fn test_all_numbers() {
    for ch in '0'..='9' {
        let result = text_to_pixel_art(&ch.to_string());
        assert!(result.is_ok(), "Failed to convert number: {}", ch);
    }
}

#[test]
fn test_all_symbols() {
    let symbols = "@#$%^&*()-_=+?./|:;,<>[]{}~\"'`!";
    for ch in symbols.chars() {
        let result = text_to_pixel_art(&ch.to_string());
        assert!(result.is_ok(), "Failed to convert symbol: {}", ch);
    }
}

#[test]
fn test_long_text() {
    let result = text_to_pixel_art("Hello World!");
    assert!(result.is_ok());

    let output = result.unwrap();
    let lines: Vec<&str> = output.trim().split('\n').collect();
    assert_eq!(lines.len(), 7);

    let first_line_len = lines[0].len();
    for line in &lines {
        assert_eq!(line.len(), first_line_len);
    }
}
