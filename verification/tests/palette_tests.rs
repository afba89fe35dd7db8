use par_fractal::palettes::{parse_pal_content, PalContent, PalEntry, PalError};

fn jasc(c: PalContent) -> Vec<(u8, u8, u8)> {
    match c {
        PalContent::Jasc(v) => v,
        PalContent::Plain(_) => panic!("expected a JASC-PAL palette"),
    }
}

fn plain(c: PalContent) -> Vec<PalEntry> {
    match c {
        PalContent::Plain(v) => v,
        PalContent::Jasc(_) => panic!("expected a plain palette"),
    }
}

fn text(v: &[char]) -> String {
    v.iter().collect()
}

#[test]
fn jasc_palette_reads_color_lines() {
    let c = parse_pal_content("JASC-PAL\r\n0100\r\n3\r\n255 0 0\r\n0 255 0\r\n\r\n  0 0 255  \r\n").unwrap();
    assert_eq!(jasc(c), vec![(255, 0, 0), (0, 255, 0), (0, 0, 255)]);
}

#[test]
fn jasc_palette_skips_short_lines_and_ignores_extra_words() {
    let c = parse_pal_content("JASC-PAL\n0100\n2\n1 2\n10 20 30 40\n+5 6 7\n").unwrap();
    assert_eq!(jasc(c), vec![(10, 20, 30), (5, 6, 7)]);
}

#[test]
fn jasc_palette_errors() {
    assert_eq!(parse_pal_content("JASC-PAL\n0100\n").err(), Some(PalError::TooFewLines));
    assert_eq!(parse_pal_content("JASC-PAL\n0100\nmany\n1 2 3\n4 5 6\n").err(), Some(PalError::InvalidColorCount));
    assert_eq!(parse_pal_content("JASC-PAL\n0100\n-3\n1 2 3\n4 5 6\n").err(), Some(PalError::InvalidColorCount));
    assert_eq!(parse_pal_content("JASC-PAL\n0100\n1\n1 2 3\n4 5 6\n").err(), Some(PalError::TooFewColors));
    assert_eq!(parse_pal_content("JASC-PAL\n0100\n2\n256 2 3\n4 5 6\n").err(), Some(PalError::InvalidRed));
    assert_eq!(parse_pal_content("JASC-PAL\n0100\n2\n1 x 3\n4 5 6\n").err(), Some(PalError::InvalidGreen));
    assert_eq!(parse_pal_content("JASC-PAL\n0100\n2\n1 2 3\n4 5 0.5\n").err(), Some(PalError::InvalidBlue));
    assert_eq!(parse_pal_content("JASC-PAL\n0100\n2\n1 2 3\n").err(), Some(PalError::TooFewValidColors));
    // The first refused line decides the error.
    assert_eq!(parse_pal_content("JASC-PAL\n0100\n2\n1 x 3\nx 5 6\n").err(), Some(PalError::InvalidGreen));
}

#[test]
fn plain_palette_reads_bytes_and_keeps_other_fields() {
    let c = parse_pal_content("255,0,0\n\n0.5 0.25, 1.0\nred green\n0 128 255 # comment\n").unwrap();
    let entries = plain(c);
    assert_eq!(entries.len(), 3);
    match &entries[0] {
        PalEntry::Bytes(r, g, b) => assert_eq!((*r, *g, *b), (255, 0, 0)),
        PalEntry::Decimal(..) => panic!("expected bytes"),
    }
    match &entries[1] {
        PalEntry::Decimal(r, g, b) => {
            assert_eq!((text(r).as_str(), text(g).as_str(), text(b).as_str()), ("0.5", "0.25", "1.0"));
        },
        PalEntry::Bytes(..) => panic!("expected decimal fields"),
    }
    match &entries[2] {
        PalEntry::Bytes(r, g, b) => assert_eq!((*r, *g, *b), (0, 128, 255)),
        PalEntry::Decimal(..) => panic!("expected bytes"),
    }
}

#[test]
fn header_must_be_the_first_line_exactly() {
    // Leading blank lines and surrounding white space do not matter.
    assert!(matches!(parse_pal_content("\n  JASC-PAL \n0100\n2\n1 2 3\n4 5 6\n"), Ok(PalContent::Jasc(_))));
    // Any other first line means plain text.
    assert!(matches!(parse_pal_content("jasc-pal\n0100\n2\n1 2 3\n"), Ok(PalContent::Plain(_))));
    assert!(matches!(parse_pal_content(""), Ok(PalContent::Plain(v)) if v.is_empty()));
}

#[test]
fn pal_error_messages() {
    assert_eq!(PalError::TooFewLines.message(), "Invalid JASC-PAL file: too few lines");
    assert_eq!(PalError::InvalidColorCount.message(), "Invalid color count");
    assert_eq!(PalError::TooFewColors.message(), "Need at least 2 colors");
    assert_eq!(PalError::InvalidRed.message(), "Invalid R value");
    assert_eq!(PalError::TooFewValidColors.message(), "Need at least 2 valid colors");
    assert_eq!(
        PalError::TooFewRgbColors.message(),
        "Need at least 2 valid RGB colors (format: R G B per line, 0-255 or 0.0-1.0)"
    );
}
