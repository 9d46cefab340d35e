//! Text sessions, encoding, and glyph commands.

use genpdf::error::ErrorKind;
use genpdf::fonts::{BuiltinFont, FontCache, Metrics, TextShaping};
use genpdf::render::{encode_win1252, Command, Page};
use genpdf::style::{Color, Style};
use genpdf::{Mm, Position, Size};

fn page_200x100() -> Page {
    Page::new(Size::new(Mm(200_000), Mm(100_000)))
}

fn metrics_mm(ascent: i64, line_height: i64, glyph_height: i64) -> Metrics {
    Metrics::new(Mm(ascent * 1000), Mm(line_height * 1000), Mm(glyph_height * 1000))
}

fn fonts_builtin_and_embedded() -> FontCache {
    let mut fc = FontCache::new();
    let b = fc.add_builtin_font(BuiltinFont::Helvetica);
    let e = fc.add_embedded_font(vec![0, 1, 2, 3]);
    assert_eq!(b, 0);
    assert_eq!(e, 1);
    fc
}

#[test]
fn encode_win1252_maps_ascii_to_single_bytes() {
    let encoded = encode_win1252("AB c").unwrap();
    assert_eq!(encoded, vec![65u16, 66, 32, 99]);
}

#[test]
fn encode_win1252_accepts_the_euro_sign() {
    // the euro sign has a Windows-1252 code even though it is not Latin-1
    let encoded = encode_win1252("\u{20ac}").unwrap();
    assert_eq!(encoded.len(), 1);
}

#[test]
fn encode_win1252_rejects_characters_outside_the_repertoire() {
    let err = encode_win1252("snow \u{2603}").unwrap_err();
    assert_eq!(err.kind(), ErrorKind::UnsupportedEncoding);
    assert!(err.message().contains("snow \u{2603}"));
    assert!(err.message().contains("Windows-1252"));
}

#[test]
fn print_str_with_builtin_font_rejects_unencodable_text() {
    let mut page = page_200x100();
    let area = page.first_layer().area();
    let fc = fonts_builtin_and_embedded();
    let style = Style::new(0, 12, None);
    let shaping = TextShaping::new(vec![0, 0], vec![], Mm(0));
    let err = area
        .print_str(
            &mut page,
            &fc,
            Position::new(Mm(0), Mm(0)),
            style,
            "\u{2603}\u{2603}",
            metrics_mm(3, 5, 4),
            &shaping,
        )
        .unwrap_err();
    assert_eq!(err.kind(), ErrorKind::UnsupportedEncoding);
    assert!(err.message().contains("\u{2603}\u{2603}"));

    // the session markers surround the failed print
    let cmds = page.get_layer_data(0).unwrap().commands();
    assert!(matches!(cmds[0], Command::BeginTextSection));
    assert!(matches!(cmds.last().unwrap(), Command::EndTextSection));
}

#[test]
fn print_str_with_embedded_font_accepts_the_same_text() {
    let mut page = page_200x100();
    let area = page.first_layer().area();
    let fc = fonts_builtin_and_embedded();
    let style = Style::new(1, 12, None);
    let shaping = TextShaping::new(vec![0, 0], vec![451, 451], Mm(0));
    let printed = area
        .print_str(
            &mut page,
            &fc,
            Position::new(Mm(0), Mm(0)),
            style,
            "\u{2603}\u{2603}",
            metrics_mm(3, 5, 4),
            &shaping,
        )
        .unwrap();
    assert!(printed);
    let cmds = page.get_layer_data(0).unwrap().commands();
    match &cmds[cmds.len() - 2] {
        Command::WritePositionedCodepoints {
            positions,
            codepoints,
        } => {
            assert_eq!(positions, &vec![0i64, 0]);
            assert_eq!(codepoints, &vec![451u16, 451]);
        }
        other => panic!("unexpected command: {:?}", other),
    }
}

#[test]
fn print_str_records_the_full_session() {
    let mut page = page_200x100();
    let area = page.first_layer().area();
    let fc = fonts_builtin_and_embedded();
    let style = Style::new(0, 11, Some(Color::Rgb(200, 0, 0)));
    // kerning in thousandths of an em; the left side bearing is one
    // millimeter
    let shaping = TextShaping::new(vec![5, -7], vec![], Mm(1_000));
    let printed = area
        .print_str(
            &mut page,
            &fc,
            Position::new(Mm(5_000), Mm(10_000)),
            style,
            "ab",
            metrics_mm(3, 5, 4),
            &shaping,
        )
        .unwrap();
    assert!(printed);

    let cmds = page.get_layer_data(0).unwrap().commands();
    assert_eq!(cmds.len(), 7);
    assert!(matches!(cmds[0], Command::BeginTextSection));
    assert!(matches!(cmds[1], Command::SetLineHeight(Mm(5_000))));
    // cursor: the origin (5, 10) shifted left by the bearing, the
    // baseline one ascent below the top, flipped into user space
    assert!(matches!(
        cmds[2],
        Command::SetTextCursor(Position {
            x: Mm(4_000),
            y: Mm(87_000)
        })
    ));
    assert!(matches!(
        cmds[3],
        Command::SetFillColor(Color::Rgb(200, 0, 0))
    ));
    assert!(matches!(cmds[4], Command::SetFont { font: 0, size: 11 }));
    match &cmds[5] {
        Command::WritePositionedCodepoints {
            positions,
            codepoints,
        } => {
            // the kerning adjustments are negated for the backend
            assert_eq!(positions, &vec![-5i64, 7]);
            assert_eq!(codepoints, &vec![97u16, 98]);
        }
        other => panic!("unexpected command: {:?}", other),
    }
    assert!(matches!(cmds[6], Command::EndTextSection));
}

#[test]
fn print_str_does_not_fit_reports_false() {
    let mut page = page_200x100();
    let area = page.first_layer().area();
    let fc = fonts_builtin_and_embedded();
    let style = Style::new(0, 11, None);
    let shaping = TextShaping::new(vec![], vec![], Mm(0));
    // the glyph height exceeds the remaining area height
    let printed = area
        .print_str(
            &mut page,
            &fc,
            Position::new(Mm(0), Mm(98_000)),
            style,
            "ab",
            metrics_mm(3, 5, 4),
            &shaping,
        )
        .unwrap();
    assert!(!printed);
    assert_eq!(page.get_layer_data(0).unwrap().commands().len(), 0);
}

#[test]
fn text_section_caches_the_font() {
    let mut page = page_200x100();
    let area = page.first_layer().area();
    let fc = fonts_builtin_and_embedded();
    let style = Style::new(0, 11, None);
    let shaping = TextShaping::new(vec![], vec![], Mm(0));
    let metrics = metrics_mm(3, 5, 4);
    let mut section = area
        .text_section(&mut page, Position::new(Mm(0), Mm(0)), metrics)
        .unwrap();
    section
        .print_str(&mut page, &fc, "one", style, &shaping)
        .unwrap();
    section
        .print_str(&mut page, &fc, "two", style, &shaping)
        .unwrap();
    let style2 = Style::new(0, 13, None);
    section
        .print_str(&mut page, &fc, "three", style2, &shaping)
        .unwrap();
    section.end(&mut page);

    let cmds = page.get_layer_data(0).unwrap().commands();
    let font_cmds: Vec<_> = cmds
        .iter()
        .filter(|c| matches!(c, Command::SetFont { .. }))
        .collect();
    // two distinct font sizes: exactly two font commands
    assert_eq!(font_cmds.len(), 2);
    assert!(matches!(font_cmds[0], Command::SetFont { font: 0, size: 11 }));
    assert!(matches!(font_cmds[1], Command::SetFont { font: 0, size: 13 }));
}

#[test]
fn add_newline_advances_until_the_area_is_full() {
    let mut page = page_200x100();
    let area = page.first_layer().area();
    // 12 millimeters of room, lines of 5 millimeters: the first line is
    // taken by the section itself, two more line breaks fit
    let metrics = metrics_mm(3, 5, 4);
    let mut section = area
        .text_section(&mut page, Position::new(Mm(0), Mm(88_000)), metrics)
        .unwrap();
    assert!(section.add_newline(&mut page));
    assert!(section.add_newline(&mut page));
    assert!(!section.add_newline(&mut page));
    section.end(&mut page);

    let cmds = page.get_layer_data(0).unwrap().commands();
    let breaks = cmds
        .iter()
        .filter(|c| matches!(c, Command::AddLineBreak))
        .count();
    assert_eq!(breaks, 2);
}

#[test]
fn text_section_requires_vertical_room() {
    let mut page = page_200x100();
    let area = page.first_layer().area();
    let metrics = metrics_mm(3, 5, 4);
    assert!(area
        .text_section(&mut page, Position::new(Mm(0), Mm(97_000)), metrics)
        .is_none());
    assert_eq!(page.get_layer_data(0).unwrap().commands().len(), 0);
}

#[test]
fn font_cache_reports_builtin_fonts() {
    let fc = fonts_builtin_and_embedded();
    assert_eq!(fc.font_count(), 2);
    assert!(fc.is_builtin(0));
    assert!(!fc.is_builtin(1));
    assert!(fc.get(0).is_some());
    assert!(fc.get(2).is_none());
}

#[test]
fn encode_win1252_uses_the_windows_1252_byte_values() {
    assert_eq!(encode_win1252("\u{e9}").unwrap(), vec![0xe9u16]);
    assert_eq!(encode_win1252("\u{df}").unwrap(), vec![0xdfu16]);
    assert_eq!(encode_win1252("").unwrap(), Vec::<u16>::new());
}
