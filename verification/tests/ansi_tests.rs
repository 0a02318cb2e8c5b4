use ttyrant::ansi::{AnsiCommand, AnsiParser, Color, Sgr};

#[test]
fn ansi_simple_text() {
    let mut parser = AnsiParser::new();
    let output = parser.parse(b"foobar");

    assert_eq!(
        output,
        vec![
            AnsiCommand::Print('f'),
            AnsiCommand::Print('o'),
            AnsiCommand::Print('o'),
            AnsiCommand::Print('b'),
            AnsiCommand::Print('a'),
            AnsiCommand::Print('r'),
        ]
    );
}

#[test]
fn ansi_cursor_movement() {
    let mut parser = AnsiParser::new();
    let output = parser.parse(
        b"\
        \x1B[1A\
        \x1B[2B\
        \x1B[3C\
        \x1B[4D",
    );

    assert_eq!(
        output,
        vec![
            AnsiCommand::CursorUp(1),
            AnsiCommand::CursorDown(2),
            AnsiCommand::CursorForward(3),
            AnsiCommand::CursorBackward(4),
        ]
    );
}

#[test]
fn colors() {
    let mut parser = AnsiParser::new();
    let output = parser.parse(
        b"\
        \x1B[31m\
        \x1B[38;5;123m\
        \x1B[38;2;1;12;123m\
        \x1B[39m\
        \x1B[41m\
        \x1B[48;5;123m\
        \x1B[48;2;1;12;123m\
        \x1B[49m\
        ",
    );

    assert_eq!(
        output,
        vec![
            AnsiCommand::Sgr(Sgr::ForegroundColor(Color::Indexed(1))),
            AnsiCommand::Sgr(Sgr::ForegroundColor(Color::Indexed(123))),
            AnsiCommand::Sgr(Sgr::ForegroundColor(Color::RGB(1, 12, 123))),
            AnsiCommand::Sgr(Sgr::ForegroundColor(Color::Default)),
            AnsiCommand::Sgr(Sgr::BackgroundColor(Color::Indexed(1))),
            AnsiCommand::Sgr(Sgr::BackgroundColor(Color::Indexed(123))),
            AnsiCommand::Sgr(Sgr::BackgroundColor(Color::RGB(1, 12, 123))),
            AnsiCommand::Sgr(Sgr::BackgroundColor(Color::Default)),
        ]
    );
}

#[test]
fn zero_count_clamps_to_default() {
    let mut parser = AnsiParser::new();
    assert_eq!(parser.parse(b"\x1B[1A"), vec![AnsiCommand::CursorUp(1)]);
    assert_eq!(parser.parse(b"\x1B[0A"), vec![AnsiCommand::CursorUp(1)]);
    assert_eq!(parser.parse(b"\x1B[5B"), vec![AnsiCommand::CursorDown(5)]);
}

#[test]
fn cursor_position_defaults() {
    let mut parser = AnsiParser::new();
    assert_eq!(
        parser.parse(b"\x1B[10;20H"),
        vec![AnsiCommand::CursorPosition(10, 20)]
    );
    assert_eq!(
        parser.parse(b"\x1B[H"),
        vec![AnsiCommand::CursorPosition(1, 1)]
    );
    assert_eq!(
        parser.parse(b"\x1B[7;9f"),
        vec![AnsiCommand::CursorPosition(7, 9)]
    );
}

#[test]
fn erase_defaults() {
    let mut parser = AnsiParser::new();
    assert_eq!(parser.parse(b"\x1B[2J"), vec![AnsiCommand::EraseInDisplay(2)]);
    assert_eq!(parser.parse(b"\x1B[J"), vec![AnsiCommand::EraseInDisplay(0)]);
    assert_eq!(parser.parse(b"\x1B[1K"), vec![AnsiCommand::EraseInLine(1)]);
    assert_eq!(parser.parse(b"\x1B[K"), vec![AnsiCommand::EraseInLine(0)]);
}

#[test]
fn sgr_multiple_codes() {
    // One command per recognized code, in sequence order.
    let mut parser = AnsiParser::new();
    let output = parser.parse(b"\x1B[1;31m");
    assert_eq!(
        output,
        vec![
            AnsiCommand::Sgr(Sgr::Bold),
            AnsiCommand::Sgr(Sgr::ForegroundColor(Color::Indexed(1))),
        ]
    );
}

#[test]
fn sgr_empty_resets() {
    let mut parser = AnsiParser::new();
    assert_eq!(parser.parse(b"\x1B[m"), vec![AnsiCommand::Sgr(Sgr::Reset)]);
}

#[test]
fn sgr_extended_colors() {
    let mut parser = AnsiParser::new();
    assert_eq!(
        parser.parse(b"\x1B[38;5;123m"),
        vec![AnsiCommand::Sgr(Sgr::ForegroundColor(Color::Indexed(123)))]
    );
    assert_eq!(
        parser.parse(b"\x1B[38;2;1;12;123m"),
        vec![AnsiCommand::Sgr(Sgr::ForegroundColor(Color::RGB(1, 12, 123)))]
    );
    assert_eq!(
        parser.parse(b"\x1B[58;5;9m"),
        vec![AnsiCommand::Sgr(Sgr::UnderlineColor(Color::Indexed(9)))]
    );
}

#[test]
fn sgr_malformed_color_skipped() {
    let mut parser = AnsiParser::new();
    // An unknown selector consumes itself; scanning continues at the next
    // code.
    assert_eq!(
        parser.parse(b"\x1B[38;6;31m"),
        vec![AnsiCommand::Sgr(Sgr::ForegroundColor(Color::Indexed(1)))]
    );
    // A truncated directive yields nothing, but only for itself.
    assert_eq!(parser.parse(b"\x1B[38;5m"), vec![]);
    assert_eq!(
        parser.parse(b"\x1B[38;2;1;2m\x1B[1m"),
        vec![AnsiCommand::Sgr(Sgr::Bold)]
    );
}

#[test]
fn sgr_absent_fields_skipped() {
    let mut parser = AnsiParser::new();
    // An empty field between separators carries no code.
    assert_eq!(
        parser.parse(b"\x1B[;31m"),
        vec![AnsiCommand::Sgr(Sgr::ForegroundColor(Color::Indexed(1)))]
    );
}

#[test]
fn unsupported_final_byte_ignored() {
    let mut parser = AnsiParser::new();
    assert_eq!(parser.parse(b"\x1B[5x"), vec![]);
    // The parser resynchronizes: the next input is handled normally.
    assert_eq!(parser.parse(b"A"), vec![AnsiCommand::Print('A')]);
}
