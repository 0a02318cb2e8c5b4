use ttyrant::vt::{Action, VTParser};

fn parse_bytes(bytes: &[u8]) -> Vec<Action> {
    let mut parser = VTParser::default();
    let mut actions = Vec::new();

    for &byte in bytes {
        let action = parser.parse_byte(byte);
        if action != Action::Nothing {
            actions.push(action);
        }
    }

    actions
}

#[test]
fn vt_simple_text() {
    let actions = parse_bytes(b"Hello");
    assert_eq!(
        actions,
        vec![
            Action::Print('H'),
            Action::Print('e'),
            Action::Print('l'),
            Action::Print('l'),
            Action::Print('o'),
        ]
    );
}

#[test]
fn control_characters() {
    let actions = parse_bytes(b"Hello\x07World\x08");
    assert_eq!(
        actions,
        vec![
            Action::Print('H'),
            Action::Print('e'),
            Action::Print('l'),
            Action::Print('l'),
            Action::Print('o'),
            Action::Execute(0x07), // Bell
            Action::Print('W'),
            Action::Print('o'),
            Action::Print('r'),
            Action::Print('l'),
            Action::Print('d'),
            Action::Execute(0x08), // Backspace
        ]
    );
}

#[test]
fn vt_cursor_movement() {
    let tests = vec![
        (
            b"\x1B[A".to_vec(),
            vec![Action::CsiDispatch(b'A', vec![])],
            "cursor up default",
        ),
        (
            b"\x1B[5B".to_vec(),
            vec![Action::CsiDispatch(b'B', vec![Some(5)])],
            "cursor down with value",
        ),
        (
            b"\x1B[;C".to_vec(),
            vec![Action::CsiDispatch(b'C', vec![None, None])],
            "cursor right empty param",
        ),
        (
            b"\x1B[10;20H".to_vec(),
            vec![Action::CsiDispatch(b'H', vec![Some(10), Some(20)])],
            "cursor position",
        ),
    ];

    for (input, expected, message) in tests {
        assert_eq!(parse_bytes(&input), expected, "{}", message);
    }
}

#[test]
fn sgr_colors() {
    let tests = vec![
        (
            b"\x1B[31m".to_vec(),
            vec![Action::CsiDispatch(b'm', vec![Some(31)])],
            "basic foreground color",
        ),
        (
            b"\x1B[46m".to_vec(),
            vec![Action::CsiDispatch(b'm', vec![Some(46)])],
            "basic background color",
        ),
        (
            b"\x1B[38;5;123m".to_vec(),
            vec![Action::CsiDispatch(b'm', vec![Some(38), Some(5), Some(123)])],
            "256 color foreground",
        ),
        (
            b"\x1B[48;2;255;128;0m".to_vec(),
            vec![Action::CsiDispatch(
                b'm',
                vec![Some(48), Some(2), Some(255), Some(128), Some(0)],
            )],
            "RGB background color",
        ),
    ];

    for (input, expected, message) in tests {
        assert_eq!(parse_bytes(&input), expected, "{}", message);
    }
}

#[test]
fn partial_sequences() {
    let mut parser = VTParser::default();
    let mut actions = Vec::new();

    // Feed the sequence byte by byte.
    for &byte in b"\x1B[31m" {
        let action = parser.parse_byte(byte);
        if action != Action::Nothing {
            actions.push(action);
        }
    }

    assert_eq!(actions, vec![Action::CsiDispatch(b'm', vec![Some(31)])]);
}

#[test]
fn invalid_sequences() {
    let tests = vec![
        (
            b"\x1B[1;2;3x".to_vec(), // Invalid final byte
            "invalid final byte",
        ),
        (
            b"\x1B[1;\x1B[2m".to_vec(), // Interrupted sequence
            "interrupted sequence",
        ),
        (
            b"\x1B[a1m".to_vec(), // Invalid parameter
            "invalid parameter",
        ),
    ];

    for (input, message) in tests {
        let actions = parse_bytes(&input);
        // Should not panic and should return to ground state.
        assert!(actions.len() > 0, "{}", message);
    }
}

#[test]
fn mixed_content() {
    let input = b"Hello\x1B[31mWorld\x1B[0m!";
    let actions = parse_bytes(input);

    let expected = vec![
        Action::Print('H'),
        Action::Print('e'),
        Action::Print('l'),
        Action::Print('l'),
        Action::Print('o'),
        Action::CsiDispatch(b'm', vec![Some(31)]),
        Action::Print('W'),
        Action::Print('o'),
        Action::Print('r'),
        Action::Print('l'),
        Action::Print('d'),
        Action::CsiDispatch(b'm', vec![Some(0)]),
        Action::Print('!'),
    ];

    assert_eq!(actions, expected);
}

#[test]
fn parameter_limits() {
    // Test parameter number limits.
    let mut large_params = Vec::new();
    large_params.extend(b"\x1B[");
    for i in 1..=20 {
        large_params.extend(i.to_string().bytes());
        large_params.push(b';');
    }
    large_params.push(b'm');

    let actions = parse_bytes(&large_params);
    assert_eq!(actions.len(), 1, "should handle many parameters");

    if let Action::CsiDispatch(b'm', params) = &actions[0] {
        assert!(params.len() <= 16, "should limit number of parameters");
    } else {
        panic!("unexpected action");
    }
}

#[test]
fn parameter_values() {
    let tests = vec![
        (
            b"\x1B[123456789m".to_vec(),
            vec![Action::CsiDispatch(b'm', vec![Some(123456789)])],
            "large parameter value",
        ),
        (
            b"\x1B[0m".to_vec(),
            vec![Action::CsiDispatch(b'm', vec![Some(0)])],
            "zero parameter",
        ),
        (
            b"\x1B[m".to_vec(),
            vec![Action::CsiDispatch(b'm', vec![])],
            "no parameter",
        ),
    ];

    for (input, expected, message) in tests {
        assert_eq!(parse_bytes(&input), expected, "{}", message);
    }
}

#[test]
fn stress() {
    // Create a large input with mixed content.
    let mut large_input = Vec::new();
    for _ in 0..1000 {
        large_input.extend(b"Hello\x1B[31mWorld\x1B[0m!");
    }

    // Should not panic and should process all input.
    let actions = parse_bytes(&large_input);
    assert!(actions.len() > 0, "should process large input");
}

#[test]
fn oversized_parameter_saturates() {
    // A parameter too large for its field saturates instead of wrapping.
    let actions = parse_bytes(b"\x1B[99999999999m");
    assert_eq!(actions, vec![Action::CsiDispatch(b'm', vec![Some(i32::MAX)])]);
}
