use gcode_processor::parser::{Command, GcodeParser, ParseError};

#[test]
fn parser_sanity() {
    // GIVEN
    let test_gcode_str = "G0 X1 Y2 J6.7 F10.1";

    // WHEN
    let instance = GcodeParser;

    // THEN
    let result = instance.parse(test_gcode_str);
    assert!(result.is_ok());
    let result = result.unwrap();
    assert_eq!(Command::RapidMove, result.command);
    assert_eq!(result.target_tokens.x, Some(1_000_000));
    assert_eq!(result.target_tokens.y, Some(2_000_000));
    assert_eq!(result.target_tokens.z, None);
    assert_eq!(result.rotation_center_tokens.y, Some(6_700_000));
    assert_eq!(result.speed, Some(10_100_000));
}

#[test]
fn rapid_move_with_three_axes() {
    let d = GcodeParser.parse("G00 X1.2 Y3.4 Z5.6").unwrap();
    assert_eq!(d.command, Command::RapidMove);
    assert_eq!(d.target_tokens.x, Some(1_200_000));
    assert_eq!(d.target_tokens.y, Some(3_400_000));
    assert_eq!(d.target_tokens.z, Some(5_600_000));
    assert_eq!(d.speed, None);
}

#[test]
fn linear_move_with_speed_and_no_z() {
    let d = GcodeParser.parse("G01 X1.2 Y3.4 F11.12").unwrap();
    assert_eq!(d.command, Command::LinearMove);
    assert_eq!(d.speed, Some(11_120_000));
    assert_eq!(d.target_tokens.z, None);
}

#[test]
fn command_spellings() {
    assert_eq!(GcodeParser::parse_cmd("G0").unwrap(), Command::RapidMove);
    assert_eq!(GcodeParser::parse_cmd("G00 X1").unwrap(), Command::RapidMove);
    assert_eq!(GcodeParser::parse_cmd("G1").unwrap(), Command::LinearMove);
    assert_eq!(GcodeParser::parse_cmd("  G01").unwrap(), Command::LinearMove);
    assert_eq!(GcodeParser::parse_cmd("G90").unwrap(), Command::SetAbsoluteMode);
    assert_eq!(GcodeParser::parse_cmd("G91").unwrap(), Command::SetRelativeMode);
}

#[test]
fn unknown_command() {
    match GcodeParser::parse_cmd("G03 X1") {
        Err(ParseError::UnknownCommand(w)) => assert_eq!(w, "G03"),
        other => panic!("unexpected: {:?}", other),
    }
}

#[test]
fn empty_line() {
    assert!(matches!(GcodeParser.parse(""), Err(ParseError::EmptyLine)));
    assert!(matches!(GcodeParser.parse(" \t "), Err(ParseError::EmptyLine)));
}

#[test]
fn invalid_field_value() {
    match GcodeParser.parse("G01 X1.5 Yabc") {
        Err(ParseError::InvalidFieldValue(c, t)) => {
            assert_eq!(c, 'Y');
            assert_eq!(t, "abc");
        }
        other => panic!("unexpected: {:?}", other),
    }
    assert!(matches!(GcodeParser.parse("G01 X"), Err(ParseError::InvalidFieldValue('X', _))));
    assert!(matches!(GcodeParser.parse("G01 X1.2.3"), Err(ParseError::InvalidFieldValue('X', _))));
}

#[test]
fn digits_beyond_millionths_are_truncated() {
    let d = GcodeParser.parse("G01 X0.1234567 Y-2.9999999").unwrap();
    assert_eq!(d.target_tokens.x, Some(123_456));
    assert_eq!(d.target_tokens.y, Some(-2_999_999));
}

#[test]
fn unicode_whitespace_separates_fields() {
    let d = GcodeParser.parse("G01\u{00A0}X1\u{3000}Y2\u{2003}F3").unwrap();
    assert_eq!(d.target_tokens.x, Some(1_000_000));
    assert_eq!(d.target_tokens.y, Some(2_000_000));
    assert_eq!(d.speed, Some(3_000_000));
}

#[test]
fn signs_and_points() {
    let d = GcodeParser.parse("G1 X-1.5 Y+2 Z.25 I3.").unwrap();
    assert_eq!(d.target_tokens.x, Some(-1_500_000));
    assert_eq!(d.target_tokens.y, Some(2_000_000));
    assert_eq!(d.target_tokens.z, Some(250_000));
    assert_eq!(d.rotation_center_tokens.x, Some(3_000_000));
}

#[test]
fn last_axis_value_and_first_speed_win() {
    let d = GcodeParser.parse("G1 X1 X2 F3 F4 N10").unwrap();
    assert_eq!(d.target_tokens.x, Some(2_000_000));
    assert_eq!(d.speed, Some(3_000_000));
}
