use osix_firmware::error::AppError;
use osix_firmware::gcode::commands::{
    axis_selector_from_command, classify_command, triggered_label, AxisSelector, CommandKind,
    EndstopStates, FirmwareInfo,
};
use osix_firmware::gcode::parser::{compute_checksum, parse_line, strip_comments, GcodeCommand};

/// Numeric value of a parameter: a flag without a value reads as zero.
fn number(cmd: &GcodeCommand, letter: char) -> Option<f32> {
    cmd.value_text(letter).map(|t| if t.is_empty() { 0.0 } else { t.parse::<f32>().unwrap() })
}

#[test]
fn parses_simple_move_command() {
    let cmd = parse_line("G1 X10.5 Y-3 F1500").unwrap().unwrap();
    assert_eq!(cmd.letter, 'G');
    assert_eq!(cmd.code, 1);
    assert_eq!(number(&cmd, 'X'), Some(10.5));
    assert_eq!(number(&cmd, 'Y'), Some(-3.0));
    assert_eq!(number(&cmd, 'F'), Some(1500.0));
}

#[test]
fn parses_line_number_prefix() {
    let cmd = parse_line("N42 G28").unwrap().unwrap();
    assert_eq!(cmd.line_number, Some(42));
    assert_eq!(cmd.letter, 'G');
    assert_eq!(cmd.code, 28);
}

#[test]
fn strips_semicolon_and_parenthesis_comments() {
    let cmd = parse_line("G1 X10 ; move to X10").unwrap().unwrap();
    assert_eq!(number(&cmd, 'X'), Some(10.0));

    let cmd2 = parse_line("G1 (comment) X20 (another)").unwrap().unwrap();
    assert_eq!(number(&cmd2, 'X'), Some(20.0));
}

#[test]
fn comment_only_line_returns_none() {
    assert!(parse_line("; just a comment").unwrap().is_none());
    assert!(parse_line("   ").unwrap().is_none());
}

#[test]
fn flag_style_parameter_without_value_defaults_to_zero() {
    let cmd = parse_line("G28 X Y").unwrap().unwrap();
    assert!(cmd.has('X'));
    assert!(cmd.has('Y'));
    assert!(!cmd.has('Z'));
    assert_eq!(number(&cmd, 'X'), Some(0.0));
}

#[test]
fn valid_checksum_is_accepted() {
    let body = "N3 G1 X10 Y20";
    let checksum = compute_checksum(body);
    let line = format!("{body}*{checksum}");
    let cmd = parse_line(&line).unwrap().unwrap();
    assert_eq!(cmd.line_number, Some(3));
}

#[test]
fn invalid_checksum_is_rejected() {
    let line = "N3 G1 X10 Y20*1";
    assert!(parse_line(line).is_err());
}

#[test]
fn unknown_command_letter_is_rejected() {
    assert!(parse_line("T0").is_err());
}

#[test]
fn checksum_is_xor_of_bytes() {
    assert_eq!(compute_checksum("N3 G1 X10 Y20"), 41);
    assert_eq!(compute_checksum(""), 0);
}

#[test]
fn checksum_mismatch_reports_line_and_values() {
    match parse_line("N3 G1 X10 Y20*1") {
        Err(AppError::GCode { line, reason }) => {
            // The checksum is checked before the line number is read.
            assert_eq!(line, 0);
            assert_eq!(reason, "несовпадение контрольной суммы (ожидалось 1, вычислено 41)");
        }
        other => panic!("unexpected {other:?}"),
    }
}

#[test]
fn later_parameter_wins_and_lower_case_is_accepted() {
    let cmd = parse_line("g1 x1 X2").unwrap().unwrap();
    assert_eq!(cmd.letter, 'G');
    assert_eq!(number(&cmd, 'X'), Some(2.0));
}

#[test]
fn bad_code_and_bad_parameter_are_rejected() {
    assert!(parse_line("G").is_err());
    assert!(parse_line("Gx").is_err());
    assert!(parse_line("G1 X1.2.3").is_err());
    // Any character can name a parameter; a bare one is a flag.
    assert!(parse_line("G1 1").unwrap().unwrap().has('1'));
}

#[test]
fn strip_comments_removes_both_styles() {
    assert_eq!(strip_comments("G1 X10 ; move"), "G1 X10 ");
    assert_eq!(strip_comments("G1 (a) X2 (b)"), "G1  X2 ");
}

#[test]
fn axis_selector_defaults_to_all_when_none_specified() {
    let command = parse_line("G28").unwrap().unwrap();
    let selector = axis_selector_from_command(&command);
    assert_eq!(selector, AxisSelector::all());
}

#[test]
fn axis_selector_respects_explicit_axes() {
    let command = parse_line("G28 X Z").unwrap().unwrap();
    let selector = axis_selector_from_command(&command);
    assert!(selector.x);
    assert!(!selector.y);
    assert!(selector.z);
}

#[test]
fn axis_selector_reports_any_selected() {
    assert!(AxisSelector::all().any_selected());
    assert!(!AxisSelector::default().any_selected());
}

#[test]
fn commands_are_classified() {
    let c = parse_line("G1 X1").unwrap().unwrap();
    assert_eq!(classify_command(&c).unwrap(), CommandKind::LinearMove);
    let c = parse_line("M105").unwrap().unwrap();
    assert_eq!(classify_command(&c).unwrap(), CommandKind::ReportTemperatures);
}

#[test]
fn unsupported_command_is_a_gcode_error() {
    let c = parse_line("N7 G17").unwrap().unwrap();
    match classify_command(&c) {
        Err(AppError::GCode { line, reason }) => {
            assert_eq!(line, 7);
            assert_eq!(reason, "неподдерживаемая команда G17");
        }
        other => panic!("unexpected {other:?}"),
    }
}

#[test]
fn firmware_and_endstop_reports() {
    let info = FirmwareInfo {
        firmware_name: "OSIX Firmware",
        firmware_version: "0.1.0",
        kinematics_name: "cartesian",
        extruder_count: 1,
    };
    assert!(info.to_report_string().contains("FIRMWARE_NAME:OSIX"));
    let states = EndstopStates { x_triggered: true, y_triggered: false, z_triggered: false };
    let report = states.to_report_string();
    assert!(report.contains("x_min: TRIGGERED"));
    assert!(report.contains("y_min: open"));
    assert_eq!(triggered_label(true), "TRIGGERED");
    assert_eq!(triggered_label(false), "open");
}
