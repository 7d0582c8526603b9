use printhor::gcode::{GCode, Real, XYZEFS};
use printhor::parser::{GCodeLineParser, GCodeLineParserError, ParserState};

fn feed_all(p: &mut GCodeLineParser, text: &str) -> Vec<Result<GCode, GCodeLineParserError>> {
    let mut out = Vec::new();
    for b in text.bytes() {
        if let Some(r) = p.feed(b) {
            out.push(r);
        }
    }
    out
}

fn dec(m: i64, s: u32) -> Option<Real> {
    Some(Real::from_lit(m, s))
}

#[test]
fn linear_move_parses_with_unset_fields() {
    let mut p = GCodeLineParser::new();
    let out = feed_all(&mut p, "G1 X10 Y5\n");
    assert_eq!(out.len(), 1);
    match &out[0] {
        Ok(GCode::G1(m)) => {
            assert_eq!(m.x, dec(10, 0));
            assert_eq!(m.y, dec(5, 0));
            assert_eq!(m.z, None);
            assert_eq!(m.e, None);
            assert_eq!(m.f, None);
            assert_eq!(m.s, None);
            assert_eq!(m.ln, None);
        }
        other => panic!("unexpected {:?}", other),
    }
    assert_eq!(p.get_line(), 1);
    assert_eq!(p.get_state(), ParserState::Idle);
}

#[test]
fn decimals_signs_and_sub_codes() {
    let mut p = GCodeLineParser::new();
    let out = feed_all(&mut p, "G0 X-1.25 F+300 Z.5\nG29.1\nM862.3\n");
    assert_eq!(out.len(), 3);
    match &out[0] {
        Ok(GCode::G0(m)) => {
            assert_eq!(m.x, dec(-125, 2));
            assert_eq!(m.f, dec(300, 0));
            assert_eq!(m.z, dec(5, 1));
            assert_eq!(m.y, None);
        }
        other => panic!("unexpected {:?}", other),
    }
    assert!(matches!(out[1], Ok(GCode::G29_1)));
    assert!(matches!(out[2], Ok(GCode::M862_3)));
}

#[test]
fn bare_letters_and_scalar_payloads() {
    let mut p = GCodeLineParser::new();
    let out = feed_all(&mut p, "G\nM\nM104 S200\nM140\n");
    assert!(matches!(out[0], Ok(GCode::G)));
    assert!(matches!(out[1], Ok(GCode::M)));
    match &out[2] {
        Ok(GCode::M104(s)) => assert_eq!(s.s, dec(200, 0)),
        other => panic!("unexpected {:?}", other),
    }
    match &out[3] {
        Ok(GCode::M140(s)) => assert_eq!(s.s, None),
        other => panic!("unexpected {:?}", other),
    }
}

#[test]
fn home_takes_axes() {
    let mut p = GCodeLineParser::new();
    let out = feed_all(&mut p, "G28 X0 W2\n");
    match &out[0] {
        Ok(GCode::G28(h)) => {
            assert_eq!(h.x, dec(0, 0));
            assert_eq!(h.w, dec(2, 0));
            assert_eq!(h.y, None);
        }
        other => panic!("unexpected {:?}", other),
    }
}

#[test]
fn file_name_argument_is_kept() {
    let mut p = GCodeLineParser::new();
    let out = feed_all(&mut p, "M23 part.gco\nM20\n");
    match &out[0] {
        Ok(GCode::M23(name)) => assert_eq!(name.as_deref(), Some("part.gco")),
        other => panic!("unexpected {:?}", other),
    }
    match &out[1] {
        Ok(GCode::M20(name)) => assert_eq!(name, &None),
        other => panic!("unexpected {:?}", other),
    }
}

#[test]
fn blank_and_comment_lines_yield_nothing_but_count() {
    let mut p = GCodeLineParser::new();
    let out = feed_all(&mut p, "\n   \r\n; only a comment\n");
    assert!(out.is_empty());
    assert_eq!(p.get_line(), 3);
}

#[test]
fn comment_after_command_is_dropped() {
    let mut p = GCodeLineParser::new();
    let out = feed_all(&mut p, "M400 ; wait\n");
    assert!(matches!(out[0], Ok(GCode::M400)));
}

#[test]
fn malformed_then_good_line() {
    let mut p = GCodeLineParser::new();
    let out = feed_all(&mut p, "G1 X1..2\nG1 X3\n");
    assert_eq!(out.len(), 2);
    assert_eq!(out[0].as_ref().err(), Some(&GCodeLineParserError::ParseError(1)));
    match &out[1] {
        Ok(GCode::G1(m)) => assert_eq!(m.x, dec(3, 0)),
        other => panic!("unexpected {:?}", other),
    }
    assert_eq!(p.get_line(), 2);
}

#[test]
fn unknown_command_is_not_implemented() {
    let mut p = GCodeLineParser::new();
    let out = feed_all(&mut p, "G7\nT0\n");
    assert_eq!(out[0].as_ref().err(), Some(&GCodeLineParserError::GCodeNotImplemented(1)));
    assert_eq!(out[1].as_ref().err(), Some(&GCodeLineParserError::GCodeNotImplemented(2)));
}

#[test]
fn malformed_words_are_parse_errors() {
    let mut p = GCodeLineParser::new();
    let out = feed_all(&mut p, "g1\nG1 x1\nG1 X\nG1 X1a\nN G1\nN5\n");
    for (i, r) in out.iter().enumerate() {
        assert_eq!(r.as_ref().err(), Some(&GCodeLineParserError::ParseError(i as u32 + 1)));
    }
    assert_eq!(out.len(), 6);
}

#[test]
fn number_too_large_is_a_parse_error() {
    let mut p = GCodeLineParser::new();
    let out = feed_all(&mut p, "G1 X9223372036854775808\nG1 X9223372036854775807\n");
    assert_eq!(out[0].as_ref().err(), Some(&GCodeLineParserError::ParseError(1)));
    match &out[1] {
        Ok(GCode::G1(m)) => assert_eq!(m.x, dec(i64::MAX, 0)),
        other => panic!("unexpected {:?}", other),
    }
}

#[test]
fn numbered_line_with_checksum() {
    // The checksum is the xor of every byte before '*'.
    let body = "N7 G1 X2";
    let sum = body.bytes().fold(0u8, |a, b| a ^ b);
    let mut p = GCodeLineParser::new();
    let out = feed_all(&mut p, &format!("{}*{}\n", body, sum));
    match &out[0] {
        Ok(GCode::G1(m)) => {
            assert_eq!(m.ln, Some(7));
            assert_eq!(m.x, dec(2, 0));
        }
        other => panic!("unexpected {:?}", other),
    }
    assert_eq!(p.gcode_line(), Some(7));
    let out = feed_all(&mut p, &format!("{}*{}\n", body, sum ^ 1));
    assert_eq!(out[0].as_ref().err(), Some(&GCodeLineParserError::ChecksumMismatch(2)));
    let out = feed_all(&mut p, "N8 G1*x\n");
    assert_eq!(out[0].as_ref().err(), Some(&GCodeLineParserError::ParseError(3)));
}

#[test]
fn overlong_line_enters_error_recovery() {
    let mut p = GCodeLineParser::new();
    let long = "G1 X1 ".repeat(60);
    let mut out = Vec::new();
    for b in long.bytes() {
        if let Some(r) = p.feed(b) {
            out.push(r);
        }
    }
    assert!(out.is_empty());
    assert_eq!(p.get_state(), ParserState::ErrorRecovery);
    let out = feed_all(&mut p, "\nM400\n");
    assert_eq!(out.len(), 2);
    assert_eq!(out[0].as_ref().err(), Some(&GCodeLineParserError::ParseError(1)));
    assert!(matches!(out[1], Ok(GCode::M400)));
}

#[test]
fn non_ascii_byte_enters_error_recovery() {
    let mut p = GCodeLineParser::new();
    assert!(p.feed(b'G').is_none());
    assert!(p.feed(0xC3).is_none());
    assert_eq!(p.get_state(), ParserState::ErrorRecovery);
    assert_eq!(p.feed(b'\n').map(|r| r.err()), Some(Some(GCodeLineParserError::ParseError(1))));
}

#[test]
fn end_of_stream_is_terminal_until_reset() {
    let mut p = GCodeLineParser::new();
    let _ = feed_all(&mut p, "G1 X1");
    assert_eq!(p.close().map(|r| r.err()), Some(Some(GCodeLineParserError::EOF)));
    assert!(p.close().is_none());
    assert!(feed_all(&mut p, "G1 X1\n").is_empty());
    assert_eq!(p.get_state(), ParserState::EndOfStream);
    p.reset();
    assert_eq!(p.get_state(), ParserState::Idle);
    assert_eq!(p.get_line(), 0);
    assert_eq!(p.gcode_line(), None);
    assert_eq!(feed_all(&mut p, "G4\n").len(), 1);
}

#[test]
fn partial_line_survives_byte_by_byte_delivery() {
    let mut p = GCodeLineParser::new();
    assert!(feed_all(&mut p, "G1 X").is_empty());
    assert_eq!(p.get_state(), ParserState::Accumulating);
    let out = feed_all(&mut p, "4 Y2\n");
    match &out[0] {
        Ok(GCode::G1(m)) => {
            assert_eq!(m.x, dec(4, 0));
            assert_eq!(m.y, dec(2, 0));
        }
        other => panic!("unexpected {:?}", other),
    }
}

#[test]
fn with_x_replaces_only_x() {
    let m = XYZEFS { ln: Some(3), e: dec(1, 0), f: None, s: None, x: dec(9, 1), y: dec(2, 0), z: None };
    let n = m.with_x(-4);
    assert_eq!(n.x, dec(-4, 0));
    assert_eq!(n.ln, Some(3));
    assert_eq!(n.e, dec(1, 0));
    assert_eq!(n.y, dec(2, 0));
}

#[test]
fn default_command_is_nop() {
    assert!(matches!(GCode::default(), GCode::NOP));
}
