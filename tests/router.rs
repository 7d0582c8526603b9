use printhor::channel::CommChannel;
use printhor::gcode::{GCode, Real};
use printhor::multiplexer::GCodeMultiplexedInputStream;
use printhor::parser::{GCodeLineParserError, ParserState};

#[test]
fn two_channels_same_step_both_delivered() {
    let mut m = GCodeMultiplexedInputStream::new(true, true, false);
    m.receive_bytes(CommChannel::SerialPort1, &b"M105\n".to_vec());
    m.receive_bytes(CommChannel::SerialUsb, &b"G4\n".to_vec());
    let (r1, c1) = m.next_gcode().unwrap();
    let (r2, c2) = m.next_gcode().unwrap();
    assert_eq!(c1, CommChannel::SerialUsb);
    assert!(matches!(r1, Ok(GCode::G4)));
    assert_eq!(c2, CommChannel::SerialPort1);
    assert!(matches!(r2, Ok(GCode::M105)));
    assert!(m.next_gcode().is_none());
}

#[test]
fn interleaved_bytes_keep_per_channel_order() {
    let mut m = GCodeMultiplexedInputStream::new(true, true, true);
    let a = b"G1 X1\nG1 X2\nG1 X3\n";
    let b = b"M104 S1\nM104 S2\n";
    let mut i = 0;
    let mut j = 0;
    let mut got_a = Vec::new();
    let mut got_b = Vec::new();
    while i < a.len() || j < b.len() {
        if i < a.len() {
            m.receive(CommChannel::SerialPort2, a[i]);
            i += 1;
        }
        if j < b.len() {
            m.receive(CommChannel::SerialUsb, b[j]);
            j += 1;
        }
        if i % 3 == 0 {
            if let Some((r, c)) = m.next_gcode() {
                if c == CommChannel::SerialPort2 { got_a.push(r) } else { got_b.push(r) }
            }
        }
    }
    while let Some((r, c)) = m.next_gcode() {
        if c == CommChannel::SerialPort2 { got_a.push(r) } else { got_b.push(r) }
    }
    let xs: Vec<Option<Real>> = got_a
        .iter()
        .map(|r| match r {
            Ok(GCode::G1(p)) => p.x,
            _ => panic!("unexpected"),
        })
        .collect();
    assert_eq!(xs, vec![Some(Real::from_lit(1, 0)), Some(Real::from_lit(2, 0)), Some(Real::from_lit(3, 0))]);
    let ss: Vec<Option<Real>> = got_b
        .iter()
        .map(|r| match r {
            Ok(GCode::M104(p)) => p.s,
            _ => panic!("unexpected"),
        })
        .collect();
    assert_eq!(ss, vec![Some(Real::from_lit(1, 0)), Some(Real::from_lit(2, 0))]);
}

#[test]
fn absent_channels_are_ignored() {
    let mut m = GCodeMultiplexedInputStream::new(false, true, false);
    m.receive_bytes(CommChannel::SerialUsb, &b"G4\n".to_vec());
    m.receive_bytes(CommChannel::Internal, &b"G4\n".to_vec());
    assert!(m.next_gcode().is_none());
    assert_eq!(m.get_state(CommChannel::SerialUsb), ParserState::ErrorRecovery);
    assert_eq!(m.get_state(CommChannel::Internal), ParserState::ErrorRecovery);
    assert_eq!(m.get_line(CommChannel::Internal), 0);
    assert_eq!(m.get_gcode_line(CommChannel::Internal), None);
    assert_eq!(m.get_state(CommChannel::SerialPort1), ParserState::Idle);
}

#[test]
fn accessors_and_reset_are_per_channel() {
    let mut m = GCodeMultiplexedInputStream::new(true, true, false);
    m.receive_bytes(CommChannel::SerialUsb, &b"N4 G4\nG1 X".to_vec());
    m.receive_bytes(CommChannel::SerialPort1, &b"G4\nG4\n".to_vec());
    // Nothing is read until a result is asked for.
    assert_eq!(m.get_line(CommChannel::SerialUsb), 0);
    assert!(matches!(m.next_gcode(), Some((Ok(GCode::G4), CommChannel::SerialUsb))));
    assert_eq!(m.get_line(CommChannel::SerialUsb), 1);
    assert_eq!(m.get_gcode_line(CommChannel::SerialUsb), Some(4));
    assert!(matches!(m.next_gcode(), Some((Ok(GCode::G4), CommChannel::SerialPort1))));
    assert_eq!(m.get_state(CommChannel::SerialUsb), ParserState::Accumulating);
    assert_eq!(m.get_line(CommChannel::SerialPort1), 1);
    m.reset(CommChannel::SerialUsb);
    assert_eq!(m.get_line(CommChannel::SerialUsb), 0);
    assert_eq!(m.get_gcode_line(CommChannel::SerialUsb), None);
    assert_eq!(m.get_state(CommChannel::SerialUsb), ParserState::Idle);
    assert_eq!(m.get_line(CommChannel::SerialPort1), 1);
    m.receive_bytes(CommChannel::SerialUsb, &b"5\n".to_vec());
    assert!(matches!(m.next_gcode(), Some((Err(GCodeLineParserError::ParseError(1)), CommChannel::SerialUsb))));
    assert!(matches!(m.next_gcode(), Some((Ok(GCode::G4), CommChannel::SerialPort1))));
    assert_eq!(m.get_line(CommChannel::SerialPort1), 2);
}

#[test]
fn counters_follow_the_results_handed_out() {
    let mut m = GCodeMultiplexedInputStream::new(true, false, false);
    m.receive_bytes(CommChannel::SerialUsb, &b"N1 M105\nN2 M105\n".to_vec());
    assert!(matches!(m.next_gcode(), Some((Ok(GCode::M105), CommChannel::SerialUsb))));
    assert_eq!(m.get_gcode_line(CommChannel::SerialUsb), Some(1));
    assert_eq!(m.get_line(CommChannel::SerialUsb), 1);
    assert!(matches!(m.next_gcode(), Some((Ok(GCode::M105), CommChannel::SerialUsb))));
    assert_eq!(m.get_gcode_line(CommChannel::SerialUsb), Some(2));
    assert_eq!(m.get_line(CommChannel::SerialUsb), 2);
}

#[test]
fn bad_then_good_line_through_the_router() {
    let mut m = GCodeMultiplexedInputStream::new(true, true, false);
    m.receive_bytes(CommChannel::SerialPort1, &b"G1 X1..2\nG1 X3\n".to_vec());
    let n0 = m.get_line(CommChannel::SerialPort1);
    assert!(matches!(m.next_gcode(), Some((Err(GCodeLineParserError::ParseError(1)), CommChannel::SerialPort1))));
    assert!(matches!(m.next_gcode(), Some((Ok(GCode::G1(_)), CommChannel::SerialPort1))));
    assert_eq!(m.get_line(CommChannel::SerialPort1), n0 + 2);
    assert!(m.next_gcode().is_none());
}

#[test]
fn reset_drops_a_queued_end_of_stream() {
    let mut m = GCodeMultiplexedInputStream::new(true, false, false);
    m.receive_bytes(CommChannel::SerialUsb, &b"G4".to_vec());
    m.close(CommChannel::SerialUsb);
    m.reset(CommChannel::SerialUsb);
    assert!(m.next_gcode().is_none());
    assert_eq!(m.get_state(CommChannel::SerialUsb), ParserState::Idle);
    m.receive_bytes(CommChannel::SerialUsb, &b"G4\n".to_vec());
    assert!(matches!(m.next_gcode(), Some((Ok(GCode::G4), CommChannel::SerialUsb))));
}

#[test]
fn closing_a_channel_yields_eof_once() {
    let mut m = GCodeMultiplexedInputStream::new(false, false, true);
    m.close(CommChannel::SerialPort2);
    m.close(CommChannel::SerialPort2);
    assert!(matches!(m.next_gcode(), Some((Err(GCodeLineParserError::EOF), CommChannel::SerialPort2))));
    assert!(m.next_gcode().is_none());
    assert_eq!(m.get_state(CommChannel::SerialPort2), ParserState::EndOfStream);
}
