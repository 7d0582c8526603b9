use vstd::prelude::*;

verus! {

/// A decimal number: `mantissa` divided by ten to the power `scale`.
#[derive(Clone, Copy, Debug, PartialEq, Eq, Structural)]
pub struct Real {
    pub mantissa: i64,
    pub scale: u32,
}

impl Real {
    pub fn from_lit(mantissa: i64, scale: u32) -> (r: Real)
        ensures
            r.mantissa == mantissa,
            r.scale == scale,
    {
        Real { mantissa, scale }
    }
}

/// Payload of a command that takes one scalar.
#[derive(Clone, Copy, Debug, Default, PartialEq, Eq, Structural)]
pub struct S {
    pub ln: Option<u32>,
    pub s: Option<Real>,
}

/// Payload of a command that names up to four axes.
#[derive(Clone, Copy, Debug, Default, PartialEq, Eq, Structural)]
pub struct XYZW {
    pub ln: Option<u32>,
    pub x: Option<Real>,
    pub y: Option<Real>,
    pub z: Option<Real>,
    pub w: Option<Real>,
}

/// Payload of a rapid move.
#[derive(Clone, Copy, Debug, Default, PartialEq, Eq, Structural)]
pub struct XYZ {
    pub ln: Option<u32>,
    pub f: Option<Real>,
    pub x: Option<Real>,
    pub y: Option<Real>,
    pub z: Option<Real>,
}

/// Payload of a linear move.
#[derive(Clone, Copy, Debug, Default, PartialEq, Eq, Structural)]
pub struct XYZEFS {
    pub ln: Option<u32>,
    pub e: Option<Real>,
    pub f: Option<Real>,
    pub s: Option<Real>,
    pub x: Option<Real>,
    pub y: Option<Real>,
    pub z: Option<Real>,
}

impl XYZEFS {
    /// The same move with `x` set to the whole number `pos`.
    pub fn with_x(&self, pos: i32) -> (r: Self)
        ensures
            r == (XYZEFS { x: Some(Real { mantissa: pos as i64, scale: 0 }), ..*self }),
    {
        XYZEFS {
            ln: self.ln,
            e: self.e,
            f: self.f,
            s: self.s,
            x: Some(Real::from_lit(pos as i64, 0)),
            y: self.y,
            z: self.z,
        }
    }
}

/// The code that opens a command line: a letter, then a number, then a
/// sub-code after a dot (`G29.1`). Bare `G` and `M` have no number.
#[derive(Clone, Copy, Debug, PartialEq, Eq, Structural)]
pub struct Code {
    pub letter: u8,
    pub number: Option<u32>,
    pub sub: Option<u32>,
}

/// The value of the first parameter named `letter`.
pub open spec fn param(ps: Seq<(u8, Real)>, letter: u8) -> Option<Real>
    decreases ps.len(),
{
    if ps.len() == 0 {
        None
    } else if ps[0].0 == letter {
        Some(ps[0].1)
    } else {
        param(ps.drop_first(), letter)
    }
}

/// The value of the first parameter named `letter`.
pub fn param_value(ps: &Vec<(u8, Real)>, letter: u8) -> (r: Option<Real>)
    ensures
        r == param(ps@, letter),
{
    let mut i: usize = 0;
    assert(ps@.subrange(0, ps@.len() as int) =~= ps@);
    while i < ps.len()
        invariant
            i <= ps@.len(),
            param(ps@, letter) == param(ps@.subrange(i as int, ps@.len() as int), letter),
        decreases ps.len() - i,
    {
        let ghost rest = ps@.subrange(i as int, ps@.len() as int);
        assert(rest.drop_first() =~= ps@.subrange(i + 1, ps@.len() as int));
        if ps[i].0 == letter {
            return Some(ps[i].1);
        }
        i = i + 1;
    }
    None
}

pub open spec fn spec_s(ln: Option<u32>, ps: Seq<(u8, Real)>) -> S {
    S { ln, s: param(ps, 83) }
}

pub open spec fn spec_xyzw(ln: Option<u32>, ps: Seq<(u8, Real)>) -> XYZW {
    XYZW { ln, x: param(ps, 88), y: param(ps, 89), z: param(ps, 90), w: param(ps, 87) }
}

pub open spec fn spec_xyz(ln: Option<u32>, ps: Seq<(u8, Real)>) -> XYZ {
    XYZ { ln, f: param(ps, 70), x: param(ps, 88), y: param(ps, 89), z: param(ps, 90) }
}

pub open spec fn spec_xyzefs(ln: Option<u32>, ps: Seq<(u8, Real)>) -> XYZEFS {
    XYZEFS {
        ln,
        e: param(ps, 69),
        f: param(ps, 70),
        s: param(ps, 83),
        x: param(ps, 88),
        y: param(ps, 89),
        z: param(ps, 90),
    }
}

fn s_of(ln: Option<u32>, ps: &Vec<(u8, Real)>) -> (r: S)
    ensures
        r == spec_s(ln, ps@),
{
    S { ln, s: param_value(ps, 83) }
}

fn xyzw_of(ln: Option<u32>, ps: &Vec<(u8, Real)>) -> (r: XYZW)
    ensures
        r == spec_xyzw(ln, ps@),
{
    XYZW {
        ln,
        x: param_value(ps, 88),
        y: param_value(ps, 89),
        z: param_value(ps, 90),
        w: param_value(ps, 87),
    }
}

fn xyz_of(ln: Option<u32>, ps: &Vec<(u8, Real)>) -> (r: XYZ)
    ensures
        r == spec_xyz(ln, ps@),
{
    XYZ {
        ln,
        f: param_value(ps, 70),
        x: param_value(ps, 88),
        y: param_value(ps, 89),
        z: param_value(ps, 90),
    }
}

fn xyzefs_of(ln: Option<u32>, ps: &Vec<(u8, Real)>) -> (r: XYZEFS)
    ensures
        r == spec_xyzefs(ln, ps@),
{
    XYZEFS {
        ln,
        e: param_value(ps, 69),
        f: param_value(ps, 70),
        s: param_value(ps, 83),
        x: param_value(ps, 88),
        y: param_value(ps, 89),
        z: param_value(ps, 90),
    }
}

/// The characters of an optional string.
pub open spec fn opt_chars(a: Option<String>) -> Option<Seq<char>> {
    match a {
        Some(s) => Some(s@),
        None => None,
    }
}

/// A command, with the parameters its execution reads.
#[derive(Clone, Debug, Default, PartialEq)]
pub enum GCode {
    /// No Operation
    #[default]
    NOP,
    /// List supported G-Codes
    G,
    /// Rapid move
    G0(XYZ),
    /// Linear move
    G1(XYZEFS),
    /// Dwell
    G4,
    /// Set coordinate system data
    G10,
    G11,
    G17,
    G18,
    G19,
    G21,
    G22,
    G23,
    /// Move to Origin (Home)
    G28(XYZW),
    /// Detailed Z-Probe
    G29,
    /// Set Z probe head offset
    G29_1,
    /// Set Z probe head offset calculated from tool head position
    G29_2,
    /// Single Z-Probe
    G30,
    /// Dock Sled
    G31,
    /// Undock Sled
    G32,
    G38_2,
    G38_3,
    G38_4,
    G38_5,
    G80,
    G81,
    G82,
    /// Set to Absolute Positioning
    G90,
    /// Set to Relative Positioning
    G91,
    /// Set position
    G92,
    G92_1,
    G92_2,
    G93,
    G94,
    /// List supported M-Codes
    M,
    M0,
    M1,
    M2,
    M3,
    M4,
    M5,
    M6,
    M7,
    M8,
    M9,
    M10,
    M11,
    M13,
    M16,
    M17,
    M18,
    /// List SD
    M20(Option<String>),
    M21,
    M22,
    /// Select SD file
    M23(Option<String>),
    /// Start/resume SD print
    M24,
    /// Pause SD print
    M25,
    M26,
    M27,
    /// Program Stop
    M30,
    M31,
    M32,
    M33,
    M37,
    /// Set Print Progress
    M73,
    /// Soft reset
    M79,
    /// ATX Power ON
    M80,
    /// ATX Power OFF
    M81,
    /// Settings
    M83,
    /// Disable steppers
    M84,
    M92,
    /// Show memory usage
    M100,
    /// Set Hotend Temperature
    M104(S),
    /// Get Hotend and/or Hotbed Temperature
    M105,
    /// Fan On
    M106,
    /// Fan Off
    M107,
    /// Wait for hotend temp
    M109(S),
    M110,
    /// Debug level
    M111,
    /// Full emergency stop
    M112,
    /// Get current position
    M114,
    /// Get Firmware Version and Capabilities
    M115,
    /// Wait
    M116,
    /// Display message
    M117,
    /// Echo message on host
    M118,
    /// Get Endstop Status
    M119,
    M120,
    M121,
    /// Set hotbed temperature
    M140(S),
    /// Wait for hotbed temperature
    M190,
    M200,
    /// Print / Travel Move Limits
    M201,
    M202,
    /// Set Max Feedrate
    M203,
    M204,
    /// Set Advanced Settings
    M205,
    M206,
    M207,
    M208,
    M209,
    M210,
    M211,
    M212,
    M218,
    /// Set Feedrate percentage
    M220(S),
    /// Set Flow Percentage
    M221(S),
    M290,
    M302,
    M305,
    M350,
    M360,
    /// Wait for moves and finish
    M400,
    M401,
    M402,
    M404,
    M407,
    M410,
    M422,
    M450,
    M451,
    M452,
    M453,
    M500,
    M501,
    /// Restore Default Settings
    M502,
    M504,
    M505,
    M510,
    M511,
    M512,
    M513,
    /// Abort SD printing
    M524,
    M555,
    M563,
    M851,
    /// Report the status of position encoder modules.
    M862_1,
    /// Perform an axis continuity test for position encoder modules.
    M862_2,
    /// Perform steps-per-mm calibration for position encoder modules.
    M862_3,
    /// Set Lineal Advance Factor
    M900,
    /// Set motor current
    M907,
    M929,
}

/// Whether `c` is the code of a command.
pub open spec fn known_code(c: Code) -> bool {
    match (c.letter, c.number, c.sub) {
        (71u8, None, None) => true,
        (71u8, Some(0u32), None) => true,
        (71u8, Some(1u32), None) => true,
        (71u8, Some(4u32), None) => true,
        (71u8, Some(10u32), None) => true,
        (71u8, Some(11u32), None) => true,
        (71u8, Some(17u32), None) => true,
        (71u8, Some(18u32), None) => true,
        (71u8, Some(19u32), None) => true,
        (71u8, Some(21u32), None) => true,
        (71u8, Some(22u32), None) => true,
        (71u8, Some(23u32), None) => true,
        (71u8, Some(28u32), None) => true,
        (71u8, Some(29u32), None) => true,
        (71u8, Some(29u32), Some(1u32)) => true,
        (71u8, Some(29u32), Some(2u32)) => true,
        (71u8, Some(30u32), None) => true,
        (71u8, Some(31u32), None) => true,
        (71u8, Some(32u32), None) => true,
        (71u8, Some(38u32), Some(2u32)) => true,
        (71u8, Some(38u32), Some(3u32)) => true,
        (71u8, Some(38u32), Some(4u32)) => true,
        (71u8, Some(38u32), Some(5u32)) => true,
        (71u8, Some(80u32), None) => true,
        (71u8, Some(81u32), None) => true,
        (71u8, Some(82u32), None) => true,
        (71u8, Some(90u32), None) => true,
        (71u8, Some(91u32), None) => true,
        (71u8, Some(92u32), None) => true,
        (71u8, Some(92u32), Some(1u32)) => true,
        (71u8, Some(92u32), Some(2u32)) => true,
        (71u8, Some(93u32), None) => true,
        (71u8, Some(94u32), None) => true,
        (77u8, None, None) => true,
        (77u8, Some(0u32), None) => true,
        (77u8, Some(1u32), None) => true,
        (77u8, Some(2u32), None) => true,
        (77u8, Some(3u32), None) => true,
        (77u8, Some(4u32), None) => true,
        (77u8, Some(5u32), None) => true,
        (77u8, Some(6u32), None) => true,
        (77u8, Some(7u32), None) => true,
        (77u8, Some(8u32), None) => true,
        (77u8, Some(9u32), None) => true,
        (77u8, Some(10u32), None) => true,
        (77u8, Some(11u32), None) => true,
        (77u8, Some(13u32), None) => true,
        (77u8, Some(16u32), None) => true,
        (77u8, Some(17u32), None) => true,
        (77u8, Some(18u32), None) => true,
        (77u8, Some(20u32), None) => true,
        (77u8, Some(21u32), None) => true,
        (77u8, Some(22u32), None) => true,
        (77u8, Some(23u32), None) => true,
        (77u8, Some(24u32), None) => true,
        (77u8, Some(25u32), None) => true,
        (77u8, Some(26u32), None) => true,
        (77u8, Some(27u32), None) => true,
        (77u8, Some(30u32), None) => true,
        (77u8, Some(31u32), None) => true,
        (77u8, Some(32u32), None) => true,
        (77u8, Some(33u32), None) => true,
        (77u8, Some(37u32), None) => true,
        (77u8, Some(73u32), None) => true,
        (77u8, Some(79u32), None) => true,
        (77u8, Some(80u32), None) => true,
        (77u8, Some(81u32), None) => true,
        (77u8, Some(83u32), None) => true,
        (77u8, Some(84u32), None) => true,
        (77u8, Some(92u32), None) => true,
        (77u8, Some(100u32), None) => true,
        (77u8, Some(104u32), None) => true,
        (77u8, Some(105u32), None) => true,
        (77u8, Some(106u32), None) => true,
        (77u8, Some(107u32), None) => true,
        (77u8, Some(109u32), None) => true,
        (77u8, Some(110u32), None) => true,
        (77u8, Some(111u32), None) => true,
        (77u8, Some(112u32), None) => true,
        (77u8, Some(114u32), None) => true,
        (77u8, Some(115u32), None) => true,
        (77u8, Some(116u32), None) => true,
        (77u8, Some(117u32), None) => true,
        (77u8, Some(118u32), None) => true,
        (77u8, Some(119u32), None) => true,
        (77u8, Some(120u32), None) => true,
        (77u8, Some(121u32), None) => true,
        (77u8, Some(140u32), None) => true,
        (77u8, Some(190u32), None) => true,
        (77u8, Some(200u32), None) => true,
        (77u8, Some(201u32), None) => true,
        (77u8, Some(202u32), None) => true,
        (77u8, Some(203u32), None) => true,
        (77u8, Some(204u32), None) => true,
        (77u8, Some(205u32), None) => true,
        (77u8, Some(206u32), None) => true,
        (77u8, Some(207u32), None) => true,
        (77u8, Some(208u32), None) => true,
        (77u8, Some(209u32), None) => true,
        (77u8, Some(210u32), None) => true,
        (77u8, Some(211u32), None) => true,
        (77u8, Some(212u32), None) => true,
        (77u8, Some(218u32), None) => true,
        (77u8, Some(220u32), None) => true,
        (77u8, Some(221u32), None) => true,
        (77u8, Some(290u32), None) => true,
        (77u8, Some(302u32), None) => true,
        (77u8, Some(305u32), None) => true,
        (77u8, Some(350u32), None) => true,
        (77u8, Some(360u32), None) => true,
        (77u8, Some(400u32), None) => true,
        (77u8, Some(401u32), None) => true,
        (77u8, Some(402u32), None) => true,
        (77u8, Some(404u32), None) => true,
        (77u8, Some(407u32), None) => true,
        (77u8, Some(410u32), None) => true,
        (77u8, Some(422u32), None) => true,
        (77u8, Some(450u32), None) => true,
        (77u8, Some(451u32), None) => true,
        (77u8, Some(452u32), None) => true,
        (77u8, Some(453u32), None) => true,
        (77u8, Some(500u32), None) => true,
        (77u8, Some(501u32), None) => true,
        (77u8, Some(502u32), None) => true,
        (77u8, Some(504u32), None) => true,
        (77u8, Some(505u32), None) => true,
        (77u8, Some(510u32), None) => true,
        (77u8, Some(511u32), None) => true,
        (77u8, Some(512u32), None) => true,
        (77u8, Some(513u32), None) => true,
        (77u8, Some(524u32), None) => true,
        (77u8, Some(555u32), None) => true,
        (77u8, Some(563u32), None) => true,
        (77u8, Some(851u32), None) => true,
        (77u8, Some(862u32), Some(1u32)) => true,
        (77u8, Some(862u32), Some(2u32)) => true,
        (77u8, Some(862u32), Some(3u32)) => true,
        (77u8, Some(900u32), None) => true,
        (77u8, Some(907u32), None) => true,
        (77u8, Some(929u32), None) => true,
        _ => false,
    }
}

/// Whether `g` is the command of code `c` with source line `ln`, parameters
/// `ps` and text argument `text`.
pub open spec fn denotes(g: GCode, c: Code, ln: Option<u32>, ps: Seq<(u8, Real)>, text: Option<Seq<char>>) -> bool {
    match (c.letter, c.number, c.sub) {
        (71u8, None, None) => g == GCode::G,
        (71u8, Some(0u32), None) => g == GCode::G0(spec_xyz(ln, ps)),
        (71u8, Some(1u32), None) => g == GCode::G1(spec_xyzefs(ln, ps)),
        (71u8, Some(4u32), None) => g == GCode::G4,
        (71u8, Some(10u32), None) => g == GCode::G10,
        (71u8, Some(11u32), None) => g == GCode::G11,
        (71u8, Some(17u32), None) => g == GCode::G17,
        (71u8, Some(18u32), None) => g == GCode::G18,
        (71u8, Some(19u32), None) => g == GCode::G19,
        (71u8, Some(21u32), None) => g == GCode::G21,
        (71u8, Some(22u32), None) => g == GCode::G22,
        (71u8, Some(23u32), None) => g == GCode::G23,
        (71u8, Some(28u32), None) => g == GCode::G28(spec_xyzw(ln, ps)),
        (71u8, Some(29u32), None) => g == GCode::G29,
        (71u8, Some(29u32), Some(1u32)) => g == GCode::G29_1,
        (71u8, Some(29u32), Some(2u32)) => g == GCode::G29_2,
        (71u8, Some(30u32), None) => g == GCode::G30,
        (71u8, Some(31u32), None) => g == GCode::G31,
        (71u8, Some(32u32), None) => g == GCode::G32,
        (71u8, Some(38u32), Some(2u32)) => g == GCode::G38_2,
        (71u8, Some(38u32), Some(3u32)) => g == GCode::G38_3,
        (71u8, Some(38u32), Some(4u32)) => g == GCode::G38_4,
        (71u8, Some(38u32), Some(5u32)) => g == GCode::G38_5,
        (71u8, Some(80u32), None) => g == GCode::G80,
        (71u8, Some(81u32), None) => g == GCode::G81,
        (71u8, Some(82u32), None) => g == GCode::G82,
        (71u8, Some(90u32), None) => g == GCode::G90,
        (71u8, Some(91u32), None) => g == GCode::G91,
        (71u8, Some(92u32), None) => g == GCode::G92,
        (71u8, Some(92u32), Some(1u32)) => g == GCode::G92_1,
        (71u8, Some(92u32), Some(2u32)) => g == GCode::G92_2,
        (71u8, Some(93u32), None) => g == GCode::G93,
        (71u8, Some(94u32), None) => g == GCode::G94,
        (77u8, None, None) => g == GCode::M,
        (77u8, Some(0u32), None) => g == GCode::M0,
        (77u8, Some(1u32), None) => g == GCode::M1,
        (77u8, Some(2u32), None) => g == GCode::M2,
        (77u8, Some(3u32), None) => g == GCode::M3,
        (77u8, Some(4u32), None) => g == GCode::M4,
        (77u8, Some(5u32), None) => g == GCode::M5,
        (77u8, Some(6u32), None) => g == GCode::M6,
        (77u8, Some(7u32), None) => g == GCode::M7,
        (77u8, Some(8u32), None) => g == GCode::M8,
        (77u8, Some(9u32), None) => g == GCode::M9,
        (77u8, Some(10u32), None) => g == GCode::M10,
        (77u8, Some(11u32), None) => g == GCode::M11,
        (77u8, Some(13u32), None) => g == GCode::M13,
        (77u8, Some(16u32), None) => g == GCode::M16,
        (77u8, Some(17u32), None) => g == GCode::M17,
        (77u8, Some(18u32), None) => g == GCode::M18,
        (77u8, Some(20u32), None) => match g {
            GCode::M20(a) => opt_chars(a) == text,
            _ => false,
        },
        (77u8, Some(21u32), None) => g == GCode::M21,
        (77u8, Some(22u32), None) => g == GCode::M22,
        (77u8, Some(23u32), None) => match g {
            GCode::M23(a) => opt_chars(a) == text,
            _ => false,
        },
        (77u8, Some(24u32), None) => g == GCode::M24,
        (77u8, Some(25u32), None) => g == GCode::M25,
        (77u8, Some(26u32), None) => g == GCode::M26,
        (77u8, Some(27u32), None) => g == GCode::M27,
        (77u8, Some(30u32), None) => g == GCode::M30,
        (77u8, Some(31u32), None) => g == GCode::M31,
        (77u8, Some(32u32), None) => g == GCode::M32,
        (77u8, Some(33u32), None) => g == GCode::M33,
        (77u8, Some(37u32), None) => g == GCode::M37,
        (77u8, Some(73u32), None) => g == GCode::M73,
        (77u8, Some(79u32), None) => g == GCode::M79,
        (77u8, Some(80u32), None) => g == GCode::M80,
        (77u8, Some(81u32), None) => g == GCode::M81,
        (77u8, Some(83u32), None) => g == GCode::M83,
        (77u8, Some(84u32), None) => g == GCode::M84,
        (77u8, Some(92u32), None) => g == GCode::M92,
        (77u8, Some(100u32), None) => g == GCode::M100,
        (77u8, Some(104u32), None) => g == GCode::M104(spec_s(ln, ps)),
        (77u8, Some(105u32), None) => g == GCode::M105,
        (77u8, Some(106u32), None) => g == GCode::M106,
        (77u8, Some(107u32), None) => g == GCode::M107,
        (77u8, Some(109u32), None) => g == GCode::M109(spec_s(ln, ps)),
        (77u8, Some(110u32), None) => g == GCode::M110,
        (77u8, Some(111u32), None) => g == GCode::M111,
        (77u8, Some(112u32), None) => g == GCode::M112,
        (77u8, Some(114u32), None) => g == GCode::M114,
        (77u8, Some(115u32), None) => g == GCode::M115,
        (77u8, Some(116u32), None) => g == GCode::M116,
        (77u8, Some(117u32), None) => g == GCode::M117,
        (77u8, Some(118u32), None) => g == GCode::M118,
        (77u8, Some(119u32), None) => g == GCode::M119,
        (77u8, Some(120u32), None) => g == GCode::M120,
        (77u8, Some(121u32), None) => g == GCode::M121,
        (77u8, Some(140u32), None) => g == GCode::M140(spec_s(ln, ps)),
        (77u8, Some(190u32), None) => g == GCode::M190,
        (77u8, Some(200u32), None) => g == GCode::M200,
        (77u8, Some(201u32), None) => g == GCode::M201,
        (77u8, Some(202u32), None) => g == GCode::M202,
        (77u8, Some(203u32), None) => g == GCode::M203,
        (77u8, Some(204u32), None) => g == GCode::M204,
        (77u8, Some(205u32), None) => g == GCode::M205,
        (77u8, Some(206u32), None) => g == GCode::M206,
        (77u8, Some(207u32), None) => g == GCode::M207,
        (77u8, Some(208u32), None) => g == GCode::M208,
        (77u8, Some(209u32), None) => g == GCode::M209,
        (77u8, Some(210u32), None) => g == GCode::M210,
        (77u8, Some(211u32), None) => g == GCode::M211,
        (77u8, Some(212u32), None) => g == GCode::M212,
        (77u8, Some(218u32), None) => g == GCode::M218,
        (77u8, Some(220u32), None) => g == GCode::M220(spec_s(ln, ps)),
        (77u8, Some(221u32), None) => g == GCode::M221(spec_s(ln, ps)),
        (77u8, Some(290u32), None) => g == GCode::M290,
        (77u8, Some(302u32), None) => g == GCode::M302,
        (77u8, Some(305u32), None) => g == GCode::M305,
        (77u8, Some(350u32), None) => g == GCode::M350,
        (77u8, Some(360u32), None) => g == GCode::M360,
        (77u8, Some(400u32), None) => g == GCode::M400,
        (77u8, Some(401u32), None) => g == GCode::M401,
        (77u8, Some(402u32), None) => g == GCode::M402,
        (77u8, Some(404u32), None) => g == GCode::M404,
        (77u8, Some(407u32), None) => g == GCode::M407,
        (77u8, Some(410u32), None) => g == GCode::M410,
        (77u8, Some(422u32), None) => g == GCode::M422,
        (77u8, Some(450u32), None) => g == GCode::M450,
        (77u8, Some(451u32), None) => g == GCode::M451,
        (77u8, Some(452u32), None) => g == GCode::M452,
        (77u8, Some(453u32), None) => g == GCode::M453,
        (77u8, Some(500u32), None) => g == GCode::M500,
        (77u8, Some(501u32), None) => g == GCode::M501,
        (77u8, Some(502u32), None) => g == GCode::M502,
        (77u8, Some(504u32), None) => g == GCode::M504,
        (77u8, Some(505u32), None) => g == GCode::M505,
        (77u8, Some(510u32), None) => g == GCode::M510,
        (77u8, Some(511u32), None) => g == GCode::M511,
        (77u8, Some(512u32), None) => g == GCode::M512,
        (77u8, Some(513u32), None) => g == GCode::M513,
        (77u8, Some(524u32), None) => g == GCode::M524,
        (77u8, Some(555u32), None) => g == GCode::M555,
        (77u8, Some(563u32), None) => g == GCode::M563,
        (77u8, Some(851u32), None) => g == GCode::M851,
        (77u8, Some(862u32), Some(1u32)) => g == GCode::M862_1,
        (77u8, Some(862u32), Some(2u32)) => g == GCode::M862_2,
        (77u8, Some(862u32), Some(3u32)) => g == GCode::M862_3,
        (77u8, Some(900u32), None) => g == GCode::M900,
        (77u8, Some(907u32), None) => g == GCode::M907,
        (77u8, Some(929u32), None) => g == GCode::M929,
        _ => false,
    }
}

/// The command of code `c`, or `None` where no command has that code.
pub fn command_for(c: Code, ln: Option<u32>, ps: &Vec<(u8, Real)>, text: Option<String>) -> (r: Option<GCode>)
    ensures
        r.is_some() == known_code(c),
        r.is_some() ==> denotes(r.unwrap(), c, ln, ps@, opt_chars(text)),
{
    match (c.letter, c.number, c.sub) {
        (71u8, None, None) => Some(GCode::G),
        (71u8, Some(0u32), None) => Some(GCode::G0(xyz_of(ln, ps))),
        (71u8, Some(1u32), None) => Some(GCode::G1(xyzefs_of(ln, ps))),
        (71u8, Some(4u32), None) => Some(GCode::G4),
        (71u8, Some(10u32), None) => Some(GCode::G10),
        (71u8, Some(11u32), None) => Some(GCode::G11),
        (71u8, Some(17u32), None) => Some(GCode::G17),
        (71u8, Some(18u32), None) => Some(GCode::G18),
        (71u8, Some(19u32), None) => Some(GCode::G19),
        (71u8, Some(21u32), None) => Some(GCode::G21),
        (71u8, Some(22u32), None) => Some(GCode::G22),
        (71u8, Some(23u32), None) => Some(GCode::G23),
        (71u8, Some(28u32), None) => Some(GCode::G28(xyzw_of(ln, ps))),
        (71u8, Some(29u32), None) => Some(GCode::G29),
        (71u8, Some(29u32), Some(1u32)) => Some(GCode::G29_1),
        (71u8, Some(29u32), Some(2u32)) => Some(GCode::G29_2),
        (71u8, Some(30u32), None) => Some(GCode::G30),
        (71u8, Some(31u32), None) => Some(GCode::G31),
        (71u8, Some(32u32), None) => Some(GCode::G32),
        (71u8, Some(38u32), Some(2u32)) => Some(GCode::G38_2),
        (71u8, Some(38u32), Some(3u32)) => Some(GCode::G38_3),
        (71u8, Some(38u32), Some(4u32)) => Some(GCode::G38_4),
        (71u8, Some(38u32), Some(5u32)) => Some(GCode::G38_5),
        (71u8, Some(80u32), None) => Some(GCode::G80),
        (71u8, Some(81u32), None) => Some(GCode::G81),
        (71u8, Some(82u32), None) => Some(GCode::G82),
        (71u8, Some(90u32), None) => Some(GCode::G90),
        (71u8, Some(91u32), None) => Some(GCode::G91),
        (71u8, Some(92u32), None) => Some(GCode::G92),
        (71u8, Some(92u32), Some(1u32)) => Some(GCode::G92_1),
        (71u8, Some(92u32), Some(2u32)) => Some(GCode::G92_2),
        (71u8, Some(93u32), None) => Some(GCode::G93),
        (71u8, Some(94u32), None) => Some(GCode::G94),
        (77u8, None, None) => Some(GCode::M),
        (77u8, Some(0u32), None) => Some(GCode::M0),
        (77u8, Some(1u32), None) => Some(GCode::M1),
        (77u8, Some(2u32), None) => Some(GCode::M2),
        (77u8, Some(3u32), None) => Some(GCode::M3),
        (77u8, Some(4u32), None) => Some(GCode::M4),
        (77u8, Some(5u32), None) => Some(GCode::M5),
        (77u8, Some(6u32), None) => Some(GCode::M6),
        (77u8, Some(7u32), None) => Some(GCode::M7),
        (77u8, Some(8u32), None) => Some(GCode::M8),
        (77u8, Some(9u32), None) => Some(GCode::M9),
        (77u8, Some(10u32), None) => Some(GCode::M10),
        (77u8, Some(11u32), None) => Some(GCode::M11),
        (77u8, Some(13u32), None) => Some(GCode::M13),
        (77u8, Some(16u32), None) => Some(GCode::M16),
        (77u8, Some(17u32), None) => Some(GCode::M17),
        (77u8, Some(18u32), None) => Some(GCode::M18),
        (77u8, Some(20u32), None) => Some(GCode::M20(text)),
        (77u8, Some(21u32), None) => Some(GCode::M21),
        (77u8, Some(22u32), None) => Some(GCode::M22),
        (77u8, Some(23u32), None) => Some(GCode::M23(text)),
        (77u8, Some(24u32), None) => Some(GCode::M24),
        (77u8, Some(25u32), None) => Some(GCode::M25),
        (77u8, Some(26u32), None) => Some(GCode::M26),
        (77u8, Some(27u32), None) => Some(GCode::M27),
        (77u8, Some(30u32), None) => Some(GCode::M30),
        (77u8, Some(31u32), None) => Some(GCode::M31),
        (77u8, Some(32u32), None) => Some(GCode::M32),
        (77u8, Some(33u32), None) => Some(GCode::M33),
        (77u8, Some(37u32), None) => Some(GCode::M37),
        (77u8, Some(73u32), None) => Some(GCode::M73),
        (77u8, Some(79u32), None) => Some(GCode::M79),
        (77u8, Some(80u32), None) => Some(GCode::M80),
        (77u8, Some(81u32), None) => Some(GCode::M81),
        (77u8, Some(83u32), None) => Some(GCode::M83),
        (77u8, Some(84u32), None) => Some(GCode::M84),
        (77u8, Some(92u32), None) => Some(GCode::M92),
        (77u8, Some(100u32), None) => Some(GCode::M100),
        (77u8, Some(104u32), None) => Some(GCode::M104(s_of(ln, ps))),
        (77u8, Some(105u32), None) => Some(GCode::M105),
        (77u8, Some(106u32), None) => Some(GCode::M106),
        (77u8, Some(107u32), None) => Some(GCode::M107),
        (77u8, Some(109u32), None) => Some(GCode::M109(s_of(ln, ps))),
        (77u8, Some(110u32), None) => Some(GCode::M110),
        (77u8, Some(111u32), None) => Some(GCode::M111),
        (77u8, Some(112u32), None) => Some(GCode::M112),
        (77u8, Some(114u32), None) => Some(GCode::M114),
        (77u8, Some(115u32), None) => Some(GCode::M115),
        (77u8, Some(116u32), None) => Some(GCode::M116),
        (77u8, Some(117u32), None) => Some(GCode::M117),
        (77u8, Some(118u32), None) => Some(GCode::M118),
        (77u8, Some(119u32), None) => Some(GCode::M119),
        (77u8, Some(120u32), None) => Some(GCode::M120),
        (77u8, Some(121u32), None) => Some(GCode::M121),
        (77u8, Some(140u32), None) => Some(GCode::M140(s_of(ln, ps))),
        (77u8, Some(190u32), None) => Some(GCode::M190),
        (77u8, Some(200u32), None) => Some(GCode::M200),
        (77u8, Some(201u32), None) => Some(GCode::M201),
        (77u8, Some(202u32), None) => Some(GCode::M202),
        (77u8, Some(203u32), None) => Some(GCode::M203),
        (77u8, Some(204u32), None) => Some(GCode::M204),
        (77u8, Some(205u32), None) => Some(GCode::M205),
        (77u8, Some(206u32), None) => Some(GCode::M206),
        (77u8, Some(207u32), None) => Some(GCode::M207),
        (77u8, Some(208u32), None) => Some(GCode::M208),
        (77u8, Some(209u32), None) => Some(GCode::M209),
        (77u8, Some(210u32), None) => Some(GCode::M210),
        (77u8, Some(211u32), None) => Some(GCode::M211),
        (77u8, Some(212u32), None) => Some(GCode::M212),
        (77u8, Some(218u32), None) => Some(GCode::M218),
        (77u8, Some(220u32), None) => Some(GCode::M220(s_of(ln, ps))),
        (77u8, Some(221u32), None) => Some(GCode::M221(s_of(ln, ps))),
        (77u8, Some(290u32), None) => Some(GCode::M290),
        (77u8, Some(302u32), None) => Some(GCode::M302),
        (77u8, Some(305u32), None) => Some(GCode::M305),
        (77u8, Some(350u32), None) => Some(GCode::M350),
        (77u8, Some(360u32), None) => Some(GCode::M360),
        (77u8, Some(400u32), None) => Some(GCode::M400),
        (77u8, Some(401u32), None) => Some(GCode::M401),
        (77u8, Some(402u32), None) => Some(GCode::M402),
        (77u8, Some(404u32), None) => Some(GCode::M404),
        (77u8, Some(407u32), None) => Some(GCode::M407),
        (77u8, Some(410u32), None) => Some(GCode::M410),
        (77u8, Some(422u32), None) => Some(GCode::M422),
        (77u8, Some(450u32), None) => Some(GCode::M450),
        (77u8, Some(451u32), None) => Some(GCode::M451),
        (77u8, Some(452u32), None) => Some(GCode::M452),
        (77u8, Some(453u32), None) => Some(GCode::M453),
        (77u8, Some(500u32), None) => Some(GCode::M500),
        (77u8, Some(501u32), None) => Some(GCode::M501),
        (77u8, Some(502u32), None) => Some(GCode::M502),
        (77u8, Some(504u32), None) => Some(GCode::M504),
        (77u8, Some(505u32), None) => Some(GCode::M505),
        (77u8, Some(510u32), None) => Some(GCode::M510),
        (77u8, Some(511u32), None) => Some(GCode::M511),
        (77u8, Some(512u32), None) => Some(GCode::M512),
        (77u8, Some(513u32), None) => Some(GCode::M513),
        (77u8, Some(524u32), None) => Some(GCode::M524),
        (77u8, Some(555u32), None) => Some(GCode::M555),
        (77u8, Some(563u32), None) => Some(GCode::M563),
        (77u8, Some(851u32), None) => Some(GCode::M851),
        (77u8, Some(862u32), Some(1u32)) => Some(GCode::M862_1),
        (77u8, Some(862u32), Some(2u32)) => Some(GCode::M862_2),
        (77u8, Some(862u32), Some(3u32)) => Some(GCode::M862_3),
        (77u8, Some(900u32), None) => Some(GCode::M900),
        (77u8, Some(907u32), None) => Some(GCode::M907),
        (77u8, Some(929u32), None) => Some(GCode::M929),
        _ => None,
    }
}

} // verus!
