use vstd::prelude::*;
use crate::gcode::GCode;
use crate::line::{
    LineFault, LineOutcome, MAX_LINE, ParsedLine, all_ascii, ascii_chars, parse_line,
    parse_line_bytes,
};
use crate::gcode::denotes;

verus! {

/// Where a parser stands within its current line.
#[derive(Clone, Copy, Debug, PartialEq, Eq, Structural)]
pub enum ParserState {
    /// At the start of a line.
    Idle,
    /// Inside a line.
    Accumulating,
    /// Inside a line already known to be bad; the rest of it is dropped.
    ErrorRecovery,
    /// The channel has ended; nothing more is read.
    EndOfStream,
}

/// Why a line yields no command; each error carries the number of the line.
#[derive(Clone, Copy, Debug, PartialEq, Eq, Structural)]
pub enum GCodeLineParserError {
    /// A malformed word, or a line too long or not ASCII.
    ParseError(u32),
    /// A well-formed code that names no supported command.
    GCodeNotImplemented(u32),
    /// The checksum of a line does not match its text.
    ChecksumMismatch(u32),
    /// The channel has ended.
    EOF,
}

/// A parser as a mathematical value.
pub struct ParserView {
    pub state: ParserState,
    pub line: u32,
    pub gcode_line: Option<u32>,
    pub buffer: Seq<u8>,
}

/// What a parser yields for one line, before the command is built.
pub type LineModel = Result<ParsedLine, GCodeLineParserError>;

pub open spec fn next_line(l: u32) -> u32 {
    if l == u32::MAX {
        0
    } else {
        (l + 1) as u32
    }
}

pub open spec fn fault_error(f: LineFault, line: u32) -> GCodeLineParserError {
    match f {
        LineFault::Malformed => GCodeLineParserError::ParseError(line),
        LineFault::Unknown => GCodeLineParserError::GCodeNotImplemented(line),
        LineFault::Checksum => GCodeLineParserError::ChecksumMismatch(line),
    }
}

pub open spec fn fresh_view() -> ParserView {
    ParserView { state: ParserState::Idle, line: 0, gcode_line: None, buffer: Seq::empty() }
}

/// One input of a parser: a byte, or `None` for the end of the channel.
/// Gives the next parser and what it yields, if anything.
pub open spec fn step(p: ParserView, input: Option<u8>) -> (ParserView, Option<LineModel>) {
    let idle = ParserView { state: ParserState::Idle, line: next_line(p.line), buffer: Seq::empty(), ..p };
    match input {
        None => if p.state == ParserState::EndOfStream {
            (p, None)
        } else {
            (
                ParserView { state: ParserState::EndOfStream, buffer: Seq::empty(), ..p },
                Some(Err(GCodeLineParserError::EOF)),
            )
        },
        Some(b) => if p.state == ParserState::EndOfStream {
            (p, None)
        } else if b == 10 {
            if p.state == ParserState::ErrorRecovery {
                (idle, Some(Err(GCodeLineParserError::ParseError(next_line(p.line)))))
            } else {
                match parse_line(p.buffer) {
                    LineOutcome::Blank => (idle, None),
                    LineOutcome::Fault(f) => (idle, Some(Err(fault_error(f, next_line(p.line))))),
                    LineOutcome::Command(pl) => (
                        ParserView {
                            gcode_line: if pl.ln.is_some() { pl.ln } else { p.gcode_line },
                            ..idle
                        },
                        Some(Ok(pl)),
                    ),
                }
            }
        } else if p.state == ParserState::ErrorRecovery {
            (p, None)
        } else if b >= 128 || p.buffer.len() >= MAX_LINE {
            (ParserView { state: ParserState::ErrorRecovery, buffer: Seq::empty(), ..p }, None)
        } else {
            (ParserView { state: ParserState::Accumulating, buffer: p.buffer.push(b), ..p }, None)
        },
    }
}

/// Whether `g` is the command that the parsed line `pl` describes.
pub open spec fn denotes_line(g: GCode, pl: ParsedLine) -> bool {
    denotes(
        g,
        pl.code,
        pl.ln,
        pl.params,
        match pl.text {
            Some(t) => Some(ascii_chars(t)),
            None => None,
        },
    )
}

/// Whether the result `r` is what the model `m` describes.
pub open spec fn result_matches(r: Result<GCode, GCodeLineParserError>, m: LineModel) -> bool {
    match (r, m) {
        (Ok(g), Ok(pl)) => denotes_line(g, pl),
        (Err(e), Err(f)) => e == f,
        _ => false,
    }
}

pub open spec fn yield_matches(r: Option<Result<GCode, GCodeLineParserError>>, m: Option<LineModel>) -> bool {
    match (r, m) {
        (None, None) => true,
        (Some(a), Some(b)) => result_matches(a, b),
        _ => false,
    }
}

/// An incremental parser of the command lines of one channel.
pub struct GCodeLineParser {
    state: ParserState,
    line: u32,
    gcode_line: Option<u32>,
    buffer: Vec<u8>,
}

impl View for GCodeLineParser {
    type V = ParserView;

    closed spec fn view(&self) -> ParserView {
        ParserView {
            state: self.state,
            line: self.line,
            gcode_line: self.gcode_line,
            buffer: self.buffer@,
        }
    }
}

pub open spec fn view_wf(v: ParserView) -> bool {
    v.buffer.len() <= MAX_LINE && all_ascii(v.buffer)
}

impl GCodeLineParser {
    pub open spec fn wf(&self) -> bool {
        view_wf(self@)
    }

    pub fn new() -> (r: GCodeLineParser)
        ensures
            r@ == fresh_view(),
            r.wf(),
    {
        let r = GCodeLineParser { state: ParserState::Idle, line: 0, gcode_line: None, buffer: Vec::new() };
        assert(r@.buffer =~= Seq::<u8>::empty());
        r
    }

    pub fn get_state(&self) -> (r: ParserState)
        ensures
            r == self@.state,
    {
        self.state
    }

    /// The number of lines delimited so far.
    pub fn get_line(&self) -> (r: u32)
        ensures
            r == self@.line,
    {
        self.line
    }

    /// The line number that the last numbered command carried.
    pub fn gcode_line(&self) -> (r: Option<u32>)
        ensures
            r == self@.gcode_line,
    {
        self.gcode_line
    }

    /// Drops the partial line, any error or end of stream, and the line counters.
    pub fn reset(&mut self)
        ensures
            final(self)@ == fresh_view(),
            final(self).wf(),
    {
        self.state = ParserState::Idle;
        self.line = 0;
        self.gcode_line = None;
        self.buffer = Vec::new();
        assert(self@.buffer =~= Seq::<u8>::empty());
    }

    fn finish_line(&mut self) -> (r: Option<Result<GCode, GCodeLineParserError>>)
        requires
            old(self).wf(),
            old(self)@.state != ParserState::EndOfStream,
        ensures
            final(self).wf(),
            final(self)@ == step(old(self)@, Some(10u8)).0,
            yield_matches(r, step(old(self)@, Some(10u8)).1),
    {
        let n = if self.line == u32::MAX { 0 } else { self.line + 1 };
        let recovering = self.state == ParserState::ErrorRecovery;
        let parsed = if recovering { Err(LineFault::Malformed) } else { parse_line_bytes(&self.buffer) };
        self.state = ParserState::Idle;
        self.line = n;
        self.buffer = Vec::new();
        assert(self@.buffer =~= Seq::<u8>::empty());
        if recovering {
            return Some(Err(GCodeLineParserError::ParseError(n)));
        }
        match parsed {
            Ok(None) => None,
            Err(LineFault::Malformed) => Some(Err(GCodeLineParserError::ParseError(n))),
            Err(LineFault::Unknown) => Some(Err(GCodeLineParserError::GCodeNotImplemented(n))),
            Err(LineFault::Checksum) => Some(Err(GCodeLineParserError::ChecksumMismatch(n))),
            Ok(Some(pr)) => {
                let (g, ln) = pr;
                if ln.is_some() {
                    self.gcode_line = ln;
                }
                Some(Ok(g))
            },
        }
    }

    /// Takes one byte of the channel; yields a result when it ends a line.
    pub fn feed(&mut self, b: u8) -> (r: Option<Result<GCode, GCodeLineParserError>>)
        requires
            old(self).wf(),
        ensures
            final(self).wf(),
            final(self)@ == step(old(self)@, Some(b)).0,
            yield_matches(r, step(old(self)@, Some(b)).1),
    {
        if self.state == ParserState::EndOfStream {
            return None;
        }
        if b == 10 {
            return self.finish_line();
        }
        if self.state == ParserState::ErrorRecovery {
            return None;
        }
        if b >= 128 || self.buffer.len() >= MAX_LINE {
            self.state = ParserState::ErrorRecovery;
            self.buffer = Vec::new();
            assert(self@.buffer =~= Seq::<u8>::empty());
            return None;
        }
        self.state = ParserState::Accumulating;
        self.buffer.push(b);
        None
    }

    /// Marks the end of the channel; yields `EOF` the first time.
    pub fn close(&mut self) -> (r: Option<Result<GCode, GCodeLineParserError>>)
        requires
            old(self).wf(),
        ensures
            final(self).wf(),
            final(self)@ == step(old(self)@, None).0,
            yield_matches(r, step(old(self)@, None).1),
    {
        if self.state == ParserState::EndOfStream {
            return None;
        }
        self.state = ParserState::EndOfStream;
        self.buffer = Vec::new();
        assert(self@.buffer =~= Seq::<u8>::empty());
        Some(Err(GCodeLineParserError::EOF))
    }
}

pub open spec fn opt_out(o: Option<LineModel>) -> Seq<LineModel> {
    match o {
        Some(m) => seq![m],
        None => Seq::empty(),
    }
}

/// The inputs `ins`, one step at a time: the last parser and every result.
pub open spec fn run(p: ParserView, ins: Seq<Option<u8>>) -> (ParserView, Seq<LineModel>)
    decreases ins.len(),
{
    if ins.len() == 0 {
        (p, Seq::empty())
    } else {
        let (q, out) = run(p, ins.drop_last());
        (step(q, ins.last()).0, out + opt_out(step(q, ins.last()).1))
    }
}

pub open spec fn bytes_in(bs: Seq<u8>) -> Seq<Option<u8>> {
    bs.map_values(|b: u8| Some(b))
}

pub open spec fn no_newline(bs: Seq<u8>) -> bool {
    forall|k: int| 0 <= k < bs.len() ==> #[trigger] bs[k] != 10
}

/// Running two inputs in turn is running their concatenation.
pub proof fn lemma_run_append(p: ParserView, a: Seq<Option<u8>>, b: Seq<Option<u8>>)
    ensures
        run(p, a + b) == (run(run(p, a).0, b).0, run(p, a).1 + run(run(p, a).0, b).1),
    decreases b.len(),
{
    if b.len() == 0 {
        assert(a + b =~= a);
        assert(run(p, a).1 + Seq::<LineModel>::empty() =~= run(p, a).1);
    } else {
        lemma_run_append(p, a, b.drop_last());
        assert((a + b).drop_last() =~= a + b.drop_last());
        assert((a + b).last() == b.last());
        let q = run(run(p, a).0, b.drop_last());
        let o = opt_out(step(q.0, b.last()).1);
        assert(run(p, a).1 + q.1 + o =~= run(p, a).1 + (q.1 + o));
    }
}

proof fn lemma_accumulate(p: ParserView, bs: Seq<u8>)
    requires
        p.state == ParserState::Idle || p.state == ParserState::Accumulating,
        no_newline(bs),
        all_ascii(bs),
        p.buffer.len() + bs.len() <= MAX_LINE,
    ensures
        run(p, bytes_in(bs)).1 == Seq::<LineModel>::empty(),
        run(p, bytes_in(bs)).0 == (ParserView {
            state: if bs.len() == 0 { p.state } else { ParserState::Accumulating },
            buffer: p.buffer + bs,
            ..p
        }),
    decreases bs.len(),
{
    if bs.len() == 0 {
        assert(bytes_in(bs) =~= Seq::<Option<u8>>::empty());
        assert(p.buffer + bs =~= p.buffer);
    } else {
        let init = bs.drop_last();
        assert(bytes_in(bs).drop_last() =~= bytes_in(init));
        assert(all_ascii(init));
        lemma_accumulate(p, init);
        assert(bs.last() == bs[bs.len() - 1]);
        assert((p.buffer + init).push(bs.last()) =~= p.buffer + bs);
        assert(Seq::<LineModel>::empty() + Seq::<LineModel>::empty() =~= Seq::<LineModel>::empty());
    }
}

proof fn lemma_one_line(p: ParserView, l: Seq<u8>)
    requires
        p.state == ParserState::Idle,
        p.buffer.len() == 0,
        no_newline(l),
        all_ascii(l),
        l.len() <= MAX_LINE,
    ensures
        run(p, bytes_in(l.push(10))).0 == step(
            ParserView { state: if l.len() == 0 { p.state } else { ParserState::Accumulating }, buffer: l, ..p },
            Some(10u8),
        ).0,
        run(p, bytes_in(l.push(10))).1 == opt_out(step(
            ParserView { state: if l.len() == 0 { p.state } else { ParserState::Accumulating }, buffer: l, ..p },
            Some(10u8),
        ).1),
{
    lemma_accumulate(p, l);
    assert(bytes_in(l.push(10)) =~= bytes_in(l) + seq![Some(10u8)]);
    lemma_run_append(p, bytes_in(l), seq![Some(10u8)]);
    assert(p.buffer + l =~= l);
    let q = run(p, bytes_in(l)).0;
    assert(seq![Some(10u8)].drop_last() =~= Seq::<Option<u8>>::empty());
    assert(run(q, Seq::<Option<u8>>::empty()) == (q, Seq::<LineModel>::empty()));
    assert(run(q, seq![Some(10u8)]).0 == step(q, Some(10u8)).0);
    assert(run(q, seq![Some(10u8)]).1 == Seq::<LineModel>::empty() + opt_out(step(q, Some(10u8)).1));
    assert(Seq::<LineModel>::empty() + opt_out(step(q, Some(10u8)).1) =~= opt_out(step(q, Some(10u8)).1));
    assert(Seq::<LineModel>::empty() + (Seq::<LineModel>::empty() + opt_out(step(q, Some(10u8)).1)) =~= opt_out(step(q, Some(10u8)).1));
}

/// Feeds `ins` from the front until the parser yields: the parser then, the
/// inputs left over, and the result; all inputs are used when none yields.
pub open spec fn consume(p: ParserView, ins: Seq<Option<u8>>) -> (ParserView, Seq<Option<u8>>, Option<LineModel>)
    decreases ins.len(),
{
    if ins.len() == 0 {
        (p, ins, None)
    } else if step(p, ins[0]).1.is_some() {
        (step(p, ins[0]).0, ins.drop_first(), step(p, ins[0]).1)
    } else {
        consume(step(p, ins[0]).0, ins.drop_first())
    }
}

/// Feeding inputs until the first result, then the rest, is running them all.
pub proof fn lemma_consume_run(p: ParserView, ins: Seq<Option<u8>>)
    ensures
        ({
            let (q, rest, o) = consume(p, ins);
            &&& run(p, ins) == (run(q, rest).0, opt_out(o) + run(q, rest).1)
            &&& o.is_none() ==> rest.len() == 0
        }),
    decreases ins.len(),
{
    if ins.len() == 0 {
        assert(opt_out(None) + Seq::<LineModel>::empty() =~= Seq::<LineModel>::empty());
    } else {
        let x = ins[0];
        let tail = ins.drop_first();
        assert(ins =~= seq![x] + tail);
        lemma_run_append(p, seq![x], tail);
        assert(seq![x].drop_last() =~= Seq::<Option<u8>>::empty());
        assert(run(p, Seq::<Option<u8>>::empty()) == (p, Seq::<LineModel>::empty()));
        assert(seq![x].last() == x);
        let q = step(p, x).0;
        let o = step(p, x).1;
        assert(run(p, seq![x]) == (q, Seq::<LineModel>::empty() + opt_out(o)));
        assert(Seq::<LineModel>::empty() + opt_out(o) =~= opt_out(o));
        if o.is_none() {
            lemma_consume_run(q, tail);
            assert(opt_out(o) =~= Seq::<LineModel>::empty());
            let (q2, rest2, o2) = consume(q, tail);
            assert(opt_out(o) + (opt_out(o2) + run(q2, rest2).1) =~= opt_out(o2) + run(q2, rest2).1);
        }
    }
}

/// Bytes of a line without its delimiter only accumulate in the buffer.
pub proof fn lemma_consume_accumulate(p: ParserView, l: Seq<u8>, rest: Seq<Option<u8>>)
    requires
        p.state == ParserState::Idle || p.state == ParserState::Accumulating,
        no_newline(l),
        all_ascii(l),
        p.buffer.len() + l.len() <= MAX_LINE,
    ensures
        consume(p, bytes_in(l) + rest) == consume(
            ParserView {
                state: if l.len() == 0 { p.state } else { ParserState::Accumulating },
                buffer: p.buffer + l,
                ..p
            },
            rest,
        ),
    decreases l.len(),
{
    if l.len() == 0 {
        assert(bytes_in(l) + rest =~= rest);
        assert(p.buffer + l =~= p.buffer);
    } else {
        let ins = bytes_in(l) + rest;
        let tail = l.drop_first();
        assert(ins[0] == Some(l[0]));
        assert(ins.drop_first() =~= bytes_in(tail) + rest);
        let q = step(p, Some(l[0])).0;
        assert(all_ascii(tail));
        lemma_consume_accumulate(q, tail, rest);
        assert(q.buffer + tail =~= p.buffer + l);
    }
}

/// A line that the grammar rejects, then one it accepts, on a parser at the
/// start of a line: exactly one error, then exactly one command, and the
/// line counter advances by two.
pub proof fn lemma_bad_line_then_good_line(p: ParserView, bad: Seq<u8>, good: Seq<u8>)
    requires
        p.state == ParserState::Idle,
        p.buffer.len() == 0,
        no_newline(bad),
        no_newline(good),
        all_ascii(bad),
        all_ascii(good),
        bad.len() <= MAX_LINE,
        good.len() <= MAX_LINE,
        parse_line(bad) is Fault,
        parse_line(good) is Command,
    ensures
        ({
            let (q, out) = run(p, bytes_in(bad.push(10) + good.push(10)));
            &&& out.len() == 2
            &&& out[0] == Err::<ParsedLine, GCodeLineParserError>(
                fault_error(parse_line(bad)->Fault_0, next_line(p.line)),
            )
            &&& out[1] == Ok::<ParsedLine, GCodeLineParserError>(parse_line(good)->Command_0)
            &&& q.line == next_line(next_line(p.line))
            &&& q.state == ParserState::Idle
        }),
{
    assert(bytes_in(bad.push(10) + good.push(10)) =~= bytes_in(bad.push(10)) + bytes_in(good.push(10)));
    lemma_run_append(p, bytes_in(bad.push(10)), bytes_in(good.push(10)));
    lemma_one_line(p, bad);
    let q1 = run(p, bytes_in(bad.push(10))).0;
    lemma_one_line(q1, good);
}

} // verus!
