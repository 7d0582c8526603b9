use vstd::prelude::*;
use crate::channel::CommChannel;
use crate::gcode::GCode;
use crate::line::{MAX_LINE, ParsedLine, all_ascii, parse_line};
use crate::parser::{
    GCodeLineParser, GCodeLineParserError, LineModel, ParserState, ParserView, bytes_in, consume,
    fault_error, fresh_view, lemma_consume_accumulate, lemma_consume_run, next_line, no_newline,
    opt_out, result_matches, run, step, yield_matches,
};

verus! {

/// One channel as a mathematical value: its parser, and the inputs that
/// arrived on it and that it has not read yet, oldest first (`None` is the
/// end of the channel).
pub struct SlotView {
    pub parser: ParserView,
    pub pending: Seq<Option<u8>>,
}

/// The router as a mathematical value; a channel absent from this build
/// has no slot.
pub struct MuxView {
    pub usb: Option<SlotView>,
    pub port1: Option<SlotView>,
    pub port2: Option<SlotView>,
}

pub open spec fn slot(v: MuxView, c: CommChannel) -> Option<SlotView> {
    match c {
        CommChannel::SerialUsb => v.usb,
        CommChannel::SerialPort1 => v.port1,
        CommChannel::SerialPort2 => v.port2,
        CommChannel::Internal => None,
    }
}

pub open spec fn set_slot(v: MuxView, c: CommChannel, s: SlotView) -> MuxView {
    match c {
        CommChannel::SerialUsb => MuxView { usb: Some(s), ..v },
        CommChannel::SerialPort1 => MuxView { port1: Some(s), ..v },
        CommChannel::SerialPort2 => MuxView { port2: Some(s), ..v },
        CommChannel::Internal => v,
    }
}

/// One input on channel `c` waits in its queue; nothing is parsed yet.
pub open spec fn receive_spec(v: MuxView, c: CommChannel, input: Option<u8>) -> MuxView {
    match slot(v, c) {
        None => v,
        Some(s) => set_slot(v, c, SlotView { pending: s.pending.push(input), ..s }),
    }
}

/// Channel `c` reads its queued inputs until its parser yields.
pub open spec fn take_from(v: MuxView, c: CommChannel) -> (MuxView, Option<LineModel>) {
    match slot(v, c) {
        None => (v, None),
        Some(s) => (
            set_slot(v, c, SlotView { parser: consume(s.parser, s.pending).0, pending: consume(s.parser, s.pending).1 }),
            consume(s.parser, s.pending).2,
        ),
    }
}

/// The channels are asked in the fixed order USB, port 1, port 2; each reads
/// its queued inputs until its parser yields. The first result is handed
/// out with its channel; `None` when every queue ran dry first.
pub open spec fn next_spec(v: MuxView) -> (MuxView, Option<(LineModel, CommChannel)>) {
    let (v1, o1) = take_from(v, CommChannel::SerialUsb);
    let (v2, o2) = take_from(v1, CommChannel::SerialPort1);
    let (v3, o3) = take_from(v2, CommChannel::SerialPort2);
    if o1.is_some() {
        (v1, Some((o1.unwrap(), CommChannel::SerialUsb)))
    } else if o2.is_some() {
        (v2, Some((o2.unwrap(), CommChannel::SerialPort1)))
    } else if o3.is_some() {
        (v3, Some((o3.unwrap(), CommChannel::SerialPort2)))
    } else {
        (v3, None)
    }
}

/// The inputs of channel `c`, one at a time.
pub open spec fn receive_all(v: MuxView, c: CommChannel, bs: Seq<u8>) -> MuxView
    decreases bs.len(),
{
    if bs.len() == 0 {
        v
    } else {
        receive_spec(receive_all(v, c, bs.drop_last()), c, Some(bs.last()))
    }
}

struct ChannelInput {
    parser: GCodeLineParser,
    inputs: Vec<Option<u8>>,
    pos: usize,
}

impl ChannelInput {
    spec fn view(&self) -> SlotView {
        SlotView { parser: self.parser@, pending: self.inputs@.subrange(self.pos as int, self.inputs@.len() as int) }
    }

    spec fn wf(&self) -> bool {
        &&& self.parser.wf()
        &&& self.pos <= self.inputs@.len()
    }

    fn new() -> (r: ChannelInput)
        ensures
            r.wf(),
            r.view() == (SlotView { parser: fresh_view(), pending: Seq::empty() }),
    {
        let r = ChannelInput { parser: GCodeLineParser::new(), inputs: Vec::new(), pos: 0 };
        assert(r.view().pending =~= Seq::<Option<u8>>::empty());
        r
    }

    fn receive(&mut self, input: Option<u8>)
        requires
            old(self).wf(),
        ensures
            final(self).wf(),
            final(self).view() == (SlotView { pending: old(self).view().pending.push(input), ..old(self).view() }),
    {
        self.inputs.push(input);
        assert(self.view().pending =~= old(self).view().pending.push(input));
    }

    fn take(&mut self) -> (r: Option<Result<GCode, GCodeLineParserError>>)
        requires
            old(self).wf(),
        ensures
            final(self).wf(),
            final(self).view() == (SlotView {
                parser: consume(old(self).view().parser, old(self).view().pending).0,
                pending: consume(old(self).view().parser, old(self).view().pending).1,
            }),
            yield_matches(r, consume(old(self).view().parser, old(self).view().pending).2),
    {
        let ghost start = consume(old(self).view().parser, old(self).view().pending);
        while self.pos < self.inputs.len()
            invariant
                self.wf(),
                start == consume(old(self).view().parser, old(self).view().pending),
                consume(self.view().parser, self.view().pending) == start,
            decreases self.inputs@.len() - self.pos,
        {
            let x = self.inputs[self.pos];
            let ghost rest = self.view().pending;
            let ghost cur = self.parser@;
            assert(rest[0] == x);
            assert(rest.drop_first() =~= self.inputs@.subrange(self.pos + 1, self.inputs@.len() as int));
            let out = match x {
                Some(b) => self.parser.feed(b),
                None => self.parser.close(),
            };
            assert(self.parser@ == step(cur, x).0);
            assert(yield_matches(out, step(cur, x).1));
            self.pos = self.pos + 1;
            assert(self.view().pending == rest.drop_first());
            if out.is_some() {
                assert(step(cur, x).1.is_some());
                assert(consume(cur, rest) == (step(cur, x).0, rest.drop_first(), step(cur, x).1));
                return out;
            }
            assert(step(cur, x).1.is_none());
            assert(consume(cur, rest) == consume(step(cur, x).0, rest.drop_first()));
        }
        let ghost cur = self.parser@;
        assert(self.view().pending =~= Seq::<Option<u8>>::empty());
        assert(consume(cur, self.view().pending) == (cur, Seq::<Option<u8>>::empty(), None::<LineModel>));
        self.inputs = Vec::new();
        self.pos = 0;
        assert(self.view().pending =~= Seq::<Option<u8>>::empty());
        None
    }
}

/// Command lines from every channel of the build, handed out one at a time.
pub struct GCodeMultiplexedInputStream {
    serial_usb_line_parser: Option<ChannelInput>,
    serial_port1_line_parser: Option<ChannelInput>,
    serial_port2_line_parser: Option<ChannelInput>,
}

spec fn opt_view(s: Option<ChannelInput>) -> Option<SlotView> {
    match s {
        Some(c) => Some(c.view()),
        None => None,
    }
}

spec fn opt_wf(s: Option<ChannelInput>) -> bool {
    match s {
        Some(c) => c.wf(),
        None => true,
    }
}

pub open spec fn fresh_slot(active: bool) -> Option<SlotView> {
    if active {
        Some(SlotView { parser: fresh_view(), pending: Seq::empty() })
    } else {
        None
    }
}

impl View for GCodeMultiplexedInputStream {
    type V = MuxView;

    closed spec fn view(&self) -> MuxView {
        MuxView {
            usb: opt_view(self.serial_usb_line_parser),
            port1: opt_view(self.serial_port1_line_parser),
            port2: opt_view(self.serial_port2_line_parser),
        }
    }
}

fn new_slot(active: bool) -> (r: Option<ChannelInput>)
    ensures
        opt_wf(r),
        opt_view(r) == fresh_slot(active),
{
    if active {
        Some(ChannelInput::new())
    } else {
        None
    }
}

fn receive_slot(s: &mut Option<ChannelInput>, input: Option<u8>)
    requires
        opt_wf(*old(s)),
    ensures
        opt_wf(*final(s)),
        opt_view(*final(s)) == match opt_view(*old(s)) {
            None => None,
            Some(x) => Some(SlotView { pending: x.pending.push(input), ..x }),
        },
{
    match s {
        Some(c) => c.receive(input),
        None => {},
    }
}

fn take_slot(s: &mut Option<ChannelInput>) -> (r: Option<Result<GCode, GCodeLineParserError>>)
    requires
        opt_wf(*old(s)),
    ensures
        opt_wf(*final(s)),
        match opt_view(*old(s)) {
            None => opt_view(*final(s)) == None::<SlotView> && r.is_none(),
            Some(x) => {
                &&& opt_view(*final(s)) == Some(SlotView { parser: consume(x.parser, x.pending).0, pending: consume(x.parser, x.pending).1 })
                &&& yield_matches(r, consume(x.parser, x.pending).2)
            },
        },
{
    match s {
        Some(c) => c.take(),
        None => None,
    }
}

impl GCodeMultiplexedInputStream {
    pub closed spec fn wf(&self) -> bool {
        &&& opt_wf(self.serial_usb_line_parser)
        &&& opt_wf(self.serial_port1_line_parser)
        &&& opt_wf(self.serial_port2_line_parser)
    }

    /// A router over the channels that this build has.
    pub fn new(serial_usb: bool, serial_port1: bool, serial_port2: bool) -> (r: Self)
        ensures
            r.wf(),
            r@ == (MuxView { usb: fresh_slot(serial_usb), port1: fresh_slot(serial_port1), port2: fresh_slot(serial_port2) }),
    {
        GCodeMultiplexedInputStream {
            serial_usb_line_parser: new_slot(serial_usb),
            serial_port1_line_parser: new_slot(serial_port1),
            serial_port2_line_parser: new_slot(serial_port2),
        }
    }

    fn receive_input(&mut self, channel: CommChannel, input: Option<u8>)
        requires
            old(self).wf(),
        ensures
            final(self).wf(),
            final(self)@ == receive_spec(old(self)@, channel, input),
    {
        match channel {
            CommChannel::SerialUsb => receive_slot(&mut self.serial_usb_line_parser, input),
            CommChannel::SerialPort1 => receive_slot(&mut self.serial_port1_line_parser, input),
            CommChannel::SerialPort2 => receive_slot(&mut self.serial_port2_line_parser, input),
            CommChannel::Internal => {},
        }
    }

    /// Queues one byte that arrived on `channel`; a channel absent from this
    /// build ignores it.
    pub fn receive(&mut self, channel: CommChannel, b: u8)
        requires
            old(self).wf(),
        ensures
            final(self).wf(),
            final(self)@ == receive_spec(old(self)@, channel, Some(b)),
    {
        self.receive_input(channel, Some(b));
    }

    /// Queues the bytes that arrived on `channel`, in order.
    pub fn receive_bytes(&mut self, channel: CommChannel, bytes: &Vec<u8>)
        requires
            old(self).wf(),
        ensures
            final(self).wf(),
            final(self)@ == receive_all(old(self)@, channel, bytes@),
    {
        let mut i: usize = 0;
        assert(bytes@.subrange(0, 0) =~= Seq::<u8>::empty());
        while i < bytes.len()
            invariant
                i <= bytes@.len(),
                self.wf(),
                self@ == receive_all(old(self)@, channel, bytes@.subrange(0, i as int)),
            decreases bytes.len() - i,
        {
            assert(bytes@.subrange(0, i + 1).drop_last() =~= bytes@.subrange(0, i as int));
            self.receive_input(channel, Some(bytes[i]));
            i = i + 1;
        }
        assert(bytes@.subrange(0, bytes@.len() as int) =~= bytes@);
    }

    /// Queues the end of `channel`.
    pub fn close(&mut self, channel: CommChannel)
        requires
            old(self).wf(),
        ensures
            final(self).wf(),
            final(self)@ == receive_spec(old(self)@, channel, None),
    {
        self.receive_input(channel, None);
    }

    /// The next result of any channel, with the channel it came on. The
    /// channels read their queued inputs in the fixed order USB, port 1,
    /// port 2, and the first line that yields is handed out; the parser of
    /// its channel then stands just after that line. `None` when no queued
    /// input completes a result.
    pub fn next_gcode(&mut self) -> (r: Option<(Result<GCode, GCodeLineParserError>, CommChannel)>)
        requires
            old(self).wf(),
        ensures
            final(self).wf(),
            final(self)@ == next_spec(old(self)@).0,
            match (r, next_spec(old(self)@).1) {
                (None, None) => true,
                (Some((res, c)), Some((m, c2))) => c == c2 && result_matches(res, m),
                _ => false,
            },
    {
        match take_slot(&mut self.serial_usb_line_parser) {
            Some(r) => {
                return Some((r, CommChannel::SerialUsb));
            },
            None => {},
        }
        match take_slot(&mut self.serial_port1_line_parser) {
            Some(r) => {
                return Some((r, CommChannel::SerialPort1));
            },
            None => {},
        }
        match take_slot(&mut self.serial_port2_line_parser) {
            Some(r) => Some((r, CommChannel::SerialPort2)),
            None => None,
        }
    }

    /// The parser state of `channel`; `ErrorRecovery` for a channel without
    /// a parser.
    pub fn get_state(&self, channel: CommChannel) -> (r: ParserState)
        ensures
            r == match slot(self@, channel) {
                Some(s) => s.parser.state,
                None => ParserState::ErrorRecovery,
            },
    {
        let s = match channel {
            CommChannel::SerialUsb => &self.serial_usb_line_parser,
            CommChannel::SerialPort1 => &self.serial_port1_line_parser,
            CommChannel::SerialPort2 => &self.serial_port2_line_parser,
            CommChannel::Internal => {
                return ParserState::ErrorRecovery;
            },
        };
        match s {
            Some(c) => c.parser.get_state(),
            None => ParserState::ErrorRecovery,
        }
    }

    /// The number of lines `channel` has delimited; 0 for a channel without
    /// a parser.
    pub fn get_line(&self, channel: CommChannel) -> (r: u32)
        ensures
            r == match slot(self@, channel) {
                Some(s) => s.parser.line,
                None => 0u32,
            },
    {
        let s = match channel {
            CommChannel::SerialUsb => &self.serial_usb_line_parser,
            CommChannel::SerialPort1 => &self.serial_port1_line_parser,
            CommChannel::SerialPort2 => &self.serial_port2_line_parser,
            CommChannel::Internal => {
                return 0;
            },
        };
        match s {
            Some(c) => c.parser.get_line(),
            None => 0,
        }
    }

    /// The line number of the last numbered command of `channel`.
    pub fn get_gcode_line(&self, channel: CommChannel) -> (r: Option<u32>)
        ensures
            r == match slot(self@, channel) {
                Some(s) => s.parser.gcode_line,
                None => None,
            },
    {
        let s = match channel {
            CommChannel::SerialUsb => &self.serial_usb_line_parser,
            CommChannel::SerialPort1 => &self.serial_port1_line_parser,
            CommChannel::SerialPort2 => &self.serial_port2_line_parser,
            CommChannel::Internal => {
                return None;
            },
        };
        match s {
            Some(c) => c.parser.gcode_line(),
            None => None,
        }
    }

    /// Resets `channel` alone: a fresh parser, and its queued inputs,
    /// an end of stream among them, are dropped.
    pub fn reset(&mut self, comm_channel: CommChannel)
        requires
            old(self).wf(),
        ensures
            final(self).wf(),
            final(self)@ == match slot(old(self)@, comm_channel) {
                Some(s) => set_slot(old(self)@, comm_channel, SlotView { parser: fresh_view(), pending: Seq::empty() }),
                None => old(self)@,
            },
    {
        let s = match comm_channel {
            CommChannel::SerialUsb => &mut self.serial_usb_line_parser,
            CommChannel::SerialPort1 => &mut self.serial_port1_line_parser,
            CommChannel::SerialPort2 => &mut self.serial_port2_line_parser,
            CommChannel::Internal => {
                return;
            },
        };
        match s {
            Some(c) => {
                *c = ChannelInput::new();
            },
            None => {},
        }
    }
}

/// What happens at the router: an input on a channel, or a request for the
/// next result.
pub enum MuxEvent {
    Input(CommChannel, Option<u8>),
    Next,
}

pub open spec fn event_step(v: MuxView, e: MuxEvent) -> (MuxView, Seq<(LineModel, CommChannel)>) {
    match e {
        MuxEvent::Input(c, i) => (receive_spec(v, c, i), Seq::empty()),
        MuxEvent::Next => (
            next_spec(v).0,
            match next_spec(v).1 {
                Some(x) => seq![x],
                None => Seq::empty(),
            },
        ),
    }
}

/// The events in turn: the last router and every result handed out.
pub open spec fn run_events(v: MuxView, evs: Seq<MuxEvent>) -> (MuxView, Seq<(LineModel, CommChannel)>)
    decreases evs.len(),
{
    if evs.len() == 0 {
        (v, Seq::empty())
    } else {
        let (w, outs) = run_events(v, evs.drop_last());
        (event_step(w, evs.last()).0, outs + event_step(w, evs.last()).1)
    }
}

/// The inputs of channel `c` among the events.
pub open spec fn inputs_of(evs: Seq<MuxEvent>, c: CommChannel) -> Seq<Option<u8>>
    decreases evs.len(),
{
    if evs.len() == 0 {
        Seq::empty()
    } else {
        let r = inputs_of(evs.drop_last(), c);
        match evs.last() {
            MuxEvent::Input(c2, i) => if c2 == c {
                r.push(i)
            } else {
                r
            },
            MuxEvent::Next => r,
        }
    }
}

/// The results handed out for channel `c`, in order.
pub open spec fn results_of(outs: Seq<(LineModel, CommChannel)>, c: CommChannel) -> Seq<LineModel>
    decreases outs.len(),
{
    if outs.len() == 0 {
        Seq::empty()
    } else {
        let r = results_of(outs.drop_last(), c);
        if outs.last().1 == c {
            r.push(outs.last().0)
        } else {
            r
        }
    }
}

/// The run of a slot's parser over its queued inputs.
pub open spec fn slot_run(s: SlotView) -> (ParserView, Seq<LineModel>) {
    run(s.parser, s.pending)
}

/// Letting channel `d` read until it yields: another channel is untouched;
/// for `d` itself, its result and then what its remaining inputs would give
/// is what all its queued inputs would have given.
proof fn lemma_take_from(v: MuxView, d: CommChannel, c: CommChannel)
    requires
        slot(v, c).is_some(),
    ensures
        ({
            let (v1, o) = take_from(v, d);
            let s = slot(v, c).unwrap();
            &&& slot(v1, c).is_some()
            &&& d != c ==> slot(v1, c) == slot(v, c)
            &&& d == c ==> slot_run(slot(v1, c).unwrap()).0 == slot_run(s).0
            &&& d == c ==> opt_out(o) + slot_run(slot(v1, c).unwrap()).1 == slot_run(s).1
        }),
{
    let s = slot(v, c).unwrap();
    lemma_consume_run(s.parser, s.pending);
}

/// What a request for the next result does to channel `c`: the result, if
/// it is for `c`, then what its queue would still give, is what its queue
/// would have given.
proof fn lemma_next_step(v: MuxView, c: CommChannel)
    requires
        slot(v, c).is_some(),
    ensures
        ({
            let (w, out) = next_spec(v);
            let mine = match out {
                Some(x) => if x.1 == c { seq![x.0] } else { Seq::<LineModel>::empty() },
                None => Seq::<LineModel>::empty(),
            };
            &&& slot(w, c).is_some()
            &&& slot_run(slot(w, c).unwrap()).0 == slot_run(slot(v, c).unwrap()).0
            &&& mine + slot_run(slot(w, c).unwrap()).1 == slot_run(slot(v, c).unwrap()).1
        }),
{
    let (v1, o1) = take_from(v, CommChannel::SerialUsb);
    let (v2, o2) = take_from(v1, CommChannel::SerialPort1);
    let (v3, o3) = take_from(v2, CommChannel::SerialPort2);
    lemma_take_from(v, CommChannel::SerialUsb, c);
    lemma_take_from(v1, CommChannel::SerialPort1, c);
    lemma_take_from(v2, CommChannel::SerialPort2, c);
    let r1 = slot_run(slot(v1, c).unwrap()).1;
    let r2 = slot_run(slot(v2, c).unwrap()).1;
    let r3 = slot_run(slot(v3, c).unwrap()).1;
    assert(opt_out(None::<LineModel>) + r1 =~= r1);
    assert(opt_out(None::<LineModel>) + r2 =~= r2);
    assert(opt_out(None::<LineModel>) + r3 =~= r3);
    assert(Seq::<LineModel>::empty() + r1 =~= r1);
    assert(Seq::<LineModel>::empty() + r2 =~= r2);
    assert(Seq::<LineModel>::empty() + r3 =~= r3);
}

/// Whatever the interleaving of inputs on the channels and requests for
/// results, the results of each channel leave the router in the order that
/// parsing all its inputs gives, none lost or repeated: those handed out,
/// then what its still queued inputs would give, are what its parser and
/// queue at first, followed by its own inputs, give.
#[verifier::rlimit(60)]
pub proof fn lemma_channel_order(v: MuxView, evs: Seq<MuxEvent>, c: CommChannel)
    requires
        slot(v, c).is_some(),
    ensures
        ({
            let (w, outs) = run_events(v, evs);
            let s = slot(v, c).unwrap();
            let all = run(s.parser, s.pending + inputs_of(evs, c));
            &&& slot(w, c).is_some()
            &&& slot_run(slot(w, c).unwrap()).0 == all.0
            &&& results_of(outs, c) + slot_run(slot(w, c).unwrap()).1 == all.1
        }),
    decreases evs.len(),
{
    let s = slot(v, c).unwrap();
    if evs.len() == 0 {
        assert(s.pending + Seq::<Option<u8>>::empty() =~= s.pending);
        assert(Seq::<LineModel>::empty() + slot_run(s).1 =~= slot_run(s).1);
    } else {
        let init = evs.drop_last();
        lemma_channel_order(v, init, c);
        let (w0, outs0) = run_events(v, init);
        let s0 = slot(w0, c).unwrap();
        let ins0 = inputs_of(init, c);
        let all0 = run(s.parser, s.pending + ins0);
        let res0 = results_of(outs0, c);
        assert(res0 + slot_run(s0).1 == all0.1);
        match evs.last() {
            MuxEvent::Input(c2, i) => {
                assert(outs0 + Seq::<(LineModel, CommChannel)>::empty() =~= outs0);
                if c2 == c {
                    let ins = ins0.push(i);
                    assert(ins.drop_last() =~= ins0);
                    assert((s.pending + ins).drop_last() =~= s.pending + ins0);
                    assert((s.pending + ins).last() == i);
                    let s1 = SlotView { pending: s0.pending.push(i), ..s0 };
                    assert(s1.pending.drop_last() =~= s0.pending);
                    assert(s1.pending.last() == i);
                    let o = opt_out(step(slot_run(s0).0, i).1);
                    assert(slot_run(s1).1 == slot_run(s0).1 + o);
                    assert(res0 + (slot_run(s0).1 + o) =~= (res0 + slot_run(s0).1) + o);
                }
            },
            MuxEvent::Next => {
                lemma_next_step(w0, c);
                let (w, out) = next_spec(w0);
                let rw = slot_run(slot(w, c).unwrap()).1;
                match out {
                    None => {
                        assert(outs0 + Seq::<(LineModel, CommChannel)>::empty() =~= outs0);
                        assert(Seq::<LineModel>::empty() + rw =~= rw);
                    },
                    Some(x) => {
                        let outs = outs0 + seq![x];
                        assert(outs =~= outs0.push(x));
                        assert(outs.drop_last() =~= outs0);
                        if x.1 == c {
                            assert(res0.push(x.0) + rw =~= res0 + (seq![x.0] + rw));
                        } else {
                            assert(Seq::<LineModel>::empty() + rw =~= rw);
                        }
                    },
                }
            },
        }
    }
}

proof fn lemma_take_line(v: MuxView, c: CommChannel, l: Seq<u8>, rest: Seq<Option<u8>>)
    requires
        slot(v, c).is_some(),
        slot(v, c).unwrap().parser.state == ParserState::Idle,
        slot(v, c).unwrap().parser.buffer.len() == 0,
        slot(v, c).unwrap().pending == bytes_in(l.push(10)) + rest,
        no_newline(l),
        all_ascii(l),
        l.len() <= MAX_LINE,
        !(parse_line(l) is Blank),
    ensures
        ({
            let p = slot(v, c).unwrap().parser;
            let full = ParserView { state: if l.len() == 0 { p.state } else { ParserState::Accumulating }, buffer: l, ..p };
            let (v1, o) = take_from(v, c);
            &&& o == step(full, Some(10u8)).1
            &&& o.is_some()
            &&& slot(v1, c) == Some(SlotView { parser: step(full, Some(10u8)).0, pending: rest })
        }),
{
    let p = slot(v, c).unwrap().parser;
    assert(bytes_in(l.push(10)) + rest =~= bytes_in(l) + (seq![Some(10u8)] + rest));
    lemma_consume_accumulate(p, l, seq![Some(10u8)] + rest);
    assert(p.buffer + l =~= l);
    assert((seq![Some(10u8)] + rest)[0] == Some(10u8));
    assert((seq![Some(10u8)] + rest).drop_first() =~= rest);
}

proof fn lemma_take_empty(v: MuxView, d: CommChannel)
    requires
        slot(v, d).is_some() ==> slot(v, d).unwrap().pending.len() == 0,
    ensures
        take_from(v, d) == (v, None::<LineModel>),
{
}

/// A line that the grammar rejects, then one it accepts, queued on channel
/// `c` at the start of a line while no other channel has input: the next
/// request hands out exactly one error for `c`, the one after exactly the
/// command, and the channel's line counter has then advanced by two.
pub proof fn lemma_router_bad_line_then_good_line(v: MuxView, c: CommChannel, bad: Seq<u8>, good: Seq<u8>)
    requires
        slot(v, c).is_some(),
        slot(v, c).unwrap().parser.state == ParserState::Idle,
        slot(v, c).unwrap().parser.buffer.len() == 0,
        slot(v, c).unwrap().pending == bytes_in(bad.push(10) + good.push(10)),
        forall|d: CommChannel| d != c && (#[trigger] slot(v, d)).is_some() ==> slot(v, d).unwrap().pending.len() == 0,
        no_newline(bad),
        no_newline(good),
        all_ascii(bad),
        all_ascii(good),
        bad.len() <= MAX_LINE,
        good.len() <= MAX_LINE,
        parse_line(bad) is Fault,
        parse_line(good) is Command,
    ensures
        ({
            let line = slot(v, c).unwrap().parser.line;
            let (v1, o1) = next_spec(v);
            let (v2, o2) = next_spec(v1);
            &&& o1 == Some((Err::<ParsedLine, GCodeLineParserError>(fault_error(parse_line(bad)->Fault_0, next_line(line))), c))
            &&& o2 == Some((Ok::<ParsedLine, GCodeLineParserError>(parse_line(good)->Command_0), c))
            &&& slot(v2, c).unwrap().parser.line == next_line(next_line(line))
            &&& slot(v2, c).unwrap().parser.state == ParserState::Idle
        }),
{
    let s = slot(v, c).unwrap();
    assert(bytes_in(bad.push(10) + good.push(10)) =~= bytes_in(bad.push(10)) + bytes_in(good.push(10)));
    lemma_take_line(v, c, bad, bytes_in(good.push(10)));
    let (w1, _) = take_from(v, c);
    assert(bytes_in(good.push(10)) + Seq::<Option<u8>>::empty() =~= bytes_in(good.push(10)));
    lemma_take_line(w1, c, good, Seq::empty());
    assert(c != CommChannel::Internal);
    if c == CommChannel::SerialUsb {
        let (v1, _) = next_spec(v);
        assert(v1 == w1);
    } else if c == CommChannel::SerialPort1 {
        lemma_take_empty(v, CommChannel::SerialUsb);
        let (v1, _) = next_spec(v);
        lemma_take_empty(v1, CommChannel::SerialUsb);
    } else {
        lemma_take_empty(v, CommChannel::SerialUsb);
        lemma_take_empty(v, CommChannel::SerialPort1);
        let (v1, _) = next_spec(v);
        lemma_take_empty(v1, CommChannel::SerialUsb);
        lemma_take_empty(v1, CommChannel::SerialPort1);
    }
}

} // verus!
