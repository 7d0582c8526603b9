use vstd::prelude::*;
use crate::channel::CommChannel;
use crate::outcome::{
    CodeExecutionFailure, CodeExecutionResult, CodeExecutionSuccess, EventStatus, is_satisfied,
    satisfied,
};

verus! {

/// A command whose completion is awaited.
#[derive(Clone, Copy, Debug, PartialEq, Eq, Structural)]
pub struct Waiter {
    pub id: u64,
    pub channel: CommChannel,
    /// What correlates the notice with the command, such as its line number.
    pub request: u32,
    pub status: EventStatus,
}

/// The completion of an awaited command, for its channel.
#[derive(Clone, Copy, Debug, PartialEq, Eq, Structural)]
pub struct CompletionNotice {
    pub id: u64,
    pub channel: CommChannel,
    pub request: u32,
}

pub open spec fn notice_of(w: Waiter) -> CompletionNotice {
    CompletionNotice { id: w.id, channel: w.channel, request: w.request }
}

/// Splits the waiters at flags `f` into those still waiting and the notices
/// of those whose condition holds, each in registration order.
pub open spec fn fire(ws: Seq<Waiter>, f: u32) -> (Seq<Waiter>, Seq<CompletionNotice>)
    decreases ws.len(),
{
    if ws.len() == 0 {
        (Seq::empty(), Seq::empty())
    } else {
        let (rem, ns) = fire(ws.drop_last(), f);
        let w = ws.last();
        if satisfied(f, w.status) {
            (rem, ns.push(notice_of(w)))
        } else {
            (rem.push(w), ns)
        }
    }
}

/// The waiters and flags as a mathematical value.
pub struct DeferredView {
    pub flags: u32,
    pub waiters: Seq<Waiter>,
    pub next_id: u64,
}

pub open spec fn view_wf(v: DeferredView) -> bool {
    forall|k: int| 0 <= k < v.waiters.len() ==> #[trigger] v.waiters[k].id < v.next_id
}

/// The flags become `f`, and the waiters whose condition then holds leave
/// with a notice.
pub open spec fn settle_spec(v: DeferredView, f: u32) -> (DeferredView, Seq<CompletionNotice>) {
    (DeferredView { flags: f, waiters: fire(v.waiters, f).0, ..v }, fire(v.waiters, f).1)
}

/// Raising `r`: the flags gain `r`.
pub open spec fn raise_spec(v: DeferredView, r: u32) -> (DeferredView, Seq<CompletionNotice>) {
    settle_spec(v, v.flags | r)
}

/// Clearing `r`: the flags lose `r`.
pub open spec fn clear_spec(v: DeferredView, r: u32) -> (DeferredView, Seq<CompletionNotice>) {
    settle_spec(v, v.flags & !r)
}

/// Registering a waiter: `None` for an empty mask or when identifiers are
/// spent.
pub open spec fn register_spec(v: DeferredView, channel: CommChannel, request: u32, status: EventStatus)
    -> (DeferredView, Option<u64>)
{
    if status.mask == 0 || v.next_id == u64::MAX {
        (v, None)
    } else {
        let w = Waiter { id: v.next_id, channel, request, status };
        (DeferredView { waiters: v.waiters.push(w), next_id: (v.next_id + 1) as u64, ..v }, Some(v.next_id))
    }
}

/// The response a dispatched command gets on its channel now.
#[derive(Clone, Copy, Debug, PartialEq, Eq, Structural)]
pub enum Reply {
    /// Done: acknowledge now.
    Ack,
    /// Done, and the executor has already reported.
    Reported,
    /// Accepted: a notice with this identifier comes later.
    Deferred(u64),
    /// Failed: report the failure now.
    Failed(CodeExecutionFailure),
}

/// The event flags and the commands that wait on them.
pub struct DeferredCompletion {
    flags: u32,
    waiters: Vec<Waiter>,
    next_id: u64,
}

impl View for DeferredCompletion {
    type V = DeferredView;

    closed spec fn view(&self) -> DeferredView {
        DeferredView { flags: self.flags, waiters: self.waiters@, next_id: self.next_id }
    }
}

impl DeferredCompletion {
    pub open spec fn wf(&self) -> bool {
        view_wf(self@)
    }

    pub fn new() -> (r: DeferredCompletion)
        ensures
            r@ == (DeferredView { flags: 0, waiters: Seq::empty(), next_id: 0 }),
            r.wf(),
    {
        let r = DeferredCompletion { flags: 0, waiters: Vec::new(), next_id: 0 };
        assert(r@.waiters =~= Seq::<Waiter>::empty());
        r
    }

    pub fn flags(&self) -> (r: u32)
        ensures
            r == self@.flags,
    {
        self.flags
    }

    pub fn waiter_count(&self) -> (r: usize)
        ensures
            r == self@.waiters.len(),
    {
        self.waiters.len()
    }

    /// Whether the waiter `id` is still registered.
    pub fn is_waiting(&self, id: u64) -> (r: bool)
        ensures
            r == exists|k: int| 0 <= k < self@.waiters.len() && #[trigger] self@.waiters[k].id == id,
    {
        let mut i: usize = 0;
        while i < self.waiters.len()
            invariant
                i <= self.waiters@.len(),
                forall|k: int| 0 <= k < i ==> #[trigger] self.waiters@[k].id != id,
            decreases self.waiters.len() - i,
        {
            if self.waiters[i].id == id {
                return true;
            }
            i = i + 1;
        }
        false
    }

    /// Registers a waiter for `channel`; gives its identifier.
    pub fn register(&mut self, channel: CommChannel, request: u32, status: EventStatus) -> (r: Option<u64>)
        requires
            old(self).wf(),
        ensures
            final(self).wf(),
            (final(self)@, r) == register_spec(old(self)@, channel, request, status),
    {
        if status.mask == 0 || self.next_id == u64::MAX {
            return None;
        }
        let id = self.next_id;
        self.waiters.push(Waiter { id, channel, request, status });
        self.next_id = id + 1;
        Some(id)
    }

    fn settle(&mut self, f: u32) -> (ns: Vec<CompletionNotice>)
        requires
            old(self).wf(),
        ensures
            final(self).wf(),
            (final(self)@, ns@) == settle_spec(old(self)@, f),
    {
        let ghost ws = self.waiters@;
        let mut rem: Vec<Waiter> = Vec::new();
        let mut ns: Vec<CompletionNotice> = Vec::new();
        let mut i: usize = 0;
        assert(ws.subrange(0, 0) =~= Seq::<Waiter>::empty());
        while i < self.waiters.len()
            invariant
                ws == self.waiters@,
                i <= ws.len(),
                (rem@, ns@) == fire(ws.subrange(0, i as int), f),
                forall|k: int| 0 <= k < rem@.len() ==> #[trigger] rem@[k].id < self.next_id,
                view_wf(self@),
            decreases ws.len() - i,
        {
            let w = self.waiters[i];
            assert(ws.subrange(0, i + 1).drop_last() =~= ws.subrange(0, i as int));
            if is_satisfied(f, w.status) {
                ns.push(CompletionNotice { id: w.id, channel: w.channel, request: w.request });
            } else {
                rem.push(w);
            }
            i = i + 1;
        }
        assert(ws.subrange(0, ws.len() as int) =~= ws);
        self.flags = f;
        self.waiters = rem;
        ns
    }

    /// Raises the flags of `r` and hands out, once each, the notices of the
    /// waiters whose condition now holds.
    pub fn raise(&mut self, r: u32) -> (ns: Vec<CompletionNotice>)
        requires
            old(self).wf(),
        ensures
            final(self).wf(),
            (final(self)@, ns@) == raise_spec(old(self)@, r),
    {
        let f = self.flags | r;
        self.settle(f)
    }

    /// Lowers the flags of `r`, so that the next episode starts clear, and
    /// hands out the notices of the waiters whose condition now holds (those
    /// that wait for a flag to drop).
    pub fn clear(&mut self, r: u32) -> (ns: Vec<CompletionNotice>)
        requires
            old(self).wf(),
        ensures
            final(self).wf(),
            (final(self)@, ns@) == clear_spec(old(self)@, r),
    {
        let f = self.flags & !r;
        self.settle(f)
    }

    /// Drops every waiter of `channel`, as when it disconnects; raises nothing.
    pub fn abort_channel(&mut self, channel: CommChannel)
        requires
            old(self).wf(),
        ensures
            final(self).wf(),
            final(self)@.flags == old(self)@.flags,
            final(self)@.next_id == old(self)@.next_id,
            final(self)@.waiters == old(self)@.waiters.filter(|w: Waiter| w.channel != channel),
    {
        let ghost ws = self.waiters@;
        let mut rem: Vec<Waiter> = Vec::new();
        let mut i: usize = 0;
        assert(ws.subrange(0, 0).filter(|w: Waiter| w.channel != channel) =~= Seq::<Waiter>::empty());
        while i < self.waiters.len()
            invariant
                ws == self.waiters@,
                i <= ws.len(),
                rem@ == ws.subrange(0, i as int).filter(|w: Waiter| w.channel != channel),
                forall|k: int| 0 <= k < rem@.len() ==> #[trigger] rem@[k].id < self.next_id,
                view_wf(self@),
            decreases ws.len() - i,
        {
            let w = self.waiters[i];
            assert(ws.subrange(0, i + 1).drop_last() =~= ws.subrange(0, i as int));
            proof {
                reveal(Seq::filter);
            }
            if w.channel != channel {
                rem.push(w);
            }
            i = i + 1;
        }
        assert(ws.subrange(0, ws.len() as int) =~= ws);
        self.waiters = rem;
    }

    /// Turns the outcome of a command from `channel` into the reply due now:
    /// a deferred one whose condition already holds is done at once, any
    /// other gets a waiter.
    pub fn dispatch(&mut self, channel: CommChannel, request: u32, result: CodeExecutionResult) -> (r: Reply)
        requires
            old(self).wf(),
        ensures
            final(self).wf(),
            match result {
                Ok(CodeExecutionSuccess::OK) | Ok(CodeExecutionSuccess::QUEUED) => r == Reply::Ack && final(self)@ == old(self)@,
                Ok(CodeExecutionSuccess::CONSUMED) => r == Reply::Reported && final(self)@ == old(self)@,
                Ok(CodeExecutionSuccess::DEFERRED(st)) => if satisfied(old(self)@.flags, st) {
                    r == Reply::Ack && final(self)@ == old(self)@
                } else {
                    let (v, id) = register_spec(old(self)@, channel, request, st);
                    &&& final(self)@ == v
                    &&& r == match id {
                        Some(i) => Reply::Deferred(i),
                        None => Reply::Failed(CodeExecutionFailure::ERR),
                    }
                },
                Err(f) => r == Reply::Failed(f) && final(self)@ == old(self)@,
            },
    {
        match result {
            Ok(CodeExecutionSuccess::OK) | Ok(CodeExecutionSuccess::QUEUED) => Reply::Ack,
            Ok(CodeExecutionSuccess::CONSUMED) => Reply::Reported,
            Ok(CodeExecutionSuccess::DEFERRED(st)) => if is_satisfied(self.flags, st) {
                Reply::Ack
            } else {
                match self.register(channel, request, st) {
                    Some(i) => Reply::Deferred(i),
                    None => Reply::Failed(CodeExecutionFailure::ERR),
                }
            },
            Err(f) => Reply::Failed(f),
        }
    }
}

/// Raising each of `rs` in turn: the last state and every notice.
pub open spec fn raise_all(v: DeferredView, rs: Seq<u32>) -> (DeferredView, Seq<CompletionNotice>)
    decreases rs.len(),
{
    if rs.len() == 0 {
        (v, Seq::empty())
    } else {
        let (w, ns) = raise_all(v, rs.drop_last());
        (raise_spec(w, rs.last()).0, ns + raise_spec(w, rs.last()).1)
    }
}

pub open spec fn union_of(rs: Seq<u32>) -> u32
    decreases rs.len(),
{
    if rs.len() == 0 {
        0
    } else {
        union_of(rs.drop_last()) | rs.last()
    }
}

pub open spec fn count_waiter(ws: Seq<Waiter>, id: u64) -> nat
    decreases ws.len(),
{
    if ws.len() == 0 {
        0
    } else {
        count_waiter(ws.drop_last(), id) + if ws.last().id == id { 1nat } else { 0nat }
    }
}

pub open spec fn count_notice(ns: Seq<CompletionNotice>, id: u64) -> nat
    decreases ns.len(),
{
    if ns.len() == 0 {
        0
    } else {
        count_notice(ns.drop_last(), id) + if ns.last().id == id { 1nat } else { 0nat }
    }
}

/// Every waiter `id` is for `channel` and `request` and awaits `st`.
pub open spec fn waiters_tagged(ws: Seq<Waiter>, id: u64, channel: CommChannel, request: u32, st: EventStatus) -> bool {
    forall|k: int| 0 <= k < ws.len() && #[trigger] ws[k].id == id ==> ws[k].channel == channel
        && ws[k].request == request && ws[k].status == st
}

/// Every notice `id` goes to `channel` and names `request`.
pub open spec fn notices_tagged(ns: Seq<CompletionNotice>, id: u64, channel: CommChannel, request: u32) -> bool {
    forall|k: int| 0 <= k < ns.len() && #[trigger] ns[k].id == id ==> ns[k].channel == channel
        && ns[k].request == request
}

proof fn lemma_count_notice_concat(a: Seq<CompletionNotice>, b: Seq<CompletionNotice>, id: u64)
    ensures
        count_notice(a + b, id) == count_notice(a, id) + count_notice(b, id),
    decreases b.len(),
{
    if b.len() == 0 {
        assert(a + b =~= a);
    } else {
        lemma_count_notice_concat(a, b.drop_last(), id);
        assert((a + b).drop_last() =~= a + b.drop_last());
    }
}

proof fn lemma_count_waiter_absent(ws: Seq<Waiter>, id: u64)
    requires
        forall|k: int| 0 <= k < ws.len() ==> #[trigger] ws[k].id != id,
    ensures
        count_waiter(ws, id) == 0,
    decreases ws.len(),
{
    if ws.len() > 0 {
        lemma_count_waiter_absent(ws.drop_last(), id);
    }
}

proof fn lemma_count_waiter_present(ws: Seq<Waiter>, id: u64) -> (k: int)
    requires
        count_waiter(ws, id) > 0,
    ensures
        0 <= k < ws.len(),
        ws[k].id == id,
    decreases ws.len(),
{
    if ws.last().id == id {
        ws.len() - 1
    } else {
        lemma_count_waiter_present(ws.drop_last(), id)
    }
}

proof fn lemma_fire(ws: Seq<Waiter>, f: u32, id: u64, channel: CommChannel, request: u32, st: EventStatus)
    ensures
        count_waiter(fire(ws, f).0, id) + count_notice(fire(ws, f).1, id) == count_waiter(ws, id),
        forall|k: int| 0 <= k < fire(ws, f).0.len() ==> !satisfied(f, #[trigger] fire(ws, f).0[k].status),
        waiters_tagged(ws, id, channel, request, st) ==> waiters_tagged(fire(ws, f).0, id, channel, request, st)
            && notices_tagged(fire(ws, f).1, id, channel, request),
    decreases ws.len(),
{
    if ws.len() > 0 {
        let init = ws.drop_last();
        lemma_fire(init, f, id, channel, request, st);
        let (rem, ns) = fire(init, f);
        let w = ws.last();
        assert(rem.push(w).drop_last() =~= rem);
        assert(ns.push(notice_of(w)).drop_last() =~= ns);
        if waiters_tagged(ws, id, channel, request, st) {
            assert(waiters_tagged(init, id, channel, request, st)) by {
                assert forall|k: int| 0 <= k < init.len() && #[trigger] init[k].id == id implies init[k].channel == channel
                    && init[k].request == request && init[k].status == st by {
                    assert(init[k] == ws[k]);
                }
            }
            assert(ws[ws.len() - 1] == w);
        }
    }
}

proof fn lemma_raise_all(v: DeferredView, rs: Seq<u32>, id: u64, channel: CommChannel, request: u32, st: EventStatus)
    requires
        count_waiter(v.waiters, id) == 1,
        waiters_tagged(v.waiters, id, channel, request, st),
    ensures
        ({
            let (w, ns) = raise_all(v, rs);
            &&& count_waiter(w.waiters, id) + count_notice(ns, id) == 1
            &&& waiters_tagged(w.waiters, id, channel, request, st)
            &&& notices_tagged(ns, id, channel, request)
            &&& w.flags & union_of(rs) == union_of(rs)
            &&& rs.len() > 0 ==> forall|k: int| 0 <= k < w.waiters.len() ==> !satisfied(w.flags, #[trigger] w.waiters[k].status)
        }),
    decreases rs.len(),
{
    if rs.len() == 0 {
        let f = v.flags;
        assert(f & 0u32 == 0u32) by (bit_vector);
    } else {
        lemma_raise_all(v, rs.drop_last(), id, channel, request, st);
        let (w0, ns0) = raise_all(v, rs.drop_last());
        let r = rs.last();
        let f = w0.flags | r;
        lemma_fire(w0.waiters, f, id, channel, request, st);
        let ns1 = fire(w0.waiters, f).1;
        lemma_count_notice_concat(ns0, ns1, id);
        let u0 = union_of(rs.drop_last());
        let f0 = w0.flags;
        assert(f0 & u0 == u0 ==> (f0 | r) & (u0 | r) == (u0 | r)) by (bit_vector);
        assert(notices_tagged(ns0 + ns1, id, channel, request)) by {
            assert forall|k: int| 0 <= k < (ns0 + ns1).len() && #[trigger] (ns0 + ns1)[k].id == id implies
                (ns0 + ns1)[k].channel == channel && (ns0 + ns1)[k].request == request by {
                if k < ns0.len() {
                    assert((ns0 + ns1)[k] == ns0[k]);
                } else {
                    assert((ns0 + ns1)[k] == ns1[k - ns0.len()]);
                }
            }
        }
    }
}

/// Registering a waiter for every flag of a non-empty mask `mask`, then
/// raising flags whose union is exactly `mask`, in any order and over any
/// number of raises: the waiter's notice comes exactly once, to its channel
/// and for its request, and the waiter is gone.
pub proof fn lemma_deferred_fires_once(
    v: DeferredView,
    channel: CommChannel,
    request: u32,
    mask: u32,
    rs: Seq<u32>,
)
    requires
        view_wf(v),
        v.next_id < u64::MAX,
        mask != 0,
        forall|k: int| 0 <= k < rs.len() ==> #[trigger] rs[k] & mask == rs[k],
        union_of(rs) == mask,
    ensures
        ({
            let st = EventStatus { flags: mask, mask };
            let (v1, id) = register_spec(v, channel, request, st);
            let (v2, ns) = raise_all(v1, rs);
            &&& id == Some(v.next_id)
            &&& count_notice(ns, v.next_id) == 1
            &&& notices_tagged(ns, v.next_id, channel, request)
            &&& count_waiter(v2.waiters, v.next_id) == 0
        }),
{
    let st = EventStatus { flags: mask, mask };
    let id = v.next_id;
    let (v1, _) = register_spec(v, channel, request, st);
    let w = Waiter { id, channel, request, status: st };
    assert(v1.waiters.drop_last() =~= v.waiters);
    lemma_count_waiter_absent(v.waiters, id);
    assert(waiters_tagged(v1.waiters, id, channel, request, st)) by {
        assert forall|k: int| 0 <= k < v1.waiters.len() && #[trigger] v1.waiters[k].id == id implies v1.waiters[k].channel
            == channel && v1.waiters[k].request == request && v1.waiters[k].status == st by {
            if k < v.waiters.len() {
                assert(v1.waiters[k] == v.waiters[k]);
            }
        }
    }
    lemma_raise_all(v1, rs, id, channel, request, st);
    let (v2, ns) = raise_all(v1, rs);
    assert(rs.len() > 0) by {
        if rs.len() == 0 {
            assert(union_of(rs) == 0);
        }
    }
    let f = v2.flags;
    assert(f & mask == mask ==> f & mask == mask & mask) by (bit_vector);
    if count_waiter(v2.waiters, id) > 0 {
        let k = lemma_count_waiter_present(v2.waiters, id);
        assert(v2.waiters[k].status == st);
        assert(!satisfied(f, v2.waiters[k].status));
    }
}

} // verus!
