//! Byte accounting for a streamed body, and the completion that reports it:
//! delivered once, whether the stream ends, fails, or is given up.

use vstd::prelude::*;

verus! {

/// The direction of the body that is measured.
#[derive(Debug, Clone, Copy, PartialEq, Eq, Structural)]
pub enum BodyKind {
    Request,
    Response,
}

/// How a body's transfer ended, as a set of flags. The empty set says that no
/// error was seen; what the single flags mean is the classifier's business.
#[derive(Debug, Clone, Copy, PartialEq, Eq, Structural)]
pub struct ResponseFlags(pub u32);

impl ResponseFlags {
    /// The classification of a transfer on which no error was seen.
    pub open spec fn no_error() -> ResponseFlags {
        ResponseFlags(0)
    }
}

impl Default for ResponseFlags {
    fn default() -> (flags: Self)
        ensures
            flags == ResponseFlags::no_error(),
    {
        ResponseFlags(0)
    }
}

/// What one poll of the measured body came back with.
#[derive(Debug, Clone, Copy, PartialEq, Eq, Structural)]
pub enum PollOutcome {
    /// Nothing yet.
    Pending,
    /// A frame of data with that many bytes.
    Data(u64),
    /// A frame that carries no data.
    Trailers,
    /// The end of the stream.
    End,
    /// An error, classified for this body's direction.
    Failed(ResponseFlags),
}

/// What the completion callback is called with.
pub struct Completion {
    pub bytes: u64,
    pub flags: ResponseFlags,
}

/// What the contracts see of a `MetricsState`: the count so far, and whether
/// the completion is still to be delivered.
pub struct Progress {
    pub bytes: u64,
    pub pending: bool,
}

/// The state after a trigger of the completion, and the completion where this
/// trigger is the one that delivers it.
pub open spec fn after_trigger(s: Progress, flags: ResponseFlags) -> (
    Progress,
    Option<Completion>,
) {
    if s.pending {
        (Progress { bytes: s.bytes, pending: false }, Some(Completion { bytes: s.bytes, flags }))
    } else {
        (s, None)
    }
}

/// The state after one poll, and the completion where the poll delivers it.
/// The count wraps at 2^64, as the counter does.
pub open spec fn after_poll(s: Progress, outcome: PollOutcome) -> (Progress, Option<Completion>) {
    match outcome {
        PollOutcome::Pending => (s, None),
        PollOutcome::Trailers => (s, None),
        PollOutcome::Data(size) => (
            Progress { bytes: s.bytes.wrapping_add(size), pending: s.pending },
            None,
        ),
        PollOutcome::End => after_trigger(s, ResponseFlags::no_error()),
        PollOutcome::Failed(flags) => after_trigger(s, flags),
    }
}

/// Whether the delivery of `completion` is the call of `callback` with it.
pub open spec fn delivered<F: FnOnce(u64, ResponseFlags)>(
    callback: Option<F>,
    completion: Option<Completion>,
) -> bool {
    completion matches Some(c) ==> callback matches Some(f) && call_ensures(
        f,
        (c.bytes, c.flags),
        (),
    )
}

/// The counter of a body's bytes and the slot that holds the completion
/// callback until it is called.
pub struct MetricsState<F> {
    kind: BodyKind,
    bytes_counter: u64,
    on_complete: Option<F>,
}

impl<F: FnOnce(u64, ResponseFlags)> MetricsState<F> {
    /// The callback in the slot, while it is there.
    pub closed spec fn callback(&self) -> Option<F> {
        self.on_complete
    }

    /// The direction of the body, by which its errors are classified.
    pub closed spec fn spec_kind(&self) -> BodyKind {
        self.kind
    }

    /// The count so far, and whether the callback is still in its slot.
    pub closed spec fn view(&self) -> Progress {
        Progress { bytes: self.bytes_counter, pending: self.on_complete is Some }
    }

    /// The state is well formed: the callback in the slot takes every count
    /// and every classification. `new` establishes this, and every function
    /// of this module keeps it.
    pub open spec fn wf(&self) -> bool {
        self.callback() matches Some(f) ==> forall|bytes: u64, flags: ResponseFlags|
            call_requires(f, (bytes, flags))
    }

    /// The completion is still to come exactly while the callback is in its slot.
    pub proof fn lemma_pending_has_callback(&self)
        ensures
            self@.pending <==> self.callback() is Some,
    {
    }

    /// A state with nothing counted and the completion still to come.
    pub fn new(kind: BodyKind, on_complete: F) -> (state: Self)
        requires
            forall|bytes: u64, flags: ResponseFlags| call_requires(on_complete, (bytes, flags)),
        ensures
            state.wf(),
            state@ == (Progress { bytes: 0, pending: true }),
            state.spec_kind() == kind,
            state.callback() == Some(on_complete),
    {
        MetricsState { kind, bytes_counter: 0, on_complete: Some(on_complete) }
    }

    /// The direction of the body, by which its errors are classified.
    #[verifier::when_used_as_spec(spec_kind)]
    pub fn kind(&self) -> (kind: BodyKind)
        ensures
            kind == self.spec_kind(),
    {
        self.kind
    }

    /// The bytes counted so far.
    pub fn bytes(&self) -> (bytes: u64)
        ensures
            bytes == self@.bytes,
    {
        self.bytes_counter
    }

    /// Whether the completion is still to be delivered.
    pub fn is_pending(&self) -> (pending: bool)
        ensures
            pending == self@.pending,
    {
        self.on_complete.is_some()
    }

    /// Takes note of what a poll of the body came back with: data is counted,
    /// the end of the stream and an error deliver the completion.
    pub fn record_poll(&mut self, outcome: PollOutcome)
        requires
            old(self).wf(),
        ensures
            final(self).wf(),
            final(self)@ == after_poll(old(self)@, outcome).0,
            final(self).spec_kind() == old(self).spec_kind(),
            delivered(old(self).callback(), after_poll(old(self)@, outcome).1),
            final(self)@.pending ==> final(self).callback() == old(self).callback(),
    {
        match outcome {
            PollOutcome::Data(size) => {
                self.bytes_counter = self.bytes_counter.wrapping_add(size);
            },
            PollOutcome::End => {
                trigger_on_complete(self, ResponseFlags::default());
            },
            PollOutcome::Failed(flags) => {
                trigger_on_complete(self, flags);
            },
            PollOutcome::Pending => {},
            PollOutcome::Trailers => {},
        }
    }

    /// The body is given up: the completion is delivered, with no error, if
    /// it has not been before.
    pub fn release(&mut self)
        requires
            old(self).wf(),
        ensures
            final(self).wf(),
            final(self)@ == after_trigger(old(self)@, ResponseFlags::no_error()).0,
            final(self).spec_kind() == old(self).spec_kind(),
            delivered(
                old(self).callback(),
                after_trigger(old(self)@, ResponseFlags::no_error()).1,
            ),
    {
        trigger_on_complete(self, ResponseFlags::default());
    }
}

/// Delivers the completion if it is still to come: the callback leaves the
/// slot and is called with the count and `flags`. A later trigger finds the
/// slot empty and does nothing.
pub fn trigger_on_complete<F: FnOnce(u64, ResponseFlags)>(
    state: &mut MetricsState<F>,
    flags: ResponseFlags,
)
    requires
        old(state).wf(),
    ensures
        final(state).wf(),
        final(state)@ == after_trigger(old(state)@, flags).0,
        !final(state)@.pending,
        final(state).spec_kind() == old(state).spec_kind(),
        delivered(old(state).callback(), after_trigger(old(state)@, flags).1),
{
    if let Some(closure) = state.on_complete.take() {
        let bytes = state.bytes_counter;
        closure(bytes, flags);
    }
}

/// A completion that may have been delivered, as the list of those delivered.
pub open spec fn as_seq(completion: Option<Completion>) -> Seq<Completion> {
    match completion {
        Some(c) => seq![c],
        None => Seq::empty(),
    }
}

/// The state after the polls `outcomes`, observed in turn from the state `s`,
/// and the completions delivered on the way.
pub open spec fn after_polls(s: Progress, outcomes: Seq<PollOutcome>) -> (
    Progress,
    Seq<Completion>,
)
    decreases outcomes.len(),
{
    if outcomes.len() == 0 {
        (s, Seq::empty())
    } else {
        let (next, first) = after_poll(s, outcomes[0]);
        let (last, rest) = after_polls(next, outcomes.skip(1));
        (last, as_seq(first) + rest)
    }
}

/// The completions delivered over the life of a state that starts in `s`: it
/// sees the polls `outcomes`, and then it is released.
pub open spec fn delivered_from(s: Progress, outcomes: Seq<PollOutcome>) -> Seq<Completion> {
    let (last, during) = after_polls(s, outcomes);
    during + as_seq(after_trigger(last, ResponseFlags::no_error()).1)
}

/// The completions delivered over the life of a new state.
pub open spec fn delivered_over_life(outcomes: Seq<PollOutcome>) -> Seq<Completion> {
    delivered_from(Progress { bytes: 0, pending: true }, outcomes)
}

/// Whether a poll ends the stream: by its end or by an error.
pub open spec fn ends_stream(outcome: PollOutcome) -> bool {
    outcome is End || outcome is Failed
}

/// The place of the first poll that ends the stream, or the number of polls
/// where none does.
pub open spec fn first_end(outcomes: Seq<PollOutcome>) -> int
    decreases outcomes.len(),
{
    if outcomes.len() == 0 || ends_stream(outcomes[0]) {
        0
    } else {
        1 + first_end(outcomes.skip(1))
    }
}

/// The number of bytes of data that a poll brings.
pub open spec fn data_len(outcome: PollOutcome) -> nat {
    match outcome {
        PollOutcome::Data(size) => size as nat,
        _ => 0,
    }
}

/// The sum of the lengths of the data frames among `outcomes`.
pub open spec fn data_bytes(outcomes: Seq<PollOutcome>) -> nat
    decreases outcomes.len(),
{
    if outcomes.len() == 0 {
        0
    } else {
        data_len(outcomes[0]) + data_bytes(outcomes.skip(1))
    }
}

/// The sum of the lengths of the data frames that come before the first poll
/// that ends the stream, or of all of them where none does.
pub open spec fn bytes_before_end(outcomes: Seq<PollOutcome>) -> nat {
    data_bytes(outcomes.take(first_end(outcomes)))
}

/// The classification that the first poll that ends the stream brings: that
/// of its error, or none where the stream ends well or does not end at all.
pub open spec fn flags_at_end(outcomes: Seq<PollOutcome>) -> ResponseFlags {
    let at = first_end(outcomes);
    if at < outcomes.len() {
        match outcomes[at] {
            PollOutcome::Failed(flags) => flags,
            _ => ResponseFlags::no_error(),
        }
    } else {
        ResponseFlags::no_error()
    }
}

/// The number of values of the counter.
pub open spec fn counter_range() -> int {
    0x1_0000_0000_0000_0000
}

/// What the counter shows when `total` bytes were added to it from zero.
pub open spec fn counted(total: int) -> u64 {
    (total % counter_range()) as u64
}

/// The first poll that ends the stream is one of the polls or comes behind
/// them all, and none before it ends the stream.
pub proof fn lemma_first_end(outcomes: Seq<PollOutcome>)
    ensures
        0 <= first_end(outcomes) <= outcomes.len(),
        first_end(outcomes) < outcomes.len() ==> ends_stream(outcomes[first_end(outcomes)]),
        forall|i: int| 0 <= i < first_end(outcomes) ==> !ends_stream(#[trigger] outcomes[i]),
    decreases outcomes.len(),
{
    if outcomes.len() > 0 && !ends_stream(outcomes[0]) {
        let rest = outcomes.skip(1);
        lemma_first_end(rest);
        assert forall|i: int| 0 <= i < first_end(outcomes) implies !ends_stream(
            #[trigger] outcomes[i],
        ) by {
            if i > 0 {
                assert(outcomes[i] == rest[i - 1]);
            }
        }
    }
}

/// Behind a poll that does not end the stream, the end is one place further
/// than it is in the polls that follow, and the data before it is that of the
/// first poll and that of the polls that follow.
proof fn lemma_step_over(outcomes: Seq<PollOutcome>)
    requires
        outcomes.len() > 0,
        !ends_stream(outcomes[0]),
    ensures
        first_end(outcomes) == 1 + first_end(outcomes.skip(1)),
        bytes_before_end(outcomes) == data_len(outcomes[0]) + bytes_before_end(outcomes.skip(1)),
        flags_at_end(outcomes) == flags_at_end(outcomes.skip(1)),
{
    let rest = outcomes.skip(1);
    let at = first_end(rest);
    lemma_first_end(rest);
    assert(outcomes.take(1 + at).skip(1) =~= rest.take(at));
}

/// From a state whose completion is still to come, whatever is polled and
/// then released delivers one completion: the count is the state's own plus
/// the data seen before the stream ended, the classification is that of the
/// stream's end. From a state whose completion was delivered, nothing is.
pub proof fn lemma_delivered_from(s: Progress, outcomes: Seq<PollOutcome>)
    ensures
        s.pending ==> delivered_from(s, outcomes) == seq![
            Completion {
                bytes: counted(s.bytes + bytes_before_end(outcomes)),
                flags: flags_at_end(outcomes),
            },
        ],
        !s.pending ==> delivered_from(s, outcomes) == Seq::<Completion>::empty(),
    decreases outcomes.len(),
{
    if outcomes.len() > 0 {
        let rest = outcomes.skip(1);
        lemma_delivered_from(after_poll(s, outcomes[0]).0, rest);
        if s.pending && !ends_stream(outcomes[0]) {
            lemma_step_over(outcomes);
            vstd::arithmetic::div_mod::lemma_add_mod_noop_right(
                bytes_before_end(rest) as int,
                s.bytes + data_len(outcomes[0]),
                counter_range(),
            );
        }
    }
}

/// Whatever the frames are, none or one or many, with an error at the end or
/// without: over the life of a body the completion is delivered once, with
/// the sum of the lengths of the data frames that came before it, modulo the
/// range of the counter.
pub proof fn lemma_completion_fires_once(outcomes: Seq<PollOutcome>)
    ensures
        delivered_over_life(outcomes) == seq![
            Completion {
                bytes: counted(bytes_before_end(outcomes) as int),
                flags: flags_at_end(outcomes),
            },
        ],
        delivered_over_life(outcomes).len() == 1,
        bytes_before_end(outcomes) < counter_range() ==> delivered_over_life(outcomes)[0].bytes
            == bytes_before_end(outcomes),
{
    lemma_delivered_from(Progress { bytes: 0, pending: true }, outcomes);
    if bytes_before_end(outcomes) < counter_range() {
        vstd::arithmetic::div_mod::lemma_small_mod(
            bytes_before_end(outcomes),
            counter_range() as nat,
        );
    }
}

/// A body that is given up before its stream has ended delivers nothing
/// while it is polled, and its release delivers the completion: once, with
/// the data seen so far, and with no error.
pub proof fn lemma_release_before_end_completes(outcomes: Seq<PollOutcome>)
    requires
        forall|i: int| 0 <= i < outcomes.len() ==> !ends_stream(#[trigger] outcomes[i]),
    ensures
        after_polls(Progress { bytes: 0, pending: true }, outcomes).1 == Seq::<Completion>::empty(),
        after_polls(Progress { bytes: 0, pending: true }, outcomes).0.pending,
        delivered_over_life(outcomes).len() == 1,
        delivered_over_life(outcomes)[0].flags == ResponseFlags::no_error(),
        delivered_over_life(outcomes)[0].bytes == counted(data_bytes(outcomes) as int),
{
    lemma_completion_fires_once(outcomes);
    lemma_open_stream(Progress { bytes: 0, pending: true }, outcomes);
}

/// Polls that do not end the stream deliver nothing and leave the completion
/// where it was, and no classification comes of them.
pub proof fn lemma_open_stream(s: Progress, outcomes: Seq<PollOutcome>)
    requires
        forall|i: int| 0 <= i < outcomes.len() ==> !ends_stream(#[trigger] outcomes[i]),
    ensures
        after_polls(s, outcomes).1 == Seq::<Completion>::empty(),
        after_polls(s, outcomes).0.pending == s.pending,
        first_end(outcomes) == outcomes.len(),
        bytes_before_end(outcomes) == data_bytes(outcomes),
        flags_at_end(outcomes) == ResponseFlags::no_error(),
    decreases outcomes.len(),
{
    if outcomes.len() > 0 {
        let rest = outcomes.skip(1);
        lemma_open_stream(after_poll(s, outcomes[0]).0, rest);
    }
    assert(outcomes.take(outcomes.len() as int) =~= outcomes);
}

/// Of two triggers of the completion, whichever their order and their
/// classifications, the first delivers it and the second delivers nothing.
pub proof fn lemma_second_trigger_is_idle(s: Progress, first: ResponseFlags, second: ResponseFlags)
    ensures
        after_trigger(after_trigger(s, first).0, second).1 is None,
        after_trigger(after_trigger(s, first).0, second).0 == after_trigger(s, first).0,
        s.pending ==> after_trigger(s, first).1 == Some(
            Completion { bytes: s.bytes, flags: first },
        ),
{
}

} // verus!
