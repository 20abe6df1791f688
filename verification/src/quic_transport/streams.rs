//! What a stream's receiver answers, and what the sender makes of it.

use vstd::prelude::*;
use vstd::string::StringExecFns;

verus! {

/// How many streams may be in flight at once, so that a burst cannot pile up
/// copies of a large write.
pub const MAX_CONCURRENT_STREAMS: usize = 8;

/// How many bytes of an answer are read.
pub const MAX_ACK_BYTES: usize = 64;

/// How long an answer may take, in milliseconds.
pub const ACK_WAIT_MILLIS: u64 = 500;

/// How long a handshake may take, in seconds.
pub const CONNECT_WAIT_SECS: u64 = 2;

/// The answer to a stream whose payload was accepted.
pub open spec fn accepting_ack() -> Seq<u8> {
    seq![0x6f, 0x6b]
}

/// The answer to a stream whose payload was not accepted.
pub open spec fn rejecting_ack() -> Seq<u8> {
    seq![0x72, 0x65, 0x6a, 0x65, 0x63, 0x74]
}

/// The answer that the receiver of a stream sends.
pub open spec fn ack_for(accepted: bool) -> Seq<u8> {
    if accepted {
        accepting_ack()
    } else {
        rejecting_ack()
    }
}

/// The answer that the receiver of a stream sends: `ok` or `reject`.
pub fn stream_ack(accepted: bool) -> (ack: Vec<u8>)
    ensures
        ack@ == ack_for(accepted),
{
    if accepted {
        vec![0x6f, 0x6b]
    } else {
        vec![0x72, 0x65, 0x6a, 0x65, 0x63, 0x74]
    }
}

/// The text that `bytes` hold, read as UTF-8 with whatever is invalid replaced.
pub uninterp spec fn utf8_lossy(bytes: Seq<u8>) -> Seq<char>;

/// Calls `String::from_utf8_lossy` of the standard library and takes the text
/// out of the `Cow`. Claimed: the text depends on the bytes alone, and bytes
/// that are valid UTF-8 are decoded as they stand. Which replacement characters
/// stand for invalid bytes is left unsaid.
#[verifier::external_body]
fn text_from_utf8_lossy(bytes: &[u8]) -> (text: String)
    ensures
        text@ == utf8_lossy(bytes@),
        vstd::utf8::valid_utf8(bytes@) ==> text@ == vstd::utf8::decode_utf8(bytes@),
{
    String::from_utf8_lossy(bytes).into_owned()
}

/// Whether `bytes` are the two bytes of an accepting answer.
fn is_accepting_ack(bytes: &[u8]) -> (accepting: bool)
    ensures
        accepting == (bytes@ == accepting_ack()),
{
    if bytes.len() == 2 && bytes[0] == 0x6f && bytes[1] == 0x6b {
        assert(bytes@ =~= accepting_ack());
        true
    } else {
        assert(bytes@.len() == 2 ==> !(bytes@[0] == accepting_ack()[0] && bytes@[1]
            == accepting_ack()[1]));
        false
    }
}

/// What the sender says of an answer that is not an acceptance and reads `text`.
pub fn rejection(text: &str) -> (message: String)
    ensures
        message@ == "QUIC stream receiver rejected payload: "@ + text@,
{
    "QUIC stream receiver rejected payload: ".to_owned().concat(text)
}

/// Whether `verdict` is what the sender makes of the answer `bytes`.
pub open spec fn ack_judged(bytes: Seq<u8>, verdict: Result<(), String>) -> bool {
    match verdict {
        Ok(_) => bytes == accepting_ack(),
        Err(e) => bytes != accepting_ack() && e@ == "QUIC stream receiver rejected payload: "@
            + utf8_lossy(bytes) && (vstd::utf8::valid_utf8(bytes) ==> e@
            == "QUIC stream receiver rejected payload: "@ + vstd::utf8::decode_utf8(bytes)),
    }
}

/// What the sender makes of the answer `bytes`: anything but `ok` is a refusal.
pub fn verify_stream_ack(bytes: &[u8]) -> (verdict: Result<(), String>)
    ensures
        ack_judged(bytes@, verdict),
{
    if is_accepting_ack(bytes) {
        Ok(())
    } else {
        let text = text_from_utf8_lossy(bytes);
        Err(rejection(text.as_str()))
    }
}

/// The sender takes an answer for an acceptance exactly when the receiver
/// accepted.
pub proof fn ack_tells_acceptance(accepted: bool)
    ensures
        (if accepted {
            accepting_ack()
        } else {
            rejecting_ack()
        } == accepting_ack()) == accepted,
{
    assert(rejecting_ack().len() == 6);
    assert(accepting_ack().len() == 2);
}

/// The slots that streams run in: which of them are taken.
pub struct StreamSlots {
    taken: Vec<bool>,
}

impl View for StreamSlots {
    type V = Seq<bool>;

    closed spec fn view(&self) -> Seq<bool> {
        self.taken@
    }
}

/// The right to run one stream. It cannot be copied, and is used up when the
/// stream is answered.
pub struct StreamSlot {
    index: usize,
}

impl StreamSlot {
    /// Which of the slots this is.
    pub closed spec fn number(&self) -> int {
        self.index as int
    }
}

/// Something that happens to the slots.
pub enum SlotEvent {
    /// A stream is taken on, in a slot.
    Accepted { slot: int },
    /// A stream is turned down.
    Refused,
    /// The stream in a slot is answered.
    Answered { slot: int },
}

/// Whether an event can happen: a stream is taken on only in a free slot, and
/// turned down only when there is none; what is answered is in flight.
pub open spec fn event_allowed(taken: Seq<bool>, event: SlotEvent) -> bool {
    match event {
        SlotEvent::Accepted { slot } => 0 <= slot < taken.len() && !taken[slot],
        SlotEvent::Refused => forall|i: int| 0 <= i < taken.len() ==> #[trigger] taken[i],
        SlotEvent::Answered { slot } => 0 <= slot < taken.len() && taken[slot],
    }
}

/// The slots after an event.
pub open spec fn slots_after(taken: Seq<bool>, event: SlotEvent) -> Seq<bool> {
    match event {
        SlotEvent::Accepted { slot } => taken.update(slot, true),
        SlotEvent::Refused => taken,
        SlotEvent::Answered { slot } => taken.update(slot, false),
    }
}

/// How many streams are in flight.
pub open spec fn in_flight(taken: Seq<bool>) -> nat
    decreases taken.len(),
{
    if taken.len() == 0 {
        0
    } else {
        in_flight(taken.drop_last()) + if taken.last() {
            1nat
        } else {
            0nat
        }
    }
}

/// All slots, free.
pub open spec fn free_slots() -> Seq<bool> {
    Seq::new(MAX_CONCURRENT_STREAMS as nat, |i: int| false)
}

impl StreamSlots {
    /// There are as many slots as streams may be in flight.
    pub closed spec fn wf(&self) -> bool {
        self.taken@.len() == MAX_CONCURRENT_STREAMS
    }

    /// All slots are free.
    pub fn new() -> (slots: Self)
        ensures
            slots.wf(),
            slots@ == free_slots(),
    {
        let mut taken: Vec<bool> = Vec::new();
        for i in 0..MAX_CONCURRENT_STREAMS
            invariant
                taken@ == Seq::new(i as nat, |j: int| false),
        {
            taken.push(false);
            assert(taken@ =~= Seq::new((i + 1) as nat, |j: int| false));
        }
        StreamSlots { taken }
    }

    /// Takes a free slot, if there is one.
    pub fn take(&mut self) -> (slot: Option<StreamSlot>)
        requires
            old(self).wf(),
        ensures
            final(self).wf(),
            match slot {
                Some(s) => {
                    let event = SlotEvent::Accepted { slot: s.number() };
                    event_allowed(old(self)@, event) && final(self)@ == slots_after(
                        old(self)@,
                        event,
                    )
                },
                None => event_allowed(old(self)@, SlotEvent::Refused) && final(self)@ == old(self)@,
            },
    {
        for i in 0..MAX_CONCURRENT_STREAMS
            invariant
                self@ == old(self)@,
                self.taken@ == self@,
                self.taken@.len() == MAX_CONCURRENT_STREAMS,
                forall|j: int| 0 <= j < i ==> #[trigger] self.taken@[j],
        {
            if !self.taken[i] {
                self.taken.set(i, true);
                return Some(StreamSlot { index: i });
            }
        }
        None
    }

    /// Whether the stream of `slot` is in flight.
    pub fn holds(&self, slot: &StreamSlot) -> (held: bool)
        ensures
            held == event_allowed(self@, SlotEvent::Answered { slot: slot.number() }),
    {
        slot.index < self.taken.len() && self.taken[slot.index]
    }
}

/// The answer to a stream whose `outcome` is known, which gives its slot back.
pub fn answer_stream(slots: &mut StreamSlots, slot: StreamSlot, outcome: Result<(), String>) -> (
    answer: Result<(), String>)
    requires
        old(slots).wf(),
        event_allowed(old(slots)@, SlotEvent::Answered { slot: slot.number() }),
    ensures
        final(slots).wf(),
        final(slots)@ == slots_after(old(slots)@, SlotEvent::Answered { slot: slot.number() }),
        answer == outcome,
{
    slots.taken.set(slot.index, false);
    outcome
}

/// The slots after one event after another, from all of them free.
pub open spec fn slots_of_history(events: Seq<SlotEvent>) -> Seq<bool>
    decreases events.len(),
{
    if events.len() == 0 {
        free_slots()
    } else {
        slots_after(slots_of_history(events.drop_last()), events.last())
    }
}

/// Whether every one of the events could happen when it did.
pub open spec fn history_allowed(events: Seq<SlotEvent>) -> bool
    decreases events.len(),
{
    events.len() > 0 ==> {
        &&& history_allowed(events.drop_last())
        &&& event_allowed(slots_of_history(events.drop_last()), events.last())
    }
}

/// How many streams were taken on in `slot`.
pub open spec fn times_accepted(events: Seq<SlotEvent>, slot: int) -> nat
    decreases events.len(),
{
    if events.len() == 0 {
        0
    } else {
        times_accepted(events.drop_last(), slot) + if events.last() == (SlotEvent::Accepted { slot }) {
            1nat
        } else {
            0nat
        }
    }
}

/// How many streams were answered in `slot`.
pub open spec fn times_answered(events: Seq<SlotEvent>, slot: int) -> nat
    decreases events.len(),
{
    if events.len() == 0 {
        0
    } else {
        times_answered(events.drop_last(), slot) + if events.last() == (SlotEvent::Answered { slot }) {
            1nat
        } else {
            0nat
        }
    }
}

/// Never are more streams in flight than there are slots, and one is turned down
/// exactly when as many are in flight.
pub proof fn streams_in_flight_stay_bounded(taken: Seq<bool>)
    ensures
        in_flight(taken) <= taken.len(),
        event_allowed(taken, SlotEvent::Refused) <==> in_flight(taken) == taken.len(),
    decreases taken.len(),
{
    if taken.len() > 0 {
        let front = taken.drop_last();
        streams_in_flight_stay_bounded(front);
        if event_allowed(taken, SlotEvent::Refused) {
            assert forall|i: int| 0 <= i < front.len() implies #[trigger] front[i] by {
                assert(taken[i]);
            }
            assert(taken[taken.len() - 1]);
        }
        if in_flight(taken) == taken.len() {
            assert forall|i: int| 0 <= i < taken.len() implies #[trigger] taken[i] by {
                if i < front.len() {
                    assert(front[i]);
                }
            }
        }
    }
}

/// There are as many slots as streams may be in flight, so no more ever are.
pub proof fn slots_bound_the_streams(slots: StreamSlots)
    requires
        slots.wf(),
    ensures
        slots@.len() == MAX_CONCURRENT_STREAMS,
        in_flight(slots@) <= MAX_CONCURRENT_STREAMS,
{
    streams_in_flight_stay_bounded(slots@);
}

/// Whatever happened, there are as many slots as streams may be in flight; and
/// as many streams were answered in a slot as were taken on there, but for the
/// one that is in flight. So a stream that is taken on is answered once before
/// its slot is taken again, and nothing is answered twice.
pub proof fn every_stream_is_answered_once(events: Seq<SlotEvent>, slot: int)
    requires
        history_allowed(events),
        0 <= slot < MAX_CONCURRENT_STREAMS,
    ensures
        slots_of_history(events).len() == MAX_CONCURRENT_STREAMS,
        in_flight(slots_of_history(events)) <= MAX_CONCURRENT_STREAMS,
        times_accepted(events, slot) == times_answered(events, slot) + if slots_of_history(
            events,
        )[slot] {
            1nat
        } else {
            0nat
        },
    decreases events.len(),
{
    if events.len() > 0 {
        every_stream_is_answered_once(events.drop_last(), slot);
    }
    streams_in_flight_stay_bounded(slots_of_history(events));
}

/// How far a stream got.
pub enum StreamProgress {
    /// It could not be opened.
    OpenFailed(String),
    /// Its payload could not be written.
    WriteFailed(String),
    /// It could not be finished.
    FinishFailed(String),
    /// No answer came in time.
    AckTimedOut,
    /// The answer could not be read.
    AckFailed(String),
    /// The answer was read.
    Answered(Vec<u8>),
}

/// What is said of a stream that did not get as far as an answer.
pub open spec fn progress_failure(progress: StreamProgress) -> Option<Seq<char>> {
    match progress {
        StreamProgress::OpenFailed(e) => Some("failed to open QUIC stream: "@ + e@),
        StreamProgress::WriteFailed(e) => Some("failed to write QUIC stream: "@ + e@),
        StreamProgress::FinishFailed(e) => Some("failed to finish QUIC stream: "@ + e@),
        StreamProgress::AckTimedOut => Some("QUIC stream ack timed out"@),
        StreamProgress::AckFailed(e) => Some("failed to read QUIC stream ack: "@ + e@),
        StreamProgress::Answered(_) => None,
    }
}

/// Whether `outcome` is that of a stream that got as far as `progress`.
pub open spec fn stream_ends(progress: StreamProgress, outcome: Result<(), String>) -> bool {
    match (progress_failure(progress), outcome) {
        (Some(text), Err(e)) => e@ == text,
        (Some(_), Ok(_)) => false,
        (None, _) => progress matches StreamProgress::Answered(bytes) && ack_judged(
            bytes@,
            outcome,
        ),
    }
}

/// The outcome of a stream, from how far it got: it went well only if an
/// accepting answer was read.
pub fn send_stream_on_connection(progress: StreamProgress) -> (outcome: Result<(), String>)
    ensures
        outcome is Ok <==> (progress matches StreamProgress::Answered(bytes) && bytes@
            == accepting_ack()),
        stream_ends(progress, outcome),
{
    match progress {
        StreamProgress::OpenFailed(error) => Err(
            "failed to open QUIC stream: ".to_owned().concat(error.as_str()),
        ),
        StreamProgress::WriteFailed(error) => Err(
            "failed to write QUIC stream: ".to_owned().concat(error.as_str()),
        ),
        StreamProgress::FinishFailed(error) => Err(
            "failed to finish QUIC stream: ".to_owned().concat(error.as_str()),
        ),
        StreamProgress::AckTimedOut => Err("QUIC stream ack timed out".to_owned()),
        StreamProgress::AckFailed(error) => Err(
            "failed to read QUIC stream ack: ".to_owned().concat(error.as_str()),
        ),
        StreamProgress::Answered(bytes) => verify_stream_ack(bytes.as_slice()),
    }
}

/// How dialling a peer went wrong.
pub enum DialFailure {
    /// The peer is not to be dialled.
    Refused(String),
    /// The dial could not be started.
    NotStarted(String),
    /// The handshake did not finish in time.
    TimedOut,
    /// The handshake failed.
    Failed(String),
}

/// What is said of a failed dial to the socket address `addr`.
pub open spec fn dial_failure_text(addr: Seq<char>, failure: DialFailure) -> Seq<char> {
    match failure {
        DialFailure::Refused(e) => e@,
        DialFailure::NotStarted(e) => "failed to start QUIC connection to "@ + addr + ": "@ + e@,
        DialFailure::TimedOut => "QUIC connection to "@ + addr + " timed out"@,
        DialFailure::Failed(e) => "failed to connect QUIC to "@ + addr + ": "@ + e@,
    }
}

/// Whether `outcome` is that of the dial `dialled` to the socket address `addr`.
pub open spec fn dial_ends<C>(
    addr: Seq<char>,
    dialled: Result<C, DialFailure>,
    outcome: Result<C, String>,
) -> bool {
    match (dialled, outcome) {
        (Ok(c), Ok(kept)) => kept == c,
        (Err(failure), Err(e)) => e@ == dial_failure_text(addr, failure),
        _ => false,
    }
}

/// The outcome of a dial to the socket address `addr`: the connection, or what
/// is said of the failure.
pub fn establish_connection<C>(addr: &str, dialled: Result<C, DialFailure>) -> (outcome: Result<
    C,
    String,
>)
    ensures
        dial_ends(addr@, dialled, outcome),
{
    match dialled {
        Ok(connection) => Ok(connection),
        Err(DialFailure::Refused(error)) => Err(error),
        Err(DialFailure::NotStarted(error)) => Err(
            "failed to start QUIC connection to ".to_owned().concat(addr).concat(": ").concat(
                error.as_str(),
            ),
        ),
        Err(DialFailure::TimedOut) => Err(
            "QUIC connection to ".to_owned().concat(addr).concat(" timed out"),
        ),
        Err(DialFailure::Failed(error)) => Err(
            "failed to connect QUIC to ".to_owned().concat(addr).concat(": ").concat(
                error.as_str(),
            ),
        ),
    }
}

/// An accepted payload is answered with the letters `ok`, any other with the
/// letters `reject`, and only the first counts as an acceptance.
pub proof fn acks_are_spelled_out(accepted: bool)
    ensures
        accepted ==> ack_for(accepted) == seq![111u8, 107u8],
        !accepted ==> ack_for(accepted) == seq![114u8, 101u8, 106u8, 101u8, 99u8, 116u8],
        (ack_for(accepted) == accepting_ack()) == accepted,
{
    ack_tells_acceptance(accepted);
}

/// A stream that does not come to an answer says how far it got, and one that
/// does says nothing of that.
pub proof fn streams_tell_how_far_they_got(error: String, bytes: Vec<u8>)
    ensures
        progress_failure(StreamProgress::OpenFailed(error)) == Some(
            "failed to open QUIC stream: "@ + error@,
        ),
        progress_failure(StreamProgress::WriteFailed(error)) == Some(
            "failed to write QUIC stream: "@ + error@,
        ),
        progress_failure(StreamProgress::FinishFailed(error)) == Some(
            "failed to finish QUIC stream: "@ + error@,
        ),
        progress_failure(StreamProgress::AckTimedOut) == Some("QUIC stream ack timed out"@),
        progress_failure(StreamProgress::AckFailed(error)) == Some(
            "failed to read QUIC stream ack: "@ + error@,
        ),
        progress_failure(StreamProgress::Answered(bytes)) is None,
{
}

/// A dial that failed says to whom, and how.
pub proof fn dials_tell_what_went_wrong(addr: Seq<char>, error: String)
    ensures
        dial_failure_text(addr, DialFailure::Refused(error)) == error@,
        dial_failure_text(addr, DialFailure::NotStarted(error))
            == "failed to start QUIC connection to "@ + addr + ": "@ + error@,
        dial_failure_text(addr, DialFailure::TimedOut) == "QUIC connection to "@ + addr
            + " timed out"@,
        dial_failure_text(addr, DialFailure::Failed(error)) == "failed to connect QUIC to "@ + addr
            + ": "@ + error@,
{
}

/// A stream that is taken on takes one free slot and no other, its answer frees
/// that slot and no other, and turning one down changes nothing.
pub proof fn slots_are_taken_one_by_one(taken: Seq<bool>, slot: int, other: int)
    requires
        0 <= slot < taken.len(),
        0 <= other < taken.len(),
        other != slot,
    ensures
        event_allowed(taken, SlotEvent::Accepted { slot }) <==> !taken[slot],
        event_allowed(taken, SlotEvent::Answered { slot }) <==> taken[slot],
        event_allowed(taken, SlotEvent::Refused) ==> taken[slot] && taken[other],
        slots_after(taken, SlotEvent::Accepted { slot })[slot],
        slots_after(taken, SlotEvent::Accepted { slot })[other] == taken[other],
        !slots_after(taken, SlotEvent::Answered { slot })[slot],
        slots_after(taken, SlotEvent::Answered { slot })[other] == taken[other],
        slots_after(taken, SlotEvent::Refused) == taken,
        slots_after(taken, SlotEvent::Accepted { slot }).len() == taken.len(),
        slots_after(taken, SlotEvent::Answered { slot }).len() == taken.len(),
{
}

/// At first there are eight slots, and all of them are free.
pub proof fn eight_slots_are_free_at_first(slot: int)
    ensures
        free_slots().len() == 8,
        0 <= slot < 8 ==> !free_slots()[slot],
        in_flight(free_slots()) == 0,
{
    lemma_none_in_flight(8);
}

proof fn lemma_none_in_flight(n: nat)
    ensures
        in_flight(Seq::new(n, |i: int| false)) == 0,
    decreases n,
{
    if n > 0 {
        let slots = Seq::new(n, |i: int| false);
        lemma_none_in_flight((n - 1) as nat);
        assert(slots.drop_last() =~= Seq::new((n - 1) as nat, |i: int| false));
    }
}

/// Taking a stream on puts one more in flight, and answering one puts one less.
pub proof fn streams_in_flight_are_counted(taken: Seq<bool>, slot: int)
    ensures
        event_allowed(taken, SlotEvent::Accepted { slot }) ==> in_flight(
            slots_after(taken, SlotEvent::Accepted { slot }),
        ) == in_flight(taken) + 1,
        event_allowed(taken, SlotEvent::Answered { slot }) ==> in_flight(
            slots_after(taken, SlotEvent::Answered { slot }),
        ) == in_flight(taken) - 1,
{
    if 0 <= slot < taken.len() {
        lemma_one_slot_changes(taken, slot, !taken[slot]);
    }
}

proof fn lemma_one_slot_changes(taken: Seq<bool>, slot: int, value: bool)
    requires
        0 <= slot < taken.len(),
        taken[slot] != value,
    ensures
        in_flight(taken.update(slot, value)) == in_flight(taken) + if value {
            1int
        } else {
            -1int
        },
    decreases taken.len(),
{
    let front = taken.drop_last();
    let changed = taken.update(slot, value);
    if slot < front.len() {
        lemma_one_slot_changes(front, slot, value);
        assert(changed.drop_last() =~= front.update(slot, value));
    } else {
        assert(changed.drop_last() =~= front);
    }
}

/// Only an answer of the two letters `ok` lets a stream go well. Any other answer
/// is handed on, and so is what kept a stream from getting one.
pub proof fn streams_go_well_only_when_accepted(
    progress: StreamProgress,
    outcome: Result<(), String>,
)
    requires
        stream_ends(progress, outcome),
    ensures
        outcome is Ok <==> (progress matches StreamProgress::Answered(bytes) && bytes@ == seq![
            111u8,
            107u8,
        ]),
        outcome is Err ==> (progress matches StreamProgress::Answered(bytes) ==> outcome->Err_0@
            == "QUIC stream receiver rejected payload: "@ + utf8_lossy(bytes@)),
        outcome is Err ==> (progress matches StreamProgress::Answered(bytes)
            ==> vstd::utf8::valid_utf8(bytes@) ==> outcome->Err_0@
            == "QUIC stream receiver rejected payload: "@ + vstd::utf8::decode_utf8(bytes@)),
        !(progress is Answered) ==> outcome is Err && progress_failure(progress) == Some(
            outcome->Err_0@,
        ),
{
    assert(accepting_ack() =~= seq![111u8, 107u8]);
}

/// A dial that succeeded hands its own connection on, and one that failed hands
/// none on.
pub proof fn dials_hand_their_connection_on<C>(
    addr: Seq<char>,
    dialled: Result<C, DialFailure>,
    outcome: Result<C, String>,
)
    requires
        dial_ends(addr, dialled, outcome),
    ensures
        outcome is Ok <==> dialled is Ok,
        dialled matches Ok(c) ==> outcome == Ok::<C, String>(c),
        dialled matches Err(failure) ==> outcome->Err_0@ == dial_failure_text(addr, failure),
{
}

} // verus!
