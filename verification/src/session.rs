//! The echo loop over a whole run of events, and what holds of it.
//!
//! [`run`] and [`issued`] drive the state machine along a sequence of events;
//! [`emitted`] reads off what the operations it asked for put on the line. The
//! proof functions of this module state what the loop does with one received
//! byte, with and without a fault, with one after the other, and over any
//! sequence of bytes.

use vstd::prelude::*;
use crate::echo::{Action, Event, Phase, ReceiverStatus};
use crate::fault::{
    lemma_sole_fault_is_dominant, spec_classify, Classification, Fault, FaultFlags,
};

verus! {

/// The phase that the loop is in after `events`, starting from `phase`.
pub open spec fn run(phase: Phase, events: Seq<Event>) -> Phase
    decreases events.len(),
{
    if events.len() == 0 {
        phase
    } else {
        run(phase.spec_next(events.first()), events.drop_first())
    }
}

/// The operations that the loop asks for along `events`, starting from
/// `phase`: one after each event.
pub open spec fn issued(phase: Phase, events: Seq<Event>) -> Seq<Action>
    decreases events.len(),
{
    if events.len() == 0 {
        Seq::empty()
    } else {
        let next = phase.spec_next(events.first());
        seq![next.spec_action()] + issued(next, events.drop_first())
    }
}

/// What an operation puts on the line: a fault report, an echoed byte, or
/// nothing.
pub open spec fn emission(action: Action) -> Seq<Classification> {
    match action {
        Action::Report(fault) => seq![Classification::of_fault(fault)],
        Action::Transmit(byte) => seq![Classification::ValidByte(byte)],
        _ => Seq::empty(),
    }
}

/// What a sequence of operations puts on the line, in order.
pub open spec fn emitted(actions: Seq<Action>) -> Seq<Classification>
    decreases actions.len(),
{
    if actions.len() == 0 {
        Seq::empty()
    } else {
        emission(actions.first()) + emitted(actions.drop_first())
    }
}

/// Polls of an empty receiver, one for each entry of `flags`: the fault flags
/// that the poll saw.
pub open spec fn idle_polls(flags: Seq<FaultFlags>) -> Seq<Event> {
    Seq::new(
        flags.len(),
        |i: int| Event::Receiver(ReceiverStatus { not_empty: false, faults: flags[i] }),
    )
}

/// `count` polls of a busy transmitter.
pub open spec fn busy_polls(count: nat) -> Seq<Event> {
    Seq::new(count, |i: int| Event::Transmitter(false))
}

/// The events of a byte that arrives with a fault: the poll that finds it, the
/// read that consumes it, and the write of the report.
pub open spec fn fault_cycle(status: ReceiverStatus, read: Option<u8>) -> Seq<Event> {
    seq![Event::Receiver(status), Event::Byte(read), Event::Written]
}

/// The events of a byte that arrives without a fault: the poll that finds it,
/// the read, `busy` polls of a busy transmitter, the poll that finds it ready,
/// and the write of the byte.
pub open spec fn echo_cycle(status: ReceiverStatus, byte: u8, busy: nat) -> Seq<Event> {
    seq![Event::Receiver(status), Event::Byte(Some(byte))] + busy_polls(busy)
        + seq![Event::Transmitter(true), Event::Written]
}

/// One byte on the line, as the hardware presents it to the loop.
pub struct Reception {
    /// The fault flags seen by each poll that found the receiver still empty.
    pub idle: Seq<FaultFlags>,
    /// The fault flags with which the byte arrives.
    pub faults: FaultFlags,
    /// What the read of the receive register gives.
    pub read: Option<u8>,
    /// How many polls find the transmitter busy before it is ready.
    pub busy: nat,
}

impl Reception {
    /// The poll result that announces the byte.
    pub open spec fn arrival(self) -> ReceiverStatus {
        ReceiverStatus { not_empty: true, faults: self.faults }
    }

    /// The events that the reception gives the loop, in order.
    pub open spec fn events(self) -> Seq<Event> {
        idle_polls(self.idle) + if self.faults.any() {
            fault_cycle(self.arrival(), self.read)
        } else {
            match self.read {
                Some(byte) => echo_cycle(self.arrival(), byte, self.busy),
                None => seq![Event::Receiver(self.arrival()), Event::Byte(None)],
            }
        }
    }

    /// What the reception must put on the line: the classification of the
    /// byte that was read; the report of the fault where the read of a faulty
    /// byte gave none; nothing where the read of a byte without a fault gave
    /// none.
    pub open spec fn outcome(self) -> Seq<Classification> {
        match (self.faults.spec_dominant(), self.read) {
            (Some(fault), None) => seq![Classification::of_fault(fault)],
            (_, Some(byte)) => seq![spec_classify(self.faults, byte)],
            (None, None) => Seq::empty(),
        }
    }
}

/// The events of a sequence of receptions, one reception after the other.
pub open spec fn session_events(receptions: Seq<Reception>) -> Seq<Event>
    decreases receptions.len(),
{
    if receptions.len() == 0 {
        Seq::empty()
    } else {
        receptions.first().events() + session_events(receptions.drop_first())
    }
}

/// What a sequence of receptions must put on the line.
pub open spec fn session_outcome(receptions: Seq<Reception>) -> Seq<Classification>
    decreases receptions.len(),
{
    if receptions.len() == 0 {
        Seq::empty()
    } else {
        receptions.first().outcome() + session_outcome(receptions.drop_first())
    }
}

/// One event moves the loop one phase on and asks for one operation.
pub proof fn lemma_run_one(phase: Phase, event: Event)
    ensures
        run(phase, seq![event]) == phase.spec_next(event),
        issued(phase, seq![event]) == seq![phase.spec_next(event).spec_action()],
{
    let events = seq![event];
    assert(events.first() == event);
    assert(events.drop_first() =~= Seq::<Event>::empty());
    reveal_with_fuel(run, 2);
    reveal_with_fuel(issued, 2);
}

/// One operation puts on the line what [`emission`] says of it.
pub proof fn lemma_emitted_one(action: Action)
    ensures
        emitted(seq![action]) == emission(action),
{
    let actions = seq![action];
    assert(actions.first() == action);
    assert(actions.drop_first() =~= Seq::<Action>::empty());
    reveal_with_fuel(emitted, 2);
}

/// Running over two sequences of events, one after the other, is running over
/// the first and then over the second from where the first ended.
pub proof fn lemma_run_concat(phase: Phase, first: Seq<Event>, second: Seq<Event>)
    ensures
        run(phase, first + second) == run(run(phase, first), second),
        issued(phase, first + second) == issued(phase, first) + issued(
            run(phase, first),
            second,
        ),
    decreases first.len(),
{
    if first.len() == 0 {
        assert(first + second =~= second);
    } else {
        let next = phase.spec_next(first.first());
        assert((first + second).first() == first.first());
        assert((first + second).drop_first() =~= first.drop_first() + second);
        lemma_run_concat(next, first.drop_first(), second);
    }
}

/// What two sequences of operations put on the line is what the first puts on
/// it, followed by what the second does.
pub proof fn lemma_emitted_concat(first: Seq<Action>, second: Seq<Action>)
    ensures
        emitted(first + second) == emitted(first) + emitted(second),
    decreases first.len(),
{
    if first.len() == 0 {
        assert(first + second =~= second);
    } else {
        assert((first + second).first() == first.first());
        assert((first + second).drop_first() =~= first.drop_first() + second);
        lemma_emitted_concat(first.drop_first(), second);
    }
}

/// The loop never stops by itself: it halts only on a failed write, or on an
/// event that the operation it asked for cannot have given.
pub proof fn lemma_never_stops(phase: Phase, event: Event)
    requires
        phase != Phase::Halted,
        event.answers(phase.spec_action()),
        event != Event::WriteFailed,
    ensures
        phase.spec_next(event) != Phase::Halted,
{
}

/// Once halted, the loop stays halted and puts nothing more on the line.
pub proof fn lemma_halt_is_final(events: Seq<Event>)
    ensures
        run(Phase::Halted, events) == Phase::Halted,
        emitted(issued(Phase::Halted, events)) == Seq::<Classification>::empty(),
    decreases events.len(),
{
    if events.len() > 0 {
        lemma_halt_is_final(events.drop_first());
        let rest = issued(Phase::Halted, events.drop_first());
        let actions = issued(Phase::Halted, events);
        assert(actions =~= seq![Action::Halt] + rest);
        lemma_emitted_one(Action::Halt);
        lemma_emitted_concat(seq![Action::Halt], rest);
    }
}

/// A fault is reported only right after the read that consumed the faulty
/// byte, and that read is asked for only when a poll found a byte whose first
/// asserted fault is the one reported.
pub proof fn lemma_reports_only_after_read(phase: Phase, event: Event, fault: Fault)
    ensures
        phase.spec_next(event).spec_action() == Action::Report(fault) ==> {
            &&& phase == Phase::Draining(fault)
            &&& event is Byte
        },
        phase.spec_next(event) == Phase::Draining(fault) ==> {
            &&& phase == Phase::AwaitByte
            &&& event matches Event::Receiver(status)
            &&& status.not_empty
            &&& status.faults.spec_dominant() == Some(fault)
        },
{
}

/// A byte goes out only as the answer to a poll that found the transmitter
/// ready, and it is the byte that the loop was holding.
pub proof fn lemma_transmits_only_when_ready(phase: Phase, event: Event, byte: u8)
    requires
        phase.spec_next(event).spec_action() == Action::Transmit(byte),
    ensures
        phase == Phase::AwaitTransmitter(byte),
        event == Event::Transmitter(true),
{
}

/// The loop holds a byte for the transmitter only if a read gave it that byte
/// while no fault was flagged, or if it was holding the byte already and the
/// transmitter was busy.
pub proof fn lemma_holds_what_was_read(phase: Phase, event: Event, byte: u8)
    requires
        phase.spec_next(event) == Phase::AwaitTransmitter(byte),
    ensures
        (phase == Phase::Fetching && event == Event::Byte(Some(byte))) || (phase
            == Phase::AwaitTransmitter(byte) && event == Event::Transmitter(false)),
{
}

/// While the receiver is empty the loop keeps polling it, whatever the fault
/// flags say, and puts nothing on the line.
pub proof fn lemma_waits_for_byte(flags: Seq<FaultFlags>)
    ensures
        run(Phase::AwaitByte, idle_polls(flags)) == Phase::AwaitByte,
        issued(Phase::AwaitByte, idle_polls(flags)) == Seq::new(
            flags.len(),
            |i: int| Action::PollReceiver,
        ),
        emitted(issued(Phase::AwaitByte, idle_polls(flags))) == Seq::<Classification>::empty(),
    decreases flags.len(),
{
    let events = idle_polls(flags);
    let polls = Seq::new(flags.len(), |i: int| Action::PollReceiver);
    if flags.len() > 0 {
        let rest = flags.drop_first();
        lemma_waits_for_byte(rest);
        assert(events.drop_first() =~= idle_polls(rest));
        assert(polls =~= seq![Action::PollReceiver] + Seq::new(
            rest.len(),
            |i: int| Action::PollReceiver,
        ));
        assert(polls.first() == Action::PollReceiver);
        assert(polls.drop_first() =~= Seq::new(rest.len(), |i: int| Action::PollReceiver));
    }
}

/// While the transmitter is busy the loop keeps polling it, holds on to the
/// byte, and puts nothing on the line.
pub proof fn lemma_waits_for_transmitter(byte: u8, count: nat)
    ensures
        run(Phase::AwaitTransmitter(byte), busy_polls(count)) == Phase::AwaitTransmitter(byte),
        issued(Phase::AwaitTransmitter(byte), busy_polls(count)) == Seq::new(
            count,
            |i: int| Action::PollTransmitter,
        ),
        emitted(issued(Phase::AwaitTransmitter(byte), busy_polls(count))) == Seq::<
            Classification,
        >::empty(),
    decreases count,
{
    let events = busy_polls(count);
    let polls = Seq::new(count, |i: int| Action::PollTransmitter);
    if count > 0 {
        let rest = (count - 1) as nat;
        lemma_waits_for_transmitter(byte, rest);
        assert(events.drop_first() =~= busy_polls(rest));
        assert(polls =~= seq![Action::PollTransmitter] + Seq::new(
            rest,
            |i: int| Action::PollTransmitter,
        ));
        assert(polls.first() == Action::PollTransmitter);
        assert(polls.drop_first() =~= Seq::new(rest, |i: int| Action::PollTransmitter));
    }
}

/// A byte that arrives with a fault is consumed by one read, then reported by
/// one message, that of the first asserted fault in the order parity,
/// framing, overrun, and it is not echoed; after that the loop polls the
/// receiver again.
pub proof fn lemma_fault_cycle(status: ReceiverStatus, read: Option<u8>, fault: Fault)
    requires
        status.not_empty,
        status.faults.spec_dominant() == Some(fault),
    ensures
        run(Phase::AwaitByte, fault_cycle(status, read)) == Phase::AwaitByte,
        issued(Phase::AwaitByte, fault_cycle(status, read)) == seq![
            Action::ReadByte,
            Action::Report(fault),
            Action::PollReceiver,
        ],
        emitted(issued(Phase::AwaitByte, fault_cycle(status, read))) == seq![
            Classification::of_fault(fault),
        ],
{
    let poll = Event::Receiver(status);
    let events = fault_cycle(status, read);
    assert(events =~= seq![poll] + (seq![Event::Byte(read)] + seq![Event::Written]));
    lemma_run_one(Phase::AwaitByte, poll);
    lemma_run_one(Phase::Draining(fault), Event::Byte(read));
    lemma_run_one(Phase::Reporting(fault), Event::Written);
    lemma_run_concat(Phase::Draining(fault), seq![Event::Byte(read)], seq![Event::Written]);
    lemma_run_concat(Phase::AwaitByte, seq![poll], seq![Event::Byte(read)] + seq![Event::Written]);
    let actions = seq![Action::ReadByte, Action::Report(fault), Action::PollReceiver];
    assert(issued(Phase::AwaitByte, events) =~= actions);
    assert(actions =~= seq![Action::ReadByte] + (seq![Action::Report(fault)]
        + seq![Action::PollReceiver]));
    lemma_emitted_one(Action::ReadByte);
    lemma_emitted_one(Action::Report(fault));
    lemma_emitted_one(Action::PollReceiver);
    lemma_emitted_concat(seq![Action::Report(fault)], seq![Action::PollReceiver]);
    lemma_emitted_concat(
        seq![Action::ReadByte],
        seq![Action::Report(fault)] + seq![Action::PollReceiver],
    );
    assert(emitted(actions) =~= seq![Classification::of_fault(fault)]);
}

/// A byte that arrives with one fault flag asserted and no other puts on the
/// line exactly one message, that of the asserted fault, and no echo.
pub proof fn lemma_single_fault_is_reported(
    status: ReceiverStatus,
    read: Option<u8>,
    fault: Fault,
)
    requires
        status.not_empty,
        status.faults.asserts(fault),
        forall|other: Fault| status.faults.asserts(other) ==> other == fault,
    ensures
        issued(Phase::AwaitByte, fault_cycle(status, read)) == seq![
            Action::ReadByte,
            Action::Report(fault),
            Action::PollReceiver,
        ],
        emitted(issued(Phase::AwaitByte, fault_cycle(status, read))) == seq![
            Classification::of_fault(fault),
        ],
{
    lemma_sole_fault_is_dominant(status.faults, fault);
    lemma_fault_cycle(status, read, fault);
}

/// Where several fault flags are asserted at once, only the first in the
/// order parity, framing, overrun is reported: parity whatever else is
/// asserted, framing whenever parity is not.
pub proof fn lemma_tie_break(status: ReceiverStatus, read: Option<u8>)
    requires
        status.not_empty,
        status.faults.any(),
    ensures
        status.faults.parity ==> emitted(issued(Phase::AwaitByte, fault_cycle(status, read)))
            == seq![Classification::ParityError],
        !status.faults.parity && status.faults.framing ==> emitted(
            issued(Phase::AwaitByte, fault_cycle(status, read)),
        ) == seq![Classification::FramingError],
        !status.faults.parity && !status.faults.framing ==> emitted(
            issued(Phase::AwaitByte, fault_cycle(status, read)),
        ) == seq![Classification::OverrunError],
{
    let fault = status.faults.spec_dominant()->0;
    lemma_fault_cycle(status, read, fault);
}

/// A byte that arrives without a fault is read once and sent back unchanged,
/// by the one write that follows the poll that finds the transmitter ready,
/// however many polls found it busy before; nothing else goes on the line,
/// and after that the loop polls the receiver again.
pub proof fn lemma_echo_cycle(status: ReceiverStatus, byte: u8, busy: nat)
    requires
        status.not_empty,
        !status.faults.any(),
    ensures
        run(Phase::AwaitByte, echo_cycle(status, byte, busy)) == Phase::AwaitByte,
        issued(Phase::AwaitByte, echo_cycle(status, byte, busy)) == seq![
            Action::ReadByte,
            Action::PollTransmitter,
        ] + Seq::new(busy, |i: int| Action::PollTransmitter) + seq![
            Action::Transmit(byte),
            Action::PollReceiver,
        ],
        emitted(issued(Phase::AwaitByte, echo_cycle(status, byte, busy))) == seq![
            Classification::ValidByte(byte),
        ],
{
    let poll = Event::Receiver(status);
    let got = Event::Byte(Some(byte));
    let ready = Event::Transmitter(true);
    let waiting = Phase::AwaitTransmitter(byte);
    let head = seq![poll] + seq![got];
    let tail = seq![ready] + seq![Event::Written];
    let events = echo_cycle(status, byte, busy);
    assert(events =~= head + (busy_polls(busy) + tail));

    lemma_run_one(Phase::AwaitByte, poll);
    lemma_run_one(Phase::Fetching, got);
    lemma_run_concat(Phase::AwaitByte, seq![poll], seq![got]);
    lemma_waits_for_transmitter(byte, busy);
    lemma_run_one(waiting, ready);
    lemma_run_one(Phase::Echoing(byte), Event::Written);
    lemma_run_concat(waiting, seq![ready], seq![Event::Written]);
    lemma_run_concat(waiting, busy_polls(busy), tail);
    lemma_run_concat(Phase::AwaitByte, head, busy_polls(busy) + tail);

    let head_actions = seq![Action::ReadByte] + seq![Action::PollTransmitter];
    let polls = Seq::new(busy, |i: int| Action::PollTransmitter);
    let tail_actions = seq![Action::Transmit(byte)] + seq![Action::PollReceiver];
    assert(issued(Phase::AwaitByte, events) =~= head_actions + (polls + tail_actions));
    assert(head_actions + (polls + tail_actions) =~= seq![
        Action::ReadByte,
        Action::PollTransmitter,
    ] + polls + seq![Action::Transmit(byte), Action::PollReceiver]);

    lemma_emitted_one(Action::ReadByte);
    lemma_emitted_one(Action::PollTransmitter);
    lemma_emitted_one(Action::Transmit(byte));
    lemma_emitted_one(Action::PollReceiver);
    lemma_emitted_concat(seq![Action::ReadByte], seq![Action::PollTransmitter]);
    lemma_emitted_concat(seq![Action::Transmit(byte)], seq![Action::PollReceiver]);
    lemma_emitted_concat(polls, tail_actions);
    lemma_emitted_concat(head_actions, polls + tail_actions);
    assert(emitted(head_actions + (polls + tail_actions)) =~= seq![
        Classification::ValidByte(byte),
    ]);
}

/// A fault leaves nothing behind: a byte without a fault that follows a
/// reported fault is echoed as if nothing had happened before it.
pub proof fn lemma_fault_then_echo(
    faulty: ReceiverStatus,
    read: Option<u8>,
    fault: Fault,
    clean: ReceiverStatus,
    byte: u8,
    busy: nat,
)
    requires
        faulty.not_empty,
        faulty.faults.spec_dominant() == Some(fault),
        clean.not_empty,
        !clean.faults.any(),
    ensures
        run(Phase::AwaitByte, fault_cycle(faulty, read)) == Phase::AwaitByte,
        issued(Phase::AwaitByte, fault_cycle(faulty, read) + echo_cycle(clean, byte, busy))
            == issued(Phase::AwaitByte, fault_cycle(faulty, read)) + issued(
            Phase::AwaitByte,
            echo_cycle(clean, byte, busy),
        ),
        emitted(
            issued(Phase::AwaitByte, fault_cycle(faulty, read) + echo_cycle(clean, byte, busy)),
        ) == seq![Classification::of_fault(fault), Classification::ValidByte(byte)],
{
    lemma_fault_cycle(faulty, read, fault);
    lemma_echo_cycle(clean, byte, busy);
    lemma_run_concat(Phase::AwaitByte, fault_cycle(faulty, read), echo_cycle(clean, byte, busy));
    lemma_emitted_concat(
        issued(Phase::AwaitByte, fault_cycle(faulty, read)),
        issued(Phase::AwaitByte, echo_cycle(clean, byte, busy)),
    );
    assert(seq![Classification::of_fault(fault)] + seq![Classification::ValidByte(byte)]
        =~= seq![Classification::of_fault(fault), Classification::ValidByte(byte)]);
}

/// One reception puts on the line exactly its outcome, and leaves the loop
/// polling the receiver.
pub proof fn lemma_reception(reception: Reception)
    ensures
        run(Phase::AwaitByte, reception.events()) == Phase::AwaitByte,
        emitted(issued(Phase::AwaitByte, reception.events())) == reception.outcome(),
{
    let arrival = reception.arrival();
    let idle = idle_polls(reception.idle);
    let cycle = if reception.faults.any() {
        fault_cycle(arrival, reception.read)
    } else {
        match reception.read {
            Some(byte) => echo_cycle(arrival, byte, reception.busy),
            None => seq![Event::Receiver(arrival), Event::Byte(None)],
        }
    };
    assert(reception.events() == idle + cycle);
    lemma_waits_for_byte(reception.idle);
    lemma_run_concat(Phase::AwaitByte, idle, cycle);
    lemma_emitted_concat(issued(Phase::AwaitByte, idle), issued(Phase::AwaitByte, cycle));
    assert(Seq::<Classification>::empty() + emitted(issued(Phase::AwaitByte, cycle))
        =~= emitted(issued(Phase::AwaitByte, cycle)));
    if reception.faults.any() {
        lemma_fault_cycle(arrival, reception.read, reception.faults.spec_dominant()->0);
    } else {
        match reception.read {
            Some(byte) => {
                lemma_echo_cycle(arrival, byte, reception.busy);
            },
            None => {
                let poll = Event::Receiver(arrival);
                assert(cycle =~= seq![poll] + seq![Event::Byte(None)]);
                lemma_run_one(Phase::AwaitByte, poll);
                lemma_run_one(Phase::Fetching, Event::Byte(None));
                lemma_run_concat(Phase::AwaitByte, seq![poll], seq![Event::Byte(None)]);
                lemma_emitted_one(Action::ReadByte);
                lemma_emitted_one(Action::PollReceiver);
                lemma_emitted_concat(seq![Action::ReadByte], seq![Action::PollReceiver]);
                assert(emitted(issued(Phase::AwaitByte, cycle)) =~= Seq::<
                    Classification,
                >::empty());
            },
        }
    }
}

/// Over any sequence of receptions the loop puts on the line the outcome of
/// each, in the order in which they came: every byte that was read is either
/// reported as one fault or echoed unchanged, never both, and none is passed
/// over.
pub proof fn lemma_session(receptions: Seq<Reception>)
    ensures
        run(Phase::AwaitByte, session_events(receptions)) == Phase::AwaitByte,
        emitted(issued(Phase::AwaitByte, session_events(receptions))) == session_outcome(
            receptions,
        ),
    decreases receptions.len(),
{
    if receptions.len() > 0 {
        let first = receptions.first().events();
        let rest = session_events(receptions.drop_first());
        lemma_reception(receptions.first());
        lemma_session(receptions.drop_first());
        lemma_run_concat(Phase::AwaitByte, first, rest);
        lemma_emitted_concat(issued(Phase::AwaitByte, first), issued(Phase::AwaitByte, rest));
    }
}

} // verus!
