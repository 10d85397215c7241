use uart_echo::echo::{Action, Event, Phase, ReceiverStatus};
use uart_echo::fault::{Fault, FaultFlags};

const NO_FAULT: FaultFlags = FaultFlags { parity: false, framing: false, overrun: false };
const PARITY: FaultFlags = FaultFlags { parity: true, framing: false, overrun: false };
const FRAMING: FaultFlags = FaultFlags { parity: false, framing: true, overrun: false };
const OVERRUN: FaultFlags = FaultFlags { parity: false, framing: false, overrun: true };

/// One byte as a simulated line presents it.
#[derive(Clone, Copy)]
struct Incoming {
    /// Polls that find the receiver empty before the byte is there.
    idle: usize,
    /// Fault flags that come with the byte.
    faults: FaultFlags,
    /// What reading the receive register gives.
    read: Option<u8>,
    /// Polls that find the transmitter busy before it is ready.
    busy: usize,
}

fn clean(byte: u8) -> Incoming {
    Incoming { idle: 0, faults: NO_FAULT, read: Some(byte), busy: 0 }
}

fn faulty(faults: FaultFlags) -> Incoming {
    Incoming { idle: 0, faults, read: None, busy: 0 }
}

/// What the loop did on a simulated line.
struct Record {
    /// Every byte written to the line.
    line: Vec<u8>,
    /// Every operation asked for, the first poll included.
    actions: Vec<Action>,
    /// Reads of the receive register.
    reads: usize,
    /// The phase in which the loop was left.
    last: Phase,
}

/// Plays the hardware for the loop until every byte of `incoming` is dealt
/// with.
fn simulate(incoming: &[Incoming]) -> Record {
    let mut phase = Phase::start();
    let mut record = Record { line: Vec::new(), actions: Vec::new(), reads: 0, last: phase };
    for byte in incoming {
        let mut idle = byte.idle;
        let mut busy = byte.busy;
        loop {
            let action = phase.action();
            record.actions.push(action);
            let event = match action {
                Action::PollReceiver => {
                    let not_empty = idle == 0;
                    idle = idle.saturating_sub(1);
                    Event::Receiver(ReceiverStatus { not_empty, faults: byte.faults })
                }
                Action::ReadByte => {
                    record.reads += 1;
                    Event::Byte(byte.read)
                }
                Action::Report(fault) => {
                    record.line.extend_from_slice(fault.message().as_bytes());
                    Event::Written
                }
                Action::PollTransmitter => {
                    let ready = busy == 0;
                    busy = busy.saturating_sub(1);
                    Event::Transmitter(ready)
                }
                Action::Transmit(out) => {
                    record.line.push(out);
                    Event::Written
                }
                Action::Halt => panic!("the loop halted"),
            };
            let (next, announced) = phase.step(event);
            assert_eq!(announced, next.action());
            let done = next == Phase::AwaitByte
                && !matches!(event, Event::Receiver(ReceiverStatus { not_empty: false, .. }));
            phase = next;
            if done {
                break;
            }
        }
    }
    record.last = phase;
    record
}

#[test]
fn the_loop_starts_by_polling_the_receiver() {
    assert_eq!(Phase::start(), Phase::AwaitByte);
    assert_eq!(Phase::start().action(), Action::PollReceiver);
}

#[test]
fn every_phase_names_its_operation() {
    assert_eq!(Phase::AwaitByte.action(), Action::PollReceiver);
    assert_eq!(Phase::Draining(Fault::Framing).action(), Action::ReadByte);
    assert_eq!(Phase::Reporting(Fault::Overrun).action(), Action::Report(Fault::Overrun));
    assert_eq!(Phase::Fetching.action(), Action::ReadByte);
    assert_eq!(Phase::AwaitTransmitter(9).action(), Action::PollTransmitter);
    assert_eq!(Phase::Echoing(9).action(), Action::Transmit(9));
    assert_eq!(Phase::Halted.action(), Action::Halt);
}

#[test]
fn an_empty_receiver_is_polled_again() {
    for faults in [NO_FAULT, PARITY, FRAMING, OVERRUN] {
        let status = ReceiverStatus { not_empty: false, faults };
        assert_eq!(
            Phase::AwaitByte.step(Event::Receiver(status)),
            (Phase::AwaitByte, Action::PollReceiver)
        );
    }
}

#[test]
fn a_parity_error_is_reported_and_not_echoed() {
    let record = simulate(&[faulty(PARITY)]);
    assert_eq!(record.line, b"\r\nParity error detected.\r\n");
    assert_eq!(
        record.actions,
        vec![Action::PollReceiver, Action::ReadByte, Action::Report(Fault::Parity)]
    );
}

#[test]
fn a_framing_error_is_reported_and_not_echoed() {
    let record = simulate(&[faulty(FRAMING)]);
    assert_eq!(record.line, b"\r\nFraming error detected.\r\n");
    assert_eq!(
        record.actions,
        vec![Action::PollReceiver, Action::ReadByte, Action::Report(Fault::Framing)]
    );
}

#[test]
fn an_overrun_error_is_reported_and_not_echoed() {
    let record = simulate(&[faulty(OVERRUN)]);
    assert_eq!(record.line, b"\r\nOver run error detected.\r\n");
    assert_eq!(
        record.actions,
        vec![Action::PollReceiver, Action::ReadByte, Action::Report(Fault::Overrun)]
    );
}

#[test]
fn a_faulty_byte_is_consumed_exactly_once_before_the_report() {
    for faults in [PARITY, FRAMING, OVERRUN] {
        for read in [None, Some(0u8), Some(0xff)] {
            let record = simulate(&[Incoming { idle: 3, faults, read, busy: 2 }]);
            assert_eq!(record.reads, 1);
            let read_at = record.actions.iter().position(|a| *a == Action::ReadByte).unwrap();
            let report_at =
                record.actions.iter().position(|a| matches!(a, Action::Report(_))).unwrap();
            assert_eq!(report_at, read_at + 1);
            assert!(!record.actions.iter().any(|a| matches!(a, Action::Transmit(_))));
            assert_eq!(record.last, Phase::AwaitByte);
        }
    }
}

#[test]
fn the_value_of_a_faulty_byte_never_reaches_the_line() {
    let record = simulate(&[Incoming { idle: 0, faults: FRAMING, read: Some(b'Z'), busy: 0 }]);
    assert_eq!(record.line, b"\r\nFraming error detected.\r\n");
}

#[test]
fn every_byte_value_is_echoed_unchanged() {
    for byte in 0u8..=255 {
        let record = simulate(&[clean(byte)]);
        assert_eq!(record.line, vec![byte]);
        assert_eq!(record.reads, 1);
        assert_eq!(record.last, Phase::AwaitByte);
    }
}

#[test]
fn the_echo_waits_for_the_transmitter() {
    for busy in [0usize, 1, 5] {
        let record = simulate(&[Incoming { idle: 2, faults: NO_FAULT, read: Some(b'k'), busy }]);
        let mut expected = vec![Action::PollReceiver; 3];
        expected.push(Action::ReadByte);
        expected.extend(vec![Action::PollTransmitter; busy + 1]);
        expected.push(Action::Transmit(b'k'));
        assert_eq!(record.actions, expected);
        assert_eq!(record.line, b"k");
    }
}

#[test]
fn a_busy_transmitter_holds_the_byte_back() {
    let waiting = Phase::AwaitTransmitter(0x33);
    assert_eq!(waiting.step(Event::Transmitter(false)), (waiting, Action::PollTransmitter));
    assert_eq!(
        waiting.step(Event::Transmitter(true)),
        (Phase::Echoing(0x33), Action::Transmit(0x33))
    );
}

#[test]
fn a_byte_is_not_transmitted_before_the_transmitter_was_polled() {
    let status = ReceiverStatus { not_empty: true, faults: NO_FAULT };
    let (fetching, first) = Phase::AwaitByte.step(Event::Receiver(status));
    assert_eq!((fetching, first), (Phase::Fetching, Action::ReadByte));
    let (waiting, second) = fetching.step(Event::Byte(Some(b'q')));
    assert_eq!((waiting, second), (Phase::AwaitTransmitter(b'q'), Action::PollTransmitter));
}

#[test]
fn a_valid_byte_after_a_fault_is_echoed_normally() {
    for faults in [PARITY, FRAMING, OVERRUN] {
        let fault = faults.dominant().unwrap();
        let record = simulate(&[faulty(faults), clean(b'A')]);
        let mut expected = fault.message().as_bytes().to_vec();
        expected.push(b'A');
        assert_eq!(record.line, expected);
        assert_eq!(record.last, Phase::AwaitByte);
    }
}

#[test]
fn the_phase_after_a_report_is_the_starting_phase() {
    assert_eq!(
        Phase::Reporting(Fault::Parity).step(Event::Written),
        (Phase::start(), Action::PollReceiver)
    );
    assert_eq!(Phase::Echoing(1).step(Event::Written), (Phase::start(), Action::PollReceiver));
}

#[test]
fn simultaneous_parity_and_framing_report_parity_only() {
    let both = FaultFlags { parity: true, framing: true, overrun: false };
    let record = simulate(&[faulty(both)]);
    assert_eq!(record.line, b"\r\nParity error detected.\r\n");
}

#[test]
fn simultaneous_flags_report_the_first_in_priority_only() {
    let framing_and_overrun = FaultFlags { parity: false, framing: true, overrun: true };
    assert_eq!(simulate(&[faulty(framing_and_overrun)]).line, b"\r\nFraming error detected.\r\n");
    let parity_and_overrun = FaultFlags { parity: true, framing: false, overrun: true };
    assert_eq!(simulate(&[faulty(parity_and_overrun)]).line, b"\r\nParity error detected.\r\n");
    let all = FaultFlags { parity: true, framing: true, overrun: true };
    assert_eq!(simulate(&[faulty(all)]).line, b"\r\nParity error detected.\r\n");
}

#[test]
fn a_mixed_stream_is_answered_byte_by_byte_in_order() {
    let record = simulate(&[
        Incoming { idle: 4, faults: NO_FAULT, read: Some(b'h'), busy: 1 },
        Incoming { idle: 0, faults: NO_FAULT, read: Some(b'i'), busy: 0 },
        Incoming { idle: 1, faults: OVERRUN, read: Some(b'x'), busy: 0 },
        Incoming { idle: 0, faults: NO_FAULT, read: Some(0), busy: 3 },
        Incoming { idle: 2, faults: PARITY, read: None, busy: 0 },
        Incoming { idle: 0, faults: NO_FAULT, read: Some(0xff), busy: 0 },
    ]);
    let mut expected = b"hi".to_vec();
    expected.extend_from_slice(b"\r\nOver run error detected.\r\n");
    expected.push(0);
    expected.extend_from_slice(b"\r\nParity error detected.\r\n");
    expected.push(0xff);
    assert_eq!(record.line, expected);
    assert_eq!(record.reads, 6);
    assert_eq!(record.last, Phase::AwaitByte);
}

#[test]
fn a_read_that_gives_no_byte_sends_nothing() {
    let record = simulate(&[Incoming { idle: 0, faults: NO_FAULT, read: None, busy: 0 }]);
    assert!(record.line.is_empty());
    assert_eq!(record.actions, vec![Action::PollReceiver, Action::ReadByte]);
    assert_eq!(record.last, Phase::AwaitByte);
    assert_eq!(Phase::Fetching.step(Event::Byte(None)), (Phase::AwaitByte, Action::PollReceiver));
}

#[test]
fn a_failed_write_halts_the_loop() {
    assert_eq!(
        Phase::Reporting(Fault::Framing).step(Event::WriteFailed),
        (Phase::Halted, Action::Halt)
    );
    assert_eq!(Phase::Echoing(b'e').step(Event::WriteFailed), (Phase::Halted, Action::Halt));
}

#[test]
fn a_halted_loop_stays_halted() {
    let status = ReceiverStatus { not_empty: true, faults: NO_FAULT };
    for event in [
        Event::Receiver(status),
        Event::Byte(Some(1)),
        Event::Byte(None),
        Event::Transmitter(true),
        Event::Transmitter(false),
        Event::Written,
        Event::WriteFailed,
    ] {
        assert_eq!(Phase::Halted.step(event), (Phase::Halted, Action::Halt));
    }
}

#[test]
fn an_event_that_was_not_awaited_halts_the_loop() {
    let status = ReceiverStatus { not_empty: true, faults: NO_FAULT };
    let halted = (Phase::Halted, Action::Halt);
    assert_eq!(Phase::AwaitByte.step(Event::Byte(Some(1))), halted);
    assert_eq!(Phase::AwaitByte.step(Event::Written), halted);
    assert_eq!(Phase::AwaitByte.step(Event::Transmitter(true)), halted);
    assert_eq!(Phase::Draining(Fault::Parity).step(Event::Receiver(status)), halted);
    assert_eq!(Phase::Draining(Fault::Parity).step(Event::Written), halted);
    assert_eq!(Phase::Reporting(Fault::Parity).step(Event::Byte(None)), halted);
    assert_eq!(Phase::Fetching.step(Event::Transmitter(true)), halted);
    assert_eq!(Phase::Fetching.step(Event::Receiver(status)), halted);
    assert_eq!(Phase::AwaitTransmitter(2).step(Event::Written), halted);
    assert_eq!(Phase::AwaitTransmitter(2).step(Event::Byte(Some(2))), halted);
    assert_eq!(Phase::Echoing(2).step(Event::Transmitter(true)), halted);
    assert_eq!(Phase::Echoing(2).step(Event::Receiver(status)), halted);
}
