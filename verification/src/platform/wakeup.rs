//! The handshake that wakes an application processor through the
//! multiprocessor wakeup mailbox.
//!
//! The mailbox is memory that this processor shares with the one to be
//! woken, so the accesses themselves are the caller's business: they need
//! a mapping of physical memory and volatile reads and writes. What is
//! decided here is the order of those accesses and the outcome. The
//! caller performs one action at a time and reports back what happened;
//! the machine answers with the next action.
//!
//! The caller must also see to what the hardware demands and no code can
//! check: interrupts are disabled, long mode and paging are on with the
//! wakeup vector identity mapped, the vector lies within one physical
//! page, and the selectors are flat.

use crate::error::{AcpiError, MadtError};
use crate::sdt::madt::{MpProtectedModeWakeupCommand, WAKEUP_MAILBOX_SIZE};
use vstd::prelude::*;

verus! {

/// Whether a value read out of the command field shows that the target
/// processor has taken the wakeup command: it then stands at "nothing to
/// do" again.
pub open spec fn acknowledges(value: u16) -> bool {
    MpProtectedModeWakeupCommand::decoded(value) == MpProtectedModeWakeupCommand::Noop
}

/// How far a handshake has come.
///
/// Up to and including `Requesting` the target processor has nothing to
/// act on: the handshake is idle as far as it can tell. In `Polling` the
/// wakeup is requested. `Acknowledged` and `TimedOut` are the two ends.
#[derive(Clone, Copy, Debug, PartialEq, Eq, Structural)]
pub enum WakeupPhase {
    /// Nothing has been done yet.
    Idle,
    /// The mailbox is being mapped.
    Mapping,
    /// Stale state is being cleared out of the command field.
    Resetting,
    /// The target and the wakeup vector are being written.
    Filling,
    /// The wakeup command is being written.
    Requesting,
    /// The wakeup command is visible to the target, and the command field
    /// is read again and again until the target has taken the command.
    Polling,
    /// The target took the command; the mapping is being released.
    ReleasingAcknowledged,
    /// The target did not take the command in time; the mapping is being released.
    ReleasingTimedOut,
    /// The handshake succeeded and the mapping is released.
    Acknowledged,
    /// The handshake failed and the mapping is released.
    TimedOut,
}

/// What the caller reports to the machine.
#[derive(Clone, Copy, Debug, PartialEq, Eq, Structural)]
pub enum WakeupEvent {
    /// The handshake is to begin.
    Start,
    /// The mailbox is mapped.
    Mapped,
    /// The write that was asked for is done.
    Written,
    /// The command field was read, with this value, and one spin hint was executed.
    Command(u16),
    /// The mapping is released.
    Released,
}

/// What the machine asks the caller to do next.
#[derive(Clone, Copy, Debug, PartialEq, Eq)]
pub enum WakeupAction {
    /// Map `length` bytes of physical memory at `physical_address`.
    MapMailbox { physical_address: u64, length: usize },
    /// Write this command to the command field, with a volatile write.
    WriteCommand(MpProtectedModeWakeupCommand),
    /// Write the target and the wakeup vector into the mailbox.
    WriteTarget { apic_id: u32, wakeup_vector: u64 },
    /// Read the command field, with a volatile read, and execute one spin hint.
    ReadCommand,
    /// Release the mapping of the mailbox.
    ReleaseMailbox,
    /// Nothing more to do: the handshake has ended with this result.
    Finish(Result<(), AcpiError>),
}

/// One wakeup handshake, from its first step to its end.
#[derive(Clone, Copy, Debug, PartialEq, Eq, Structural)]
pub struct ApWakeup {
    /// The physical address of the mailbox.
    pub mailbox_address: u64,
    /// The processor to wake.
    pub apic_id: u32,
    /// The physical address at which it is to start running.
    pub wakeup_vector: u64,
    /// How many times the command field is read at most.
    pub timeout_loops: u64,
    /// How many times the command field has been read.
    pub loops: u64,
    pub phase: WakeupPhase,
}

impl ApWakeup {
    /// A handshake that has not begun.
    pub open spec fn fresh(
        mailbox_address: u64,
        apic_id: u32,
        wakeup_vector: u64,
        timeout_loops: u64,
    ) -> ApWakeup {
        ApWakeup {
            mailbox_address,
            apic_id,
            wakeup_vector,
            timeout_loops,
            loops: 0,
            phase: WakeupPhase::Idle,
        }
    }

    /// The same handshake in another phase.
    pub open spec fn in_phase(self, phase: WakeupPhase) -> ApWakeup {
        ApWakeup { phase, ..self }
    }

    /// The same handshake after one more read of the command field.
    pub open spec fn after_read(self) -> ApWakeup {
        ApWakeup {
            loops: if self.loops < u64::MAX {
                (self.loops + 1) as u64
            } else {
                self.loops
            },
            ..self
        }
    }

    /// What an event leads to: the next state and the action to perform.
    /// An event that does not answer what the machine last asked for
    /// leads to nothing.
    pub open spec fn transition(self, event: WakeupEvent) -> Option<(ApWakeup, WakeupAction)> {
        match (self.phase, event) {
            (WakeupPhase::Idle, WakeupEvent::Start) => Some(
                (
                    self.in_phase(WakeupPhase::Mapping),
                    WakeupAction::MapMailbox {
                        physical_address: self.mailbox_address,
                        length: WAKEUP_MAILBOX_SIZE,
                    },
                ),
            ),
            (WakeupPhase::Mapping, WakeupEvent::Mapped) => Some(
                (self.in_phase(WakeupPhase::Resetting), WakeupAction::WriteCommand(MpProtectedModeWakeupCommand::Noop)),
            ),
            (WakeupPhase::Resetting, WakeupEvent::Written) => Some(
                (
                    self.in_phase(WakeupPhase::Filling),
                    WakeupAction::WriteTarget {
                        apic_id: self.apic_id,
                        wakeup_vector: self.wakeup_vector,
                    },
                ),
            ),
            (WakeupPhase::Filling, WakeupEvent::Written) => Some(
                (
                    self.in_phase(WakeupPhase::Requesting),
                    WakeupAction::WriteCommand(MpProtectedModeWakeupCommand::Wakeup),
                ),
            ),
            (WakeupPhase::Requesting, WakeupEvent::Written) => if self.loops
                >= self.timeout_loops {
                Some(
                    (self.in_phase(WakeupPhase::ReleasingTimedOut), WakeupAction::ReleaseMailbox),
                )
            } else {
                Some((self.in_phase(WakeupPhase::Polling), WakeupAction::ReadCommand))
            },
            (WakeupPhase::Polling, WakeupEvent::Command(value)) => {
                let read = self.after_read();
                if acknowledges(value) {
                    Some(
                        (
                            read.in_phase(WakeupPhase::ReleasingAcknowledged),
                            WakeupAction::ReleaseMailbox,
                        ),
                    )
                } else if read.loops >= self.timeout_loops {
                    Some(
                        (
                            read.in_phase(WakeupPhase::ReleasingTimedOut),
                            WakeupAction::ReleaseMailbox,
                        ),
                    )
                } else {
                    Some((read, WakeupAction::ReadCommand))
                }
            },
            (WakeupPhase::ReleasingAcknowledged, WakeupEvent::Released) => Some(
                (self.in_phase(WakeupPhase::Acknowledged), WakeupAction::Finish(Ok(()))),
            ),
            (WakeupPhase::ReleasingTimedOut, WakeupEvent::Released) => Some(
                (
                    self.in_phase(WakeupPhase::TimedOut),
                    WakeupAction::Finish(
                        Err(AcpiError::InvalidMadt(MadtError::WakeupApsTimeout)),
                    ),
                ),
            ),
            _ => None,
        }
    }

    /// A handshake that has not begun, for the mailbox at `mailbox_address`.
    pub fn new(mailbox_address: u64, apic_id: u32, wakeup_vector: u64, timeout_loops: u64) -> (machine:
        ApWakeup)
        ensures
            machine == Self::fresh(mailbox_address, apic_id, wakeup_vector, timeout_loops),
    {
        ApWakeup {
            mailbox_address,
            apic_id,
            wakeup_vector,
            timeout_loops,
            loops: 0,
            phase: WakeupPhase::Idle,
        }
    }

    /// Takes an event and says what to do next. An event that does not
    /// answer what the machine last asked for changes nothing and asks
    /// for nothing.
    pub fn step(&mut self, event: WakeupEvent) -> (action: Option<WakeupAction>)
        ensures
            match old(self).transition(event) {
                Some((next, wanted)) => *final(self) == next && action == Some(wanted),
                None => *final(self) == *old(self) && action is None,
            },
    {
        match (self.phase, event) {
            (WakeupPhase::Idle, WakeupEvent::Start) => {
                self.phase = WakeupPhase::Mapping;
                Some(
                    WakeupAction::MapMailbox {
                        physical_address: self.mailbox_address,
                        length: WAKEUP_MAILBOX_SIZE,
                    },
                )
            },
            (WakeupPhase::Mapping, WakeupEvent::Mapped) => {
                self.phase = WakeupPhase::Resetting;
                Some(WakeupAction::WriteCommand(MpProtectedModeWakeupCommand::Noop))
            },
            (WakeupPhase::Resetting, WakeupEvent::Written) => {
                self.phase = WakeupPhase::Filling;
                Some(
                    WakeupAction::WriteTarget {
                        apic_id: self.apic_id,
                        wakeup_vector: self.wakeup_vector,
                    },
                )
            },
            (WakeupPhase::Filling, WakeupEvent::Written) => {
                self.phase = WakeupPhase::Requesting;
                Some(WakeupAction::WriteCommand(MpProtectedModeWakeupCommand::Wakeup))
            },
            (WakeupPhase::Requesting, WakeupEvent::Written) => {
                if self.loops >= self.timeout_loops {
                    self.phase = WakeupPhase::ReleasingTimedOut;
                    Some(WakeupAction::ReleaseMailbox)
                } else {
                    self.phase = WakeupPhase::Polling;
                    Some(WakeupAction::ReadCommand)
                }
            },
            (WakeupPhase::Polling, WakeupEvent::Command(value)) => {
                if self.loops < u64::MAX {
                    self.loops = self.loops + 1;
                }
                if MpProtectedModeWakeupCommand::from_u16(value)
                    == MpProtectedModeWakeupCommand::Noop {
                    self.phase = WakeupPhase::ReleasingAcknowledged;
                    Some(WakeupAction::ReleaseMailbox)
                } else if self.loops >= self.timeout_loops {
                    self.phase = WakeupPhase::ReleasingTimedOut;
                    Some(WakeupAction::ReleaseMailbox)
                } else {
                    Some(WakeupAction::ReadCommand)
                }
            },
            (WakeupPhase::ReleasingAcknowledged, WakeupEvent::Released) => {
                self.phase = WakeupPhase::Acknowledged;
                Some(WakeupAction::Finish(Ok(())))
            },
            (WakeupPhase::ReleasingTimedOut, WakeupEvent::Released) => {
                self.phase = WakeupPhase::TimedOut;
                Some(
                    WakeupAction::Finish(Err(AcpiError::InvalidMadt(MadtError::WakeupApsTimeout))),
                )
            },
            _ => None,
        }
    }

    /// Whether the handshake has ended.
    pub fn is_finished(&self) -> (finished: bool)
        ensures
            finished == (self.phase == WakeupPhase::Acknowledged || self.phase
                == WakeupPhase::TimedOut),
    {
        match self.phase {
            WakeupPhase::Acknowledged => true,
            WakeupPhase::TimedOut => true,
            _ => false,
        }
    }
}

/// Where a handshake ends up when the events come in, one after the
/// other, and which actions it asks for on the way.
pub open spec fn run(start: ApWakeup, events: Seq<WakeupEvent>) -> (ApWakeup, Seq<WakeupAction>)
    decreases events.len(),
{
    if events.len() == 0 {
        (start, Seq::empty())
    } else {
        match start.transition(events[0]) {
            Some((next, action)) => {
                let (end, actions) = run(next, events.drop_first());
                (end, seq![action] + actions)
            },
            None => run(start, events.drop_first()),
        }
    }
}

/// The reports of a caller that reads the values `reads` out of the command field.
pub open spec fn commands(reads: Seq<u16>) -> Seq<WakeupEvent> {
    Seq::new(reads.len(), |i: int| WakeupEvent::Command(reads[i]))
}

/// The reports of a caller that does all it is asked to do, and reads the
/// values `reads` out of the command field.
pub open spec fn handshake_events(reads: Seq<u16>) -> Seq<WakeupEvent> {
    preparation_events() + commands(reads) + seq![WakeupEvent::Released]
}

/// The actions of a whole handshake with `polls` reads of the command
/// field: the mailbox is mapped, reset, filled and armed, then read
/// `polls` times, then released, and only then comes the result.
pub open spec fn handshake_actions(machine: ApWakeup, polls: nat, result: Result<(), AcpiError>)
    -> Seq<WakeupAction> {
    seq![
        WakeupAction::MapMailbox {
            physical_address: machine.mailbox_address,
            length: WAKEUP_MAILBOX_SIZE,
        },
        WakeupAction::WriteCommand(MpProtectedModeWakeupCommand::Noop),
        WakeupAction::WriteTarget {
            apic_id: machine.apic_id,
            wakeup_vector: machine.wakeup_vector,
        },
        WakeupAction::WriteCommand(MpProtectedModeWakeupCommand::Wakeup),
    ] + Seq::new(polls, |i: int| WakeupAction::ReadCommand) + seq![
        WakeupAction::ReleaseMailbox,
        WakeupAction::Finish(result),
    ]
}

/// Running through two stretches of events is running through the first
/// and then, from where that ended, through the second.
pub proof fn lemma_run_in_two_parts(
    start: ApWakeup,
    first: Seq<WakeupEvent>,
    second: Seq<WakeupEvent>,
)
    ensures
        run(start, first + second) == ({
            let (middle, head) = run(start, first);
            let (end, tail) = run(middle, second);
            (end, head + tail)
        }),
    decreases first.len(),
{
    if first.len() == 0 {
        assert(first + second =~= second);
        let (end, tail) = run(start, second);
        assert(Seq::<WakeupAction>::empty() + tail =~= tail);
    } else {
        let all = first + second;
        assert(all.drop_first() =~= first.drop_first() + second);
        assert(all[0] == first[0]);
        match start.transition(first[0]) {
            Some((next, action)) => {
                lemma_run_in_two_parts(next, first.drop_first(), second);
                let (middle, head) = run(next, first.drop_first());
                let (end, tail) = run(middle, second);
                assert(seq![action] + (head + tail) =~= (seq![action] + head) + tail);
            },
            None => {
                lemma_run_in_two_parts(start, first.drop_first(), second);
            },
        }
    }
}

/// What polling comes to, for a caller whose reads all but the last find
/// the wakeup command still standing, and whose last read either finds it
/// taken or is the last one allowed: every read but the last is answered
/// with another read, the last one with the release of the mailbox.
proof fn lemma_polling(start: ApWakeup, reads: Seq<u16>)
    requires
        start.phase == WakeupPhase::Polling,
        reads.len() >= 1,
        start.loops + reads.len() <= start.timeout_loops,
        forall|i: int| 0 <= i < reads.len() - 1 ==> !acknowledges(reads[i]),
        acknowledges(reads.last()) || start.loops + reads.len() == start.timeout_loops,
    ensures
        run(start, commands(reads)) == (
            ApWakeup {
                loops: (start.loops + reads.len()) as u64,
                phase: if acknowledges(reads.last()) {
                    WakeupPhase::ReleasingAcknowledged
                } else {
                    WakeupPhase::ReleasingTimedOut
                },
                ..start
            },
            Seq::new((reads.len() - 1) as nat, |i: int| WakeupAction::ReadCommand).push(
                WakeupAction::ReleaseMailbox,
            ),
        ),
    decreases reads.len(),
{
    let events = commands(reads);
    assert(events[0] == WakeupEvent::Command(reads[0]));
    assert(events.drop_first() =~= commands(reads.drop_first()));
    let (next, action) = start.transition(events[0])->0;
    if reads.len() == 1 {
        assert(run(next, events.drop_first()) == (next, Seq::<WakeupAction>::empty()));
        assert(seq![action] + Seq::<WakeupAction>::empty() =~= Seq::new(
            0,
            |i: int| WakeupAction::ReadCommand,
        ).push(WakeupAction::ReleaseMailbox));
    } else {
        let rest = reads.drop_first();
        assert(!acknowledges(reads[0]));
        assert(rest.last() == reads.last());
        assert forall|i: int| 0 <= i < rest.len() - 1 implies !acknowledges(rest[i]) by {
            assert(rest[i] == reads[i + 1]);
        }
        lemma_polling(next, rest);
        let (end, tail) = run(next, commands(rest));
        assert(seq![action] + tail =~= Seq::new(
            (reads.len() - 1) as nat,
            |i: int| WakeupAction::ReadCommand,
        ).push(WakeupAction::ReleaseMailbox));
    }
}

/// Running through a single event is taking one step.
proof fn lemma_run_one_event(start: ApWakeup, event: WakeupEvent)
    ensures
        run(start, seq![event]) == match start.transition(event) {
            Some((next, action)) => (next, seq![action]),
            None => (start, Seq::<WakeupAction>::empty()),
        },
{
    let events = seq![event];
    assert(events[0] == event);
    assert(events.drop_first().len() == 0);
    match start.transition(event) {
        Some((next, action)) => {
            assert(run(next, events.drop_first()) == (next, Seq::<WakeupAction>::empty()));
            assert(seq![action] + Seq::<WakeupAction>::empty() =~= seq![action]);
        },
        None => {
            assert(run(start, events.drop_first()) == (start, Seq::<WakeupAction>::empty()));
        },
    }
}

/// The five reports with which every handshake begins.
pub open spec fn preparation_events() -> Seq<WakeupEvent> {
    seq![
        WakeupEvent::Start,
        WakeupEvent::Mapped,
        WakeupEvent::Written,
        WakeupEvent::Written,
        WakeupEvent::Written,
    ]
}

/// What the first five reports of a handshake lead to: the mailbox is
/// mapped, reset, filled and armed, and then either read for the first
/// time or, where no read is allowed at all, released at once.
proof fn lemma_preparation(machine: ApWakeup)
    requires
        machine.phase == WakeupPhase::Idle,
        machine.loops == 0,
    ensures
        run(machine, preparation_events()) == (
            machine.in_phase(
                if machine.timeout_loops == 0 {
                    WakeupPhase::ReleasingTimedOut
                } else {
                    WakeupPhase::Polling
                },
            ),
            seq![
                WakeupAction::MapMailbox {
                    physical_address: machine.mailbox_address,
                    length: WAKEUP_MAILBOX_SIZE,
                },
                WakeupAction::WriteCommand(MpProtectedModeWakeupCommand::Noop),
                WakeupAction::WriteTarget {
                    apic_id: machine.apic_id,
                    wakeup_vector: machine.wakeup_vector,
                },
                WakeupAction::WriteCommand(MpProtectedModeWakeupCommand::Wakeup),
                if machine.timeout_loops == 0 {
                    WakeupAction::ReleaseMailbox
                } else {
                    WakeupAction::ReadCommand
                },
            ],
        ),
{
    let m1 = machine.in_phase(WakeupPhase::Mapping);
    let m2 = machine.in_phase(WakeupPhase::Resetting);
    let m3 = machine.in_phase(WakeupPhase::Filling);
    let m4 = machine.in_phase(WakeupPhase::Requesting);
    let e4 = seq![WakeupEvent::Written];
    let e3 = seq![WakeupEvent::Written] + e4;
    let e2 = seq![WakeupEvent::Written] + e3;
    let e1 = seq![WakeupEvent::Mapped] + e2;
    let e0 = seq![WakeupEvent::Start] + e1;
    assert(e0 =~= preparation_events());
    lemma_run_one_event(m4, WakeupEvent::Written);
    lemma_run_one_event(m3, WakeupEvent::Written);
    lemma_run_in_two_parts(m3, seq![WakeupEvent::Written], e4);
    lemma_run_one_event(m2, WakeupEvent::Written);
    lemma_run_in_two_parts(m2, seq![WakeupEvent::Written], e3);
    lemma_run_one_event(m1, WakeupEvent::Mapped);
    lemma_run_in_two_parts(m1, seq![WakeupEvent::Mapped], e2);
    lemma_run_one_event(machine, WakeupEvent::Start);
    lemma_run_in_two_parts(machine, seq![WakeupEvent::Start], e1);
    let r4 = run(m4, e4);
    let r3 = run(m3, e3);
    let r2 = run(m2, e2);
    let r1 = run(m1, e1);
    let r0 = run(machine, e0);
    assert(r3.1 =~= seq![WakeupAction::WriteCommand(MpProtectedModeWakeupCommand::Wakeup)] + r4.1);
    assert(r2.1 =~= seq![
        WakeupAction::WriteTarget { apic_id: machine.apic_id, wakeup_vector: machine.wakeup_vector },
    ] + r3.1);
    assert(r1.1 =~= seq![WakeupAction::WriteCommand(MpProtectedModeWakeupCommand::Noop)] + r2.1);
    assert(r0.1 =~= seq![
        WakeupAction::MapMailbox {
            physical_address: machine.mailbox_address,
            length: WAKEUP_MAILBOX_SIZE,
        },
    ] + r1.1);
    assert(r0.1 =~= seq![
        WakeupAction::MapMailbox {
            physical_address: machine.mailbox_address,
            length: WAKEUP_MAILBOX_SIZE,
        },
        WakeupAction::WriteCommand(MpProtectedModeWakeupCommand::Noop),
        WakeupAction::WriteTarget {
            apic_id: machine.apic_id,
            wakeup_vector: machine.wakeup_vector,
        },
        WakeupAction::WriteCommand(MpProtectedModeWakeupCommand::Wakeup),
        if machine.timeout_loops == 0 {
            WakeupAction::ReleaseMailbox
        } else {
            WakeupAction::ReadCommand
        },
    ]);
}

/// A handshake in which the target takes the wakeup command in time
/// succeeds, and the mailbox is released before the result is reported.
///
/// The reads of the command field are `reads`: all but the last find the
/// wakeup command still standing, the last finds it taken, and there are
/// no more of them than the caller allowed. Then the command field is
/// read exactly that often, the last two actions are the release and the
/// report of success, and the handshake ends acknowledged.
pub proof fn lemma_acknowledged_in_time(machine: ApWakeup, reads: Seq<u16>)
    requires
        machine.phase == WakeupPhase::Idle,
        machine.loops == 0,
        1 <= reads.len() <= machine.timeout_loops,
        forall|i: int| 0 <= i < reads.len() - 1 ==> !acknowledges(reads[i]),
        acknowledges(reads.last()),
    ensures
        run(machine, handshake_events(reads)) == (
            ApWakeup {
                loops: reads.len() as u64,
                phase: WakeupPhase::Acknowledged,
                ..machine
            },
            handshake_actions(machine, reads.len(), Ok(())),
        ),
{
    let begin = preparation_events();
    let end = seq![WakeupEvent::Released];
    lemma_preparation(machine);
    let polling = machine.in_phase(WakeupPhase::Polling);
    lemma_polling(polling, reads);
    lemma_run_in_two_parts(machine, begin, commands(reads));
    lemma_run_in_two_parts(machine, begin + commands(reads), end);
    let (released, polled) = run(polling, commands(reads));
    lemma_run_one_event(released, WakeupEvent::Released);
    let (finished, last) = run(released, end);
    assert(last =~= seq![WakeupAction::Finish(Ok(()))]);
    assert(run(machine, begin).1 + polled + last =~= handshake_actions(
        machine,
        reads.len(),
        Ok(()),
    ));
}

/// A handshake in which the target never takes the wakeup command fails
/// with a timeout after exactly as many reads as the caller allowed, and
/// the mailbox is released before the failure is reported.
pub proof fn lemma_times_out_after_all_loops(machine: ApWakeup, reads: Seq<u16>)
    requires
        machine.phase == WakeupPhase::Idle,
        machine.loops == 0,
        reads.len() == machine.timeout_loops,
        forall|i: int| 0 <= i < reads.len() ==> !acknowledges(reads[i]),
    ensures
        run(machine, handshake_events(reads)) == (
            ApWakeup { loops: machine.timeout_loops, phase: WakeupPhase::TimedOut, ..machine },
            handshake_actions(
                machine,
                machine.timeout_loops as nat,
                Err(AcpiError::InvalidMadt(MadtError::WakeupApsTimeout)),
            ),
        ),
{
    let begin = preparation_events();
    let end = seq![WakeupEvent::Released];
    let failure: Result<(), AcpiError> = Err(AcpiError::InvalidMadt(MadtError::WakeupApsTimeout));
    lemma_preparation(machine);
    lemma_run_in_two_parts(machine, begin, commands(reads));
    lemma_run_in_two_parts(machine, begin + commands(reads), end);
    if reads.len() == 0 {
        let releasing = machine.in_phase(WakeupPhase::ReleasingTimedOut);
        assert(commands(reads).len() == 0);
        lemma_run_one_event(releasing, WakeupEvent::Released);
        let (finished, last) = run(releasing, end);
        assert(last =~= seq![WakeupAction::Finish(failure)]);
        assert(run(machine, begin).1 + Seq::<WakeupAction>::empty() + last =~= handshake_actions(
            machine,
            0,
            failure,
        ));
    } else {
        let polling = machine.in_phase(WakeupPhase::Polling);
        lemma_polling(polling, reads);
        let (released, polled) = run(polling, commands(reads));
        lemma_run_one_event(released, WakeupEvent::Released);
        let (finished, last) = run(released, end);
        assert(last =~= seq![WakeupAction::Finish(failure)]);
        assert(run(machine, begin).1 + polled + last =~= handshake_actions(
            machine,
            reads.len(),
            failure,
        ));
    }
}

/// The result is never reported while the mailbox is mapped: the only
/// step that reports a result is the one that answers the release of the
/// mapping, and the only steps that ask for the release follow the
/// writing of the wakeup command or a read of the command field.
pub proof fn lemma_release_comes_before_result(machine: ApWakeup, event: WakeupEvent)
    ensures
        machine.transition(event) matches Some((next, WakeupAction::Finish(result))) ==> {
            &&& event == WakeupEvent::Released
            &&& machine.phase == WakeupPhase::ReleasingAcknowledged || machine.phase
                == WakeupPhase::ReleasingTimedOut
            &&& result is Ok <==> machine.phase == WakeupPhase::ReleasingAcknowledged
        },
        machine.transition(event) matches Some((next, WakeupAction::ReleaseMailbox)) ==> {
            &&& machine.phase == WakeupPhase::Requesting || machine.phase == WakeupPhase::Polling
            &&& next.phase == WakeupPhase::ReleasingAcknowledged || next.phase
                == WakeupPhase::ReleasingTimedOut
        },
{
}

} // verus!
