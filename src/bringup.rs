use vstd::prelude::*;

verus! {

/// Pause, in milliseconds, between a failed association and the next try.
pub const ASSOCIATION_BACKOFF_MS: u64 = 5;

/// Why bring-up stopped for good.
#[derive(Clone, Copy, Debug, PartialEq, Eq, Structural)]
pub enum BringupError {
    /// The radio driver could not be initialised.
    RadioInit,
    /// The station configuration was refused.
    Configure,
    /// The radio could not be started.
    Start,
    /// Association failed more often than the retry policy allows.
    AssociationLimit,
}

/// How often a failed association is tried again.
#[derive(Clone, Copy, Debug, PartialEq, Eq, Structural)]
pub enum RetryPolicy {
    /// Forever: an always-on node has nobody to retry by hand.
    Unbounded,
    /// Give up once this many failures have been seen.
    AtMost(u32),
}

/// Progress of the link.
#[derive(Clone, Copy, Debug, PartialEq, Eq, Structural)]
pub enum Phase {
    Idle,
    RadioStarted,
    ConfigSet,
    Associating,
    Associated,
    LinkUp,
    AddressAssigned,
    Failed(BringupError),
}

/// What the radio and the network stack reported.
#[derive(Clone, Copy, Debug, PartialEq, Eq, Structural)]
pub enum Event {
    /// Power is on; nothing has been done yet.
    PowerOn,
    /// Radio initialisation finished, successfully or not.
    RadioReady(bool),
    /// The station configuration was applied, or refused.
    ConfigApplied(bool),
    /// Starting the radio finished, successfully or not.
    RadioStartDone(bool),
    /// An association attempt finished, successfully or not.
    Associated(bool),
    /// The backoff after a failed association has elapsed.
    BackoffElapsed,
    /// The link layer reports the link up.
    LinkUp,
    /// An address has been assigned to the interface.
    AddressAssigned,
}

/// What the driver loop has to do next.
#[derive(Clone, Copy, Debug, PartialEq, Eq, Structural)]
pub enum Action {
    InitRadio,
    ApplyConfig,
    StartRadio,
    Associate,
    /// Sleep this many milliseconds, then report `BackoffElapsed`.
    Backoff(u64),
    WaitLinkUp,
    WaitAddress,
    /// The stack is usable: network I/O may begin.
    Ready,
    /// Bring-up failed for good.
    Halt(BringupError),
    /// Nothing: the event does not apply to the current phase.
    Stay,
}

/// State of the bring-up routine.
#[derive(Clone, Copy, Debug, PartialEq, Eq, Structural)]
pub struct LinkBringup {
    pub phase: Phase,
    /// Failed associations so far, saturating.
    pub failures: u32,
    pub policy: RetryPolicy,
}

impl LinkBringup {
    /// True where the policy allows another try after `failures` failures.
    pub open spec fn may_retry(self, failures: int) -> bool {
        match self.policy {
            RetryPolicy::Unbounded => true,
            RetryPolicy::AtMost(n) => failures < n,
        }
    }

    /// The failure count after one more failed association.
    pub open spec fn bumped(self) -> u32 {
        if self.failures == u32::MAX {
            u32::MAX
        } else {
            (self.failures + 1) as u32
        }
    }

    /// The state with `phase`, all else kept.
    pub open spec fn at(self, phase: Phase) -> LinkBringup {
        LinkBringup { phase, ..self }
    }

    /// The transition table: the next state and the action for `e`.
    pub open spec fn next(self, e: Event) -> (LinkBringup, Action) {
        match (self.phase, e) {
            (Phase::Idle, Event::PowerOn) => (self, Action::InitRadio),
            (Phase::Idle, Event::RadioReady(true)) => (self.at(Phase::RadioStarted), Action::ApplyConfig),
            (Phase::Idle, Event::RadioReady(false)) => (
                self.at(Phase::Failed(BringupError::RadioInit)),
                Action::Halt(BringupError::RadioInit),
            ),
            (Phase::RadioStarted, Event::ConfigApplied(true)) => (self.at(Phase::ConfigSet), Action::StartRadio),
            (Phase::RadioStarted, Event::ConfigApplied(false)) => (
                self.at(Phase::Failed(BringupError::Configure)),
                Action::Halt(BringupError::Configure),
            ),
            (Phase::ConfigSet, Event::RadioStartDone(true)) => (self.at(Phase::Associating), Action::Associate),
            (Phase::ConfigSet, Event::RadioStartDone(false)) => (
                self.at(Phase::Failed(BringupError::Start)),
                Action::Halt(BringupError::Start),
            ),
            (Phase::Associating, Event::Associated(true)) => (self.at(Phase::Associated), Action::WaitLinkUp),
            (Phase::Associating, Event::Associated(false)) => {
                let s = LinkBringup { failures: self.bumped(), ..self };
                if self.may_retry(s.failures as int) {
                    (s, Action::Backoff(ASSOCIATION_BACKOFF_MS))
                } else {
                    (
                        s.at(Phase::Failed(BringupError::AssociationLimit)),
                        Action::Halt(BringupError::AssociationLimit),
                    )
                }
            },
            (Phase::Associating, Event::BackoffElapsed) => (self, Action::Associate),
            (Phase::Associated, Event::LinkUp) => (self.at(Phase::LinkUp), Action::WaitAddress),
            (Phase::LinkUp, Event::AddressAssigned) => (self.at(Phase::AddressAssigned), Action::Ready),
            _ => (self, Action::Stay),
        }
    }

    /// A routine that has done nothing yet.
    pub fn new(policy: RetryPolicy) -> (r: LinkBringup)
        ensures
            r == (LinkBringup { phase: Phase::Idle, failures: 0, policy }),
    {
        LinkBringup { phase: Phase::Idle, failures: 0, policy }
    }

    /// Feeds one event to the routine and returns what to do next.
    pub fn step(&mut self, e: Event) -> (r: Action)
        ensures
            (*final(self), r) == old(self).next(e),
    {
        match (self.phase, e) {
            (Phase::Idle, Event::PowerOn) => Action::InitRadio,
            (Phase::Idle, Event::RadioReady(ok)) => {
                if ok {
                    self.phase = Phase::RadioStarted;
                    Action::ApplyConfig
                } else {
                    self.phase = Phase::Failed(BringupError::RadioInit);
                    Action::Halt(BringupError::RadioInit)
                }
            },
            (Phase::RadioStarted, Event::ConfigApplied(ok)) => {
                if ok {
                    self.phase = Phase::ConfigSet;
                    Action::StartRadio
                } else {
                    self.phase = Phase::Failed(BringupError::Configure);
                    Action::Halt(BringupError::Configure)
                }
            },
            (Phase::ConfigSet, Event::RadioStartDone(ok)) => {
                if ok {
                    self.phase = Phase::Associating;
                    Action::Associate
                } else {
                    self.phase = Phase::Failed(BringupError::Start);
                    Action::Halt(BringupError::Start)
                }
            },
            (Phase::Associating, Event::Associated(ok)) => {
                if ok {
                    self.phase = Phase::Associated;
                    Action::WaitLinkUp
                } else {
                    self.failures = if self.failures == u32::MAX { u32::MAX } else { self.failures + 1 };
                    let retry = match self.policy {
                        RetryPolicy::Unbounded => true,
                        RetryPolicy::AtMost(n) => self.failures < n,
                    };
                    if retry {
                        Action::Backoff(ASSOCIATION_BACKOFF_MS)
                    } else {
                        self.phase = Phase::Failed(BringupError::AssociationLimit);
                        Action::Halt(BringupError::AssociationLimit)
                    }
                }
            },
            (Phase::Associating, Event::BackoffElapsed) => Action::Associate,
            (Phase::Associated, Event::LinkUp) => {
                self.phase = Phase::LinkUp;
                Action::WaitAddress
            },
            (Phase::LinkUp, Event::AddressAssigned) => {
                self.phase = Phase::AddressAssigned;
                Action::Ready
            },
            _ => Action::Stay,
        }
    }

    /// Whether the stack may be used for network I/O.
    pub fn is_ready(&self) -> (r: bool)
        ensures
            r <==> self.phase == Phase::AddressAssigned,
    {
        matches!(self.phase, Phase::AddressAssigned)
    }
}

/// The state after feeding `events` to `s` in order.
pub open spec fn run(s: LinkBringup, events: Seq<Event>) -> LinkBringup
    decreases events.len(),
{
    if events.len() == 0 {
        s
    } else {
        run(s, events.drop_last()).next(events.last()).0
    }
}

/// An event of the retry loop: a failed association or its backoff.
pub open spec fn is_retry_event(e: Event) -> bool {
    e == Event::Associated(false) || e == Event::BackoffElapsed
}

/// Under the unbounded policy, any run of failed associations and backoffs
/// leaves the routine associating: it never fails.  The first success then
/// leads, through link-up and address assignment, to a usable stack.
pub proof fn lemma_association_retry(s: LinkBringup, retries: Seq<Event>)
    requires
        s.phase == Phase::Associating,
        s.policy == RetryPolicy::Unbounded,
        forall|i: int| 0 <= i < retries.len() ==> is_retry_event(#[trigger] retries[i]),
    ensures
        run(s, retries).phase == Phase::Associating,
        run(s, retries).policy == RetryPolicy::Unbounded,
        run(s, retries + seq![Event::Associated(true), Event::LinkUp, Event::AddressAssigned]).phase
            == Phase::AddressAssigned,
    decreases retries.len(),
{
    if retries.len() > 0 {
        let init = retries.drop_last();
        assert forall|i: int| 0 <= i < init.len() implies is_retry_event(#[trigger] init[i]) by {
            assert(init[i] == retries[i]);
        }
        lemma_association_retry(s, init);
        assert(is_retry_event(retries[retries.len() - 1]));
    }
    let tail = seq![Event::Associated(true), Event::LinkUp, Event::AddressAssigned];
    let all = retries + tail;
    assert(all.drop_last() == retries + seq![Event::Associated(true), Event::LinkUp]);
    assert(all.drop_last().drop_last() == retries + seq![Event::Associated(true)]);
    assert(all.drop_last().drop_last().drop_last() == retries);
    let a = run(s, retries);
    assert(run(s, all.drop_last().drop_last()) == a.next(Event::Associated(true)).0);
    assert(run(s, all.drop_last()) == a.next(Event::Associated(true)).0.next(Event::LinkUp).0);
}

/// Address assignment is reached only from link-up, announces `Ready`, and
/// is terminal: no later event leaves it or announces `Ready` again.
pub proof fn lemma_ready_once(s: LinkBringup, e: Event)
    ensures
        s.next(e).0.phase == Phase::AddressAssigned ==> s.phase == Phase::LinkUp || s.phase == Phase::AddressAssigned,
        s.next(e).1 == Action::Ready <==> (s.phase == Phase::LinkUp && e == Event::AddressAssigned),
        s.phase == Phase::AddressAssigned ==> s.next(e) == (s, Action::Stay),
{
}

/// A failed state is terminal.
pub proof fn lemma_failed_terminal(s: LinkBringup, e: Event)
    requires
        s.phase is Failed,
    ensures
        s.next(e) == (s, Action::Stay),
{
}

} // verus!
