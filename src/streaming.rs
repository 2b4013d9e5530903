//! The lifecycle of a streaming session.
//!
//! A session is a state machine over Disconnected, Connecting, Connected,
//! Reconnecting and Closed. The transport feeds it events (a handshake, a
//! drop, a decoded frame, a cancellation) and performs the action that each
//! step returns; the session itself does no I/O. Reconnection waits grow
//! exponentially with the attempt count, up to a cap, and a bounded number of
//! attempts ends in Closed.
use vstd::prelude::*;
use crate::error::Error;

verus! {

/// Where a session stands.
#[derive(Debug, Clone, Copy, PartialEq, Eq, Structural)]
pub enum SessionState {
    Disconnected,
    Connecting,
    Connected,
    Reconnecting,
    Closed,
}

/// How a session retries: at most `max_retries` attempts in a row, waiting
/// `base_delay_ms` before the first and twice as long before each next one,
/// never more than `max_delay_ms`.
#[derive(Debug, Clone, Copy, PartialEq, Eq, Structural)]
pub struct RetryPolicy {
    pub max_retries: u32,
    pub base_delay_ms: u64,
    pub max_delay_ms: u64,
}

/// What happened to the session's connection, or what its consumer asked.
#[derive(Debug, Clone)]
pub enum SessionEvent<E> {
    /// The consumer asks to open the session.
    Open,
    /// The handshake of the connection succeeded.
    Handshake,
    /// The handshake failed.
    HandshakeFailed(String),
    /// The connection dropped unexpectedly.
    Dropped(String),
    /// The wait before the next attempt is over.
    BackoffElapsed,
    /// A frame arrived: its canonical event, or nothing when it was malformed.
    Frame(Option<E>),
    /// The consumer cancels the session.
    Cancel,
}

/// What the transport does after a step.
#[derive(Debug, Clone)]
pub enum SessionAction<E> {
    /// Open a connection.
    Connect,
    /// Tell the consumer of a transient failure, then wait `delay_ms` and
    /// report `BackoffElapsed`.
    Retry { delay_ms: u64, message: String },
    /// Hand the event to the consumer.
    Deliver(E),
    /// Close the connection, if any; the session is over.
    Close,
    /// Tell the consumer that the session failed for good.
    Fatal(Error),
    /// Nothing to do.
    Nothing,
}

/// A streaming session's state and the attempts it has made in a row.
#[derive(Debug, Clone, Copy, PartialEq, Eq, Structural)]
pub struct Session {
    pub state: SessionState,
    pub attempts: u32,
    pub policy: RetryPolicy,
}

/// The wait before attempt `n` (counted from zero): `base * 2^n`, capped at `max`.
pub open spec fn backoff_delay(base: int, max: int, n: nat) -> int
    decreases n,
{
    if n == 0 {
        if base < max { base } else { max }
    } else {
        let d = 2 * backoff_delay(base, max, (n - 1) as nat);
        if d < max { d } else { max }
    }
}

/// The wait that a policy asks for before attempt `n`.
pub open spec fn policy_delay(p: RetryPolicy, n: nat) -> int {
    backoff_delay(p.base_delay_ms as int, p.max_delay_ms as int, n)
}

/// The step after a failure (a failed handshake or a drop) with `message`.
pub open spec fn fail_step<E>(s: Session, message: String) -> (Session, SessionAction<E>) {
    if s.attempts < s.policy.max_retries {
        (
            Session { state: SessionState::Reconnecting, attempts: (s.attempts + 1) as u32, ..s },
            SessionAction::Retry { delay_ms: policy_delay(s.policy, s.attempts as nat) as u64, message },
        )
    } else {
        (
            Session { state: SessionState::Closed, ..s },
            SessionAction::Fatal(Error::StreamClosed { attempts: s.attempts }),
        )
    }
}

/// The next session and the action that an event gives.
pub open spec fn step_spec<E>(s: Session, e: SessionEvent<E>) -> (Session, SessionAction<E>) {
    match (s.state, e) {
        (SessionState::Closed, _) => (s, SessionAction::Nothing),
        (_, SessionEvent::Cancel) => (Session { state: SessionState::Closed, ..s }, SessionAction::Close),
        (SessionState::Disconnected, SessionEvent::Open) => (
            Session { state: SessionState::Connecting, ..s },
            SessionAction::Connect,
        ),
        (SessionState::Connecting, SessionEvent::Handshake) => (
            Session { state: SessionState::Connected, attempts: 0, ..s },
            SessionAction::Nothing,
        ),
        (SessionState::Connecting, SessionEvent::HandshakeFailed(m)) => fail_step(s, m),
        (SessionState::Connected, SessionEvent::Dropped(m)) => fail_step(s, m),
        (SessionState::Connected, SessionEvent::Frame(Some(ev))) => (s, SessionAction::Deliver(ev)),
        (SessionState::Reconnecting, SessionEvent::BackoffElapsed) => (
            Session { state: SessionState::Connecting, ..s },
            SessionAction::Connect,
        ),
        _ => (s, SessionAction::Nothing),
    }
}

/// Once a wait reaches the cap it stays there.
proof fn backoff_capped(base: int, max: int, n: nat, m: nat)
    requires
        0 <= max,
        n <= m,
        backoff_delay(base, max, n) == max,
    ensures
        backoff_delay(base, max, m) == max,
    decreases m - n,
{
    if n < m {
        backoff_capped(base, max, n, (m - 1) as nat);
    }
}

/// Each wait lies between zero and the cap.
proof fn backoff_bounds(base: int, max: int, n: nat)
    requires
        0 <= base,
        0 <= max,
    ensures
        0 <= backoff_delay(base, max, n) <= max,
    decreases n,
{
    if n > 0 {
        backoff_bounds(base, max, (n - 1) as nat);
    }
}

/// The wait before attempt `attempt` under `policy`.
pub fn backoff(policy: &RetryPolicy, attempt: u32) -> (r: u64)
    ensures
        r == policy_delay(*policy, attempt as nat),
{
    let max = policy.max_delay_ms;
    let mut d: u64 = if policy.base_delay_ms < max { policy.base_delay_ms } else { max };
    let mut i: u32 = 0;
    while i < attempt && d < max
        invariant
            max == policy.max_delay_ms,
            i <= attempt,
            d <= max,
            d == policy_delay(*policy, i as nat),
        decreases attempt - i,
    {
        d = if d >= max - d { max } else { d + d };
        i = i + 1;
    }
    if i < attempt {
        proof {
            backoff_capped(policy.base_delay_ms as int, max as int, i as nat, attempt as nat);
        }
    }
    d
}

/// The session and the actions after a run of events.
pub open spec fn run_spec<E>(s: Session, events: Seq<SessionEvent<E>>) -> (Session, Seq<SessionAction<E>>)
    decreases events.len(),
{
    if events.len() == 0 {
        (s, Seq::empty())
    } else {
        let (next, a) = step_spec(s, events[0]);
        let (last, rest) = run_spec(next, events.drop_first());
        (last, seq![a] + rest)
    }
}

/// A drop of an established connection within the retry bound leaves the
/// session Reconnecting, not Closed: the consumer is told of a transient
/// failure with the drop's message, and the wait is the one for the current
/// attempt.
pub proof fn drop_is_transient<E>(s: Session, message: String)
    requires
        s.wf(),
        s.state == SessionState::Connected,
        s.attempts < s.policy.max_retries,
    ensures
        step_spec::<E>(s, SessionEvent::Dropped(message)).0.state == SessionState::Reconnecting,
        step_spec::<E>(s, SessionEvent::Dropped(message)).0.attempts == s.attempts + 1,
        step_spec::<E>(s, SessionEvent::Dropped(message)).1 == (SessionAction::<E>::Retry {
            delay_ms: policy_delay(s.policy, s.attempts as nat) as u64,
            message,
        }),
{
}

/// After a drop, once the wait is over and the handshake succeeds, the session
/// is Connected again with no attempts counted, and the next frame's event is
/// delivered: the event sequence goes on.
pub proof fn reconnect_resumes_delivery<E>(s: Session, message: String, ev: E)
    requires
        s.wf(),
        s.state == SessionState::Connected,
        s.attempts < s.policy.max_retries,
    ensures
        ({
            let events = seq![
                SessionEvent::Dropped(message),
                SessionEvent::BackoffElapsed,
                SessionEvent::Handshake,
                SessionEvent::Frame(Some(ev)),
            ];
            let (last, actions) = run_spec(s, events);
            &&& last == (Session { state: SessionState::Connected, attempts: 0, ..s })
            &&& actions.len() == 4
            &&& actions[0] is Retry
            &&& actions[1] == SessionAction::<E>::Connect
            &&& actions[2] == SessionAction::<E>::Nothing
            &&& actions[3] == SessionAction::<E>::Deliver(ev)
        }),
{
    let events = seq![
        SessionEvent::Dropped(message),
        SessionEvent::BackoffElapsed,
        SessionEvent::Handshake,
        SessionEvent::Frame(Some(ev)),
    ];
    let e1 = events.drop_first();
    let e2 = e1.drop_first();
    let e3 = e2.drop_first();
    let e4 = e3.drop_first();
    assert(e1 =~= seq![events[1], events[2], events[3]]);
    assert(e2 =~= seq![events[2], events[3]]);
    assert(e3 =~= seq![events[3]]);
    assert(e4 =~= Seq::<SessionEvent<E>>::empty());
    let s1 = step_spec(s, events[0]).0;
    let s2 = step_spec(s1, e1[0]).0;
    let s3 = step_spec(s2, e2[0]).0;
    let s4 = step_spec(s3, e3[0]).0;
    assert(run_spec(s4, e4).1 =~= Seq::<SessionAction<E>>::empty());
    assert(run_spec(s3, e3).1 =~= seq![step_spec(s3, e3[0]).1]);
    assert(run_spec(s2, e2).1 =~= seq![step_spec(s2, e2[0]).1] + run_spec(s3, e3).1);
    assert(run_spec(s1, e1).1 =~= seq![step_spec(s1, e1[0]).1] + run_spec(s2, e2).1);
}

/// Waits never shrink from one attempt to the next, and they grow strictly
/// until they reach the cap.
pub proof fn backoff_grows(p: RetryPolicy, n: nat)
    ensures
        0 <= policy_delay(p, n) <= policy_delay(p, n + 1) <= p.max_delay_ms,
        0 < policy_delay(p, n) < p.max_delay_ms ==> policy_delay(p, n) < policy_delay(p, n + 1),
{
    backoff_bounds(p.base_delay_ms as int, p.max_delay_ms as int, n);
    backoff_bounds(p.base_delay_ms as int, p.max_delay_ms as int, n + 1);
}

/// A failure once the attempts have reached the bound closes the session with
/// a fatal error that gives the attempts made.
pub proof fn retries_exhausted<E>(s: Session, e: SessionEvent<E>)
    requires
        s.wf(),
        s.attempts == s.policy.max_retries,
        (s.state == SessionState::Connecting && (e is HandshakeFailed)) || (s.state
            == SessionState::Connected && (e is Dropped)),
    ensures
        step_spec(s, e).0.state == SessionState::Closed,
        step_spec(s, e).1 == SessionAction::<E>::Fatal((Error::StreamClosed { attempts: s.attempts })),
{
}

/// A closed session stays closed and hands out nothing, whatever events follow.
pub proof fn closed_is_final<E>(s: Session, events: Seq<SessionEvent<E>>)
    requires
        s.state == SessionState::Closed,
    ensures
        run_spec(s, events).0 == s,
        forall|i: int| 0 <= i < events.len() ==> #[trigger] run_spec(s, events).1[i]
            == SessionAction::<E>::Nothing,
        run_spec(s, events).1.len() == events.len(),
    decreases events.len(),
{
    if events.len() > 0 {
        closed_is_final(s, events.drop_first());
        let rest = run_spec(s, events.drop_first()).1;
        assert forall|i: int| 0 <= i < events.len() implies #[trigger] run_spec(s, events).1[i]
            == SessionAction::<E>::Nothing by {
            if i > 0 {
                assert(run_spec(s, events).1[i] == rest[i - 1]);
            }
        }
    }
}

impl Session {
    /// A disconnected session under `policy`.
    pub fn new(policy: RetryPolicy) -> (r: Session)
        ensures
            r == (Session { state: SessionState::Disconnected, attempts: 0, policy }),
    {
        Session { state: SessionState::Disconnected, attempts: 0, policy }
    }

    /// Whether the attempts made stay within the policy's bound.
    pub open spec fn wf(self) -> bool {
        self.attempts <= self.policy.max_retries
    }

    fn fail<E>(&mut self, message: String) -> (r: SessionAction<E>)
        ensures
            (*final(self), r) == fail_step::<E>(*old(self), message),
    {
        if self.attempts < self.policy.max_retries {
            let delay_ms = backoff(&self.policy, self.attempts);
            self.state = SessionState::Reconnecting;
            self.attempts = self.attempts + 1;
            SessionAction::Retry { delay_ms, message }
        } else {
            self.state = SessionState::Closed;
            SessionAction::Fatal(Error::StreamClosed { attempts: self.attempts })
        }
    }

    /// Takes one event and returns what the transport has to do.
    pub fn step<E>(&mut self, event: SessionEvent<E>) -> (r: SessionAction<E>)
        ensures
            (*final(self), r) == step_spec(*old(self), event),
            old(self).wf() ==> final(self).wf(),
    {
        match (self.state, event) {
            (SessionState::Closed, _) => SessionAction::Nothing,
            (_, SessionEvent::Cancel) => {
                self.state = SessionState::Closed;
                SessionAction::Close
            },
            (SessionState::Disconnected, SessionEvent::Open) => {
                self.state = SessionState::Connecting;
                SessionAction::Connect
            },
            (SessionState::Connecting, SessionEvent::Handshake) => {
                self.state = SessionState::Connected;
                self.attempts = 0;
                SessionAction::Nothing
            },
            (SessionState::Connecting, SessionEvent::HandshakeFailed(m)) => self.fail(m),
            (SessionState::Connected, SessionEvent::Dropped(m)) => self.fail(m),
            (SessionState::Connected, SessionEvent::Frame(Some(ev))) => SessionAction::Deliver(ev),
            (SessionState::Reconnecting, SessionEvent::BackoffElapsed) => {
                self.state = SessionState::Connecting;
                SessionAction::Connect
            },
            _ => SessionAction::Nothing,
        }
    }
}

} // verus!
