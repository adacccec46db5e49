//! The poll loop: a finite-state machine from token-endpoint replies to
//! a terminal outcome.
//!
//! One attempt owns one [`PollState`].  At the top of every iteration
//! the deadline guard is checked; a poll is issued only below the
//! deadline, the reply is classified, and the state either advances or
//! the attempt finishes with an [`AuthOutcome`].

use vstd::prelude::*;

use crate::json::json_string_field;
use crate::outcome::{AuthOutcome, OutcomeModel};
use crate::response::{classify_token_response, spec_classify, ReplyModel, ResponseClass};
use crate::session::DeviceSession;

verus! {

/// Seconds added to the poll interval on every `slow_down` reply.
pub const SLOW_DOWN_INCREMENT: u64 = 5;

/// Mutable state of one poll loop.
#[derive(Debug, Clone, Copy, PartialEq, Eq, Structural)]
pub struct PollState {
    /// Count of polls issued so far.
    pub attempts: u64,
    /// The local deadline guard, fixed at `expires_in / interval` when
    /// the loop starts and never recomputed.
    pub max_attempts: u64,
    /// Seconds to wait before the next poll; starts at the session's
    /// interval and only ever grows.
    pub current_interval: u64,
}

/// What one poll did to the loop: either the state advanced, or the
/// attempt finished with a terminal outcome.
#[derive(Debug, Clone, PartialEq, Eq)]
pub enum PollStep {
    Continue(PollState),
    Done(AuthOutcome),
}

/// Mathematical model of a [`PollStep`].
pub enum StepModel {
    Continue(PollState),
    Done(OutcomeModel),
}

impl View for PollStep {
    type V = StepModel;

    open spec fn view(&self) -> StepModel {
        match self {
            PollStep::Continue(st) => StepModel::Continue(*st),
            PollStep::Done(o) => StepModel::Done(o@),
        }
    }
}

/// The interval after one `slow_down`: five seconds more, capped only
/// by the machine's integer range.
pub open spec fn spec_bump_interval(interval: u64) -> u64 {
    if interval + SLOW_DOWN_INCREMENT <= u64::MAX {
        (interval + SLOW_DOWN_INCREMENT) as u64
    } else {
        u64::MAX
    }
}

/// The diagnostic message for an unrecognized error code.
pub open spec fn spec_protocol_message(code: Seq<char>, description: Option<Seq<char>>) -> Seq<
    char,
> {
    match description {
        Some(d) => if d.len() == 0 {
            code
        } else {
            code + ": "@ + d
        },
        None => code,
    }
}

/// One transition of the state machine, given the class of the reply
/// that the poll below the deadline received.
pub open spec fn spec_step(st: PollState, reply: ReplyModel) -> StepModel {
    match reply {
        ReplyModel::Success(t) => StepModel::Done(OutcomeModel::Authorized(t)),
        ReplyModel::Pending => StepModel::Continue(
            PollState {
                attempts: (st.attempts + 1) as u64,
                max_attempts: st.max_attempts,
                current_interval: st.current_interval,
            },
        ),
        ReplyModel::SlowDown => StepModel::Continue(
            PollState {
                attempts: (st.attempts + 1) as u64,
                max_attempts: st.max_attempts,
                current_interval: spec_bump_interval(st.current_interval),
            },
        ),
        ReplyModel::ExpiredCode => StepModel::Done(OutcomeModel::Expired),
        ReplyModel::Denied => StepModel::Done(OutcomeModel::Denied),
        ReplyModel::OtherError { code, description } => StepModel::Done(
            OutcomeModel::ProtocolError(spec_protocol_message(code, description)),
        ),
        ReplyModel::Malformed => StepModel::Done(
            OutcomeModel::ProtocolError("unexpected response"@),
        ),
    }
}

/// The outcome a reply forces regardless of the state, or `None` for
/// the two replies that keep the loop going.
pub open spec fn spec_decisive(reply: ReplyModel) -> Option<OutcomeModel> {
    match reply {
        ReplyModel::Success(t) => Some(OutcomeModel::Authorized(t)),
        ReplyModel::Pending => None,
        ReplyModel::SlowDown => None,
        ReplyModel::ExpiredCode => Some(OutcomeModel::Expired),
        ReplyModel::Denied => Some(OutcomeModel::Denied),
        ReplyModel::OtherError { code, description } => Some(
            OutcomeModel::ProtocolError(spec_protocol_message(code, description)),
        ),
        ReplyModel::Malformed => Some(OutcomeModel::ProtocolError("unexpected response"@)),
    }
}

/// The whole run of one attempt against a source of response bodies:
/// the outcome, and how many polls were issued.  The poll below the
/// deadline at attempt count `a` consumes `bodies[a]`.
pub open spec fn spec_run(st: PollState, bodies: Seq<Seq<char>>) -> (OutcomeModel, int)
    decreases st.max_attempts - st.attempts,
{
    if st.attempts >= st.max_attempts {
        (OutcomeModel::Expired, 0)
    } else {
        match spec_step(st, spec_classify(bodies[st.attempts as int])) {
            StepModel::Continue(next) => {
                let rest = spec_run(next, bodies);
                (rest.0, rest.1 + 1)
            },
            StepModel::Done(o) => (o, 1),
        }
    }
}

impl PollState {
    /// The state invariant: the deadline guard has not been run past.
    pub open spec fn wf(self) -> bool {
        self.attempts <= self.max_attempts
    }

    /// The state a well-formed session starts its poll loop in.
    pub fn new(session: &DeviceSession) -> (st: PollState)
        requires
            session.wf(),
        ensures
            st.attempts == 0,
            st.max_attempts == session.spec_max_attempts(),
            st.current_interval == session.interval,
            st.wf(),
    {
        PollState {
            attempts: 0,
            max_attempts: session.expires_in / session.interval,
            current_interval: session.interval,
        }
    }

    /// The local deadline guard, checked at the top of every iteration:
    /// once it holds, the attempt is over and no further poll is issued.
    pub fn deadline_reached(&self) -> (r: bool)
        ensures
            r == (self.attempts >= self.max_attempts),
    {
        self.attempts >= self.max_attempts
    }

    /// Advance the machine by the reply one poll received.
    ///
    /// A continuing reply increments the attempt count, and the interval
    /// never shrinks; every other reply finishes the attempt.
    pub fn step(self, reply: ResponseClass) -> (r: PollStep)
        requires
            self.attempts < self.max_attempts,
        ensures
            r@ == spec_step(self, reply@),
            r matches PollStep::Continue(next) ==> next.attempts == self.attempts + 1
                && next.max_attempts == self.max_attempts && next.current_interval
                >= self.current_interval && next.wf(),
    {
        match reply {
            ResponseClass::Success(token) => PollStep::Done(AuthOutcome::Authorized(token)),
            ResponseClass::Pending => PollStep::Continue(
                PollState {
                    attempts: self.attempts + 1,
                    max_attempts: self.max_attempts,
                    current_interval: self.current_interval,
                },
            ),
            ResponseClass::SlowDown => PollStep::Continue(
                PollState {
                    attempts: self.attempts + 1,
                    max_attempts: self.max_attempts,
                    current_interval: bump_interval(self.current_interval),
                },
            ),
            ResponseClass::ExpiredCode => PollStep::Done(AuthOutcome::Expired),
            ResponseClass::Denied => PollStep::Done(AuthOutcome::Denied),
            ResponseClass::OtherError { code, description } => PollStep::Done(
                AuthOutcome::ProtocolError(protocol_message(code, description)),
            ),
            ResponseClass::Malformed => PollStep::Done(
                AuthOutcome::ProtocolError("unexpected response".to_owned()),
            ),
        }
    }
}

/// Add the `slow_down` increment to an interval, saturating only at the
/// integer range's top.
fn bump_interval(interval: u64) -> (r: u64)
    ensures
        r == spec_bump_interval(interval),
{
    if interval <= u64::MAX - SLOW_DOWN_INCREMENT {
        interval + SLOW_DOWN_INCREMENT
    } else {
        u64::MAX
    }
}

/// Build the diagnostic message for an unrecognized error code.
fn protocol_message(code: String, description: Option<String>) -> (r: String)
    ensures
        r@ == spec_protocol_message(code@, description.deep_view()),
{
    match description {
        Some(d) => {
            if d.as_str().is_empty() {
                code
            } else {
                let mut message = code;
                message.append(": ");
                message.append(d.as_str());
                message
            }
        },
        None => code,
    }
}

/// Drive one attempt against a pre-decided source of response bodies,
/// one body per poll: the loop the real transport's replies are fed
/// through, with the transport factored out.
///
/// Returns the terminal outcome and the number of polls issued, which
/// never exceeds the session's deadline guard.
pub fn poll_token_responses(session: &DeviceSession, bodies: &Vec<String>) -> (r: (
    AuthOutcome,
    u64,
))
    requires
        session.wf(),
        session.spec_max_attempts() <= bodies@.len(),
    ensures
        r.0@ == spec_run(initial_state(*session), bodies.deep_view()).0,
        r.1 == spec_run(initial_state(*session), bodies.deep_view()).1,
        r.1 <= session.spec_max_attempts(),
{
    let mut st = PollState::new(session);
    let ghost st0 = st;
    let ghost bv = bodies.deep_view();
    let mut idx: usize = 0;
    let supply: usize = bodies.len();
    loop
        invariant
            bodies@.len() == supply,
            session.wf(),
            st.wf(),
            st.max_attempts == session.spec_max_attempts(),
            st0 == initial_state(*session),
            idx == st.attempts,
            bv == bodies.deep_view(),
            st.max_attempts <= bodies@.len(),
            spec_run(st0, bv).0 == spec_run(st, bv).0,
            spec_run(st0, bv).1 == spec_run(st, bv).1 + st.attempts,
        decreases st.max_attempts - st.attempts,
    {
        if st.deadline_reached() {
            return (AuthOutcome::Expired, st.attempts);
        }
        let body: &String = &bodies[idx];
        proof {
            assert(bv[idx as int] == bodies@[idx as int].deep_view());
            assert(bv[idx as int] == body@);
        }
        let reply = classify_token_response(body.as_str());
        match st.step(reply) {
            PollStep::Continue(next) => {
                st = next;
                idx = idx + 1;
            },
            PollStep::Done(outcome) => {
                return (outcome, st.attempts + 1);
            },
        }
    }
}

/// The state the poll loop of `session` starts in.
pub open spec fn initial_state(session: DeviceSession) -> PollState {
    PollState {
        attempts: 0,
        max_attempts: (session.expires_in as int / session.interval as int) as u64,
        current_interval: session.interval,
    }
}

/// The deadline guard bounds the polls: a run issues at most as many
/// polls as attempts remain below the guard, so a fresh loop never
/// issues more than `expires_in / interval` polls.
pub proof fn lemma_run_poll_bound(st: PollState, bodies: Seq<Seq<char>>)
    requires
        st.wf(),
    ensures
        0 <= spec_run(st, bodies).1 <= st.max_attempts - st.attempts,
    decreases st.max_attempts - st.attempts,
{
    if st.attempts < st.max_attempts {
        match spec_step(st, spec_classify(bodies[st.attempts as int])) {
            StepModel::Continue(next) => {
                lemma_run_poll_bound(next, bodies);
            },
            StepModel::Done(_) => {
            },
        }
    }
}

/// Against a server that only ever answers `authorization_pending`,
/// the loop issues exactly the polls the deadline guard allows and
/// then returns `Expired`.
pub proof fn lemma_pending_only_expires(st: PollState, bodies: Seq<Seq<char>>)
    requires
        st.wf(),
        forall|i: int|
            st.attempts <= i < st.max_attempts ==> (#[trigger] spec_classify(bodies[i]))
                is Pending,
    ensures
        spec_run(st, bodies).0 is Expired,
        spec_run(st, bodies).1 == st.max_attempts - st.attempts,
    decreases st.max_attempts - st.attempts,
{
    if st.attempts < st.max_attempts {
        assert(spec_classify(bodies[st.attempts as int]) is Pending);
        match spec_step(st, spec_classify(bodies[st.attempts as int])) {
            StepModel::Continue(next) => {
                lemma_pending_only_expires(next, bodies);
            },
            StepModel::Done(_) => {
            },
        }
    }
}

/// While the replies keep the loop going, the first decisive reply
/// settles the whole run: its outcome is returned after exactly that
/// poll, and no further poll is issued.
pub proof fn lemma_first_decisive(st: PollState, bodies: Seq<Seq<char>>, i: int)
    requires
        st.attempts <= i < st.max_attempts,
        forall|j: int|
            st.attempts <= j < i ==> spec_decisive(#[trigger] spec_classify(bodies[j])) is None,
        spec_decisive(spec_classify(bodies[i])) is Some,
    ensures
        Some(spec_run(st, bodies).0) == spec_decisive(spec_classify(bodies[i])),
        spec_run(st, bodies).1 == i + 1 - st.attempts,
    decreases i - st.attempts,
{
    if st.attempts < i {
        assert(spec_decisive(spec_classify(bodies[st.attempts as int])) is None);
        match spec_step(st, spec_classify(bodies[st.attempts as int])) {
            StepModel::Continue(next) => {
                lemma_first_decisive(next, bodies, i);
            },
            StepModel::Done(_) => {
            },
        }
    }
}

/// A reply carrying a well-formed `access_token` yields `Authorized`
/// on the first iteration it appears, whatever `authorization_pending`
/// or `slow_down` replies came before it.
pub proof fn lemma_token_wins(st: PollState, bodies: Seq<Seq<char>>, i: int, token: Seq<char>)
    requires
        st.attempts <= i < st.max_attempts,
        forall|j: int|
            st.attempts <= j < i ==> ((#[trigger] spec_classify(bodies[j])) is Pending
                || spec_classify(bodies[j]) is SlowDown),
        spec_classify(bodies[i]) == ReplyModel::Success(token),
    ensures
        spec_run(st, bodies).0 == OutcomeModel::Authorized(token),
        spec_run(st, bodies).1 == i + 1 - st.attempts,
{
    assert forall|j: int| st.attempts <= j < i implies spec_decisive(
        #[trigger] spec_classify(bodies[j]),
    ) is None by {
        assert(spec_classify(bodies[j]) is Pending || spec_classify(bodies[j]) is SlowDown);
    }
    lemma_first_decisive(st, bodies, i);
}

/// `access_denied` is terminal: the poll that first receives it is the
/// last one issued, and the run returns `Denied`.
pub proof fn lemma_denied_terminal(st: PollState, bodies: Seq<Seq<char>>, i: int)
    requires
        st.attempts <= i < st.max_attempts,
        forall|j: int|
            st.attempts <= j < i ==> spec_decisive(#[trigger] spec_classify(bodies[j])) is None,
        spec_classify(bodies[i]) is Denied,
    ensures
        spec_run(st, bodies).0 is Denied,
        spec_run(st, bodies).1 == i + 1 - st.attempts,
{
    lemma_first_decisive(st, bodies, i);
}

/// `expired_token` is terminal: the poll that first receives it is the
/// last one issued, and the run returns `Expired`.
pub proof fn lemma_expired_code_terminal(st: PollState, bodies: Seq<Seq<char>>, i: int)
    requires
        st.attempts <= i < st.max_attempts,
        forall|j: int|
            st.attempts <= j < i ==> spec_decisive(#[trigger] spec_classify(bodies[j])) is None,
        spec_classify(bodies[i]) is ExpiredCode,
    ensures
        spec_run(st, bodies).0 is Expired,
        spec_run(st, bodies).1 == i + 1 - st.attempts,
{
    lemma_first_decisive(st, bodies, i);
}

/// Round trip: a success-shaped body yields `Authorized` carrying the
/// body's `access_token` field verbatim, with no transformation.
pub proof fn lemma_success_body_authorized(st: PollState, body: Seq<char>, token: Seq<char>)
    requires
        st.attempts < st.max_attempts,
        json_string_field(body, "access_token"@) == Some(token),
        token.len() > 0,
    ensures
        spec_step(st, spec_classify(body)) == StepModel::Done(OutcomeModel::Authorized(token)),
{
}

/// A continuing reply never shrinks the interval, and a `slow_down`
/// reply strictly grows it by the fixed increment wherever the
/// integer range allows the sum.
pub proof fn lemma_interval_monotone(st: PollState, reply: ReplyModel)
    ensures
        spec_step(st, reply) matches StepModel::Continue(next) ==> next.current_interval
            >= st.current_interval,
        reply is SlowDown && st.current_interval + SLOW_DOWN_INCREMENT <= u64::MAX ==> (spec_step(
            st,
            reply,
        ) matches StepModel::Continue(next) && next.current_interval == st.current_interval
            + SLOW_DOWN_INCREMENT),
{
}

/// The state after `k` polls of a run, the run's last state once the
/// attempt has ended.
pub open spec fn spec_state_at(st: PollState, bodies: Seq<Seq<char>>, k: int) -> PollState
    decreases k when k >= 0
{
    if k <= 0 {
        st
    } else {
        let prev = spec_state_at(st, bodies, k - 1);
        if prev.attempts < prev.max_attempts {
            match spec_step(prev, spec_classify(bodies[prev.attempts as int])) {
                StepModel::Continue(next) => next,
                StepModel::Done(_) => prev,
            }
        } else {
            prev
        }
    }
}

/// Along a whole run the interval never decreases: every later wait is
/// at least as long as every earlier one.
pub proof fn lemma_run_interval_never_shrinks(
    st: PollState,
    bodies: Seq<Seq<char>>,
    j: int,
    k: int,
)
    requires
        0 <= j <= k,
    ensures
        spec_state_at(st, bodies, k).current_interval >= spec_state_at(
            st,
            bodies,
            j,
        ).current_interval,
    decreases k - j,
{
    if j < k {
        lemma_run_interval_never_shrinks(st, bodies, j, k - 1);
        let prev = spec_state_at(st, bodies, k - 1);
        if prev.attempts < prev.max_attempts {
            lemma_interval_monotone(prev, spec_classify(bodies[prev.attempts as int]));
        }
    }
}

/// A `slow_down` reply increases the interval for all subsequent
/// waits of the attempt: after the poll that received it, every state
/// waits at least the fixed increment longer than before it (short of
/// the integer range's very top, where the interval saturates).
pub proof fn lemma_slow_down_raises_later_waits(
    st: PollState,
    bodies: Seq<Seq<char>>,
    k: int,
    m: int,
)
    requires
        0 <= k < m,
        spec_state_at(st, bodies, k).attempts < spec_state_at(st, bodies, k).max_attempts,
        spec_classify(bodies[spec_state_at(st, bodies, k).attempts as int]) is SlowDown,
        spec_state_at(st, bodies, k).current_interval + SLOW_DOWN_INCREMENT <= u64::MAX,
    ensures
        spec_state_at(st, bodies, m).current_interval >= spec_state_at(
            st,
            bodies,
            k,
        ).current_interval + SLOW_DOWN_INCREMENT,
{
    lemma_run_interval_never_shrinks(st, bodies, k + 1, m);
}

} // verus!
