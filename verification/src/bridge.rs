//! The bridge session: resolving the two interface names, cross-wiring two
//! relay directions (A's receiver feeds B's sender and vice versa), and the
//! session-level guarantees that hold however the two directions' events
//! interleave.
//!
//! Opening a raw link-layer channel is operating-system work and happens
//! outside this crate; the session is constructed from the outcomes of
//! those attempts and never reaches its running state unless both
//! succeeded.

use vstd::prelude::*;

use crate::relay::DirectionModel;
use crate::relay::EventModel;
use crate::relay::RelayDirection;
use crate::relay::direction_init;
use crate::relay::direction_step;

verus! {

/// Why a bridge session could not be constructed: either one of the two
/// names matched no interface visible to the host, or the host refused to
/// open a raw link-layer channel on a matched interface (the payload is the
/// operating system's error text).
#[derive(Debug, PartialEq, Eq)]
pub enum BridgeError {
    InterfaceNotFound,
    ChannelOpenFailed(String),
}

/// Identifies one of the session's two relay directions.
#[derive(Clone, Copy, Debug, PartialEq, Eq, Structural)]
pub enum DirectionId {
    AToB,
    BToA,
}

/// Where a running session stands: both directions relaying, exactly one
/// failed (the peer keeps relaying), or both failed. `Stopped` is terminal;
/// a stopped session is not restartable — a new one must be constructed.
#[derive(Clone, Copy, Debug, PartialEq, Eq, Structural)]
pub enum SessionPhase {
    Running,
    DirectionAFailed,
    DirectionBFailed,
    Stopped,
}

/// Find the interface whose name exactly matches `target` among the names
/// the host reports, in the order it reports them. No normalization, no
/// wildcard: the first exact match wins.
pub fn resolve_interface(visible: &Vec<String>, target: &String) -> (r: Option<usize>)
    ensures
        match r {
            Some(i) => i < visible@.len() && visible@[i as int]@ == target@ && forall|j: int|
                0 <= j < i ==> visible@[j]@ != target@,
            None => forall|j: int| 0 <= j < visible@.len() ==> visible@[j]@ != target@,
        },
{
    let mut i: usize = 0;
    while i < visible.len()
        invariant
            i <= visible@.len(),
            forall|j: int| 0 <= j < i ==> visible@[j]@ != target@,
        decreases visible@.len() - i,
    {
        if visible[i].eq(target) {
            return Some(i);
        }
        i += 1;
    }
    None
}

/// Validate the two interface names against the names the host reports and
/// pick the interface for each: the first exact match wins. Yields
/// `InterfaceNotFound` exactly when either name matches nothing; the
/// caller then has no session and starts no relay.
pub fn plan_bridge(visible: &Vec<String>, name_a: &String, name_b: &String) -> (r: Result<
    (usize, usize),
    BridgeError,
>)
    ensures
        match r {
            Ok(pair) => {
                &&& pair.0 < visible@.len() && visible@[pair.0 as int]@ == name_a@
                &&& forall|j: int| 0 <= j < pair.0 ==> visible@[j]@ != name_a@
                &&& pair.1 < visible@.len() && visible@[pair.1 as int]@ == name_b@
                &&& forall|j: int| 0 <= j < pair.1 ==> visible@[j]@ != name_b@
            },
            Err(e) => {
                &&& e == BridgeError::InterfaceNotFound
                &&& ((forall|j: int| 0 <= j < visible@.len() ==> visible@[j]@ != name_a@) || (
                forall|j: int| 0 <= j < visible@.len() ==> visible@[j]@ != name_b@))
            },
        },
{
    let a = resolve_interface(visible, name_a);
    let b = resolve_interface(visible, name_b);
    match (a, b) {
        (Some(ia), Some(ib)) => Ok((ia, ib)),
        _ => Err(BridgeError::InterfaceNotFound),
    }
}

/// Abstract state of a whole session: the states of its two directions.
/// The directions share nothing: each owns one interface's receiver and the
/// other interface's sender.
pub struct SessionModel {
    pub a_to_b: DirectionModel,
    pub b_to_a: DirectionModel,
}

/// The state a session over interfaces named `a` and `b` is in when it
/// enters its running phase: two cross-wired directions, one labelled a to
/// b and one labelled b to a, each running with an empty log.
pub open spec fn session_init(a: Seq<char>, b: Seq<char>) -> SessionModel {
    SessionModel { a_to_b: direction_init(a, b), b_to_a: direction_init(b, a) }
}

/// The component of a session model that a direction identifier picks out.
pub open spec fn dir_model(s: SessionModel, d: DirectionId) -> DirectionModel {
    match d {
        DirectionId::AToB => s.a_to_b,
        DirectionId::BToA => s.b_to_a,
    }
}

/// One event on one direction changes that direction exactly as
/// [`direction_step`] says and leaves the other direction untouched.
pub open spec fn session_step(s: SessionModel, d: DirectionId, ev: EventModel) -> SessionModel {
    match d {
        DirectionId::AToB => SessionModel { a_to_b: direction_step(s.a_to_b, ev), b_to_a: s.b_to_a },
        DirectionId::BToA => SessionModel { a_to_b: s.a_to_b, b_to_a: direction_step(s.b_to_a, ev) },
    }
}

/// The phase a session state is in, read off the two directions.
pub open spec fn session_phase(s: SessionModel) -> SessionPhase {
    if s.a_to_b.running && s.b_to_a.running {
        SessionPhase::Running
    } else if !s.a_to_b.running && s.b_to_a.running {
        SessionPhase::DirectionAFailed
    } else if s.a_to_b.running && !s.b_to_a.running {
        SessionPhase::DirectionBFailed
    } else {
        SessionPhase::Stopped
    }
}

/// One event of a session's execution: which direction observed it, and
/// what it was.
pub struct TaggedEvent {
    pub dir: DirectionId,
    pub event: EventModel,
}

/// The session state reached after the given events, in order. Any
/// interleaving of the two concurrent directions' iterations is such a
/// sequence, since each iteration touches only its own direction's state.
pub open spec fn session_run(s: SessionModel, evs: Seq<TaggedEvent>) -> SessionModel
    decreases evs.len(),
{
    if evs.len() == 0 {
        s
    } else {
        session_step(session_run(s, evs.drop_last()), evs.last().dir, evs.last().event)
    }
}

/// The frames received on direction `d` among the given events, in order.
pub open spec fn frames_on(evs: Seq<TaggedEvent>, d: DirectionId) -> Seq<Seq<u8>>
    decreases evs.len(),
{
    if evs.len() == 0 {
        Seq::empty()
    } else {
        let rest = frames_on(evs.drop_last(), d);
        match evs.last().event {
            EventModel::Frame(f) => if evs.last().dir == d {
                rest.push(f)
            } else {
                rest
            },
            EventModel::Fail => rest,
        }
    }
}

/// A bridge session that reached its running phase: two cross-wired relay
/// directions. The program driving the session runs the two directions
/// concurrently; they share no state, so each can be handed to its own
/// thread via [`BridgeSession::into_directions`].
pub struct BridgeSession {
    a_to_b: RelayDirection,
    b_to_a: RelayDirection,
}

impl View for BridgeSession {
    type V = SessionModel;

    closed spec fn view(&self) -> SessionModel {
        SessionModel { a_to_b: self.a_to_b@, b_to_a: self.b_to_a@ }
    }
}

impl BridgeSession {
    /// Decide session construction from the outcomes of opening the two
    /// raw channels (each `Err` carries the operating system's error text).
    /// The session reaches its running state — cross-wired between the two
    /// named interfaces — exactly when both opens succeeded; otherwise the
    /// first failure is surfaced synchronously and no relay ever starts.
    pub fn start(
        name_a: &String,
        name_b: &String,
        open_a: Result<(), String>,
        open_b: Result<(), String>,
    ) -> (r: Result<BridgeSession, BridgeError>)
        ensures
            match r {
                Ok(s) => open_a is Ok && open_b is Ok && s@ == session_init(name_a@, name_b@),
                Err(e) => match e {
                    BridgeError::ChannelOpenFailed(msg) => (open_a matches Err(m) && msg@ == m@)
                        || (open_a is Ok && (open_b matches Err(m) && msg@ == m@)),
                    BridgeError::InterfaceNotFound => false,
                },
            },
            r is Ok <==> (open_a is Ok && open_b is Ok),
    {
        match open_a {
            Err(m) => Err(BridgeError::ChannelOpenFailed(m)),
            Ok(()) => match open_b {
                Err(m) => Err(BridgeError::ChannelOpenFailed(m)),
                Ok(()) => Ok(
                    BridgeSession {
                        a_to_b: RelayDirection::new(name_a.clone(), name_b.clone()),
                        b_to_a: RelayDirection::new(name_b.clone(), name_a.clone()),
                    },
                ),
            },
        }
    }

    /// Whether the named direction's relay loop is still running.
    pub fn direction_running(&self, d: DirectionId) -> (b: bool)
        ensures
            b == dir_model(self@, d).running,
    {
        match d {
            DirectionId::AToB => self.a_to_b.is_running(),
            DirectionId::BToA => self.b_to_a.is_running(),
        }
    }

    /// Whether the session is stopped: both directions have failed. A
    /// stopped session is terminal; a new one must be constructed.
    pub fn is_stopped(&self) -> (b: bool)
        ensures
            b == (session_phase(self@) == SessionPhase::Stopped),
    {
        !self.a_to_b.is_running() && !self.b_to_a.is_running()
    }

    /// The phase the session is in.
    pub fn phase(&self) -> (p: SessionPhase)
        ensures
            p == session_phase(self@),
    {
        match (self.a_to_b.is_running(), self.b_to_a.is_running()) {
            (true, true) => SessionPhase::Running,
            (false, true) => SessionPhase::DirectionAFailed,
            (true, false) => SessionPhase::DirectionBFailed,
            (false, false) => SessionPhase::Stopped,
        }
    }

    /// Hand the two directions to their drivers. The A-to-B direction
    /// reads from interface A and writes to interface B; its peer is the
    /// reverse. They share no capability, so one direction's failure
    /// cannot touch the other.
    pub fn into_directions(self) -> (r: (RelayDirection, RelayDirection))
        ensures
            r.0@ == self@.a_to_b,
            r.1@ == self@.b_to_a,
    {
        (self.a_to_b, self.b_to_a)
    }
}

/// Events that all belong to one direction and all carry frames: the shape
/// of a failure-free run of that direction.
pub open spec fn tagged_frames(frames: Seq<Seq<u8>>, d: DirectionId) -> Seq<TaggedEvent> {
    frames.map(|i: int, f: Seq<u8>| TaggedEvent { dir: d, event: EventModel::Frame(f) })
}

/// Events on one direction leave the other direction's state exactly as it
/// was, and a running direction that receives only frames forwards all of
/// them in order.
pub proof fn lemma_single_direction_run(s: SessionModel, frames: Seq<Seq<u8>>, d: DirectionId)
    requires
        dir_model(s, d).running,
    ensures
        dir_model(session_run(s, tagged_frames(frames, d)), d).running,
        dir_model(session_run(s, tagged_frames(frames, d)), d).forwarded == dir_model(
            s,
            d,
        ).forwarded + frames,
        d == DirectionId::AToB ==> session_run(s, tagged_frames(frames, d)).b_to_a == s.b_to_a,
        d == DirectionId::BToA ==> session_run(s, tagged_frames(frames, d)).a_to_b == s.a_to_b,
    decreases frames.len(),
{
    let evs = tagged_frames(frames, d);
    if frames.len() == 0 {
        assert(dir_model(s, d).forwarded + frames =~= dir_model(s, d).forwarded);
    } else {
        lemma_single_direction_run(s, frames.drop_last(), d);
        assert(evs.drop_last() =~= tagged_frames(frames.drop_last(), d));
        assert((dir_model(s, d).forwarded + frames.drop_last()).push(frames.last()) =~= dir_model(
            s,
            d,
        ).forwarded + frames);
    }
}

/// Bidirectionality: in a session with both directions running, however
/// the two directions' failure-free iterations interleave, each direction
/// forwards exactly the frames received on it, in the order received, and
/// both directions are still running afterwards. The two streams are
/// independent: neither direction's log depends on the other's traffic.
pub proof fn lemma_bidirectional_relay(s: SessionModel, evs: Seq<TaggedEvent>)
    requires
        s.a_to_b.running,
        s.b_to_a.running,
        forall|i: int| 0 <= i < evs.len() ==> #[trigger] evs[i].event is Frame,
    ensures
        session_run(s, evs).a_to_b.running,
        session_run(s, evs).b_to_a.running,
        session_run(s, evs).a_to_b.forwarded == s.a_to_b.forwarded + frames_on(
            evs,
            DirectionId::AToB,
        ),
        session_run(s, evs).b_to_a.forwarded == s.b_to_a.forwarded + frames_on(
            evs,
            DirectionId::BToA,
        ),
    decreases evs.len(),
{
    if evs.len() == 0 {
        assert(s.a_to_b.forwarded + frames_on(evs, DirectionId::AToB) =~= s.a_to_b.forwarded);
        assert(s.b_to_a.forwarded + frames_on(evs, DirectionId::BToA) =~= s.b_to_a.forwarded);
    } else {
        lemma_bidirectional_relay(s, evs.drop_last());
        assert(evs[evs.len() - 1].event is Frame);
        let mid = session_run(s, evs.drop_last());
        match evs.last().event {
            EventModel::Frame(f) => {
                match evs.last().dir {
                    DirectionId::AToB => {
                        assert((s.a_to_b.forwarded + frames_on(evs.drop_last(), DirectionId::AToB))
                            .push(f) =~= s.a_to_b.forwarded + frames_on(evs, DirectionId::AToB));
                    },
                    DirectionId::BToA => {
                        assert((s.b_to_a.forwarded + frames_on(evs.drop_last(), DirectionId::BToA))
                            .push(f) =~= s.b_to_a.forwarded + frames_on(evs, DirectionId::BToA));
                    },
                }
            },
            EventModel::Fail => {
                assert(false);
            },
        }
    }
}

/// The session's phases only move forward: no event restarts a failed
/// direction, and a stopped session is terminal — no sequence of further
/// events changes it at all.
pub proof fn lemma_stopped_is_terminal(s: SessionModel, evs: Seq<TaggedEvent>)
    requires
        session_phase(s) == SessionPhase::Stopped,
    ensures
        session_run(s, evs) == s,
    decreases evs.len(),
{
    if evs.len() > 0 {
        lemma_stopped_is_terminal(s, evs.drop_last());
    }
}

/// Direction independence: a failure on the A-to-B path halts only that
/// path. Frames received afterwards on the B-to-A path are all still
/// forwarded, in order, while the failed path stays halted with its log
/// unchanged. The same holds with the roles of the two paths exchanged,
/// since the model treats them symmetrically.
pub proof fn lemma_direction_independence(s: SessionModel, frames: Seq<Seq<u8>>)
    requires
        s.b_to_a.running,
    ensures
        ({
            let failed = session_step(s, DirectionId::AToB, EventModel::Fail);
            let end = session_run(failed, tagged_frames(frames, DirectionId::BToA));
            &&& !failed.a_to_b.running
            &&& end.a_to_b == failed.a_to_b
            &&& end.a_to_b.forwarded == s.a_to_b.forwarded
            &&& end.b_to_a.running
            &&& end.b_to_a.forwarded == s.b_to_a.forwarded + frames
        }),
{
    let failed = session_step(s, DirectionId::AToB, EventModel::Fail);
    lemma_single_direction_run(failed, frames, DirectionId::BToA);
}

} // verus!
