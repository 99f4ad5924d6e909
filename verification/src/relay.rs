//! One relay direction: a unit of work that continuously takes frames
//! received on one interface and forwards each, unmodified, to the other.
//!
//! A frame is an opaque byte sequence; the relay never inspects or alters
//! it. The direction keeps no state beyond its observability label, whether
//! it is still running and (as ghost state) the log of frames it has
//! forwarded, so its behaviour is captured exactly by the step function
//! [`direction_step`].

use vstd::prelude::*;

verus! {

/// What a relay direction observes in one iteration: either a frame was
/// received from the source interface, or an unrecoverable I/O failure — a
/// failed receive, or a failed send of the previous frame.
pub enum RelayEvent {
    Received(Vec<u8>),
    Failed,
}

/// What the relay direction asks its driver to do next: forward the frame
/// to the sink interface, or halt this direction permanently.
#[derive(Debug, PartialEq, Eq)]
pub enum RelayAction {
    Forward(Vec<u8>),
    Halt,
}

/// Mathematical image of a [`RelayEvent`]: the frame as a byte sequence.
pub enum EventModel {
    Frame(Seq<u8>),
    Fail,
}

/// Mathematical image of a [`RelayAction`].
pub enum ActionModel {
    Forward(Seq<u8>),
    Halt,
}

impl View for RelayEvent {
    type V = EventModel;

    open spec fn view(&self) -> EventModel {
        match self {
            RelayEvent::Received(f) => EventModel::Frame(f@),
            RelayEvent::Failed => EventModel::Fail,
        }
    }
}

impl View for RelayAction {
    type V = ActionModel;

    open spec fn view(&self) -> ActionModel {
        match self {
            RelayAction::Forward(f) => ActionModel::Forward(f@),
            RelayAction::Halt => ActionModel::Halt,
        }
    }
}

/// Abstract state of one relay direction: whether its loop is still
/// running, every frame it has forwarded so far (oldest first), and its
/// observability label — the names of the interface it reads from and the
/// interface it writes to.
pub struct DirectionModel {
    pub running: bool,
    pub forwarded: Seq<Seq<u8>>,
    pub from: Seq<char>,
    pub to: Seq<char>,
}

/// The state a relay direction starts in: running, nothing forwarded yet.
pub open spec fn direction_init(from: Seq<char>, to: Seq<char>) -> DirectionModel {
    DirectionModel { running: true, forwarded: Seq::empty(), from: from, to: to }
}

/// How one event changes a direction's state: a received frame is appended
/// to the forwarded log, an I/O failure stops the direction permanently,
/// and a stopped direction never changes again.
pub open spec fn direction_step(m: DirectionModel, ev: EventModel) -> DirectionModel {
    if !m.running {
        m
    } else {
        match ev {
            EventModel::Frame(f) => DirectionModel { forwarded: m.forwarded.push(f), ..m },
            EventModel::Fail => DirectionModel { running: false, ..m },
        }
    }
}

/// The action a direction takes on one event: a running direction forwards
/// the received frame exactly as it came in; otherwise it halts.
pub open spec fn step_action(m: DirectionModel, ev: EventModel) -> ActionModel {
    if !m.running {
        ActionModel::Halt
    } else {
        match ev {
            EventModel::Frame(f) => ActionModel::Forward(f),
            EventModel::Fail => ActionModel::Halt,
        }
    }
}

/// The state reached after receiving the given frames, in order, with no
/// failure in between.
pub open spec fn direction_run(m: DirectionModel, frames: Seq<Seq<u8>>) -> DirectionModel
    decreases frames.len(),
{
    if frames.len() == 0 {
        m
    } else {
        direction_step(direction_run(m, frames.drop_last()), EventModel::Frame(frames.last()))
    }
}

/// One direction of the bridge. Its driver owns the source interface's
/// receiver and the sink interface's sender, feeds every receive outcome to
/// [`RelayDirection::on_event`], and performs the returned action.
pub struct RelayDirection {
    from_name: String,
    to_name: String,
    running: bool,
    forwarded: Ghost<Seq<Seq<u8>>>,
}

impl View for RelayDirection {
    type V = DirectionModel;

    closed spec fn view(&self) -> DirectionModel {
        DirectionModel {
            running: self.running,
            forwarded: self.forwarded@,
            from: self.from_name@,
            to: self.to_name@,
        }
    }
}

impl RelayDirection {
    /// A fresh direction labelled with the interface it reads from and the
    /// interface it writes to: running, with an empty forwarded log.
    pub fn new(from: String, to: String) -> (d: Self)
        ensures
            d@ == direction_init(from@, to@),
    {
        RelayDirection { from_name: from, to_name: to, running: true, forwarded: Ghost(Seq::empty()) }
    }

    /// The direction's observability label: (from-name, to-name).
    pub fn label(&self) -> (r: (&String, &String))
        ensures
            r.0@ == self@.from,
            r.1@ == self@.to,
    {
        (&self.from_name, &self.to_name)
    }

    /// Whether this direction's relay loop is still running.
    pub fn is_running(&self) -> (b: bool)
        ensures
            b == self@.running,
    {
        self.running
    }

    /// Advance the direction by one event. A received frame is forwarded
    /// verbatim — same length, same bytes — and appended to the forwarded
    /// log; an I/O failure halts this direction permanently and forwards
    /// nothing.
    pub fn on_event(&mut self, ev: RelayEvent) -> (act: RelayAction)
        requires
            old(self)@.running,
        ensures
            final(self)@ == direction_step(old(self)@, ev@),
            act@ == step_action(old(self)@, ev@),
    {
        match ev {
            RelayEvent::Received(f) => {
                self.forwarded = Ghost(self.forwarded@.push(f@));
                RelayAction::Forward(f)
            },
            RelayEvent::Failed => {
                self.running = false;
                RelayAction::Halt
            },
        }
    }
}

/// Order preservation: a running direction that receives the frames
/// `frames[0], .., frames[n-1]` in that order, with no failure, stays
/// running and forwards exactly those frames, in that order, appended to
/// whatever it had forwarded before.
pub proof fn lemma_order_preservation(m: DirectionModel, frames: Seq<Seq<u8>>)
    requires
        m.running,
    ensures
        direction_run(m, frames).running,
        direction_run(m, frames).forwarded == m.forwarded + frames,
    decreases frames.len(),
{
    if frames.len() == 0 {
        assert(m.forwarded + frames =~= m.forwarded);
    } else {
        lemma_order_preservation(m, frames.drop_last());
        assert((m.forwarded + frames.drop_last()).push(frames.last()) =~= m.forwarded + frames);
    }
}

/// No frame mutation: a running direction that receives a frame of any
/// content forwards a frame of exactly the same length with exactly the
/// same bytes, and keeps running.
pub proof fn lemma_no_frame_mutation(m: DirectionModel, f: Seq<u8>)
    requires
        m.running,
    ensures
        step_action(m, EventModel::Frame(f)) == ActionModel::Forward(f),
        direction_step(m, EventModel::Frame(f)).running,
        direction_step(m, EventModel::Frame(f)).forwarded == m.forwarded.push(f),
        match step_action(m, EventModel::Frame(f)) {
            ActionModel::Forward(g) => g.len() == f.len() && forall|i: int|
                0 <= i < f.len() ==> g[i] == f[i],
            ActionModel::Halt => false,
        },
{
}

/// A halted direction is terminal: no further event changes its state, and
/// it forwards nothing. A new direction must be constructed to relay again.
pub proof fn lemma_halted_is_terminal(m: DirectionModel, ev: EventModel)
    requires
        !m.running,
    ensures
        direction_step(m, ev) == m,
        step_action(m, ev) == ActionModel::Halt,
{
}

} // verus!
