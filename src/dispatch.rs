use vstd::prelude::*;
use std::collections::VecDeque;
use crate::balloon::Balloon;

verus! {

/// Seconds the loop waits, when nothing is pending, before it asks the server
/// again.
pub const IDLE_WAIT_SECS: u64 = 5;

/// Whether the loop is doing work or waiting for the operator.
#[derive(Clone, Copy, Debug, PartialEq, Eq, Structural)]
pub enum LoopState {
    Running,
    Paused,
}

/// An operator command sent to the loop.
#[derive(Clone, Copy, Debug, PartialEq, Eq, Structural)]
pub enum Command {
    Pause,
    Resume,
}

/// What happened since the loop last asked for something to be done.
#[derive(Debug)]
pub enum Event {
    /// The loop has just been started.
    Started,
    /// A command came in.
    Command(Command),
    /// A check for a command found none waiting.
    NoCommand,
    /// The command channel was closed: the operator has left.
    Closed,
    /// The idle wait ran out with no command.
    TimerElapsed,
    /// The server listed these undelivered balloons, in its order.
    Fetched(Vec<Balloon>),
    /// Asking the server for balloons failed.
    FetchFailed,
    /// The balloon last handed out was printed and acknowledged.
    Delivered,
    /// Rendering, printing or acknowledging the balloon last handed out failed.
    DeliveryFailed,
}

/// What the loop asks its driver to do next.
#[derive(Debug)]
pub enum Action {
    /// Block until a command arrives or the channel closes.
    WaitCommand,
    /// Check, without blocking, whether a command is waiting.
    PollCommand,
    /// Ask the server for the undelivered balloons.
    Fetch,
    /// Wait for a command, for at most the idle interval.
    IdleWait,
    /// Render and print this balloon, then acknowledge its id.
    Deliver(Balloon),
    /// Leave the loop and signal completion.
    Stop,
}

/// The abstract state of the loop: its mode and the pending balloons, oldest
/// first.
pub struct LoopModel {
    pub state: LoopState,
    pub buf: Seq<Balloon>,
}

/// Hands out the oldest pending balloon, or `empty` where none is pending.
pub open spec fn take_next(m: LoopModel, empty: Action) -> (LoopModel, Action) {
    if m.buf.len() == 0 {
        (m, empty)
    } else {
        (LoopModel { buf: m.buf.drop_first(), ..m }, Action::Deliver(m.buf[0]))
    }
}

/// Where the loop goes from the start of an iteration.
pub open spec fn resume_action(m: LoopModel) -> Action {
    if m.state == LoopState::Paused {
        Action::WaitCommand
    } else {
        Action::PollCommand
    }
}

/// One transition of the loop: the next state and what to do next.
pub open spec fn step(m: LoopModel, ev: Event) -> (LoopModel, Action) {
    match ev {
        Event::Closed | Event::FetchFailed | Event::DeliveryFailed => (m, Action::Stop),
        Event::Command(Command::Pause) => (LoopModel { state: LoopState::Paused, ..m }, Action::WaitCommand),
        Event::Command(Command::Resume) => (LoopModel { state: LoopState::Running, ..m }, Action::PollCommand),
        Event::Started | Event::TimerElapsed | Event::Delivered => (m, resume_action(m)),
        Event::NoCommand => if m.state == LoopState::Paused {
            (m, Action::WaitCommand)
        } else {
            take_next(m, Action::Fetch)
        },
        Event::Fetched(batch) => {
            let m1 = LoopModel { buf: m.buf + batch@, ..m };
            if m.state == LoopState::Paused {
                (m1, Action::WaitCommand)
            } else {
                take_next(m1, Action::IdleWait)
            }
        },
    }
}

/// The pause-aware dispatch loop's decisions. The driver performs each
/// action and reports what came of it; the loop owns the pending balloons.
pub struct DispatchLoop {
    state: LoopState,
    buf: VecDeque<Balloon>,
}

impl View for DispatchLoop {
    type V = LoopModel;

    closed spec fn view(&self) -> LoopModel {
        LoopModel { state: self.state, buf: self.buf@ }
    }
}

impl DispatchLoop {
    /// A running loop with nothing pending.
    pub fn new() -> (r: DispatchLoop)
        ensures
            r@.state == LoopState::Running,
            r@.buf.len() == 0,
    {
        DispatchLoop { state: LoopState::Running, buf: VecDeque::new() }
    }

    /// The current mode.
    pub fn state(&self) -> (r: LoopState)
        ensures
            r == self@.state,
    {
        self.state
    }

    /// How many balloons are pending.
    pub fn pending(&self) -> (r: usize)
        ensures
            r == self@.buf.len(),
    {
        self.buf.len()
    }

    fn take_next(&mut self, empty: Action) -> (r: Action)
        ensures
            (final(self)@, r) == take_next(old(self)@, empty),
    {
        match self.buf.pop_front() {
            Some(b) => Action::Deliver(b),
            None => empty,
        }
    }

    fn append(&mut self, batch: Vec<Balloon>)
        ensures
            final(self)@ == (LoopModel { buf: old(self)@.buf + batch@, ..old(self)@ }),
    {
        let mut rest = batch;
        while rest.len() > 0
            invariant
                self.state == old(self).state,
                self.buf@ + rest@ == old(self).buf@ + batch@,
            decreases rest.len(),
        {
            let ghost before = rest@;
            let b = rest.remove(0);
            proof {
                assert(before =~= seq![b] + rest@);
            }
            self.buf.push_back(b);
            proof {
                assert(self.buf@ + rest@ =~= old(self).buf@ + batch@);
            }
        }
        proof {
            assert(self.buf@ + rest@ =~= self.buf@);
        }
    }

    /// Takes in what happened and decides what to do next.
    pub fn on_event(&mut self, ev: Event) -> (r: Action)
        ensures
            (final(self)@, r) == step(old(self)@, ev),
    {
        match ev {
            Event::Closed | Event::FetchFailed | Event::DeliveryFailed => Action::Stop,
            Event::Command(Command::Pause) => {
                self.state = LoopState::Paused;
                Action::WaitCommand
            },
            Event::Command(Command::Resume) => {
                self.state = LoopState::Running;
                Action::PollCommand
            },
            Event::Started | Event::TimerElapsed | Event::Delivered => {
                match self.state {
                    LoopState::Paused => Action::WaitCommand,
                    LoopState::Running => Action::PollCommand,
                }
            },
            Event::NoCommand => {
                match self.state {
                    LoopState::Paused => Action::WaitCommand,
                    LoopState::Running => self.take_next(Action::Fetch),
                }
            },
            Event::Fetched(batch) => {
                self.append(batch);
                match self.state {
                    LoopState::Paused => Action::WaitCommand,
                    LoopState::Running => self.take_next(Action::IdleWait),
                }
            },
        }
    }
}

/// The loop driven through a sequence of events from `m`: the final state,
/// and the actions asked for, in order.
pub open spec fn run(m: LoopModel, evs: Seq<Event>) -> (LoopModel, Seq<Action>)
    decreases evs.len(),
{
    if evs.len() == 0 {
        (m, Seq::empty())
    } else {
        let (m1, a) = step(m, evs[0]);
        let (m2, rest) = run(m1, evs.drop_first());
        (m2, seq![a] + rest)
    }
}

/// The balloon an action hands out for printing, if any.
pub open spec fn delivered_by(a: Action) -> Seq<Balloon> {
    match a {
        Action::Deliver(b) => seq![b],
        _ => Seq::empty(),
    }
}

/// The balloons handed out for printing by a sequence of actions, in order.
pub open spec fn delivered(acts: Seq<Action>) -> Seq<Balloon>
    decreases acts.len(),
{
    if acts.len() == 0 {
        Seq::empty()
    } else {
        delivered_by(acts[0]) + delivered(acts.drop_first())
    }
}

/// The balloons an event brings from the server, if any.
pub open spec fn fetched_by(ev: Event) -> Seq<Balloon> {
    match ev {
        Event::Fetched(batch) => batch@,
        _ => Seq::empty(),
    }
}

/// The balloons brought from the server over a sequence of events, in order.
pub open spec fn fetched(evs: Seq<Event>) -> Seq<Balloon>
    decreases evs.len(),
{
    if evs.len() == 0 {
        Seq::empty()
    } else {
        fetched_by(evs[0]) + fetched(evs.drop_first())
    }
}

/// The ids of a sequence of balloons.
pub open spec fn ids(s: Seq<Balloon>) -> Seq<usize> {
    s.map_values(|b: Balloon| b.balloonid)
}

/// Balloons are handed out first in, first out: whatever the events, the
/// balloons handed out, followed by those still pending, are exactly those
/// pending at the start followed by those fetched, in fetch order.
pub proof fn lemma_fifo_delivery(m: LoopModel, evs: Seq<Event>)
    ensures
        delivered(run(m, evs).1) + run(m, evs).0.buf == m.buf + fetched(evs),
    decreases evs.len(),
{
    if evs.len() > 0 {
        let (m1, a) = step(m, evs[0]);
        lemma_fifo_delivery(m1, evs.drop_first());
        assert(delivered_by(a) + m1.buf =~= m.buf + fetched_by(evs[0]));
        let (m2, rest) = run(m1, evs.drop_first());
        assert((seq![a] + rest).drop_first() =~= rest);
        assert(delivered(seq![a] + rest) == delivered_by(a) + delivered(rest));
        assert(delivered(rest) + m2.buf == m1.buf + fetched(evs.drop_first()));
        assert(fetched(evs) == fetched_by(evs[0]) + fetched(evs.drop_first()));
        assert(delivered_by(a) + delivered(rest) + m2.buf =~= delivered_by(a) + (delivered(rest) + m2.buf));
        assert(m.buf + fetched_by(evs[0]) + fetched(evs.drop_first()) =~= m.buf + (fetched_by(evs[0]) + fetched(evs.drop_first())));
        assert(delivered(seq![a] + rest) + m2.buf =~= m.buf + fetched(evs));
    } else {
        assert(delivered(Seq::<Action>::empty()) + m.buf =~= m.buf + fetched(evs));
    }
}

/// No balloon is handed out, and so acknowledged, twice: where the pending
/// and the fetched balloons carry distinct ids, so do the balloons handed out.
pub proof fn lemma_no_duplicate_delivery(m: LoopModel, evs: Seq<Event>)
    requires
        ids(m.buf + fetched(evs)).no_duplicates(),
    ensures
        ids(delivered(run(m, evs).1)).no_duplicates(),
{
    lemma_fifo_delivery(m, evs);
    let d = delivered(run(m, evs).1);
    let all = m.buf + fetched(evs);
    assert forall|i: int, j: int| 0 <= i < ids(d).len() && 0 <= j < ids(d).len() && i != j
        implies ids(d)[i] != ids(d)[j] by {
        assert(d[i] == all[i]);
        assert(d[j] == all[j]);
        assert(ids(all)[i] != ids(all)[j]);
    }
}

/// While paused, nothing but a resume (or fetched balloons arriving) changes
/// the loop: it stays paused with the same pending balloons, and only waits
/// for a command or stops.
pub proof fn lemma_paused_is_idle(m: LoopModel, ev: Event)
    requires
        m.state == LoopState::Paused,
        !(ev matches Event::Command(Command::Resume)),
        !(ev is Fetched),
    ensures
        step(m, ev).0 == m,
        step(m, ev).1 is WaitCommand || step(m, ev).1 is Stop,
{
}

/// Any number of pause and resume commands leave the pending balloons as
/// they were, and in the meantime nothing is fetched, waited out or handed
/// out.
pub proof fn lemma_commands_keep_buffer(m: LoopModel, evs: Seq<Event>)
    requires
        forall|i: int| 0 <= i < evs.len() ==> #[trigger] evs[i] is Command,
    ensures
        run(m, evs).0.buf == m.buf,
        forall|i: int| 0 <= i < run(m, evs).1.len() ==>
            (#[trigger] run(m, evs).1[i] is WaitCommand || run(m, evs).1[i] is PollCommand),
    decreases evs.len(),
{
    if evs.len() > 0 {
        let (m1, a) = step(m, evs[0]);
        assert(evs[0] is Command);
        assert forall|i: int| 0 <= i < evs.drop_first().len() implies #[trigger] evs.drop_first()[i] is Command by {
            assert(evs[i + 1] is Command);
        }
        lemma_commands_keep_buffer(m1, evs.drop_first());
        let (m2, rest) = run(m1, evs.drop_first());
        assert forall|i: int| 0 <= i < (seq![a] + rest).len() implies
            (#[trigger] (seq![a] + rest)[i] is WaitCommand || (seq![a] + rest)[i] is PollCommand) by {
            if i > 0 {
                assert((seq![a] + rest)[i] == rest[i - 1]);
            }
        }
    }
}

/// The server is asked for balloons only after a check found no command, on
/// a running loop with nothing pending; and a fetch that brings nothing to an
/// empty buffer is followed by the idle wait, not by another fetch.
pub proof fn lemma_fetch_only_when_idle(m: LoopModel, ev: Event)
    ensures
        step(m, ev).1 is Fetch ==> (ev is NoCommand && m.state == LoopState::Running && m.buf.len() == 0),
        (ev matches Event::Fetched(batch) && batch@.len() == 0 && m.state == LoopState::Running
            && m.buf.len() == 0) ==> step(m, ev).1 is IdleWait,
{
    if let Event::Fetched(batch) = ev {
        assert(batch@.len() == 0 && m.buf.len() == 0 ==> m.buf + batch@ =~= Seq::<Balloon>::empty());
    }
}

/// Once the command channel closes the loop stops, in whatever state it was,
/// without touching its state.
pub proof fn lemma_close_stops(m: LoopModel)
    ensures
        step(m, Event::Closed) == (m, Action::Stop),
{
}

} // verus!
