use std::collections::VecDeque;
use vstd::prelude::*;

use crate::time::Duration;

verus! {

/// A control signal sent to a scheduled task.
#[derive(Clone, Copy, Debug, PartialEq, Eq, Structural)]
pub enum Signal {
    /// Stop running the task at each tick; ticks go on.
    Stop,
    /// Run the task again at each tick.
    Start,
    /// Run the task at this interval from now on.
    ChangeDur(Duration),
}

/// The interval after `signal`, where it was `dur` before.
pub open spec fn signalled_dur(dur: Duration, signal: Signal) -> Duration {
    match signal {
        Signal::ChangeDur(new_dur) => new_dur,
        _ => dur,
    }
}

/// Whether the task runs after `signal`, where it was `running` before.
pub open spec fn signalled_running(running: bool, signal: Signal) -> bool {
    match signal {
        Signal::Stop => false,
        Signal::Start => true,
        Signal::ChangeDur(_) => running,
    }
}

/// What taking the front message of `queue` gives, and the queue left behind.
pub open spec fn take_front<M>(queue: Seq<M>) -> (Option<M>, Seq<M>) {
    if queue.len() == 0 {
        (None, queue)
    } else {
        (Some(queue[0]), queue.drop_first())
    }
}

/// What taking the back message of `queue` gives, and the queue left behind.
pub open spec fn take_back<M>(queue: Seq<M>) -> (Option<M>, Seq<M>) {
    if queue.len() == 0 {
        (None, queue)
    } else {
        (Some(queue.last()), queue.drop_last())
    }
}

/// The state of a scheduled task: its queue of messages, the interval at which
/// it runs, and whether it runs at each tick.
pub struct Context<M> {
    msg: VecDeque<M>,
    dur: Duration,
    running: bool,
}

impl<M> Context<M> {
    /// The messages waiting for the task, front first.
    pub closed spec fn queue(&self) -> Seq<M> {
        self.msg@
    }

    /// The interval at which the task runs.
    pub closed spec fn interval(&self) -> Duration {
        self.dur
    }

    /// Whether the task runs at each tick.
    pub closed spec fn active(&self) -> bool {
        self.running
    }

    /// A context with no message, an empty interval, that runs the task.
    pub fn new() -> (ctx: Context<M>)
        ensures
            ctx.queue() == Seq::<M>::empty(),
            ctx.interval()@ == 0,
            ctx.active(),
    {
        Context { msg: VecDeque::new(), dur: Duration::default(), running: true }
    }

    /// Applies a control signal: `Stop` and `Start` set whether the task runs,
    /// `ChangeDur` sets the interval.
    pub fn signal(&mut self, signal: Signal) -> (ctx: &mut Self)
        ensures
            ctx.queue() == old(self).queue(),
            ctx.interval() == signalled_dur(old(self).interval(), signal),
            ctx.active() == signalled_running(old(self).active(), signal),
            *final(self) == *final(ctx),
    {
        match signal {
            Signal::Stop => self.running = false,
            Signal::Start => self.running = true,
            Signal::ChangeDur(dur) => self.dur = dur,
        }
        self
    }

    /// Takes the message at the front of the queue, if there is one.
    pub fn get_msg_front(&mut self) -> (msg: Option<M>)
        ensures
            (msg, final(self).queue()) == take_front(old(self).queue()),
            final(self).interval() == old(self).interval(),
            final(self).active() == old(self).active(),
    {
        self.msg.pop_front()
    }

    /// Takes the message at the back of the queue, if there is one.
    pub fn get_msg_back(&mut self) -> (msg: Option<M>)
        ensures
            (msg, final(self).queue()) == take_back(old(self).queue()),
            final(self).interval() == old(self).interval(),
            final(self).active() == old(self).active(),
    {
        self.msg.pop_back()
    }

    /// Puts a message at the back of the queue.
    pub fn push_msg_back(&mut self, msg: M)
        ensures
            final(self).queue() == old(self).queue().push(msg),
            final(self).interval() == old(self).interval(),
            final(self).active() == old(self).active(),
    {
        self.msg.push_back(msg)
    }

    /// Puts a message at the front of the queue.
    pub fn push_msg_front(&mut self, msg: M)
        ensures
            final(self).queue() == seq![msg] + old(self).queue(),
            final(self).interval() == old(self).interval(),
            final(self).active() == old(self).active(),
    {
        self.msg.push_front(msg)
    }

    /// Decides, once the task has waited for a signal after a run at interval
    /// `dur`, whether to restart its ticks. `received` is the signal that came
    /// within the wait, or `None` where none came. A received signal is applied;
    /// the ticks restart exactly when it leaves the interval other than `dur`.
    pub fn should_restart(&mut self, dur: Duration, received: Option<Signal>) -> (restart: bool)
        ensures
            final(self).queue() == old(self).queue(),
            match received {
                Some(signal) => {
                    &&& final(self).interval() == signalled_dur(old(self).interval(), signal)
                    &&& final(self).active() == signalled_running(old(self).active(), signal)
                    &&& restart == (final(self).interval() != dur)
                },
                None => {
                    &&& final(self).interval() == old(self).interval()
                    &&& final(self).active() == old(self).active()
                    &&& !restart
                },
            },
    {
        if let Some(signal) = received {
            if self.signal(signal).dur != dur {
                return true;
            }
        }
        false
    }

    /// Hands the queue itself to `f` and returns what `f` returns.
    pub fn get_queue_mut<F, R>(&mut self, f: F) -> (r: R)
        where F: FnOnce(&mut VecDeque<M>) -> R
        requires
            forall|q: &mut VecDeque<M>| (*q)@ == old(self).queue() ==> f.requires((q,)),
        ensures
            exists|q: &mut VecDeque<M>|
                {
                    &&& (*q)@ == old(self).queue()
                    &&& (*final(q))@ == final(self).queue()
                    &&& f.ensures((q,), r)
                },
            final(self).interval() == old(self).interval(),
            final(self).active() == old(self).active(),
    {
        let queue = &mut self.msg;
        assert((*queue)@ == old(self).queue());
        let r = f(queue);
        assert(exists|q: &mut VecDeque<M>| f.ensures((q,), r));
        r
    }

    /// The interval at which the task runs.
    pub fn dur(&self) -> (dur: Duration)
        ensures
            dur == self.interval(),
    {
        self.dur
    }

    /// Whether the task runs at each tick.
    pub fn running(&self) -> (running: bool)
        ensures
            running == self.active(),
    {
        self.running
    }
}

/// Messages leave the front in the order in which they were pushed at the back:
/// pushing at the back, then taking the front, takes what taking the front took
/// before, and the pushed message stays last.
pub proof fn law_queue_first_in_first_out<M>(queue: Seq<M>, msg: M)
    ensures
        take_front(queue.push(msg)) == (if queue.len() == 0 {
            (Some(msg), Seq::<M>::empty())
        } else {
            (take_front(queue).0, take_front(queue).1.push(msg))
        }),
{
    if queue.len() != 0 {
        assert(queue.push(msg).drop_first() =~= queue.drop_first().push(msg));
    } else {
        assert(queue.push(msg).drop_first() =~= Seq::<M>::empty());
    }
}

/// Taking the front message undoes pushing one at the front.
pub proof fn law_take_front_undoes_push_front<M>(queue: Seq<M>, msg: M)
    ensures
        take_front(seq![msg] + queue) == (Some(msg), queue),
{
    assert((seq![msg] + queue).drop_first() =~= queue);
}

/// Taking the back message undoes pushing one at the back.
pub proof fn law_take_back_undoes_push_back<M>(queue: Seq<M>, msg: M)
    ensures
        take_back(queue.push(msg)) == (Some(msg), queue),
{
    assert(queue.push(msg).drop_last() =~= queue);
}

/// Applying a signal twice has the effect of applying it once.
pub proof fn law_signal_idempotent(dur: Duration, running: bool, signal: Signal)
    ensures
        signalled_dur(signalled_dur(dur, signal), signal) == signalled_dur(dur, signal),
        signalled_running(signalled_running(running, signal), signal) == signalled_running(
            running,
            signal,
        ),
{
}

/// What each signal does, whatever the state before: `Stop` makes the task not
/// run and `Start` makes it run, both keeping the interval; `ChangeDur(d)` sets
/// the interval to `d` and keeps whether the task runs.
pub proof fn law_signal_effects(dur: Duration, running: bool, new_dur: Duration)
    ensures
        signalled_running(running, Signal::Stop) == false,
        signalled_dur(dur, Signal::Stop) == dur,
        signalled_running(running, Signal::Start) == true,
        signalled_dur(dur, Signal::Start) == dur,
        signalled_running(running, Signal::ChangeDur(new_dur)) == running,
        signalled_dur(dur, Signal::ChangeDur(new_dur)) == new_dur,
{
}

/// A `ChangeDur(d)` signal received after a run at interval `dur` restarts the
/// ticks exactly when `d` differs from `dur`, whatever the interval was before.
pub proof fn law_change_dur_restarts_on_new_interval(old_dur: Duration, dur: Duration, new_dur: Duration)
    ensures
        (signalled_dur(old_dur, Signal::ChangeDur(new_dur)) != dur) == (new_dur != dur),
{
}

/// `Start` after `Stop` makes the task run again, at the interval it had.
pub proof fn law_start_undoes_stop(dur: Duration, running: bool)
    ensures
        signalled_running(signalled_running(running, Signal::Stop), Signal::Start),
        signalled_dur(signalled_dur(dur, Signal::Stop), Signal::Start) == dur,
{
}

/// Only a `ChangeDur` signal changes the interval, so only such a signal restarts
/// the ticks.
pub proof fn law_only_change_dur_changes_interval(dur: Duration, signal: Signal)
    ensures
        signalled_dur(dur, signal) != dur ==> signal is ChangeDur,
{
}

} // verus!
