//! What holds of every session, proved from the transitions of `Session`.

use vstd::prelude::*;
use crate::msg::{ClockCommand, Msg};
use crate::session::Session;

verus! {

/// No intent of `msgs` is `Restart`.
pub open spec fn no_restart(msgs: Seq<Msg>) -> bool {
    forall|i: int| 0 <= i < msgs.len() ==> msgs[i] != Msg::Restart
}

/// No intent of `msgs` takes the session back from a later step to the first: a
/// `Restart` comes only while the first step is the current one.
pub open spec fn no_step_undone(session: Session, msgs: Seq<Msg>) -> bool {
    forall|k: int|
        0 <= k < msgs.len() && #[trigger] msgs[k] == Msg::Restart ==> session.deliver_all(
            msgs.take(k),
        ).current_step == 0
}

/// Every intent of `msgs` is `Tick`.
pub open spec fn only_ticks(msgs: Seq<Msg>) -> bool {
    forall|i: int| 0 <= i < msgs.len() ==> msgs[i] == Msg::Tick
}

/// The number of clocks that a session accounts for: one if it says that a clock
/// is running, none otherwise.
pub open spec fn clocks_of(session: Session) -> int {
    if session.clock_running {
        1
    } else {
        0
    }
}

/// The number of clocks that run once `commands` were carried out in order, where
/// `before` ran at first.
pub open spec fn clocks_after(before: int, commands: Seq<ClockCommand>) -> int
    decreases commands.len(),
{
    if commands.len() == 0 {
        before
    } else {
        let so_far = clocks_after(before, commands.drop_last());
        match commands.last() {
            ClockCommand::Keep => so_far,
            ClockCommand::Start => so_far + 1,
            ClockCommand::Cancel => so_far - 1,
        }
    }
}

/// Handling the first `n + 1` intents is handling the first `n` and then the next.
pub proof fn lemma_deliver_one_more(session: Session, msgs: Seq<Msg>, n: int)
    requires
        0 <= n < msgs.len(),
    ensures
        session.deliver_all(msgs.take(n + 1)) == session.deliver_all(msgs.take(n)).deliver(msgs[n]),
        session.commands(msgs.take(n + 1)) == session.commands(msgs.take(n)).push(
            session.deliver_all(msgs.take(n)).command(msgs[n]),
        ),
{
    assert(msgs.take(n + 1).drop_last() =~= msgs.take(n));
    assert(msgs.take(n + 1).last() == msgs[n]);
}

/// Every intent leaves the steps as they are and the current step among them.
pub proof fn lemma_deliver_keeps_well_formed(session: Session, msg: Msg)
    requires
        session.well_formed(),
    ensures
        session.deliver(msg).well_formed(),
        session.deliver(msg).steps == session.steps,
{
}

/// Every sequence of intents leaves the steps as they are and the current step
/// among them.
pub proof fn lemma_deliver_all_keeps_well_formed(session: Session, msgs: Seq<Msg>)
    requires
        session.well_formed(),
    ensures
        session.deliver_all(msgs).well_formed(),
        session.deliver_all(msgs).steps == session.steps,
    decreases msgs.len(),
{
    if msgs.len() > 0 {
        lemma_deliver_all_keeps_well_formed(session, msgs.drop_last());
        lemma_deliver_keeps_well_formed(session.deliver_all(msgs.drop_last()), msgs.last());
    }
}

/// No intent takes the session to an earlier step, but a `Restart` that comes after
/// the first step.
pub proof fn lemma_step_never_goes_back(session: Session, msg: Msg)
    requires
        session.well_formed(),
        msg == Msg::Restart ==> session.current_step == 0,
    ensures
        session.current_step <= session.deliver(msg).current_step,
{
}

/// Along any sequence of intents the index of the current step never decreases,
/// as long as no `Restart` takes the session back from a later step: after the first
/// `j` intents the index is at least what it was after the first `i`, for `i <= j`,
/// and it is never past the last step.
pub proof fn lemma_step_index_is_monotonic(session: Session, msgs: Seq<Msg>, i: int, j: int)
    requires
        session.well_formed(),
        no_step_undone(session, msgs),
        0 <= i <= j <= msgs.len(),
    ensures
        session.deliver_all(msgs.take(i)).current_step <= session.deliver_all(
            msgs.take(j),
        ).current_step,
        session.deliver_all(msgs.take(j)).current_step <= session.last_index(),
    decreases j - i,
{
    lemma_deliver_all_keeps_well_formed(session, msgs.take(j));
    if i < j {
        lemma_step_index_is_monotonic(session, msgs, i, j - 1);
        lemma_deliver_one_more(session, msgs, j - 1);
        lemma_deliver_all_keeps_well_formed(session, msgs.take(j - 1));
        lemma_step_never_goes_back(session.deliver_all(msgs.take(j - 1)), msgs[j - 1]);
    }
}

/// From the first to the last of any sequence of intents the index of the current
/// step does not decrease, as long as no `Restart` takes the session back from a
/// later step.
pub proof fn lemma_step_index_never_decreases(session: Session, msgs: Seq<Msg>)
    requires
        session.well_formed(),
        no_step_undone(session, msgs),
    ensures
        session.current_step <= session.deliver_all(msgs).current_step <= session.last_index(),
{
    lemma_step_index_is_monotonic(session, msgs, 0, msgs.len() as int);
    assert(msgs.take(msgs.len() as int) =~= msgs);
    assert(msgs.take(0).len() == 0);
}

/// A snapshot says that the session is finished exactly when the current step is
/// the last one.
pub proof fn lemma_finished_exactly_on_last_step(session: Session)
    requires
        session.well_formed(),
    ensures
        session.snapshot().is_finished <==> session.current_step == session.steps.len() - 1,
{
}

/// A tick on the last step leaves the session on the last step. It also leaves no
/// clock running, and the count at the one second that it counted.
pub proof fn lemma_tick_keeps_last_step(session: Session)
    requires
        session.well_formed(),
        session.is_finished(),
    ensures
        session.tick().current_step == session.current_step,
        session.tick().is_finished(),
        !session.tick().clock_running,
        session.tick().count == 1,
{
}

/// Once the last step is reached, no number of ticks changes the current step.
pub proof fn lemma_ticks_keep_last_step(session: Session, msgs: Seq<Msg>)
    requires
        session.well_formed(),
        session.is_finished(),
        only_ticks(msgs),
    ensures
        session.deliver_all(msgs).current_step == session.current_step,
        session.deliver_all(msgs).is_finished(),
    decreases msgs.len(),
{
    if msgs.len() > 0 {
        lemma_ticks_keep_last_step(session, msgs.drop_last());
        lemma_deliver_all_keeps_well_formed(session, msgs.drop_last());
        lemma_tick_keeps_last_step(session.deliver_all(msgs.drop_last()));
        assert(msgs.last() == Msg::Tick);
    }
}

/// Once the count has passed the threshold of the following step, ticks alone never
/// reach that step: they count on and leave the current step as it is.
pub proof fn lemma_clock_never_catches_up(session: Session, msgs: Seq<Msg>)
    requires
        session.well_formed(),
        session.next_step() matches Some(next) && next.display_at_count < session.count,
        only_ticks(msgs),
    ensures
        session.deliver_all(msgs).current_step == session.current_step,
        session.deliver_all(msgs).count == session.count + msgs.len(),
    decreases msgs.len(),
{
    if msgs.len() > 0 {
        lemma_clock_never_catches_up(session, msgs.drop_last());
        lemma_deliver_all_keeps_well_formed(session, msgs.drop_last());
        assert(msgs.last() == Msg::Tick);
    }
}

/// Once the last step is reached, the session stays there whatever intents follow,
/// until a `Restart`.
pub proof fn lemma_finished_until_restart(session: Session, msgs: Seq<Msg>)
    requires
        session.well_formed(),
        session.is_finished(),
        no_restart(msgs),
    ensures
        session.deliver_all(msgs).is_finished(),
{
    assert(no_step_undone(session, msgs));
    lemma_step_index_never_decreases(session, msgs);
    lemma_deliver_all_keeps_well_formed(session, msgs);
}

/// Whatever the session was, `Restart` makes it the fresh session over the same
/// steps, so the snapshot after it is the snapshot of a session just created.
pub proof fn lemma_restart_gives_fresh_snapshot(session: Session)
    ensures
        session.deliver(Msg::Restart) == Session::fresh(session.steps),
        session.deliver(Msg::Restart).snapshot() == Session::fresh(session.steps).snapshot(),
{
}

/// `StartTimer` twice in a row is `StartTimer` once: the second changes nothing and
/// asks for no clock, and exactly one clock runs afterwards, whether or not one ran
/// before.
pub proof fn lemma_start_timer_twice(session: Session)
    ensures
        session.start_timer().start_timer() == session.start_timer(),
        session.start_timer().command(Msg::StartTimer) == ClockCommand::Keep,
        session.deliver_all(seq![Msg::StartTimer, Msg::StartTimer]) == session.start_timer(),
        clocks_after(
            clocks_of(session),
            session.commands(seq![Msg::StartTimer, Msg::StartTimer]),
        ) == 1,
{
    let twice = seq![Msg::StartTimer, Msg::StartTimer];
    let once = seq![Msg::StartTimer];
    assert(twice.drop_last() =~= once);
    assert(once.drop_last() =~= Seq::<Msg>::empty());
    assert(session.deliver_all(once.drop_last()) == session);
    assert(session.deliver_all(once) == session.start_timer());
    assert(session.deliver_all(twice) == session.start_timer());
    lemma_one_clock_at_most(session, twice);
}

/// The commands of a session keep the clocks in step with it: carried out in order,
/// they leave one clock running where the session says that one is running and none
/// where it says that none is. So a session never has two clocks.
pub proof fn lemma_one_clock_at_most(session: Session, msgs: Seq<Msg>)
    ensures
        clocks_after(clocks_of(session), session.commands(msgs)) == clocks_of(
            session.deliver_all(msgs),
        ),
        0 <= clocks_of(session.deliver_all(msgs)) <= 1,
    decreases msgs.len(),
{
    if msgs.len() > 0 {
        lemma_one_clock_at_most(session, msgs.drop_last());
        let commands = session.commands(msgs);
        assert(commands.drop_last() =~= session.commands(msgs.drop_last()));
    }
}

/// Where an intent has the clock cancelled, the count starts anew: it is zero
/// afterwards, or one where the intent was a tick, which counts itself.
pub proof fn lemma_cancel_zeroes_count(session: Session, msg: Msg)
    requires
        session.command(msg) == ClockCommand::Cancel,
    ensures
        session.deliver(msg).count == (if msg == Msg::Tick {
            1nat
        } else {
            0nat
        }),
{
}

/// After a tick no clock runs on the last step.
pub proof fn lemma_tick_leaves_no_clock_on_last_step(session: Session)
    requires
        session.well_formed(),
    ensures
        session.tick().is_finished() ==> !session.tick().clock_running,
{
}

/// `msg` comes as the user interface and the clock let it come: a tick from a
/// running clock, any other intent from a button on the screen.
pub open spec fn arrives_in_order(session: Session, msg: Msg) -> bool {
    if msg == Msg::Tick {
        session.clock_running
    } else {
        session.snapshot().screen().offers(msg)
    }
}

/// Each intent of `msgs` comes in order to the session that the intents before it
/// have made.
pub open spec fn all_arrive_in_order(session: Session, msgs: Seq<Msg>) -> bool {
    forall|k: int|
        0 <= k < msgs.len() ==> arrives_in_order(
            session.deliver_all(msgs.take(k)),
            #[trigger] msgs[k],
        )
}

/// An intent that comes in order starts no clock before the session has begun, and
/// leaves none running when it takes the session back to its beginning.
pub proof fn lemma_clock_waits_for_begin(session: Session, msg: Msg)
    requires
        session.clock_running ==> session.has_started,
        arrives_in_order(session, msg),
    ensures
        session.deliver(msg).clock_running ==> session.deliver(msg).has_started,
{
}

/// As long as the intents come in order, a clock runs only in a session that has
/// begun.
pub proof fn lemma_clock_runs_only_once_begun(session: Session, msgs: Seq<Msg>)
    requires
        session.clock_running ==> session.has_started,
        all_arrive_in_order(session, msgs),
    ensures
        session.deliver_all(msgs).clock_running ==> session.deliver_all(msgs).has_started,
    decreases msgs.len(),
{
    if msgs.len() > 0 {
        let before = msgs.drop_last();
        let n: int = before.len() as int;
        assert forall|k: int| 0 <= k < before.len() implies arrives_in_order(
            session.deliver_all(before.take(k)),
            #[trigger] before[k],
        ) by {
            assert(before.take(k) =~= msgs.take(k));
            assert(before[k] == msgs[k]);
        }
        lemma_clock_runs_only_once_begun(session, before);
        assert(msgs.take(n) =~= before);
        assert(arrives_in_order(session.deliver_all(msgs.take(n)), msgs[n]));
        lemma_clock_waits_for_begin(session.deliver_all(before), msgs.last());
    }
}

/// Beginning a session that has begun changes nothing.
pub proof fn lemma_begin_twice(session: Session)
    ensures
        session.begin().begin() == session.begin(),
{
}

} // verus!
