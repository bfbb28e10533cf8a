//! The decisions of the monitor loop: one tick broadcasts typing, probes the
//! target and, when the target is down, posts an alert. The loop that waits
//! on the timer and performs each action hands every result back here.
use vstd::prelude::*;

use crate::check::ProbeResult;

verus! {

/// Where the current tick stands.
#[derive(Clone, Copy, Debug, PartialEq, Eq, Structural)]
pub enum Stage {
    /// Between ticks, waiting for the timer.
    Idle,
    /// The typing indicator was asked for.
    AwaitTyping,
    /// The probe was started.
    AwaitProbe,
    /// An alert post was sent.
    AwaitPost,
}

/// What happened since the last action.
#[derive(Clone, Copy, Debug, PartialEq, Eq, Structural)]
pub enum Event {
    /// The interval timer fired.
    TimerFired,
    /// The typing indicator was sent (`true`) or failed (`false`).
    TypingDone(bool),
    /// The probe finished.
    ProbeDone(ProbeResult),
    /// The alert post succeeded (`true`) or failed (`false`).
    PostDone(bool),
}

/// Why a tick was cut short or ended with an error.
#[derive(Clone, Copy, Debug, PartialEq, Eq, Structural)]
pub enum TickError {
    /// The typing indicator could not be sent: the tick is abandoned.
    TypingFailed,
    /// The alert could not be posted.
    PostFailed,
}

/// What the loop is to do next.
#[derive(Clone, Copy, Debug, PartialEq, Eq, Structural)]
pub enum Action {
    /// Send the typing indicator to the channel.
    BroadcastTyping,
    /// Probe the target.
    Probe,
    /// Post the alert text to the channel.
    PostAlert,
    /// Wait for the next timer tick.
    Sleep,
    /// Log the error, then wait for the next timer tick.
    LogAndSleep(TickError),
}

/// One decision: the next stage and the action to perform. An event that does
/// not belong to the current stage changes nothing.
pub open spec fn step_spec(stage: Stage, event: Event) -> (Stage, Action) {
    match (stage, event) {
        (Stage::Idle, Event::TimerFired) => (Stage::AwaitTyping, Action::BroadcastTyping),
        (Stage::AwaitTyping, Event::TypingDone(ok)) => if ok {
            (Stage::AwaitProbe, Action::Probe)
        } else {
            (Stage::Idle, Action::LogAndSleep(TickError::TypingFailed))
        },
        (Stage::AwaitProbe, Event::ProbeDone(res)) => match res {
            ProbeResult::Up => (Stage::Idle, Action::Sleep),
            ProbeResult::Down => (Stage::AwaitPost, Action::PostAlert),
        },
        (Stage::AwaitPost, Event::PostDone(ok)) => if ok {
            (Stage::Idle, Action::Sleep)
        } else {
            (Stage::Idle, Action::LogAndSleep(TickError::PostFailed))
        },
        _ => (stage, Action::Sleep),
    }
}

/// The stage reached and the actions taken over a run of events.
pub open spec fn run_spec(stage: Stage, events: Seq<Event>) -> (Stage, Seq<Action>)
    decreases events.len(),
{
    if events.len() == 0 {
        (stage, Seq::empty())
    } else {
        let (next, action) = step_spec(stage, events[0]);
        let (last, rest) = run_spec(next, events.drop_first());
        (last, seq![action] + rest)
    }
}

/// How many times `a` occurs in `actions`.
pub open spec fn count_action(actions: Seq<Action>, a: Action) -> nat
    decreases actions.len(),
{
    if actions.len() == 0 {
        0
    } else {
        (if actions[0] == a { 1nat } else { 0nat }) + count_action(actions.drop_first(), a)
    }
}

/// The events of one tick in which the target is down: typing succeeds, the
/// probe says `Down`, and the alert post succeeds or fails as `posted` says.
pub open spec fn down_tick(posted: bool) -> Seq<Event> {
    seq![Event::TimerFired, Event::TypingDone(true), Event::ProbeDone(ProbeResult::Down), Event::PostDone(posted)]
}

/// Consecutive down ticks, one per entry of `posts`.
pub open spec fn down_ticks(posts: Seq<bool>) -> Seq<Event>
    decreases posts.len(),
{
    if posts.len() == 0 {
        Seq::empty()
    } else {
        down_tick(posts[0]) + down_ticks(posts.drop_first())
    }
}

/// The alert text for a host: `[<host>] The website looks down...`.
pub open spec fn alert_message(host: Seq<char>) -> Seq<char> {
    seq!['['] + host + "] The website looks down..."@
}

/// The monitor loop's state: the host identity it reports, fixed at start,
/// and where the current tick stands.
pub struct MonitorLoop {
    hostname: String,
    stage: Stage,
}

impl MonitorLoop {
    /// The host identity in this loop's alerts.
    pub closed spec fn host(&self) -> Seq<char> {
        self.hostname@
    }

    /// Where the current tick stands.
    pub closed spec fn stage_spec(&self) -> Stage {
        self.stage
    }

    /// A loop waiting for its first tick, reporting `hostname` in alerts.
    pub fn new(hostname: String) -> (r: Self)
        ensures
            r.host() == hostname@,
            r.stage_spec() == Stage::Idle,
    {
        MonitorLoop { hostname, stage: Stage::Idle }
    }

    /// Where the current tick stands.
    pub fn stage(&self) -> (r: Stage)
        ensures
            r == self.stage_spec(),
    {
        self.stage
    }

    /// Takes in one event and says what to do next.
    pub fn step(&mut self, event: Event) -> (a: Action)
        ensures
            (final(self).stage_spec(), a) == step_spec(old(self).stage_spec(), event),
            final(self).host() == old(self).host(),
    {
        let (next, action) = match (self.stage, event) {
            (Stage::Idle, Event::TimerFired) => (Stage::AwaitTyping, Action::BroadcastTyping),
            (Stage::AwaitTyping, Event::TypingDone(ok)) => {
                if ok {
                    (Stage::AwaitProbe, Action::Probe)
                } else {
                    (Stage::Idle, Action::LogAndSleep(TickError::TypingFailed))
                }
            },
            (Stage::AwaitProbe, Event::ProbeDone(res)) => match res {
                ProbeResult::Up => (Stage::Idle, Action::Sleep),
                ProbeResult::Down => (Stage::AwaitPost, Action::PostAlert),
            },
            (Stage::AwaitPost, Event::PostDone(ok)) => {
                if ok {
                    (Stage::Idle, Action::Sleep)
                } else {
                    (Stage::Idle, Action::LogAndSleep(TickError::PostFailed))
                }
            },
            _ => (self.stage, Action::Sleep),
        };
        self.stage = next;
        action
    }

    /// The text of the alert this loop posts.
    pub fn alert_text(&self) -> (r: String)
        ensures
            r@ == alert_message(self.host()),
    {
        let r = String::from_str("[");
        let r = r.concat(self.hostname.as_str());
        let r = r.concat("] The website looks down...");
        proof {
            reveal_strlit("[");
            reveal_strlit("] The website looks down...");
            assert(r@ =~= alert_message(self.host()));
        }
        r
    }
}

/// Running two runs of events one after the other is running their
/// concatenation.
pub proof fn lemma_run_append(stage: Stage, a: Seq<Event>, b: Seq<Event>)
    ensures
        run_spec(stage, a + b).0 == run_spec(run_spec(stage, a).0, b).0,
        run_spec(stage, a + b).1 == run_spec(stage, a).1 + run_spec(run_spec(stage, a).0, b).1,
    decreases a.len(),
{
    if a.len() == 0 {
        assert(a + b =~= b);
        assert(run_spec(stage, a).1 + run_spec(stage, b).1 =~= run_spec(stage, b).1);
    } else {
        let (next, action) = step_spec(stage, a[0]);
        assert((a + b).drop_first() =~= a.drop_first() + b);
        lemma_run_append(next, a.drop_first(), b);
        let r1 = run_spec(next, a.drop_first());
        assert(seq![action] + (r1.1 + run_spec(r1.0, b).1) =~= (seq![action] + r1.1) + run_spec(r1.0, b).1);
    }
}

/// Counting over a concatenation adds the counts.
pub proof fn lemma_count_append(x: Seq<Action>, y: Seq<Action>, a: Action)
    ensures
        count_action(x + y, a) == count_action(x, a) + count_action(y, a),
    decreases x.len(),
{
    if x.len() == 0 {
        assert(x + y =~= y);
    } else {
        assert((x + y).drop_first() =~= x.drop_first() + y);
        lemma_count_append(x.drop_first(), y, a);
    }
}

/// The actions of one down tick, from between ticks back to between ticks.
proof fn lemma_down_tick(posted: bool)
    ensures
        run_spec(Stage::Idle, down_tick(posted)) == (Stage::Idle, seq![
            Action::BroadcastTyping,
            Action::Probe,
            Action::PostAlert,
            if posted { Action::Sleep } else { Action::LogAndSleep(TickError::PostFailed) },
        ]),
{
    let e = down_tick(posted);
    reveal_with_fuel(run_spec, 5);
    assert(e.drop_first().drop_first().drop_first().drop_first() =~= Seq::<Event>::empty());
    let r = run_spec(Stage::Idle, e);
    assert(r.1 =~= seq![
        Action::BroadcastTyping,
        Action::Probe,
        Action::PostAlert,
        if posted { Action::Sleep } else { Action::LogAndSleep(TickError::PostFailed) },
    ]);
}

/// Alerts are never suppressed: over any number of consecutive ticks in which
/// the target is down, whether or not each post succeeds, exactly one alert
/// is posted per tick, and the loop ends between ticks.
pub proof fn lemma_down_ticks_alert_each(posts: Seq<bool>)
    ensures
        run_spec(Stage::Idle, down_ticks(posts)).0 == Stage::Idle,
        count_action(run_spec(Stage::Idle, down_ticks(posts)).1, Action::PostAlert) == posts.len(),
    decreases posts.len(),
{
    if posts.len() == 0 {
        assert(down_ticks(posts) =~= Seq::<Event>::empty());
    } else {
        let rest = posts.drop_first();
        lemma_down_ticks_alert_each(rest);
        lemma_down_tick(posts[0]);
        lemma_run_append(Stage::Idle, down_tick(posts[0]), down_ticks(rest));
        let first = run_spec(Stage::Idle, down_tick(posts[0])).1;
        reveal_with_fuel(count_action, 5);
        assert(first.drop_first().drop_first().drop_first().drop_first() =~= Seq::<Action>::empty());
        assert(count_action(first, Action::PostAlert) == 1);
        lemma_count_append(first, run_spec(Stage::Idle, down_ticks(rest)).1, Action::PostAlert);
    }
}

/// Each alert names the host: the host identity stands right after the
/// opening bracket of the alert text.
pub proof fn lemma_alert_names_host(host: Seq<char>)
    ensures
        alert_message(host).subrange(1, host.len() + 1int) == host,
{
    assert(alert_message(host).subrange(1, host.len() + 1int) =~= host);
}

/// A failed typing indicator ends the tick at once, with neither a probe nor
/// an alert, and the loop then goes on from the next timer tick exactly as if
/// the failed tick had not happened.
pub proof fn lemma_typing_failure_skips_tick(rest: Seq<Event>)
    ensures
        run_spec(Stage::Idle, seq![Event::TimerFired, Event::TypingDone(false)] + rest) == (
            run_spec(Stage::Idle, rest).0,
            seq![Action::BroadcastTyping, Action::LogAndSleep(TickError::TypingFailed)]
                + run_spec(Stage::Idle, rest).1,
        ),
{
    let e = seq![Event::TimerFired, Event::TypingDone(false)];
    lemma_run_append(Stage::Idle, e, rest);
    reveal_with_fuel(run_spec, 3);
    assert(e.drop_first().drop_first() =~= Seq::<Event>::empty());
    assert(run_spec(Stage::Idle, e).1 =~= seq![Action::BroadcastTyping, Action::LogAndSleep(TickError::TypingFailed)]);
}

/// A failed alert post is reported, and the loop then goes on from the next
/// timer tick exactly as after a successful one.
pub proof fn lemma_post_failure_continues(rest: Seq<Event>)
    ensures
        run_spec(Stage::Idle, down_tick(false) + rest) == (
            run_spec(Stage::Idle, rest).0,
            seq![
                Action::BroadcastTyping,
                Action::Probe,
                Action::PostAlert,
                Action::LogAndSleep(TickError::PostFailed),
            ] + run_spec(Stage::Idle, rest).1,
        ),
{
    lemma_down_tick(false);
    lemma_run_append(Stage::Idle, down_tick(false), rest);
}

} // verus!
