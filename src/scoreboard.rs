//! Score events and the running totals they add up to.
use vstd::prelude::*;

verus! {

/// Which side a point went to.
#[derive(Clone, Copy, Debug, PartialEq, Eq, Structural)]
pub enum ScoreEvent {
    /// The ball crossed the right goal line: the left player scores.
    LeftScored,
    /// The ball crossed the left goal line: the right player scores.
    RightScored,
}

/// Number of events in `events` equal to `e`.
pub open spec fn count_of(events: Seq<ScoreEvent>, e: ScoreEvent) -> nat
    decreases events.len(),
{
    if events.len() == 0 {
        0
    } else {
        count_of(events.drop_last(), e) + if events.last() == e { 1nat } else { 0nat }
    }
}

/// Points of each player.
#[derive(Clone, Copy, Debug, PartialEq, Eq, Structural)]
pub struct ScoreBoard {
    pub left: u32,
    pub right: u32,
}

impl ScoreBoard {
    /// A board with no points yet.
    pub fn new() -> (r: ScoreBoard)
        ensures
            r.left == 0 && r.right == 0,
    {
        ScoreBoard { left: 0, right: 0 }
    }
}

impl Default for ScoreBoard {
    fn default() -> (r: ScoreBoard)
        ensures
            r.left == 0 && r.right == 0,
    {
        ScoreBoard::new()
    }
}

/// Adds one point to the matching side for each event, in order.
pub fn update_scoreboard(scoreboard: &mut ScoreBoard, events: &Vec<ScoreEvent>)
    requires
        old(scoreboard).left + count_of(events@, ScoreEvent::LeftScored) <= u32::MAX,
        old(scoreboard).right + count_of(events@, ScoreEvent::RightScored) <= u32::MAX,
    ensures
        final(scoreboard).left == old(scoreboard).left + count_of(events@, ScoreEvent::LeftScored),
        final(scoreboard).right == old(scoreboard).right + count_of(events@, ScoreEvent::RightScored),
        events@.len() == 0 ==> *final(scoreboard) == *old(scoreboard),
{
    let mut i: usize = 0;
    while i < events.len()
        invariant
            0 <= i <= events@.len(),
            scoreboard.left == old(scoreboard).left + count_of(events@.take(i as int), ScoreEvent::LeftScored),
            scoreboard.right == old(scoreboard).right + count_of(events@.take(i as int), ScoreEvent::RightScored),
            old(scoreboard).left + count_of(events@, ScoreEvent::LeftScored) <= u32::MAX,
            old(scoreboard).right + count_of(events@, ScoreEvent::RightScored) <= u32::MAX,
        decreases events@.len() - i,
    {
        proof {
            lemma_count_prefix(events@, i as int + 1, ScoreEvent::LeftScored);
            lemma_count_prefix(events@, i as int + 1, ScoreEvent::RightScored);
            assert(events@.take(i as int + 1).drop_last() =~= events@.take(i as int));
        }
        match events[i] {
            ScoreEvent::LeftScored => {
                scoreboard.left = scoreboard.left + 1;
            },
            ScoreEvent::RightScored => {
                scoreboard.right = scoreboard.right + 1;
            },
        }
        i = i + 1;
    }
    proof {
        assert(events@.take(events@.len() as int) =~= events@);
    }
}

/// A prefix holds no more events of a kind than the whole sequence.
proof fn lemma_count_prefix(events: Seq<ScoreEvent>, n: int, e: ScoreEvent)
    requires
        0 <= n <= events.len(),
    ensures
        count_of(events.take(n), e) <= count_of(events, e),
    decreases events.len(),
{
    if n < events.len() {
        assert(events.drop_last().take(n) =~= events.take(n));
        lemma_count_prefix(events.drop_last(), n, e);
    } else {
        assert(events.take(n) =~= events);
    }
}

} // verus!
