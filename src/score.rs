use vstd::prelude::*;

use crate::component::Scoring;
use crate::game::{Error, GameState};
use crate::registry::store_has;
use crate::types::TimerEvent;
use crate::world::World;

verus! {

/// Points for clearing `line_count` lines at once, before the level bonus.
pub open spec fn points(line_count: usize) -> int {
    if line_count == 1 {
        100
    } else if line_count == 2 {
        300
    } else if line_count == 3 {
        500
    } else if line_count == 4 {
        800
    } else {
        0
    }
}

/// `v`, or `u32::MAX` if `v` is larger.
pub open spec fn cap_u32(v: int) -> u32 {
    if v > u32::MAX {
        u32::MAX
    } else {
        v as u32
    }
}

/// The score for clearing `line_count` lines at `level`: the points times `level + 1`,
/// capped at `u32::MAX`.
pub open spec fn score_for(line_count: usize, level: u32) -> u32 {
    cap_u32(points(line_count) * (level + 1))
}

/// `s` after `line_count` more lines are cleared; the level is a tenth of the lines.
pub open spec fn scored(s: Scoring, line_count: usize) -> Scoring {
    let lines = cap_u32(s.lines + line_count);
    Scoring {
        score: cap_u32(s.score + score_for(line_count, s.level)),
        lines,
        level: (lines / 10) as u32,
    }
}

/// The tick interval at `level`: 300 less 25 per level from the first, never under 25.
pub open spec fn interval_for(level: u32) -> u128 {
    if 300 - (level + 1) * 25 < 25 {
        25
    } else {
        (300 - (level + 1) * 25) as u128
    }
}

/// The timer change owed when the score goes from `a` to `b`.
pub open spec fn level_event(a: Scoring, b: Scoring) -> Option<TimerEvent> {
    if a.level != b.level {
        Some(TimerEvent::SetInterval(interval_for(b.level)))
    } else {
        None
    }
}

/// Calculates the score for `line_count` cleared lines at the current `level`.
pub fn calc_score(line_count: usize, level: u32) -> (r: u32)
    ensures
        r == score_for(line_count, level),
{
    let p: u64 = if line_count == 1 {
        100
    } else if line_count == 2 {
        300
    } else if line_count == 3 {
        500
    } else if line_count == 4 {
        800
    } else {
        0
    };
    let m: u64 = p * (level as u64 + 1);
    if m > u32::MAX as u64 {
        u32::MAX
    } else {
        m as u32
    }
}

/// The tick interval at `level`.
fn interval(level: u32) -> (r: u128)
    ensures
        r == interval_for(level),
{
    let step: u128 = (level as u128 + 1) * 25;
    if step > 275 {
        25
    } else {
        300 - step
    }
}

/// The score after `line_count` more cleared lines.
fn next_scoring(s: Scoring, line_count: usize) -> (r: Scoring)
    ensures
        r == scored(s, line_count),
{
    let add = calc_score(line_count, s.level);
    let score: u64 = s.score as u64 + add as u64;
    let lines: u128 = s.lines as u128 + line_count as u128;
    let lines: u32 = if lines > u32::MAX as u128 {
        u32::MAX
    } else {
        lines as u32
    };
    Scoring {
        score: if score > u32::MAX as u64 {
            u32::MAX
        } else {
            score as u32
        },
        lines,
        level: lines / 10,
    }
}

/// Updates the game score after `line_count` lines were cleared. Returns the new tick
/// interval when the level changed.
pub fn update_score(state: &mut GameState, line_count: usize) -> (r: Result<Option<TimerEvent>, Error>)
    requires
        old(state).wf(),
        old(state).scoring is Some,
    ensures
        final(state).wf(),
        GameState::same_but_ecs(*old(state), *final(state)),
        ({
            let e = old(state).scoring->Some_0;
            let st = old(state).ecs.component_registry.scoring;
            if store_has(st, e) {
                let s = st->Some_0.model()[e.id];
                &&& r == Ok::<Option<TimerEvent>, Error>(level_event(s, scored(s, line_count)))
                &&& World::only_store_changed::<Scoring>(old(state).ecs, final(state).ecs)
                &&& final(state).ecs.component_registry.scoring is Some
                &&& final(state).ecs.component_registry.scoring->Some_0.model() == st->Some_0.model().insert(
                    e.id,
                    scored(s, line_count),
                )
            } else {
                &&& r == Err::<Option<TimerEvent>, Error>(Error::MissingComponent("Scoring"))
                &&& final(state).ecs == old(state).ecs
            }
        }),
{
    let e = state.scoring.unwrap();
    let s = match state.ecs.component_registry.get_component::<Scoring>(&e) {
        Some(s) => *s,
        None => {
            return Err(Error::MissingComponent("Scoring"));
        },
    };
    let next = next_scoring(s, line_count);
    state.ecs.set_component(e, next);
    if s.level != next.level {
        Ok(Some(TimerEvent::SetInterval(interval(next.level))))
    } else {
        Ok(None)
    }
}

} // verus!
