//! Control of the recursive shader, written as a loop.
//!
//! A ray is traced with a bounce budget. Each round either ends the path, in
//! black or in the background gradient, or scatters it into a new ray with one
//! bounce less. The color of the path is the product of the attenuations met
//! on the way times the color it ends in.
use vstd::prelude::*;

verus! {

/// What the scene did with a ray.
#[derive(Clone, Copy, Debug, PartialEq, Eq, Structural)]
pub enum Event {
    /// No primitive was hit.
    Missed,
    /// A primitive was hit and its material absorbed the ray.
    Absorbed,
    /// A primitive was hit and its material scattered the ray.
    Scattered,
}

/// What the shader does next.
#[derive(Clone, Copy, Debug, PartialEq, Eq, Structural)]
pub enum Step {
    /// The path ends in black.
    Black,
    /// The path ends in the background gradient.
    Background,
    /// The path goes on along the scattered ray with this budget.
    Bounce { depth: i32 },
}

/// The step taken for an event with the given budget left.
pub open spec fn step_of(depth: int, event: Event) -> Step {
    if depth <= 0 {
        Step::Black
    } else {
        match event {
            Event::Missed => Step::Background,
            Event::Absorbed => Step::Black,
            Event::Scattered => Step::Bounce { depth: (depth - 1) as i32 },
        }
    }
}

/// Whether the budget is spent, so that the path ends in black without the
/// scene being asked.
pub fn out_of_bounces(depth: i32) -> (r: bool)
    ensures
        r == (depth <= 0),
{
    depth <= 0
}

/// The next step: black once the budget is spent, whatever the scene did;
/// else the background on a miss, black on absorption, and a bounce with one
/// less on a scatter.
pub fn next_step(depth: i32, event: Event) -> (r: Step)
    ensures
        r == step_of(depth as int, event),
        depth <= 0 ==> r == Step::Black,
{
    if depth <= 0 {
        Step::Black
    } else {
        match event {
            Event::Missed => Step::Background,
            Event::Absorbed => Step::Black,
            Event::Scattered => Step::Bounce { depth: depth - 1 },
        }
    }
}

/// How a path ends.
pub enum Ending {
    Black,
    Background,
    /// The events ran out before the path ended.
    Open,
}

/// The number of bounces a path takes, and how it ends, when the scene answers
/// with `events` in turn.
pub open spec fn trace(depth: int, events: Seq<Event>) -> (nat, Ending)
    decreases events.len(),
{
    if events.len() == 0 {
        if depth <= 0 {
            (0, Ending::Black)
        } else {
            (0, Ending::Open)
        }
    } else {
        match step_of(depth, events[0]) {
            Step::Black => (0, Ending::Black),
            Step::Background => (0, Ending::Background),
            Step::Bounce { depth: d } => {
                let rest = trace(d as int, events.subrange(1, events.len() as int));
                (rest.0 + 1, rest.1)
            },
        }
    }
}

/// Whatever the scene does, a path started with budget `depth` takes at most
/// `depth` bounces, and one that has taken all of them ends in black. With no
/// budget at all it ends in black at once.
pub proof fn lemma_bounces_bounded(depth: i32, events: Seq<Event>)
    ensures
        depth <= 0 ==> trace(depth as int, events).0 == 0 && trace(depth as int, events).1 is Black,
        trace(depth as int, events).0 <= if depth > 0 { depth as int } else { 0 },
        depth > 0 && trace(depth as int, events).0 == depth as int ==> trace(depth as int, events).1 is Black || trace(depth as int, events).1 is Open,
    decreases events.len(),
{
    if events.len() > 0 && depth > 0 && events[0] == Event::Scattered {
        lemma_bounces_bounded((depth - 1) as i32, events.subrange(1, events.len() as int));
    }
}

} // verus!
