use vstd::prelude::*;
use crate::canvas::{in_bounds, WIDTH, HEIGHT};

verus! {

/// A pointer event, with its window coordinate where it has one.
#[derive(Clone, Copy, Debug, PartialEq, Eq, Structural)]
pub enum PointerEvent {
    Down(i32, i32),
    Move(i32, i32),
    Up(i32, i32),
    Quit,
}

/// Whether the pointer is painting.
#[derive(Clone, Copy, Debug, PartialEq, Eq, Structural)]
pub enum StrokePhase {
    Idle,
    Stroking,
}

/// What the event loop does after an event.
#[derive(Clone, Copy, Debug, PartialEq, Eq, Structural)]
pub enum Control {
    Continue,
    Quit,
}

/// Pointer bookkeeping of the drawing session: last known position, stroke phase,
/// and whether a completed stroke still awaits a run of the transform pipeline.
#[derive(Clone, Copy, Debug)]
pub struct StrokeTracker {
    pub pos: (i32, i32),
    pub phase: StrokePhase,
    pub run_pending: bool,
}

/// The tracker after `ev`: a press starts a stroke, a move follows the pointer,
/// a release ends the stroke and asks for a pipeline run; quitting changes nothing.
pub open spec fn next_state(s: StrokeTracker, ev: PointerEvent) -> StrokeTracker {
    match ev {
        PointerEvent::Down(x, y) => StrokeTracker { pos: (x, y), phase: StrokePhase::Stroking, ..s },
        PointerEvent::Move(x, y) => StrokeTracker { pos: (x, y), ..s },
        PointerEvent::Up(x, y) => StrokeTracker {
            pos: (x, y),
            phase: StrokePhase::Idle,
            run_pending: true,
        },
        PointerEvent::Quit => s,
    }
}

/// The pixel to paint this frame: the pointer's position while stroking, when it
/// lies on the drawing surface.
pub open spec fn spec_paint_target(s: StrokeTracker) -> Option<(i32, i32)> {
    if s.phase == StrokePhase::Stroking && in_bounds(s.pos.0 as int, s.pos.1 as int) {
        Some(s.pos)
    } else {
        None
    }
}

impl StrokeTracker {
    /// An idle tracker at the origin with no pending run.
    pub fn new() -> (r: StrokeTracker)
        ensures
            r == (StrokeTracker { pos: (0, 0), phase: StrokePhase::Idle, run_pending: false }),
    {
        StrokeTracker { pos: (0, 0), phase: StrokePhase::Idle, run_pending: false }
    }

    /// Applies one pointer event; tells the loop to stop on `Quit`.
    pub fn handle_event(&mut self, ev: PointerEvent) -> (r: Control)
        ensures
            *final(self) == next_state(*old(self), ev),
            r == (if ev == PointerEvent::Quit { Control::Quit } else { Control::Continue }),
    {
        match ev {
            PointerEvent::Down(x, y) => {
                self.pos = (x, y);
                self.phase = StrokePhase::Stroking;
                Control::Continue
            },
            PointerEvent::Move(x, y) => {
                self.pos = (x, y);
                Control::Continue
            },
            PointerEvent::Up(x, y) => {
                self.pos = (x, y);
                self.phase = StrokePhase::Idle;
                self.run_pending = true;
                Control::Continue
            },
            PointerEvent::Quit => Control::Quit,
        }
    }

    /// The pixel to paint this frame, if any.
    pub fn paint_target(&self) -> (r: Option<(i32, i32)>)
        ensures
            r == spec_paint_target(*self),
    {
        let (x, y) = self.pos;
        match self.phase {
            StrokePhase::Stroking => {
                if 0 <= x && (x as i64) < WIDTH as i64 && 0 <= y && (y as i64) < HEIGHT as i64 {
                    Some((x, y))
                } else {
                    None
                }
            },
            StrokePhase::Idle => None,
        }
    }

    /// Reports whether a completed stroke awaits a pipeline run, and clears that
    /// request, so that each stroke runs the pipeline once.
    pub fn take_run_request(&mut self) -> (r: bool)
        ensures
            r == old(self).run_pending,
            *final(self) == (StrokeTracker { run_pending: false, ..*old(self) }),
    {
        let r = self.run_pending;
        self.run_pending = false;
        r
    }
}

/// A stroke is edge-triggered: pressing starts painting, moves keep painting, and
/// only the release asks for a pipeline run, leaving the tracker idle.
pub proof fn lemma_stroke_cycle(s: StrokeTracker, down: (i32, i32), moved: (i32, i32), up: (i32, i32))
    requires
        !s.run_pending,
    ensures
        next_state(s, PointerEvent::Down(down.0, down.1)).phase == StrokePhase::Stroking,
        !next_state(s, PointerEvent::Down(down.0, down.1)).run_pending,
        next_state(
            next_state(s, PointerEvent::Down(down.0, down.1)),
            PointerEvent::Move(moved.0, moved.1),
        ).phase == StrokePhase::Stroking,
        !next_state(
            next_state(s, PointerEvent::Down(down.0, down.1)),
            PointerEvent::Move(moved.0, moved.1),
        ).run_pending,
        next_state(
            next_state(
                next_state(s, PointerEvent::Down(down.0, down.1)),
                PointerEvent::Move(moved.0, moved.1),
            ),
            PointerEvent::Up(up.0, up.1),
        ) == (StrokeTracker { pos: up, phase: StrokePhase::Idle, run_pending: true }),
{
}

} // verus!
