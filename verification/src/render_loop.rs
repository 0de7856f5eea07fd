//! The decisions of the render loop.
//!
//! The loop itself waits for the window and talks to the GPU, which cannot be
//! done here. What can be done here is to decide: given the loop's state and
//! the event the window handed over, [`RenderLoop::step`] says what has to be
//! done, in which order, and what the state is afterwards. The program around
//! this crate performs the actions and comes back with the next event.
//!
//! Between two events the loop is [`Phase::Idle`]. An event takes it through
//! [`Phase::Updating`], in which the event is applied to the camera or to the
//! projection, then through [`Phase::Drawing`], in which one frame is issued,
//! and back to idle. Once the window has closed the loop is
//! [`Phase::Exited`] and stays so.

use crate::projection::DrawSize;
use crate::projection::Perspective;
use vstd::prelude::*;

verus! {

/// What the window hands to the loop.
#[derive(Clone, Copy, Debug, PartialEq, Eq, Structural)]
pub enum Event {
    /// A render tick: a frame is due.
    Render,
    /// The window was resized; its drawable area now has the given size.
    Resize(DrawSize),
    /// Any other event: a key, the mouse, an update tick.
    Other,
    /// The window has closed. No event follows.
    Closed,
}

/// One piece of work for the program around the loop.
#[derive(Clone, Copy, Debug, PartialEq, Eq, Structural)]
pub enum Action {
    /// Hand the event to the camera.
    UpdateCamera,
    /// Replace the projection matrix by the one of the given settings.
    SetProjection(Perspective),
    /// Bind the draw call's outputs to the window's current color and depth
    /// targets.
    RefreshTargets,
    /// Clear the color and the depth target.
    ClearTargets,
    /// Recompute the combined transform from the camera as it is now and the
    /// projection matrix as it is now, and store it for the draw call.
    SetTransform,
    /// Issue the indexed draw call for the mesh.
    Draw,
}

/// Where the loop stands.
#[derive(Clone, Copy, Debug, PartialEq, Eq, Structural)]
pub enum Phase {
    /// Waiting for the next event.
    Idle,
    /// Applying an event to the camera or to the projection.
    Updating,
    /// Issuing a frame.
    Drawing,
    /// The window has closed.
    Exited,
}

impl Action {
    /// The phase in which the action is performed.
    pub open spec fn phase(self) -> Phase {
        match self {
            Action::UpdateCamera | Action::SetProjection(_) | Action::RefreshTargets => {
                Phase::Updating
            },
            Action::ClearTargets | Action::SetTransform | Action::Draw => Phase::Drawing,
        }
    }

    /// Whether the action is performed while drawing; if not, it is performed
    /// while updating.
    pub fn is_drawing(&self) -> (drawing: bool)
        ensures
            drawing == (self.phase() == Phase::Drawing),
            !drawing == (self.phase() == Phase::Updating),
    {
        match self {
            Action::ClearTargets | Action::SetTransform | Action::Draw => true,
            _ => false,
        }
    }
}

/// The state the loop owns: the projection settings in force, and whether the
/// window has closed.
#[derive(Clone, Copy, Debug, PartialEq, Eq, Structural)]
pub struct RenderLoop {
    pub projection: Perspective,
    pub exited: bool,
}

impl RenderLoop {
    /// Where the loop stands between two events.
    pub open spec fn phase(self) -> Phase {
        if self.exited {
            Phase::Exited
        } else {
            Phase::Idle
        }
    }

    /// What has to be done for `event`, in order.
    pub open spec fn plan(self, event: Event) -> Seq<Action> {
        if self.exited {
            seq![]
        } else {
            match event {
                Event::Render => seq![Action::ClearTargets, Action::SetTransform, Action::Draw],
                Event::Resize(size) => seq![
                    Action::SetProjection(self.projection.resized(size)),
                    Action::RefreshTargets,
                ],
                Event::Other => seq![Action::UpdateCamera],
                Event::Closed => seq![],
            }
        }
    }

    /// The state after `event`.
    pub open spec fn after(self, event: Event) -> RenderLoop {
        if self.exited {
            self
        } else {
            match event {
                Event::Resize(size) => RenderLoop {
                    projection: self.projection.resized(size),
                    ..self
                },
                Event::Closed => RenderLoop { exited: true, ..self },
                _ => self,
            }
        }
    }

    /// The state after a run of events.
    pub open spec fn after_all(self, events: Seq<Event>) -> RenderLoop
        decreases events.len(),
    {
        if events.len() == 0 {
            self
        } else {
            self.after(events.first()).after_all(events.drop_first())
        }
    }

    /// Everything that is done over a run of events, in order.
    pub open spec fn trace(self, events: Seq<Event>) -> Seq<Action>
        decreases events.len(),
    {
        if events.len() == 0 {
            seq![]
        } else {
            self.plan(events.first()) + self.after(events.first()).trace(events.drop_first())
        }
    }

    /// The loop at startup, for a window whose drawable area has the given
    /// size.
    pub fn new(size: DrawSize) -> (state: RenderLoop)
        ensures
            state.projection == crate::projection::scene_perspective(size),
            state.phase() == Phase::Idle,
    {
        RenderLoop { projection: Perspective::new(size), exited: false }
    }

    /// Where the loop stands.
    pub fn current_phase(&self) -> (phase: Phase)
        ensures
            phase == self.phase(),
    {
        if self.exited {
            Phase::Exited
        } else {
            Phase::Idle
        }
    }

    /// Takes one event and says what has to be done for it.
    ///
    /// - A render tick gets one frame: the targets are cleared, the combined
    ///   transform is recomputed, and the mesh is drawn.
    /// - A resize gets new projection settings, which differ from the old
    ///   ones in the aspect ratio only, and freshly bound targets.
    /// - Any other event goes to the camera.
    /// - When the window has closed, nothing is done, now or later.
    pub fn step(&mut self, event: Event) -> (actions: Vec<Action>)
        ensures
            actions@ == old(self).plan(event),
            *final(self) == old(self).after(event),
    {
        if self.exited {
            return Vec::new();
        }
        match event {
            Event::Render => {
                let mut actions = Vec::new();
                actions.push(Action::ClearTargets);
                actions.push(Action::SetTransform);
                actions.push(Action::Draw);
                actions
            },
            Event::Resize(size) => {
                self.projection.resize(size);
                let mut actions = Vec::new();
                actions.push(Action::SetProjection(self.projection));
                actions.push(Action::RefreshTargets);
                actions
            },
            Event::Other => {
                let mut actions = Vec::new();
                actions.push(Action::UpdateCamera);
                actions
            },
            Event::Closed => {
                self.exited = true;
                Vec::new()
            },
        }
    }
}

/// How many frames `actions` issue: the number of draw calls among them.
pub open spec fn frames(actions: Seq<Action>) -> nat
    decreases actions.len(),
{
    if actions.len() == 0 {
        0
    } else {
        frames(actions.drop_last()) + if actions.last() == Action::Draw {
            1nat
        } else {
            0nat
        }
    }
}

/// How many render ticks `events` hold before the window closes.
pub open spec fn ticks(events: Seq<Event>) -> nat
    decreases events.len(),
{
    if events.len() == 0 || events.first() == Event::Closed {
        0
    } else {
        ticks(events.drop_first()) + if events.first() == Event::Render {
            1nat
        } else {
            0nat
        }
    }
}

/// The size that the last resize in `events` before the window closes
/// brought, if there was any resize.
pub open spec fn last_size(events: Seq<Event>) -> Option<DrawSize>
    decreases events.len(),
{
    if events.len() == 0 || events.first() == Event::Closed {
        None
    } else {
        match last_size(events.drop_first()) {
            Some(size) => Some(size),
            None => match events.first() {
                Event::Resize(size) => Some(size),
                _ => None,
            },
        }
    }
}

/// The frames of two runs of actions, one after the other, add up.
pub proof fn lemma_frames_add(first: Seq<Action>, second: Seq<Action>)
    ensures
        frames(first + second) == frames(first) + frames(second),
    decreases second.len(),
{
    if second.len() == 0 {
        assert(first + second =~= first);
    } else {
        assert((first + second).drop_last() =~= first + second.drop_last());
        lemma_frames_add(first, second.drop_last());
    }
}

/// Whether `actions` never go back from drawing to updating: every action
/// of the updating phase comes before every action of the drawing phase.
pub open spec fn updates_come_first(actions: Seq<Action>) -> bool {
    forall|i: int, j: int|
        0 <= i < j < actions.len() && (#[trigger] actions[i]).phase() == Phase::Drawing ==> (
        #[trigger] actions[j]).phase() == Phase::Drawing
}

/// Within the work for one event, nothing is updated once drawing has begun.
pub proof fn lemma_plan_updates_before_it_draws(state: RenderLoop, event: Event)
    ensures
        updates_come_first(state.plan(event)),
{
}

/// Whether every draw call among `actions` is made with a fresh transform:
/// it comes directly after the combined transform was recomputed, which in
/// turn comes directly after the targets were cleared.
pub open spec fn draws_are_fresh(actions: Seq<Action>) -> bool {
    forall|i: int|
        0 <= i < actions.len() && #[trigger] actions[i] == Action::Draw ==> i >= 2 && actions[i
            - 1] == Action::SetTransform && actions[i - 2] == Action::ClearTargets
}

/// No frame is drawn with a stale transform. Over any run of events, from any
/// state, every draw call comes directly after the combined transform was
/// recomputed: no camera update and no change of projection lies in between.
pub proof fn lemma_draw_follows_fresh_transform(state: RenderLoop, events: Seq<Event>)
    ensures
        draws_are_fresh(state.trace(events)),
    decreases events.len(),
{
    if events.len() > 0 {
        let head = state.plan(events.first());
        let next = state.after(events.first());
        let tail = next.trace(events.drop_first());
        let all = state.trace(events);
        lemma_draw_follows_fresh_transform(next, events.drop_first());
        assert(all == head + tail);
        assert forall|i: int| 0 <= i < all.len() && #[trigger] all[i] == Action::Draw implies i
            >= 2 && all[i - 1] == Action::SetTransform && all[i - 2] == Action::ClearTargets by {
            if i >= head.len() {
                let k = i - head.len();
                assert(tail[k] == Action::Draw);
                assert(tail[k - 1] == Action::SetTransform);
                assert(tail[k - 2] == Action::ClearTargets);
            }
        }
    }
}

/// Every render tick gets exactly one frame, and nothing else gets one: over
/// any run of events the number of draw calls is the number of render ticks
/// that arrived before the window closed.
pub proof fn lemma_one_frame_per_tick(state: RenderLoop, events: Seq<Event>)
    requires
        !state.exited,
    ensures
        frames(state.trace(events)) == ticks(events),
    decreases events.len(),
{
    if events.len() == 0 {
    } else {
        let head = state.plan(events.first());
        let next = state.after(events.first());
        let rest = events.drop_first();
        lemma_frames_add(head, next.trace(rest));
        reveal_with_fuel(frames, 4);
        if events.first() == Event::Closed {
            lemma_nothing_after_close(next, rest);
            assert(frames(head) == 0);
        } else {
            lemma_one_frame_per_tick(next, rest);
            if events.first() == Event::Render {
                assert(head.drop_last() =~= seq![Action::ClearTargets, Action::SetTransform]);
                assert(head.drop_last().drop_last() =~= seq![Action::ClearTargets]);
                assert(head.drop_last().drop_last().drop_last() =~= Seq::<Action>::empty());
                assert(frames(head) == 1);
            } else if events.first() == Event::Other {
                assert(head.drop_last() =~= Seq::<Action>::empty());
                assert(frames(head) == 0);
            } else {
                assert(head.drop_last().drop_last() =~= Seq::<Action>::empty());
                assert(frames(head) == 0);
            }
        }
    }
}

/// Once the window has closed the loop does nothing more: whatever events
/// still arrive, no action is asked for and the state stays as it is.
pub proof fn lemma_nothing_after_close(state: RenderLoop, events: Seq<Event>)
    requires
        state.exited,
    ensures
        state.trace(events) == Seq::<Action>::empty(),
        state.after_all(events) == state,
    decreases events.len(),
{
    if events.len() > 0 {
        lemma_nothing_after_close(state, events.drop_first());
        assert(state.trace(events) =~= Seq::<Action>::empty());
    }
}

/// Only a resize changes the projection, and it changes the aspect ratio
/// only. After any run of events the field of view and the clip planes are
/// those the loop started with, and the aspect ratio is that of the last
/// resize before the window closed, or the one the loop started with when
/// there was no resize.
pub proof fn lemma_projection_follows_last_resize(state: RenderLoop, events: Seq<Event>)
    requires
        !state.exited,
    ensures
        state.after_all(events).projection == (match last_size(events) {
            Some(size) => state.projection.resized(size),
            None => state.projection,
        }),
    decreases events.len(),
{
    if events.len() > 0 {
        let next = state.after(events.first());
        let rest = events.drop_first();
        if events.first() == Event::Closed {
            lemma_nothing_after_close(next, rest);
        } else {
            lemma_projection_follows_last_resize(next, rest);
        }
    }
}

} // verus!
