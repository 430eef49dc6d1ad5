//! The presentation loop as a state machine. Each call of [`Engine::step`]
//! takes one event (a window notification, a new frame, or the outcome of the
//! last action) and returns the next action for the caller to perform.

use vstd::prelude::*;

use crate::fence_table::{
    all_settled, chained, last_submitted, lemma_append_submit, lemma_append_wait, lemma_drain,
    lemma_settled_tracks, pending_of, race_free, settled, tracks, wait_ops, waits_of, FenceTable,
    Op,
};
use crate::frame_recorder::{build_program_set, is_program_set, DrawData, FrameProgram};
use crate::swap_ring::{Extent, RingConfig, RingError};

verus! {

/// The ring the engine currently presents to: the request it was created
/// from, the number of images the driver gave it, and a generation that
/// changes with every recreation.
#[derive(Clone, Copy, Debug, PartialEq, Eq, Structural)]
pub struct SwapRing {
    pub config: RingConfig,
    pub slot_count: u32,
    pub generation: u64,
}

/// The graphics pipeline: its identity and the viewport extent it was built
/// for.
#[derive(Clone, Copy, Debug, PartialEq, Eq, Structural)]
pub struct PipelineState {
    pub id: u64,
    pub extent: Extent,
}

/// Which ring generation and pipeline the recorded program set was built
/// against.
#[derive(Clone, Copy, Debug, PartialEq, Eq, Structural)]
pub struct ProgramStamp {
    pub ring_generation: u64,
    pub pipeline: u64,
}

/// Requests set between ticks and consumed by a recreation.
#[derive(Clone, Copy, Debug, PartialEq, Eq, Structural)]
pub struct LoopFlags {
    /// The surface reported a new extent.
    pub needs_resize: bool,
    /// An acquisition or a presentation reported the ring out of date.
    pub ring_stale: bool,
}

/// Why the loop stopped.
#[derive(Clone, Copy, Debug, PartialEq, Eq, Structural)]
pub enum LoopError {
    /// The ring was still stale right after it was recreated.
    PersistentStale,
    /// The device or the queue failed.
    DeviceFailure,
    /// The driver handed out an image index outside the ring.
    InvalidSlot,
    /// An event arrived that answers no request of the engine.
    UnexpectedEvent,
}

/// What the engine is waiting for.
#[derive(Clone, Copy, Debug, PartialEq, Eq)]
pub enum Phase {
    /// The next frame.
    Idle,
    /// The outcome of an acquisition; the second one after a recreation when
    /// `after_recreate`.
    Acquiring { after_recreate: bool },
    /// The slot count of the ring being created from `config`.
    Recreating { config: RingConfig },
    /// The end of a rebuild; `held` is the slot acquired before it, if any.
    Rebuilding { held: Option<u32> },
    /// The outcome of a submission and presentation of `slot`.
    Presenting { slot: u32 },
    /// The end of a drain, after which the loop stops with `failure`.
    Draining { failure: Option<LoopError> },
    /// The loop has stopped.
    Finished { failure: Option<LoopError> },
}

/// What happened outside: a window notification, a new frame, or the result
/// of the engine's last action.
#[derive(Clone, Copy, Debug, PartialEq, Eq)]
pub enum Event {
    /// The surface now has this extent.
    Resized(Extent),
    CloseRequested,
    /// Time to draw the next frame.
    Frame,
    /// An image was acquired, at this slot.
    Acquired(u32),
    /// The acquisition found the ring out of date or sub-optimal.
    AcquireStale,
    /// The ring was recreated and holds this many images.
    Recreated(u32),
    /// The pipeline and the program set were rebuilt.
    Rebuilt,
    Presented,
    /// The submission was issued and its presentation found the ring stale.
    PresentStale,
    /// Every requested wait has completed.
    Drained,
    /// The device or the queue failed.
    DeviceFailure,
}

/// What the caller is to do next.
#[derive(Clone, Debug, PartialEq, Eq)]
pub enum Action {
    /// Nothing until the next event.
    Idle,
    /// Acquire the next image of the ring; answer `Acquired` or `AcquireStale`.
    Acquire,
    /// Recreate the ring from this request; answer `Recreated`.
    Recreate(RingConfig),
    /// Wait on each of `wait_all`, rebuild the pipeline when one is given,
    /// then record `programs` as the new program set; answer `Rebuilt`.
    Rebuild { wait_all: Vec<u64>, pipeline: Option<PipelineState>, programs: Vec<FrameProgram> },
    /// Wait on `wait` if given, submit the program of `slot` after the
    /// acquisition and after `after` if given, present `slot`, and name the
    /// submission's completion `signal`; answer `Presented` or `PresentStale`.
    Submit { slot: u32, wait: Option<u64>, after: Option<u64>, signal: u64 },
    /// Wait on each signal; answer `Drained`.
    Drain(Vec<u64>),
    /// Release the GPU resources and return.
    Exit(Option<LoopError>),
}

/// The presentation loop: the ring, the completion tracker, the program set
/// and the flags, advanced by one `step` per event.
pub struct Engine {
    pub phase: Phase,
    pub flags: LoopFlags,
    /// The latest extent the surface reported.
    pub surface: Extent,
    pub ring: SwapRing,
    pub pipeline: PipelineState,
    /// Whether the pipeline described by `pipeline` has been built.
    pub pipeline_built: bool,
    pub draw: DrawData,
    /// The program set last handed out, when it is current.
    pub programs: Option<ProgramStamp>,
    pub fences: FenceTable,
    pub previous_slot: u32,
    pub next_signal: u64,
    /// Every wait and submission issued so far, in order.
    pub log: Ghost<Seq<Op>>,
}

/// The identifier that follows `n`; wraps to zero after the largest.
pub open spec fn next_id(n: u64) -> u64 {
    if n == u64::MAX {
        0
    } else {
        (n + 1) as u64
    }
}

fn advance_id(n: u64) -> (r: u64)
    ensures
        r == next_id(n),
{
    if n == u64::MAX {
        0
    } else {
        n + 1
    }
}

impl Phase {
    pub open spec fn is_terminal(self) -> bool {
        self is Draining || self is Finished
    }
}

impl Engine {
    pub open spec fn wf(&self) -> bool {
        &&& self.fences@.len() == self.ring.slot_count
        &&& race_free(self.log@)
        &&& tracks(self.fences@, self.log@)
        &&& (last_submitted(self.log@) matches Some(s) ==> self.previous_slot == s)
        &&& (self.programs matches Some(stamp) ==> stamp == self.current_stamp())
        &&& (self.programs is Some ==> self.pipeline_built)
        &&& (self.phase matches Phase::Rebuilding { held: Some(s) } ==> s < self.ring.slot_count
            && self.programs is Some)
        &&& (self.phase matches Phase::Recreating { config } ==> !config.extent.is_empty_spec())
        &&& (self.phase.is_terminal() ==> all_settled(self.log@))
    }

    pub open spec fn current_stamp(&self) -> ProgramStamp {
        ProgramStamp { ring_generation: self.ring.generation, pipeline: self.pipeline.id }
    }

    /// Whether a program set handed out as `programs` is the full, current one.
    pub open spec fn is_current_set(&self, programs: Seq<FrameProgram>) -> bool {
        is_program_set(programs, self.ring.generation, self.ring.slot_count, self.pipeline.id, self.draw)
    }

    /// Ring, pipeline, programs, surface and draw data are the same in both.
    pub open spec fn same_setup(&self, other: &Engine) -> bool {
        &&& self.ring == other.ring
        &&& self.pipeline == other.pipeline
        &&& self.pipeline_built == other.pipeline_built
        &&& self.programs == other.programs
        &&& self.surface == other.surface
        &&& self.draw == other.draw
    }

    /// The fence table, the chaining slot, the signal counter and the log are
    /// the same in both.
    pub open spec fn same_tracking(&self, other: &Engine) -> bool {
        &&& self.fences@ == other.fences@
        &&& self.previous_slot == other.previous_slot
        &&& self.next_signal == other.next_signal
        &&& self.log@ == other.log@
    }

    /// `post` and `action` are what a drain before stopping with `failure`
    /// makes of `pre`: a wait on every pending signal.
    pub open spec fn drained(pre: &Engine, post: &Engine, failure: Option<LoopError>, action: Action) -> bool {
        &&& action matches Action::Drain(signals) && signals@ == pending_of(pre.fences@)
        &&& post.log@ == pre.log@ + waits_of(pending_of(pre.fences@))
        &&& post.phase == Phase::Draining { failure }
        &&& post.fences@ == pre.fences@
        &&& post.previous_slot == pre.previous_slot
        &&& post.next_signal == pre.next_signal
        &&& post.flags == pre.flags
        &&& post.same_setup(pre)
    }

    /// `post` and `action` are what submitting and presenting `slot` makes of
    /// `pre`: wait on the slot's last signal, chain after the previous
    /// frame's, record a fresh signal under the slot.
    pub open spec fn submitted(pre: &Engine, post: &Engine, slot: u32, action: Action) -> bool {
        &&& slot < pre.ring.slot_count
        &&& action == Action::Submit {
            slot,
            wait: pre.fences@[slot as int],
            after: chained(pre.fences@, pre.previous_slot),
            signal: pre.next_signal,
        }
        &&& post.fences@ == pre.fences@.update(slot as int, Some(pre.next_signal))
        &&& post.log@ == (pre.log@ + wait_ops(pre.fences@[slot as int])).push(
            Op::Submit { slot, signal: pre.next_signal },
        )
        &&& post.previous_slot == slot
        &&& post.next_signal == next_id(pre.next_signal)
        &&& post.phase == Phase::Presenting { slot }
        &&& post.flags == pre.flags
        &&& post.same_setup(pre)
        &&& post.programs == Some(post.current_stamp())
    }

    /// `post` and `action` are what rebuilding the program set makes of
    /// `pre`: the pipeline when it is not built yet, then all programs.
    pub open spec fn rebuilt(pre: &Engine, post: &Engine, wait_all: Seq<u64>, held: Option<u32>, action: Action) -> bool {
        &&& action matches Action::Rebuild { wait_all: w, pipeline, programs } && {
            &&& w@ == wait_all
            &&& pipeline == (if pre.pipeline_built {
                None
            } else {
                Some(pre.pipeline)
            })
            &&& post.is_current_set(programs@)
        }
        &&& post.programs == Some(post.current_stamp())
        &&& post.pipeline_built
        &&& post.phase == Phase::Rebuilding { held }
        &&& post.ring == pre.ring
        &&& post.pipeline == pre.pipeline
        &&& post.surface == pre.surface
        &&& post.draw == pre.draw
        &&& post.flags == pre.flags
        &&& post.same_tracking(pre)
    }

    /// An engine for a ring created from `config` with `slot_count` images,
    /// drawing `draw`; nothing is submitted and no program is built yet.
    pub fn new(config: RingConfig, slot_count: u32, draw: DrawData) -> (e: Engine)
        ensures
            e.wf(),
            e.phase == Phase::Idle,
            e.flags == (LoopFlags { needs_resize: false, ring_stale: false }),
            e.surface == config.extent,
            e.ring == (SwapRing { config, slot_count, generation: 0 }),
            e.pipeline == (PipelineState { id: 0, extent: config.extent }),
            !e.pipeline_built,
            e.draw == draw,
            e.programs is None,
            e.fences@ == Seq::new(slot_count as nat, |i: int| None::<u64>),
            e.previous_slot == 0,
            e.next_signal == 0,
            e.log@ == Seq::<Op>::empty(),
    {
        Engine {
            phase: Phase::Idle,
            flags: LoopFlags { needs_resize: false, ring_stale: false },
            surface: config.extent,
            ring: SwapRing { config, slot_count, generation: 0 },
            pipeline: PipelineState { id: 0, extent: config.extent },
            pipeline_built: false,
            draw,
            programs: None,
            fences: FenceTable::new(slot_count),
            previous_slot: 0,
            next_signal: 0,
            log: Ghost(Seq::empty()),
        }
    }

    /// Waits on every pending signal, then stops with `failure`.
    fn drain(&mut self, failure: Option<LoopError>) -> (a: Action)
        requires
            old(self).wf(),
        ensures
            final(self).wf(),
            Engine::drained(old(self), final(self), failure, a),
    {
        let signals = self.fences.pending();
        proof {
            lemma_drain(self.fences@, self.log@);
        }
        self.log = Ghost(self.log@ + waits_of(pending_of(self.fences@)));
        self.phase = Phase::Draining { failure };
        Action::Drain(signals)
    }

    /// Submits and presents the program of `slot`.
    fn submit_and_present(&mut self, slot: u32) -> (a: Action)
        requires
            old(self).wf(),
            slot < old(self).ring.slot_count,
            old(self).programs is Some,
        ensures
            final(self).wf(),
            Engine::submitted(old(self), final(self), slot, a),
    {
        let ghost log0 = self.log@;
        let ghost table = self.fences@;
        let wait = self.fences.wait_if_pending(slot);
        let after = self.fences.chain(self.previous_slot);
        let signal = self.next_signal;
        proof {
            match wait {
                Some(w) => {
                    lemma_append_wait(table, log0, w);
                    let l1 = log0.push(Op::Wait(w));
                    // Every earlier submission to `slot` is settled: the
                    // unsettled one, if any, holds the signal just waited on.
                    assert forall|i: int|
                        0 <= i < l1.len() && #[trigger] l1[i] is Submit && l1[i]->slot == slot
                            implies settled(l1, i) by {
                        assert(l1[i] == log0[i]);
                        if !settled(log0, i) {
                            assert(table[slot as int] == Some(log0[i]->signal));
                        }
                    }
                    lemma_append_submit(table, l1, slot, signal);
                    assert(log0 + wait_ops(wait) =~= l1);
                },
                None => {
                    assert forall|i: int|
                        0 <= i < log0.len() && #[trigger] log0[i] is Submit && log0[i]->slot == slot
                            implies settled(log0, i) by {}
                    lemma_append_submit(table, log0, slot, signal);
                    assert(log0 + wait_ops(wait) =~= log0);
                },
            }
        }
        self.log = Ghost((self.log@ + wait_ops(wait)).push(Op::Submit { slot, signal }));
        self.fences.record_submission(slot, signal);
        self.previous_slot = slot;
        self.next_signal = advance_id(signal);
        self.phase = Phase::Presenting { slot };
        Action::Submit { slot, wait, after, signal }
    }

    /// Rebuilds the pipeline if needed and the whole program set, handing it
    /// out complete.
    fn rebuild(&mut self, wait_all: Vec<u64>, held: Option<u32>) -> (a: Action)
        requires
            old(self).wf(),
            held matches Some(s) ==> s < old(self).ring.slot_count,
        ensures
            final(self).wf(),
            Engine::rebuilt(old(self), final(self), wait_all@, held, a),
    {
        let pipeline = if self.pipeline_built {
            None
        } else {
            Some(self.pipeline)
        };
        let programs = build_program_set(
            self.ring.generation,
            self.ring.slot_count,
            self.pipeline.id,
            self.draw,
        );
        self.pipeline_built = true;
        self.programs = Some(
            ProgramStamp { ring_generation: self.ring.generation, pipeline: self.pipeline.id },
        );
        self.phase = Phase::Rebuilding { held };
        Action::Rebuild { wait_all, pipeline, programs }
    }

    /// Whether this acquisition outcome, with the flags, calls for a new ring.
    pub open spec fn wants_recreate(&self, acquired: Option<u32>) -> bool {
        acquired is None || self.flags.ring_stale || self.flags.needs_resize
    }

    /// Decides what follows an acquisition: a recreation when the ring is
    /// stale or the surface was resized (never against a zero-area extent),
    /// else the submission of the acquired slot once the programs are current.
    fn on_acquired(&mut self, after_recreate: bool, acquired: Option<u32>) -> (a: Action)
        requires
            old(self).wf(),
        ensures
            final(self).wf(),
            Engine::acquire_outcome(old(self), final(self), after_recreate, acquired, a),
    {
        let stale = acquired.is_none() || self.flags.ring_stale;
        if stale || self.flags.needs_resize {
            if acquired.is_none() && after_recreate {
                return self.drain(Some(LoopError::PersistentStale));
            }
            if self.surface.is_empty() {
                self.flags.ring_stale = stale;
                self.phase = Phase::Idle;
                return Action::Idle;
            }
            match self.ring.config.recreate(self.surface) {
                Ok(config) => {
                    self.flags.ring_stale = stale;
                    self.phase = Phase::Recreating { config };
                    Action::Recreate(config)
                },
                Err(_) => {
                    proof {
                        assert(false);
                    }
                    Action::Idle
                },
            }
        } else {
            match acquired {
                Some(slot) => {
                    if slot >= self.ring.slot_count {
                        self.drain(Some(LoopError::InvalidSlot))
                    } else if self.programs.is_some() {
                        self.submit_and_present(slot)
                    } else {
                        self.rebuild(Vec::new(), Some(slot))
                    }
                },
                None => {
                    proof {
                        assert(false);
                    }
                    Action::Idle
                },
            }
        }
    }

    /// What follows an acquisition: see `on_acquired`.
    pub open spec fn acquire_outcome(
        pre: &Engine,
        post: &Engine,
        after_recreate: bool,
        acquired: Option<u32>,
        action: Action,
    ) -> bool {
        let stale = acquired is None || pre.flags.ring_stale;
        if pre.wants_recreate(acquired) {
            if acquired is None && after_recreate {
                Engine::drained(pre, post, Some(LoopError::PersistentStale), action)
            } else {
                &&& post.flags == (LoopFlags { ring_stale: stale, ..pre.flags })
                &&& post.same_setup(pre)
                &&& post.same_tracking(pre)
                &&& if pre.surface.is_empty_spec() {
                    action == Action::Idle && post.phase == Phase::Idle
                } else {
                    &&& pre.ring.config.recreated(pre.surface) == Ok::<RingConfig, RingError>(
                        RingConfig { extent: pre.surface, ..pre.ring.config },
                    )
                    &&& action == Action::Recreate(RingConfig { extent: pre.surface, ..pre.ring.config })
                    &&& post.phase == Phase::Recreating {
                        config: RingConfig { extent: pre.surface, ..pre.ring.config },
                    }
                }
            }
        } else {
            let slot = acquired->Some_0;
            if slot >= pre.ring.slot_count {
                Engine::drained(pre, post, Some(LoopError::InvalidSlot), action)
            } else if pre.programs is Some {
                Engine::submitted(pre, post, slot, action)
            } else {
                Engine::rebuilt(pre, post, Seq::empty(), Some(slot), action)
            }
        }
    }

    /// Takes in a recreated ring of `slot_count` images: drains and resizes
    /// the fence table when the count changed, replaces the pipeline when the
    /// extent changed, clears the flags the recreation consumed, and rebuilds
    /// the whole program set.
    fn on_recreated(&mut self, config: RingConfig, slot_count: u32) -> (a: Action)
        requires
            old(self).wf(),
            old(self).phase is Recreating,
        ensures
            final(self).wf(),
            Engine::recreate_outcome(old(self), final(self), config, slot_count, a),
    {
        let wait_all = if slot_count != self.ring.slot_count {
            let signals = self.fences.pending();
            proof {
                lemma_drain(self.fences@, self.log@);
            }
            self.log = Ghost(self.log@ + waits_of(pending_of(self.fences@)));
            self.fences = FenceTable::new(slot_count);
            proof {
                lemma_settled_tracks(self.fences@, self.log@);
            }
            signals
        } else {
            Vec::new()
        };
        self.ring = SwapRing { config, slot_count, generation: advance_id(self.ring.generation) };
        if config.extent != self.pipeline.extent {
            self.pipeline = PipelineState { id: advance_id(self.pipeline.id), extent: config.extent };
            self.pipeline_built = false;
        }
        self.flags = LoopFlags {
            needs_resize: self.flags.needs_resize && self.surface != config.extent,
            ring_stale: false,
        };
        self.programs = None;
        self.rebuild(wait_all, None)
    }

    /// What follows a recreation: see `on_recreated`.
    pub open spec fn recreate_outcome(
        pre: &Engine,
        post: &Engine,
        config: RingConfig,
        slot_count: u32,
        action: Action,
    ) -> bool {
        let resized = slot_count != pre.ring.slot_count;
        let new_pipeline = config.extent != pre.pipeline.extent;
        &&& post.ring == (SwapRing { config, slot_count, generation: next_id(pre.ring.generation) })
        &&& post.pipeline == (if new_pipeline {
            PipelineState { id: next_id(pre.pipeline.id), extent: config.extent }
        } else {
            pre.pipeline
        })
        &&& post.flags == (LoopFlags {
            needs_resize: pre.flags.needs_resize && pre.surface != config.extent,
            ring_stale: false,
        })
        &&& post.surface == pre.surface
        &&& post.draw == pre.draw
        &&& post.previous_slot == pre.previous_slot
        &&& post.next_signal == pre.next_signal
        &&& if resized {
            &&& post.fences@ == Seq::new(slot_count as nat, |i: int| None::<u64>)
            &&& post.log@ == pre.log@ + waits_of(pending_of(pre.fences@))
        } else {
            &&& post.fences@ == pre.fences@
            &&& post.log@ == pre.log@
        }
        &&& action matches Action::Rebuild { wait_all, pipeline, programs } && {
            &&& wait_all@ == (if resized {
                pending_of(pre.fences@)
            } else {
                Seq::empty()
            })
            &&& pipeline == (if new_pipeline || !pre.pipeline_built {
                Some(post.pipeline)
            } else {
                None
            })
            &&& post.is_current_set(programs@)
        }
        &&& post.programs == Some(post.current_stamp())
        &&& post.pipeline_built
        &&& post.phase == Phase::Rebuilding { held: None }
    }

    /// Answers an event that does not fit the phase: ignored once the loop
    /// is stopping, fatal before.
    fn unexpected(&mut self) -> (a: Action)
        requires
            old(self).wf(),
        ensures
            final(self).wf(),
            Engine::unexpected_outcome(old(self), final(self), a),
    {
        if self.is_stopping() {
            Action::Idle
        } else {
            self.drain(Some(LoopError::UnexpectedEvent))
        }
    }

    pub open spec fn unexpected_outcome(pre: &Engine, post: &Engine, action: Action) -> bool {
        if pre.phase.is_terminal() {
            &&& action == Action::Idle
            &&& post.phase == pre.phase
            &&& post.flags == pre.flags
            &&& post.same_setup(pre)
            &&& post.same_tracking(pre)
        } else {
            Engine::drained(pre, post, Some(LoopError::UnexpectedEvent), action)
        }
    }

    /// Whether the loop is draining or has stopped.
    pub fn is_stopping(&self) -> (r: bool)
        ensures
            r == self.phase.is_terminal(),
    {
        match self.phase {
            Phase::Draining { .. } | Phase::Finished { .. } => true,
            _ => false,
        }
    }

    /// `post` is `pre` untouched, and there is nothing to do.
    pub open spec fn ignored(pre: &Engine, post: &Engine, action: Action) -> bool {
        &&& action == Action::Idle
        &&& post.phase == pre.phase
        &&& post.flags == pre.flags
        &&& post.same_setup(pre)
        &&& post.same_tracking(pre)
    }

    /// `post` is `pre` in phase `phase`, and the caller is to do `action`.
    pub open spec fn moved(pre: &Engine, post: &Engine, phase: Phase, action: Action, a: Action) -> bool {
        &&& a == action
        &&& post.phase == phase
        &&& post.flags == pre.flags
        &&& post.same_setup(pre)
        &&& post.same_tracking(pre)
    }

    /// The whole transition of the loop on one event.
    pub open spec fn transition(pre: &Engine, post: &Engine, event: Event, a: Action) -> bool {
        match event {
            Event::Resized(extent) => {
                &&& a == Action::Idle
                &&& post.surface == extent
                &&& post.flags == (LoopFlags { needs_resize: true, ..pre.flags })
                &&& post.phase == pre.phase
                &&& post.ring == pre.ring
                &&& post.pipeline == pre.pipeline
                &&& post.pipeline_built == pre.pipeline_built
                &&& post.programs == pre.programs
                &&& post.draw == pre.draw
                &&& post.same_tracking(pre)
            },
            Event::CloseRequested => if pre.phase.is_terminal() {
                Engine::ignored(pre, post, a)
            } else {
                Engine::drained(pre, post, None, a)
            },
            Event::DeviceFailure => if pre.phase.is_terminal() {
                Engine::ignored(pre, post, a)
            } else {
                Engine::drained(pre, post, Some(LoopError::DeviceFailure), a)
            },
            Event::Frame => if pre.phase is Idle {
                Engine::moved(pre, post, Phase::Acquiring { after_recreate: false }, Action::Acquire, a)
            } else {
                Engine::ignored(pre, post, a)
            },
            Event::Acquired(slot) => match pre.phase {
                Phase::Acquiring { after_recreate } => Engine::acquire_outcome(
                    pre,
                    post,
                    after_recreate,
                    Some(slot),
                    a,
                ),
                _ => Engine::unexpected_outcome(pre, post, a),
            },
            Event::AcquireStale => match pre.phase {
                Phase::Acquiring { after_recreate } => Engine::acquire_outcome(pre, post, after_recreate, None, a),
                _ => Engine::unexpected_outcome(pre, post, a),
            },
            Event::Recreated(slot_count) => match pre.phase {
                Phase::Recreating { config } => Engine::recreate_outcome(pre, post, config, slot_count, a),
                _ => Engine::unexpected_outcome(pre, post, a),
            },
            Event::Rebuilt => match pre.phase {
                Phase::Rebuilding { held: Some(slot) } => Engine::submitted(pre, post, slot, a),
                Phase::Rebuilding { held: None } => Engine::moved(
                    pre,
                    post,
                    Phase::Acquiring { after_recreate: true },
                    Action::Acquire,
                    a,
                ),
                _ => Engine::unexpected_outcome(pre, post, a),
            },
            Event::Presented => if pre.phase is Presenting {
                Engine::moved(pre, post, Phase::Idle, Action::Idle, a)
            } else {
                Engine::unexpected_outcome(pre, post, a)
            },
            Event::PresentStale => if pre.phase is Presenting {
                &&& a == Action::Idle
                &&& post.phase == Phase::Idle
                &&& post.flags == (LoopFlags { ring_stale: true, ..pre.flags })
                &&& post.same_setup(pre)
                &&& post.same_tracking(pre)
            } else {
                Engine::unexpected_outcome(pre, post, a)
            },
            Event::Drained => match pre.phase {
                Phase::Draining { failure } => Engine::moved(
                    pre,
                    post,
                    Phase::Finished { failure },
                    Action::Exit(failure),
                    a,
                ),
                _ => Engine::unexpected_outcome(pre, post, a),
            },
        }
    }

    /// Advances the loop by one event and says what to do next.
    ///
    /// Whatever the events, the loop keeps these: a slot is never submitted
    /// to again before the host has waited on its previous submission; the
    /// chaining slot is the slot of the latest submission; a zero-area
    /// surface never leads to a recreation and does not clear a pending
    /// resize; a new pipeline comes with a full program set built against
    /// it, and every submission uses the current set; the loop exits only
    /// after waiting on every submission.
    pub fn step(&mut self, event: Event) -> (a: Action)
        requires
            old(self).wf(),
        ensures
            final(self).wf(),
            Engine::transition(old(self), final(self), event, a),
            old(self).log@.is_prefix_of(final(self).log@),
            race_free(final(self).log@),
            last_submitted(final(self).log@) matches Some(s) ==> final(self).previous_slot == s,
            a is Recreate ==> !old(self).surface.is_empty_spec() && a == Action::Recreate(
                RingConfig { extent: old(self).surface, ..old(self).ring.config },
            ),
            old(self).flags.needs_resize && final(self).surface.is_empty_spec()
                ==> final(self).flags.needs_resize,
            final(self).pipeline != old(self).pipeline ==> (a matches Action::Rebuild {
                pipeline,
                programs,
                ..
            } && pipeline == Some(final(self).pipeline) && final(self).is_current_set(programs@)),
            a is Submit ==> final(self).programs == Some(final(self).current_stamp()),
            a is Exit ==> all_settled(final(self).log@),
    {
        let ghost pre = *self;
        let a = match event {
            Event::Resized(extent) => {
                self.surface = extent;
                self.flags.needs_resize = true;
                Action::Idle
            },
            Event::CloseRequested => {
                if self.is_stopping() {
                    Action::Idle
                } else {
                    self.drain(None)
                }
            },
            Event::DeviceFailure => {
                if self.is_stopping() {
                    Action::Idle
                } else {
                    self.drain(Some(LoopError::DeviceFailure))
                }
            },
            Event::Frame => match self.phase {
                Phase::Idle => {
                    self.phase = Phase::Acquiring { after_recreate: false };
                    Action::Acquire
                },
                _ => Action::Idle,
            },
            Event::Acquired(slot) => match self.phase {
                Phase::Acquiring { after_recreate } => self.on_acquired(after_recreate, Some(slot)),
                _ => self.unexpected(),
            },
            Event::AcquireStale => match self.phase {
                Phase::Acquiring { after_recreate } => self.on_acquired(after_recreate, None),
                _ => self.unexpected(),
            },
            Event::Recreated(slot_count) => match self.phase {
                Phase::Recreating { config } => self.on_recreated(config, slot_count),
                _ => self.unexpected(),
            },
            Event::Rebuilt => match self.phase {
                Phase::Rebuilding { held: Some(slot) } => self.submit_and_present(slot),
                Phase::Rebuilding { held: None } => {
                    self.phase = Phase::Acquiring { after_recreate: true };
                    Action::Acquire
                },
                _ => self.unexpected(),
            },
            Event::Presented => match self.phase {
                Phase::Presenting { .. } => {
                    self.phase = Phase::Idle;
                    Action::Idle
                },
                _ => self.unexpected(),
            },
            Event::PresentStale => match self.phase {
                Phase::Presenting { .. } => {
                    self.flags.ring_stale = true;
                    self.phase = Phase::Idle;
                    Action::Idle
                },
                _ => self.unexpected(),
            },
            Event::Drained => match self.phase {
                Phase::Draining { failure } => {
                    self.phase = Phase::Finished { failure };
                    Action::Exit(failure)
                },
                _ => self.unexpected(),
            },
        };
        assert(pre.log@.is_prefix_of(self.log@));
        a
    }
}

impl Event {
    /// The event for an acquired image: a sub-optimal image counts as a
    /// stale ring, and is not presented.
    pub fn from_acquire(slot: u32, suboptimal: bool) -> (e: Event)
        ensures
            e == (if suboptimal {
                Event::AcquireStale
            } else {
                Event::Acquired(slot)
            }),
    {
        if suboptimal {
            Event::AcquireStale
        } else {
            Event::Acquired(slot)
        }
    }
}

} // verus!
