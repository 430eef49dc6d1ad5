use frame_engine::frame_recorder::{Command, DrawData, PipelineBinding};
use frame_engine::presentation::{Action, Engine, Event, LoopError, Phase, PipelineState};
use frame_engine::swap_ring::{Extent, RingConfig};

fn config(width: u32, height: u32) -> RingConfig {
    RingConfig {
        min_image_count: 3,
        format: 44,
        extent: Extent { width, height },
        composite_alpha: 1,
    }
}

fn engine(slots: u32) -> Engine {
    Engine::new(config(800, 600), slots, DrawData { index_count: 6 })
}

/// Drives one frame that acquires `slot`, through a first rebuild if one is
/// asked for, and returns the submission.
fn submit_frame(e: &mut Engine, slot: u32) -> Action {
    assert_eq!(e.step(Event::Frame), Action::Acquire);
    let mut a = e.step(Event::Acquired(slot));
    if matches!(a, Action::Rebuild { .. }) {
        a = e.step(Event::Rebuilt);
    }
    assert!(matches!(a, Action::Submit { .. }), "expected a submission, got {:?}", a);
    a
}

fn present_frame(e: &mut Engine, slot: u32) -> Action {
    let a = submit_frame(e, slot);
    assert_eq!(e.step(Event::Presented), Action::Idle);
    a
}

#[test]
fn first_frame_builds_pipeline_and_all_programs() {
    let mut e = engine(3);
    assert_eq!(e.step(Event::Frame), Action::Acquire);
    match e.step(Event::Acquired(1)) {
        Action::Rebuild { wait_all, pipeline, programs } => {
            assert!(wait_all.is_empty());
            assert_eq!(pipeline, Some(PipelineState { id: 0, extent: Extent { width: 800, height: 600 } }));
            assert_eq!(programs.len(), 3);
            for (i, p) in programs.iter().enumerate() {
                assert_eq!(p.target.slot, i as u32);
                assert_eq!(p.target.ring_generation, 0);
                assert_eq!(p.pipeline, 0);
            }
        }
        other => panic!("expected a rebuild, got {:?}", other),
    }
    assert_eq!(
        e.step(Event::Rebuilt),
        Action::Submit { slot: 1, wait: None, after: None, signal: 0 }
    );
    assert_eq!(e.phase, Phase::Presenting { slot: 1 });
}

#[test]
fn second_submission_to_a_slot_waits_on_the_first() {
    let mut e = engine(4);
    let mut submits = Vec::new();
    for slot in [0u32, 1, 2, 3, 0] {
        submits.push(present_frame(&mut e, slot));
    }
    assert_eq!(submits[0], Action::Submit { slot: 0, wait: None, after: None, signal: 0 });
    assert_eq!(submits[1], Action::Submit { slot: 1, wait: None, after: Some(0), signal: 1 });
    assert_eq!(submits[2], Action::Submit { slot: 2, wait: None, after: Some(1), signal: 2 });
    assert_eq!(submits[3], Action::Submit { slot: 3, wait: None, after: Some(2), signal: 3 });
    assert_eq!(submits[4], Action::Submit { slot: 0, wait: Some(0), after: Some(3), signal: 4 });
    assert_eq!(e.fences.entries, vec![Some(4), Some(1), Some(2), Some(3)]);
}

#[test]
fn previous_slot_follows_the_last_submission() {
    let mut e = engine(3);
    assert_eq!(e.previous_slot, 0);
    for slot in [2u32, 0, 1, 1] {
        present_frame(&mut e, slot);
        assert_eq!(e.previous_slot, slot);
    }
}

#[test]
fn stale_acquire_recreates_rebuilds_and_presents_with_new_programs() {
    let mut e = engine(3);
    present_frame(&mut e, 0);
    assert_eq!(e.step(Event::Frame), Action::Acquire);
    assert_eq!(e.step(Event::AcquireStale), Action::Recreate(config(800, 600)));
    assert_eq!(e.phase, Phase::Recreating { config: config(800, 600) });
    match e.step(Event::Recreated(3)) {
        Action::Rebuild { wait_all, pipeline, programs } => {
            assert!(wait_all.is_empty());
            assert_eq!(pipeline, None);
            assert_eq!(programs.len(), 3);
            assert!(programs.iter().all(|p| p.target.ring_generation == 1 && p.pipeline == 0));
        }
        other => panic!("expected a rebuild, got {:?}", other),
    }
    assert!(!e.flags.ring_stale);
    assert_eq!(e.step(Event::Rebuilt), Action::Acquire);
    assert_eq!(e.phase, Phase::Acquiring { after_recreate: true });
    assert_eq!(
        e.step(Event::Acquired(2)),
        Action::Submit { slot: 2, wait: None, after: Some(0), signal: 1 }
    );
    assert_eq!(e.ring.generation, 1);
    assert_eq!(e.programs.map(|p| p.ring_generation), Some(1));
}

#[test]
fn stale_again_after_recreation_is_fatal() {
    let mut e = engine(2);
    present_frame(&mut e, 1);
    e.step(Event::Frame);
    e.step(Event::AcquireStale);
    e.step(Event::Recreated(2));
    e.step(Event::Rebuilt);
    assert_eq!(e.step(Event::AcquireStale), Action::Drain(vec![0]));
    assert_eq!(e.phase, Phase::Draining { failure: Some(LoopError::PersistentStale) });
    assert_eq!(e.step(Event::Drained), Action::Exit(Some(LoopError::PersistentStale)));
}

#[test]
fn zero_extent_resize_never_recreates_and_keeps_the_flag() {
    let mut e = engine(3);
    present_frame(&mut e, 0);
    assert_eq!(e.step(Event::Resized(Extent { width: 0, height: 0 })), Action::Idle);
    assert!(e.flags.needs_resize);
    for _ in 0..3 {
        assert_eq!(e.step(Event::Frame), Action::Acquire);
        assert_eq!(e.step(Event::Acquired(1)), Action::Idle);
        assert!(e.flags.needs_resize);
        assert_eq!(e.phase, Phase::Idle);
    }
    assert_eq!(e.step(Event::Frame), Action::Acquire);
    assert_eq!(e.step(Event::AcquireStale), Action::Idle);
    assert!(e.flags.ring_stale);
    e.step(Event::Resized(Extent { width: 640, height: 480 }));
    e.step(Event::Resized(Extent { width: 1024, height: 768 }));
    assert_eq!(e.step(Event::Frame), Action::Acquire);
    assert_eq!(e.step(Event::Acquired(1)), Action::Recreate(config(1024, 768)));
}

#[test]
fn resize_replaces_the_pipeline_and_every_program() {
    let mut e = engine(3);
    present_frame(&mut e, 0);
    e.step(Event::Resized(Extent { width: 1024, height: 768 }));
    e.step(Event::Frame);
    assert_eq!(e.step(Event::Acquired(1)), Action::Recreate(config(1024, 768)));
    match e.step(Event::Recreated(3)) {
        Action::Rebuild { pipeline, programs, .. } => {
            assert_eq!(pipeline, Some(PipelineState { id: 1, extent: Extent { width: 1024, height: 768 } }));
            assert_eq!(programs.len(), 3);
            for (i, p) in programs.iter().enumerate() {
                assert_eq!(p.pipeline, 1);
                assert_eq!(p.target.slot, i as u32);
                assert_eq!(p.commands[1], Command::BindPipeline(PipelineBinding::Graphics(1)));
            }
        }
        other => panic!("expected a rebuild, got {:?}", other),
    }
    assert!(!e.flags.needs_resize);
    assert_eq!(e.ring.config.extent, Extent { width: 1024, height: 768 });
}

#[test]
fn changed_slot_count_drains_and_resizes_the_table() {
    let mut e = engine(2);
    present_frame(&mut e, 0);
    present_frame(&mut e, 1);
    e.step(Event::Frame);
    e.step(Event::AcquireStale);
    match e.step(Event::Recreated(4)) {
        Action::Rebuild { wait_all, programs, .. } => {
            assert_eq!(wait_all, vec![0, 1]);
            assert_eq!(programs.len(), 4);
        }
        other => panic!("expected a rebuild, got {:?}", other),
    }
    assert_eq!(e.fences.entries, vec![None, None, None, None]);
    assert_eq!(e.ring.slot_count, 4);
}

#[test]
fn close_while_presenting_drains_every_pending_signal() {
    let mut e = engine(4);
    present_frame(&mut e, 0);
    present_frame(&mut e, 2);
    submit_frame(&mut e, 3);
    assert_eq!(e.phase, Phase::Presenting { slot: 3 });
    assert_eq!(e.step(Event::CloseRequested), Action::Drain(vec![0, 1, 2]));
    assert_eq!(e.phase, Phase::Draining { failure: None });
    assert_eq!(e.step(Event::Presented), Action::Idle);
    assert_eq!(e.step(Event::Frame), Action::Idle);
    assert_eq!(e.step(Event::Drained), Action::Exit(None));
    assert_eq!(e.phase, Phase::Finished { failure: None });
    assert_eq!(e.step(Event::CloseRequested), Action::Idle);
}

#[test]
fn present_stale_marks_the_ring_for_the_next_tick() {
    let mut e = engine(3);
    submit_frame(&mut e, 0);
    assert_eq!(e.step(Event::PresentStale), Action::Idle);
    assert!(e.flags.ring_stale);
    assert_eq!(e.fences.entries[0], Some(0));
    e.step(Event::Frame);
    assert_eq!(e.step(Event::Acquired(1)), Action::Recreate(config(800, 600)));
}

#[test]
fn slot_outside_the_ring_is_fatal() {
    let mut e = engine(3);
    present_frame(&mut e, 0);
    e.step(Event::Frame);
    assert_eq!(e.step(Event::Acquired(3)), Action::Drain(vec![0]));
    assert_eq!(e.phase, Phase::Draining { failure: Some(LoopError::InvalidSlot) });
}

#[test]
fn device_failure_drains_then_exits_with_the_error() {
    let mut e = engine(3);
    submit_frame(&mut e, 2);
    assert_eq!(e.step(Event::DeviceFailure), Action::Drain(vec![0]));
    assert_eq!(e.step(Event::Drained), Action::Exit(Some(LoopError::DeviceFailure)));
}

#[test]
fn result_without_a_request_is_fatal() {
    let mut e = engine(3);
    assert_eq!(e.step(Event::Rebuilt), Action::Drain(vec![]));
    assert_eq!(e.phase, Phase::Draining { failure: Some(LoopError::UnexpectedEvent) });
}

#[test]
fn frame_while_busy_is_ignored() {
    let mut e = engine(3);
    e.step(Event::Frame);
    assert_eq!(e.step(Event::Frame), Action::Idle);
    assert_eq!(e.phase, Phase::Acquiring { after_recreate: false });
}

#[test]
fn suboptimal_acquire_counts_as_stale() {
    assert_eq!(Event::from_acquire(2, true), Event::AcquireStale);
    assert_eq!(Event::from_acquire(2, false), Event::Acquired(2));
}
