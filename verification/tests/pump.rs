use rusty_doom::engine::{frame_dims, FrameDims};
use rusty_doom::pump::{Diagnostic, FramePump, Phase, PumpAction, PumpEvent};

fn active(width: u32, height: u32) -> FramePump {
    let mut pump = FramePump::new();
    pump.on_surface_created();
    pump.on_resize(width, height);
    pump
}

#[test]
fn new_pump_waits_for_a_surface() {
    let pump = FramePump::new();
    assert_eq!(pump, FramePump { phase: Phase::Uninitialized, width: 0, height: 0 });
}

#[test]
fn surface_creation_activates() {
    let mut pump = FramePump::new();
    pump.on_surface_created();
    assert_eq!(pump.phase, Phase::Active);
    pump.on_surface_created();
    assert_eq!(pump.phase, Phase::Active);
}

#[test]
fn resize_sets_the_backbuffer_size() {
    let mut pump = active(960, 600);
    assert_eq!((pump.width, pump.height), (960, 600));
    assert_eq!(
        pump.on_resize(800, 600),
        vec![PumpAction::ResizeSurface { width: 800, height: 600 }]
    );
    assert_eq!((pump.width, pump.height), (800, 600));
}

#[test]
fn resize_to_zero_leaves_the_backbuffer_size() {
    for (w, h) in [(0, 600), (800, 0), (0, 0)] {
        let mut pump = active(960, 600);
        assert_eq!(pump.on_resize(w, h), vec![]);
        assert_eq!((pump.width, pump.height), (960, 600));
        assert_eq!(pump.phase, Phase::Active);
    }
}

#[test]
fn resize_twice_is_resize_once() {
    let mut pump = active(960, 600);
    let first = pump.on_resize(640, 480);
    let after_first = pump;
    let second = pump.on_resize(640, 480);
    assert_eq!(pump, after_first);
    assert_eq!(first, second);
}

#[test]
fn resize_without_a_surface_is_only_reported() {
    let mut pump = FramePump::new();
    assert_eq!(
        pump.on_resize(800, 600),
        vec![PumpAction::Report(Diagnostic::ResizeWithoutSurface)]
    );
    assert_eq!(pump, FramePump::new());
}

#[test]
fn redraw_without_a_surface_is_only_reported() {
    let pump = FramePump::new();
    assert_eq!(pump.on_redraw(), vec![PumpAction::Report(Diagnostic::RedrawWithoutSurface)]);
}

#[test]
fn redraw_flushes_ticks_once_and_fetches() {
    let pump = active(960, 600);
    assert_eq!(
        pump.on_redraw(),
        vec![PumpAction::FlushInput, PumpAction::Tick, PumpAction::FetchFrame]
    );
}

#[test]
fn frame_is_scaled_presented_and_followed_by_a_redraw() {
    let pump = active(800, 600);
    let frame = frame_dims(true, 320, 200);
    assert_eq!(
        pump.on_frame(frame),
        vec![
            PumpAction::Scale { dst_w: 800, dst_h: 600, src_w: 320, src_h: 200 },
            PumpAction::Present,
            PumpAction::RequestRedraw,
        ]
    );
}

#[test]
fn frame_is_skipped_while_the_backbuffer_is_unsized() {
    let mut pump = FramePump::new();
    pump.on_surface_created();
    assert_eq!(pump.on_frame(frame_dims(true, 320, 200)), vec![PumpAction::RequestRedraw]);
}

#[test]
fn frame_is_skipped_when_the_engine_has_none() {
    let pump = active(800, 600);
    assert_eq!(pump.on_frame(None), vec![PumpAction::RequestRedraw]);
    assert_eq!(pump.on_frame(frame_dims(false, 320, 200)), vec![PumpAction::RequestRedraw]);
}

#[test]
fn first_redraw_before_any_resize_keeps_the_loop_going() {
    let mut pump = FramePump::new();
    assert_eq!(pump.on_event(&PumpEvent::SurfaceCreated), vec![]);
    assert_eq!(
        pump.on_event(&PumpEvent::RedrawRequested),
        vec![PumpAction::FlushInput, PumpAction::Tick, PumpAction::FetchFrame]
    );
    assert_eq!(pump.on_frame(frame_dims(true, 320, 200)), vec![PumpAction::RequestRedraw]);
    assert_eq!((pump.width, pump.height), (0, 0));
    pump.on_event(&PumpEvent::Resized { width: 0, height: 600 });
    assert_eq!(pump.on_frame(frame_dims(true, 320, 200)), vec![PumpAction::RequestRedraw]);
    pump.on_event(&PumpEvent::Resized { width: 640, height: 400 });
    assert_eq!(
        pump.on_frame(frame_dims(true, 320, 200)),
        vec![
            PumpAction::Scale { dst_w: 640, dst_h: 400, src_w: 320, src_h: 200 },
            PumpAction::Present,
            PumpAction::RequestRedraw,
        ]
    );
}

#[test]
fn every_frame_of_an_active_pump_ends_with_a_redraw_request() {
    let frames = [None, frame_dims(true, 320, 200), frame_dims(true, 1, 1)];
    for pump in [active(800, 600), active(1, 1), {
        let mut p = FramePump::new();
        p.on_surface_created();
        p
    }] {
        for frame in frames {
            assert_eq!(pump.on_frame(frame).last(), Some(&PumpAction::RequestRedraw));
        }
    }
}

#[test]
fn frame_without_a_live_surface_asks_for_nothing() {
    let waiting = FramePump::new();
    assert_eq!(waiting.on_frame(frame_dims(true, 320, 200)), vec![]);
    assert_eq!(waiting.on_frame(None), vec![]);
}

#[test]
fn frame_is_skipped_without_a_surface() {
    let pump = FramePump { phase: Phase::Terminated, width: 800, height: 600 };
    assert_eq!(pump.on_frame(frame_dims(true, 320, 200)), vec![]);
}

#[test]
fn close_terminates_for_good() {
    let mut pump = active(800, 600);
    assert_eq!(pump.on_close_or_quit_key(), vec![PumpAction::Exit]);
    assert_eq!(pump.phase, Phase::Terminated);
    pump.on_surface_created();
    assert_eq!(pump.phase, Phase::Terminated);
    assert_eq!(
        pump.on_resize(640, 480),
        vec![PumpAction::Report(Diagnostic::ResizeWithoutSurface)]
    );
    assert_eq!((pump.width, pump.height), (800, 600));
    assert_eq!(pump.on_redraw(), vec![PumpAction::Report(Diagnostic::RedrawWithoutSurface)]);
    assert_eq!(pump.on_close_or_quit_key(), vec![PumpAction::Exit]);
    assert_eq!(pump.phase, Phase::Terminated);
}

#[test]
fn events_are_dispatched() {
    let mut pump = FramePump::new();
    assert_eq!(pump.on_event(&PumpEvent::SurfaceCreated), vec![]);
    assert_eq!(pump.phase, Phase::Active);
    assert_eq!(
        pump.on_event(&PumpEvent::Resized { width: 960, height: 600 }),
        vec![PumpAction::ResizeSurface { width: 960, height: 600 }]
    );
    assert_eq!(pump.on_event(&PumpEvent::Resized { width: 0, height: 600 }), vec![]);
    assert_eq!((pump.width, pump.height), (960, 600));
    assert_eq!(
        pump.on_event(&PumpEvent::RedrawRequested),
        vec![PumpAction::FlushInput, PumpAction::Tick, PumpAction::FetchFrame]
    );
    assert_eq!(pump.on_event(&PumpEvent::Other), vec![]);
    assert_eq!(pump.phase, Phase::Active);
    assert_eq!(pump.on_event(&PumpEvent::QuitKey), vec![PumpAction::Exit]);
    assert_eq!(pump.phase, Phase::Terminated);
}

#[test]
fn close_request_exits() {
    let mut pump = active(960, 600);
    assert_eq!(pump.on_event(&PumpEvent::CloseRequested), vec![PumpAction::Exit]);
    assert_eq!(pump.phase, Phase::Terminated);
}
