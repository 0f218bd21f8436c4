//! Frame pump: the life cycle of the presentation surface and the order of
//! work in one redraw.
//!
//! The pump decides and the caller acts. Each operation takes what the host
//! reported, updates the pump, and returns the steps to carry out, in order.
//! A redraw comes in two parts, because the frame exists only once the engine
//! has ticked: `on_redraw` asks for the tick and the fetch, and `on_frame`,
//! given what was fetched, asks for the scaling and the present, and in any
//! case for the next redraw: the loop is continuous, not on demand.

use vstd::prelude::*;
use crate::engine::FrameDims;

verus! {

/// Where the pump is in its life.
#[derive(Clone, Copy, Debug, PartialEq, Eq)]
pub enum Phase {
    /// No surface has been created yet.
    Uninitialized,
    /// A surface exists and frames are being pumped.
    Active,
    /// The pump has been shut down, for good.
    Terminated,
}

/// Something worth telling the operator about, though nothing has failed.
#[derive(Clone, Copy, Debug, PartialEq, Eq)]
pub enum Diagnostic {
    /// A resize arrived while no surface was alive.
    ResizeWithoutSurface,
    /// A redraw request arrived while no surface was alive.
    RedrawWithoutSurface,
}

/// One step for the caller to carry out.
#[derive(Clone, Copy, Debug, PartialEq, Eq)]
pub enum PumpAction {
    /// Log the diagnostic.
    Report(Diagnostic),
    /// Resize the surface's backbuffer to this size.
    ResizeSurface { width: u32, height: u32 },
    /// Flush the buffered input into the engine.
    FlushInput,
    /// Advance the engine by one tick.
    Tick,
    /// Fetch the engine's frame and hand its size to `on_frame`.
    FetchFrame,
    /// Scale the fetched frame into the backbuffer, with these dimensions.
    Scale { dst_w: usize, dst_h: usize, src_w: usize, src_h: usize },
    /// Present the backbuffer.
    Present,
    /// Ask the host for the next redraw.
    RequestRedraw,
    /// Leave the event loop.
    Exit,
}

/// What the host reports to the pump.
#[derive(Clone, Copy, Debug, PartialEq, Eq)]
pub enum PumpEvent {
    /// The presentation surface was created.
    SurfaceCreated,
    /// The window now has this size.
    Resized { width: u32, height: u32 },
    /// The window is to be drawn again.
    RedrawRequested,
    /// The user asked for the window to close.
    CloseRequested,
    /// The quit key was used.
    QuitKey,
    /// Anything else.
    Other,
}

/// The frame pump: its phase and the size of the backbuffer, which is zero by
/// zero until the first resize.
#[derive(Clone, Copy, Debug, PartialEq, Eq)]
pub struct FramePump {
    pub phase: Phase,
    pub width: u32,
    pub height: u32,
}

impl FramePump {
    /// The pump before any surface exists.
    pub open spec fn initial() -> FramePump {
        FramePump { phase: Phase::Uninitialized, width: 0, height: 0 }
    }

    /// The backbuffer is either unsized or has two positive dimensions, and it
    /// is unsized as long as no surface was ever created.
    pub open spec fn wf(self) -> bool {
        &&& (self.width == 0) == (self.height == 0)
        &&& self.phase is Uninitialized ==> self.width == 0
    }

    /// The backbuffer has been given a size.
    pub open spec fn is_sized(self) -> bool {
        self.width > 0 && self.height > 0
    }

    /// The pump after the host created the surface.
    pub open spec fn after_surface_created(self) -> FramePump {
        if self.phase is Uninitialized {
            FramePump { phase: Phase::Active, ..self }
        } else {
            self
        }
    }

    /// The pump after a resize to `width` by `height`.
    pub open spec fn after_resize(self, width: u32, height: u32) -> FramePump {
        if self.phase is Active && width != 0 && height != 0 {
            FramePump { width, height, ..self }
        } else {
            self
        }
    }

    /// What a resize to `width` by `height` asks for.
    pub open spec fn resize_actions(self, width: u32, height: u32) -> Seq<PumpAction> {
        if !(self.phase is Active) {
            seq![PumpAction::Report(Diagnostic::ResizeWithoutSurface)]
        } else if width != 0 && height != 0 {
            seq![PumpAction::ResizeSurface { width, height }]
        } else {
            seq![]
        }
    }

    /// What a redraw request asks for, up to the fetch of the frame.
    pub open spec fn redraw_actions(self) -> Seq<PumpAction> {
        if self.phase is Active {
            seq![PumpAction::FlushInput, PumpAction::Tick, PumpAction::FetchFrame]
        } else {
            seq![PumpAction::Report(Diagnostic::RedrawWithoutSurface)]
        }
    }

    /// The frame is shown: the pump is active, a frame was fetched and the
    /// backbuffer has a size.
    pub open spec fn shows(self, frame: Option<FrameDims>) -> bool {
        self.phase is Active && frame is Some && self.is_sized()
    }

    /// What is left to do in a redraw once the frame has been fetched. A
    /// frame that is shown is scaled and presented; a frame that is not, for
    /// want of a frame or of a sized backbuffer, is skipped. Either way an
    /// active pump asks for the next redraw.
    pub open spec fn frame_actions(self, frame: Option<FrameDims>) -> Seq<PumpAction> {
        if self.shows(frame) {
            seq![
                PumpAction::Scale {
                    dst_w: self.width as usize,
                    dst_h: self.height as usize,
                    src_w: frame->0.width,
                    src_h: frame->0.height,
                },
                PumpAction::Present,
                PumpAction::RequestRedraw,
            ]
        } else if self.phase is Active {
            seq![PumpAction::RequestRedraw]
        } else {
            seq![]
        }
    }

    /// The pump after a close request or the quit key.
    pub open spec fn after_close(self) -> FramePump {
        FramePump { phase: Phase::Terminated, ..self }
    }

    /// The pump after a host event.
    pub open spec fn after(self, ev: PumpEvent) -> FramePump {
        match ev {
            PumpEvent::SurfaceCreated => self.after_surface_created(),
            PumpEvent::Resized { width, height } => self.after_resize(width, height),
            PumpEvent::CloseRequested => self.after_close(),
            PumpEvent::QuitKey => self.after_close(),
            _ => self,
        }
    }

    /// What a host event asks for, in the order in which it is to be done.
    pub open spec fn actions(self, ev: PumpEvent) -> Seq<PumpAction> {
        match ev {
            PumpEvent::Resized { width, height } => self.resize_actions(width, height),
            PumpEvent::RedrawRequested => self.redraw_actions(),
            PumpEvent::CloseRequested => seq![PumpAction::Exit],
            PumpEvent::QuitKey => seq![PumpAction::Exit],
            _ => seq![],
        }
    }

    /// A pump with no surface yet.
    pub fn new() -> (pump: FramePump)
        ensures
            pump == FramePump::initial(),
            pump.wf(),
    {
        FramePump { phase: Phase::Uninitialized, width: 0, height: 0 }
    }

    /// Takes one host event: updates the pump and returns what is to be done
    /// for it.
    pub fn on_event(&mut self, ev: &PumpEvent) -> (out: Vec<PumpAction>)
        ensures
            *final(self) == old(self).after(*ev),
            out@ == old(self).actions(*ev),
            old(self).wf() ==> final(self).wf(),
    {
        match ev {
            PumpEvent::SurfaceCreated => {
                self.on_surface_created();
                Vec::new()
            },
            PumpEvent::Resized { width, height } => self.on_resize(*width, *height),
            PumpEvent::RedrawRequested => self.on_redraw(),
            PumpEvent::CloseRequested => self.on_close_or_quit_key(),
            PumpEvent::QuitKey => self.on_close_or_quit_key(),
            PumpEvent::Other => Vec::new(),
        }
    }

    /// The host created the surface: a pump that was waiting for it becomes
    /// active. A terminated pump stays terminated.
    pub fn on_surface_created(&mut self)
        ensures
            *final(self) == old(self).after_surface_created(),
            old(self).wf() ==> final(self).wf(),
    {
        match self.phase {
            Phase::Uninitialized => {
                self.phase = Phase::Active;
            },
            _ => {},
        }
    }

    /// The window was resized. With a live surface and two positive
    /// dimensions the backbuffer follows; with a zero dimension nothing
    /// happens; without a live surface nothing happens but a diagnostic.
    pub fn on_resize(&mut self, width: u32, height: u32) -> (out: Vec<PumpAction>)
        ensures
            *final(self) == old(self).after_resize(width, height),
            out@ == old(self).resize_actions(width, height),
            width == 0 || height == 0 ==> final(self).width == old(self).width,
            width == 0 || height == 0 ==> final(self).height == old(self).height,
            old(self).wf() ==> final(self).wf(),
    {
        let mut out: Vec<PumpAction> = Vec::new();
        match self.phase {
            Phase::Active => {
                if width != 0 && height != 0 {
                    self.width = width;
                    self.height = height;
                    out.push(PumpAction::ResizeSurface { width, height });
                }
            },
            _ => {
                out.push(PumpAction::Report(Diagnostic::ResizeWithoutSurface));
            },
        }
        assert(out@ =~= old(self).resize_actions(width, height));
        out
    }

    /// The host asked for a redraw. With a live surface the engine takes its
    /// buffered input, advances by exactly one tick and hands out its frame;
    /// without one nothing happens but a diagnostic.
    pub fn on_redraw(&self) -> (out: Vec<PumpAction>)
        ensures
            out@ == self.redraw_actions(),
    {
        let mut out: Vec<PumpAction> = Vec::new();
        match self.phase {
            Phase::Active => {
                out.push(PumpAction::FlushInput);
                out.push(PumpAction::Tick);
                out.push(PumpAction::FetchFrame);
            },
            _ => {
                out.push(PumpAction::Report(Diagnostic::RedrawWithoutSurface));
            },
        }
        assert(out@ =~= self.redraw_actions());
        out
    }

    /// The frame of this redraw was fetched. If there is a frame and the
    /// backbuffer has a size, the frame is scaled into it and presented;
    /// otherwise the frame is skipped. In both cases the next redraw is asked
    /// for, so that the engine keeps running. A pump without a live surface
    /// asks for nothing.
    pub fn on_frame(&self, frame: Option<FrameDims>) -> (out: Vec<PumpAction>)
        ensures
            out@ == self.frame_actions(frame),
            self.phase is Active ==> out@.len() > 0 && out@.last() == PumpAction::RequestRedraw,
            !self.shows(frame) ==> forall|i: int|
                0 <= i < out@.len() ==> !(out@[i] is Scale) && !(out@[i] is Present),
    {
        let mut out: Vec<PumpAction> = Vec::new();
        match self.phase {
            Phase::Active => {
                if let Some(f) = frame {
                    if self.width != 0 && self.height != 0 {
                        out.push(
                            PumpAction::Scale {
                                dst_w: self.width as usize,
                                dst_h: self.height as usize,
                                src_w: f.width,
                                src_h: f.height,
                            },
                        );
                        out.push(PumpAction::Present);
                    }
                }
                out.push(PumpAction::RequestRedraw);
            },
            _ => {},
        }
        assert(out@ =~= self.frame_actions(frame));
        out
    }

    /// The window is to close, or the quit key was pressed: the pump
    /// terminates and the event loop is left.
    pub fn on_close_or_quit_key(&mut self) -> (out: Vec<PumpAction>)
        ensures
            *final(self) == old(self).after_close(),
            out@ == seq![PumpAction::Exit],
            old(self).wf() ==> final(self).wf(),
    {
        self.phase = Phase::Terminated;
        let mut out: Vec<PumpAction> = Vec::new();
        out.push(PumpAction::Exit);
        assert(out@ =~= seq![PumpAction::Exit]);
        out
    }
}

/// A resize with a zero width or a zero height changes nothing and asks for
/// nothing to be done to the surface.
pub proof fn lemma_zero_resize_is_ignored(pump: FramePump, width: u32, height: u32)
    requires
        width == 0 || height == 0,
    ensures
        pump.after_resize(width, height) == pump,
        pump.phase is Active ==> pump.resize_actions(width, height) == Seq::<PumpAction>::empty(),
{
}

/// Resizing is idempotent: a second resize to the same size leaves the pump
/// as the first left it, and asks for the same as the first.
pub proof fn lemma_resize_idempotent(pump: FramePump, width: u32, height: u32)
    ensures
        pump.after_resize(width, height).after_resize(width, height) == pump.after_resize(
            width,
            height,
        ),
        pump.after_resize(width, height).resize_actions(width, height) == pump.resize_actions(
            width,
            height,
        ),
{
}

/// Termination is final: whatever arrives afterwards, the pump stays
/// terminated, the surface and the engine are left alone, and no frame is
/// shown.
pub proof fn lemma_terminated_is_final(
    pump: FramePump,
    width: u32,
    height: u32,
    frame: Option<FrameDims>,
)
    requires
        pump.phase is Terminated,
    ensures
        forall|ev: PumpEvent| pump.after(ev) == pump,
        pump.resize_actions(width, height) == seq![
            PumpAction::Report(Diagnostic::ResizeWithoutSurface),
        ],
        pump.redraw_actions() == seq![PumpAction::Report(Diagnostic::RedrawWithoutSurface)],
        pump.frame_actions(frame) == Seq::<PumpAction>::empty(),
{
}

/// A redraw on a live surface runs the engine and keeps the loop going,
/// whether or not there is anything to show: the input is flushed, the engine
/// ticks exactly once, the frame is fetched, and whatever the fetch brings,
/// the next redraw is the last thing asked for. A frame that is not shown is
/// neither scaled nor presented.
pub proof fn lemma_redraw_is_always_rescheduled(pump: FramePump, frame: Option<FrameDims>)
    requires
        pump.phase is Active,
    ensures
        pump.actions(PumpEvent::RedrawRequested) == seq![
            PumpAction::FlushInput,
            PumpAction::Tick,
            PumpAction::FetchFrame,
        ],
        pump.frame_actions(frame).len() > 0,
        pump.frame_actions(frame).last() == PumpAction::RequestRedraw,
        !pump.shows(frame) ==> pump.frame_actions(frame) == seq![PumpAction::RequestRedraw],
        pump.shows(frame) ==> pump.frame_actions(frame).len() == 3 && pump.frame_actions(
            frame,
        )[0] is Scale && pump.frame_actions(frame)[1] == PumpAction::Present,
{
}

/// The backbuffer's size changes on resize events only.
pub proof fn lemma_only_resize_changes_size(pump: FramePump, ev: PumpEvent)
    requires
        !(ev is Resized),
    ensures
        pump.after(ev).width == pump.width,
        pump.after(ev).height == pump.height,
{
}

/// The pump after a run of host events, taken in order.
pub open spec fn after_all(pump: FramePump, events: Seq<PumpEvent>) -> FramePump
    decreases events.len(),
{
    if events.len() == 0 {
        pump
    } else {
        after_all(pump, events.drop_last()).after(events.last())
    }
}

/// Whatever the host reports, a pump that started out new is well formed, and
/// once it has terminated it stays so.
pub proof fn lemma_reachable_pump(events: Seq<PumpEvent>, more: Seq<PumpEvent>)
    ensures
        after_all(FramePump::initial(), events).wf(),
        after_all(FramePump::initial(), events).phase is Terminated ==> after_all(
            FramePump::initial(),
            events + more,
        ).phase is Terminated,
    decreases events.len(), more.len(),
{
    if events.len() > 0 {
        lemma_reachable_pump(events.drop_last(), Seq::empty());
    }
    if more.len() == 0 {
        assert(events + more =~= events);
    } else {
        lemma_reachable_pump(events, more.drop_last());
        assert((events + more).drop_last() =~= events + more.drop_last());
    }
}

} // verus!
