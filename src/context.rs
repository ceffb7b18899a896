use vstd::prelude::*;
use crate::config::{ConfigError, WindowOptions};
use crate::dispatch::{Action, Event, FrameLoop, LoopState, Phase};
use crate::layers::{failures_in_order, frame_ops, FrameReport, FrameTarget, Layer, LayerRegistry};

verus! {

/// The application root: the window's options, the frame scheduler and the
/// layers painted on every frame.
pub struct Context<L> {
    options: WindowOptions,
    frame_loop: FrameLoop,
    layers: LayerRegistry<L>,
}

impl<L> Context<L> {
    pub closed spec fn options(&self) -> WindowOptions {
        self.options
    }

    pub closed spec fn loop_state(&self) -> LoopState {
        self.frame_loop@
    }

    pub closed spec fn layers(&self) -> Seq<L> {
        self.layers@
    }

    pub open spec fn wf(&self) -> bool {
        self.loop_state().wf() && self.options().valid()
    }

    /// A context for a window built from `options` whose physical size is
    /// `width` by `height`: dirty, idle, with no layers. Options with an empty
    /// size or a translucent background are refused.
    pub fn new(options: WindowOptions, width: u32, height: u32) -> (r: Result<Context<L>, ConfigError>)
        ensures
            (options.width == 0 || options.height == 0) ==> r == Err::<Context<L>, ConfigError>(
                ConfigError::EmptySize,
            ),
            (options.width > 0 && options.height > 0 && !options.background.is_opaque()) ==> r
                == Err::<Context<L>, ConfigError>(ConfigError::TranslucentBackground),
            r matches Ok(c) ==> {
                &&& c.wf()
                &&& c.options() == options
                &&& c.layers().len() == 0
                &&& c.loop_state() == LoopState::initial(width, height)
            },
            r is Ok <==> options.valid(),
    {
        if options.width == 0 || options.height == 0 {
            return Err(ConfigError::EmptySize);
        }
        if options.background.a != 255 {
            return Err(ConfigError::TranslucentBackground);
        }
        Ok(Context { options, frame_loop: FrameLoop::new(width, height), layers: LayerRegistry::new() })
    }

    /// Registers `layer` on top of those already there.
    pub fn add_layer(&mut self, layer: L)
        ensures
            final(self).layers() == old(self).layers().push(layer),
            final(self).loop_state() == old(self).loop_state(),
            final(self).options() == old(self).options(),
    {
        self.layers.append(layer);
    }

    pub fn state(&self) -> (s: LoopState)
        ensures
            s == self.loop_state(),
    {
        self.frame_loop.state()
    }

    pub fn is_dirty(&self) -> (r: bool)
        ensures
            r == self.loop_state().dirty,
    {
        self.frame_loop.is_dirty()
    }

    /// Hands one platform event to the scheduler.
    pub fn handle_event(&mut self, e: Event) -> (a: Action)
        requires
            old(self).wf(),
            old(self).loop_state().phase == Phase::Idle || old(self).loop_state().phase
                == Phase::ShuttingDown,
        ensures
            (final(self).loop_state(), a) == old(self).loop_state().on_event(e),
            final(self).wf(),
            final(self).layers() == old(self).layers(),
            final(self).options() == old(self).options(),
    {
        self.frame_loop.handle_event(e)
    }

    /// Reports whether the bind asked for by `Action::Bind` succeeded.
    pub fn bind_finished(&mut self, ok: bool) -> (a: Action)
        requires
            old(self).wf(),
            old(self).loop_state().phase == Phase::Binding,
        ensures
            (final(self).loop_state(), a) == old(self).loop_state().on_bind(ok),
            final(self).wf(),
            final(self).layers() == old(self).layers(),
            final(self).options() == old(self).options(),
    {
        self.frame_loop.bind_finished(ok)
    }

    /// Paints the frame asked for by `Action::Paint`: clears to the
    /// background, paints every layer in order, presents, and marks the frame
    /// clean.
    pub fn redraw<T: FrameTarget>(&mut self, target: &mut T) -> (report: FrameReport) where
        L: Layer<T>,

        requires
            old(self).wf(),
            old(self).loop_state().phase == Phase::Painting,
        ensures
            report.ops@ == frame_ops(old(self).options().background, old(self).layers().len()),
            failures_in_order(report.failures@, old(self).layers().len()),
            final(self).loop_state() == old(self).loop_state().on_presented(),
            final(self).wf(),
            final(self).layers() == old(self).layers(),
            final(self).options() == old(self).options(),
    {
        let report = crate::layers::render_frame(target, self.options.background, &self.layers);
        self.frame_loop.frame_presented();
        report
    }
}

} // verus!
