use vstd::prelude::*;
use crate::config::Rgba;

verus! {

/// Something that paints itself onto a frame target of type `T`. Painting may
/// fail; a failure is reported as a message and never stops the frame.
pub trait Layer<T> {
    fn paint(&self, target: &mut T) -> Result<(), String>;
}

/// The drawing surface of one frame, as the frame sequence uses it.
pub trait FrameTarget {
    /// Fills the whole canvas with `color`.
    fn clear(&mut self, color: Rgba);

    /// Flushes the GPU work and presents the frame.
    fn present(&mut self);
}

/// One call made on a frame target during a frame, in the order made.
#[derive(PartialEq, Eq, Structural, Clone, Copy, Debug)]
pub enum FrameOp {
    /// The target was cleared to this color.
    Clear(Rgba),
    /// The layer of this registration index was asked to paint.
    Paint(usize),
    /// The frame was flushed and presented.
    Present,
}

/// A layer that failed during a frame, by its registration index.
#[derive(Clone, Debug)]
pub struct PaintFailure {
    pub layer: usize,
    pub message: String,
}

/// What happened during one frame or paint pass.
pub struct FrameReport {
    /// The calls made on the target, in the order made.
    pub ops: Vec<FrameOp>,
    /// The failures of the pass, in invocation order.
    pub failures: Vec<PaintFailure>,
}

/// The paint calls of a pass over `n` layers: each once, in registration order.
pub open spec fn layer_ops(n: nat) -> Seq<FrameOp> {
    Seq::new(n, |i: int| FrameOp::Paint(i as usize))
}

/// The calls of a whole frame: the clear to `background`, the pass over `n`
/// layers, then one present.
pub open spec fn frame_ops(background: Rgba, n: nat) -> Seq<FrameOp> {
    seq![FrameOp::Clear(background)] + layer_ops(n) + seq![FrameOp::Present]
}

/// The failures name layers among the first `n`, each at most once, in
/// registration order.
pub open spec fn failures_in_order(failures: Seq<PaintFailure>, n: nat) -> bool {
    &&& forall|i: int| 0 <= i < failures.len() ==> (#[trigger] failures[i]).layer < n
    &&& forall|i: int, j: int|
        0 <= i < j < failures.len() ==> (#[trigger] failures[i]).layer < (#[trigger] failures[j]).layer
}

/// Keeps the outcome of one layer's paint: a failure is appended, with the
/// layer's index and its message; a success leaves the list as it was.
pub fn record_outcome(failures: &mut Vec<PaintFailure>, layer: usize, outcome: Result<(), String>)
    ensures
        final(failures)@ == (match outcome {
            Ok(_) => old(failures)@,
            Err(m) => old(failures)@.push(PaintFailure { layer, message: m }),
        }),
{
    match outcome {
        Ok(()) => {},
        Err(message) => {
            failures.push(PaintFailure { layer, message });
        },
    }
}

/// Clears `target` to `color` and records it.
fn clear_target<T: FrameTarget>(target: &mut T, color: Rgba, ops: &mut Vec<FrameOp>)
    ensures
        final(ops)@ == old(ops)@.push(FrameOp::Clear(color)),
{
    target.clear(color);
    ops.push(FrameOp::Clear(color));
}

/// Presents `target` and records it.
fn present_target<T: FrameTarget>(target: &mut T, ops: &mut Vec<FrameOp>)
    ensures
        final(ops)@ == old(ops)@.push(FrameOp::Present),
{
    target.present();
    ops.push(FrameOp::Present);
}

/// The ordered, append-only collection of layers; the first registered is
/// painted first, at the back.
pub struct LayerRegistry<L> {
    layers: Vec<L>,
}

impl<L> LayerRegistry<L> {
    pub closed spec fn view(&self) -> Seq<L> {
        self.layers@
    }

    pub fn new() -> (r: LayerRegistry<L>)
        ensures
            r@ == Seq::<L>::empty(),
    {
        LayerRegistry { layers: Vec::new() }
    }

    /// Adds `layer` at the back: it is painted after, on top of, all others.
    pub fn append(&mut self, layer: L)
        ensures
            final(self)@ == old(self)@.push(layer),
    {
        self.layers.push(layer);
    }

    pub fn len(&self) -> (n: usize)
        ensures
            n == self@.len(),
    {
        self.layers.len()
    }

    /// Asks the layer at `i` to paint onto `target`, records the call and
    /// keeps its outcome.
    fn paint_layer<T>(
        &self,
        i: usize,
        target: &mut T,
        ops: &mut Vec<FrameOp>,
        failures: &mut Vec<PaintFailure>,
    ) where L: Layer<T>
        requires
            i < self@.len(),
        ensures
            final(ops)@ == old(ops)@.push(FrameOp::Paint(i)),
            final(failures)@ == old(failures)@ || exists|m: String|
                final(failures)@ == old(failures)@.push(PaintFailure { layer: i, message: m }),
    {
        let outcome = self.layers[i].paint(target);
        ops.push(FrameOp::Paint(i));
        record_outcome(failures, i, outcome);
    }

    /// Asks every layer, in registration order, to paint onto `target`,
    /// appending each call to `ops` and each failure to `failures`.
    fn paint_into<T>(&self, target: &mut T, ops: &mut Vec<FrameOp>, failures: &mut Vec<PaintFailure>) where
        L: Layer<T>,

        requires
            old(failures)@.len() == 0,
        ensures
            final(ops)@ == old(ops)@ + layer_ops(self@.len()),
            failures_in_order(final(failures)@, self@.len()),
    {
        let ghost ops0 = ops@;
        let mut i: usize = 0;
        while i < self.layers.len()
            invariant
                i <= self.layers@.len(),
                ops@ == ops0 + layer_ops(i as nat),
                failures_in_order(failures@, i as nat),
            decreases self.layers@.len() - i,
        {
            let ghost before = failures@;
            self.paint_layer(i, target, ops, failures);
            assert(layer_ops((i + 1) as nat) =~= layer_ops(i as nat).push(FrameOp::Paint(i)));
            assert(ops@ =~= ops0 + layer_ops((i + 1) as nat));
            assert(failures_in_order(failures@, (i + 1) as nat)) by {
                if failures@ != before {
                    let m = choose|m: String|
                        failures@ == before.push(PaintFailure { layer: i, message: m });
                    assert(failures@ == before.push(PaintFailure { layer: i, message: m }));
                }
            }
            i = i + 1;
        }
    }

    /// Invokes every layer once, in registration order, onto `target`; a
    /// failing layer does not keep the later ones from painting, and all the
    /// failures are returned.
    pub fn paint_all<T>(&self, target: &mut T) -> (report: FrameReport) where L: Layer<T>
        ensures
            report.ops@ == layer_ops(self@.len()),
            failures_in_order(report.failures@, self@.len()),
    {
        let mut ops: Vec<FrameOp> = Vec::new();
        let mut failures: Vec<PaintFailure> = Vec::new();
        self.paint_into(target, &mut ops, &mut failures);
        assert(ops@ =~= layer_ops(self@.len()));
        FrameReport { ops, failures }
    }
}

/// One frame: clears `target` to `background`, has every layer paint in
/// registration order, then presents once.
pub fn render_frame<T: FrameTarget, L: Layer<T>>(
    target: &mut T,
    background: Rgba,
    layers: &LayerRegistry<L>,
) -> (report: FrameReport)
    ensures
        report.ops@ == frame_ops(background, layers@.len()),
        failures_in_order(report.failures@, layers@.len()),
{
    let mut ops: Vec<FrameOp> = Vec::new();
    let mut failures: Vec<PaintFailure> = Vec::new();
    clear_target(target, background, &mut ops);
    layers.paint_into(target, &mut ops, &mut failures);
    present_target(target, &mut ops);
    assert(ops@ =~= frame_ops(background, layers@.len()));
    FrameReport { ops, failures }
}

} // verus!
