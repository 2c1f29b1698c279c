//! Layers of a Buoyant render target whose opacity the accelerator applies.
//!
//! A view asks for a layer by modifying a layer configuration. What it asked
//! for is read off a probe, a fresh configuration that the modification is run
//! on. The drawing then happens in a layer that is set up from the probe, at
//! full intensity; an opacity below full is applied when the finished layer is
//! blended onto what lies underneath.

use buoyant::primitives::geometry::Rectangle;
use buoyant::primitives::transform::{LinearTransform, ScaleFactor};
use buoyant::primitives::{Point, Size as BuoyantSize};
use buoyant::render_target::{LayerConfig, LayerHandle};
use vstd::prelude::*;

use crate::geometry::{fits_i32, Rect};

pub mod fidelity;
pub mod nesting;

verus! {

/// The scale factor 1 in a [`Transform`].
pub const SCALE_ONE: u32 = 16384;

/// A transformation from local to global coordinates: scaling, followed by a
/// shift.
#[derive(Copy, Clone, Debug, PartialEq, Eq, Structural)]
pub struct Transform {
    pub x: i32,
    pub y: i32,
    /// The scale factor times [`SCALE_ONE`].
    pub scale: u32,
}

/// A scale factor's bits as a signed number.
pub open spec fn signed_scale(scale: u32) -> int {
    if scale <= i32::MAX {
        scale as int
    } else {
        scale - 0x1_0000_0000
    }
}

/// The coordinate `v`, scaled and rounded down.
pub open spec fn scaled(v: int, scale: u32) -> int {
    v * signed_scale(scale) / (SCALE_ONE as int)
}

impl Transform {
    /// The transform that leaves everything in place.
    pub open spec fn identity() -> Transform {
        Transform { x: 0, y: 0, scale: SCALE_ONE }
    }

    /// Whether the point `(x, y)` can be transformed within the coordinate
    /// range.
    pub open spec fn can_map(self, x: int, y: int) -> bool {
        &&& fits_i32(x * signed_scale(self.scale))
        &&& fits_i32(y * signed_scale(self.scale))
        &&& fits_i32(scaled(x, self.scale) + self.x)
        &&& fits_i32(scaled(y, self.scale) + self.y)
    }

    /// Whether `inner` can be applied inside this transform within the
    /// coordinate range.
    pub open spec fn can_apply(self, inner: Transform) -> bool {
        &&& self.can_map(inner.x as int, inner.y as int)
        &&& self.scale * inner.scale / (SCALE_ONE as int) <= u32::MAX
    }

    /// The transform that applies `inner` first and this one to the result.
    pub open spec fn applying(self, inner: Transform) -> Transform {
        Transform {
            x: (scaled(inner.x as int, self.scale) + self.x) as i32,
            y: (scaled(inner.y as int, self.scale) + self.y) as i32,
            scale: (self.scale * inner.scale / (SCALE_ONE as int)) as u32,
        }
    }
}

impl Rect {
    /// Whether `t` takes the rectangle to one within the coordinate range.
    pub open spec fn can_apply(self, t: Transform) -> bool {
        &&& t.can_map(self.x as int, self.y as int)
        &&& self.width * t.scale <= u32::MAX
        &&& self.height * t.scale <= u32::MAX
        &&& self.applying(t).valid()
    }

    /// The rectangle in the coordinates that `t` leads to.
    pub open spec fn applying(self, t: Transform) -> Rect {
        Rect {
            x: (scaled(self.x as int, t.scale) + t.x) as i32,
            y: (scaled(self.y as int, t.scale) + t.y) as i32,
            width: (self.width * t.scale / (SCALE_ONE as int)) as u32,
            height: (self.height * t.scale / (SCALE_ONE as int)) as u32,
        }
    }
}

/// A layer configuration. `C` is the color type.
#[derive(Debug)]
pub struct Layer<C> {
    /// 0 is fully transparent, 255 fully opaque.
    pub alpha: u8,
    /// The color that drawing in the layer may assume to lie underneath.
    pub background_hint: Option<C>,
    /// From the layer's coordinates to the display's.
    pub transform: Transform,
    /// The clip area, in the display's coordinates.
    pub clip_rect: Rect,
}

/// One operation on a layer.
#[derive(Debug)]
pub enum LayerOp<C> {
    /// Clip the layer to a rectangle, given in the layer's coordinates.
    Clip(Rect),
    /// Apply a transform inside the layer's own.
    Transform(Transform),
    /// Tell the color that lies underneath.
    HintBackground(C),
}

/// Where the clip area of a probe starts, in both directions.
pub const PROBE_START: i32 = -0x4000_0000;

/// How far the clip area of a probe extends, in both directions.
pub const PROBE_EXTENT: u32 = 0x7FFF_FFFF;

/// The clip area of a probe. It lies around the origin on all sides, and is
/// larger than anything that a layer can be clipped to.
pub open spec fn probe_area() -> Rect {
    Rect { x: PROBE_START, y: PROBE_START, width: PROBE_EXTENT, height: PROBE_EXTENT }
}

impl<C> Layer<C> {
    /// A layer to read off what a modification asks for.
    pub open spec fn probe() -> Layer<C> {
        Layer {
            alpha: 255,
            background_hint: None,
            transform: Transform::identity(),
            clip_rect: probe_area(),
        }
    }

    /// The layer with `t` applied inside its own transform.
    pub open spec fn transformed(self, t: Transform) -> Layer<C> {
        Layer { transform: self.transform.applying(t), ..self }
    }

    /// The layer clipped to `r`, given in the layer's coordinates.
    pub open spec fn clipped(self, r: Rect) -> Layer<C> {
        Layer { clip_rect: r.applying(self.transform).clipped(self.clip_rect), ..self }
    }

    /// The layer with `hint` as its background hint, where there is one.
    pub open spec fn hinted(self, hint: Option<C>) -> Layer<C> {
        match hint {
            Some(_) => Layer { background_hint: hint, ..self },
            None => self,
        }
    }

    /// The layer after an operation. In a fully opaque layer a hint replaces
    /// the one before; no color is mixed.
    pub open spec fn after(self, op: LayerOp<C>) -> Layer<C> {
        match op {
            LayerOp::Clip(r) => self.clipped(r),
            LayerOp::Transform(t) => self.transformed(t),
            LayerOp::HintBackground(hint) => self.hinted(Some(hint)),
        }
    }

    /// The layer after operations in order.
    pub open spec fn after_all(self, ops: Seq<LayerOp<C>>) -> Layer<C>
        decreases ops.len(),
    {
        if ops.len() == 0 {
            self
        } else {
            self.after_all(ops.drop_last()).after(ops.last())
        }
    }

    /// Whether an operation stays within the coordinate range.
    pub open spec fn can_do(self, op: LayerOp<C>) -> bool {
        match op {
            LayerOp::Clip(r) => r.can_apply(self.transform) && self.clip_rect.valid(),
            LayerOp::Transform(t) => self.transform.can_apply(t),
            LayerOp::HintBackground(_) => true,
        }
    }

    /// Whether operations in order stay within the coordinate range.
    pub open spec fn can_do_all(self, ops: Seq<LayerOp<C>>) -> bool
        decreases ops.len(),
    {
        ops.len() == 0 || (self.can_do_all(ops.drop_last()) && self.after_all(
            ops.drop_last(),
        ).can_do(ops.last()))
    }
}

impl<C: Copy> Layer<C> {
    /// The layer after an operation on it, where it is fully opaque.
    pub fn apply(&self, op: &LayerOp<C>) -> (r: Layer<C>)
        requires
            self.alpha == 255,
            self.can_do(*op),
        ensures
            r == self.after(*op),
    {
        let mut background_hint = self.background_hint;
        let mut transform = self.transform;
        let mut clip_rect = self.clip_rect;
        match op {
            LayerOp::Clip(r) => {
                clip_rect = layer_handle_clip(transform, clip_rect, *r);
            },
            LayerOp::Transform(t) => {
                transform = layer_handle_transform(transform, *t);
            },
            LayerOp::HintBackground(hint) => {
                background_hint = Some(*hint);
            },
        }
        Layer { alpha: self.alpha, background_hint, transform, clip_rect }
    }
}

/// `LayerConfig::new_clip` of `buoyant`, as alpha, transform and clip area. The
/// contract claims a fully opaque layer with the identity transform and the
/// given clip area.
#[verifier::external_body]
fn layer_config_new_clip(r: Rect) -> (config: (u8, Transform, Rect))
    ensures
        config.0 == 255,
        config.1 == Transform::identity(),
        config.2 == r,
{
    let size = BuoyantSize::new(r.width, r.height);
    let c = LayerConfig::<()>::new_clip(Rectangle::new(Point::new(r.x, r.y), size));
    let t = Transform {
        x: c.transform.offset.x,
        y: c.transform.offset.y,
        scale: c.transform.scale.to_bits(),
    };
    let (o, s) = (c.clip_rect.origin, c.clip_rect.size);
    (c.alpha, t, Rect { x: o.x, y: o.y, width: s.width, height: s.height })
}

/// `LayerHandle::transform` of `buoyant`, on a layer with the transform `own`:
/// the layer's transform afterwards. The contract claims that `inner`'s offset
/// is scaled by `own`'s factor, rounded down and added to `own`'s offset, and
/// that the factors are multiplied, rounded down.
#[verifier::external_body]
fn layer_handle_transform(own: Transform, inner: Transform) -> (r: Transform)
    requires
        own.can_apply(inner),
    ensures
        r == own.applying(inner),
{
    let mut c = LayerConfig::<()>::new_sized(BuoyantSize::zero());
    c.transform.offset = Point::new(own.x, own.y);
    c.transform.scale = ScaleFactor::from_bits(own.scale);
    let by = LinearTransform {
        offset: Point::new(inner.x, inner.y),
        scale: ScaleFactor::from_bits(inner.scale),
    };
    LayerHandle::new(&mut c).transform(&by);
    let t = c.transform;
    Transform { x: t.offset.x, y: t.offset.y, scale: t.scale.to_bits() }
}

/// `LayerHandle::clip` of `buoyant`, on a layer with the transform `own` and
/// the clip area `clip_rect`: the layer's clip area afterwards. The contract
/// claims that it is what `r`, taken through `own`, has in common with the old
/// area, or the empty rectangle at the origin where that is nothing.
#[verifier::external_body]
fn layer_handle_clip(own: Transform, clip_rect: Rect, r: Rect) -> (clip: Rect)
    requires
        r.can_apply(own),
        clip_rect.valid(),
    ensures
        clip == r.applying(own).clipped(clip_rect),
{
    let size = BuoyantSize::new(clip_rect.width, clip_rect.height);
    let area = Rectangle::new(Point::new(clip_rect.x, clip_rect.y), size);
    let mut c = LayerConfig::<()>::new_clip(area);
    c.transform.offset = Point::new(own.x, own.y);
    c.transform.scale = ScaleFactor::from_bits(own.scale);
    let by = Rectangle::new(Point::new(r.x, r.y), BuoyantSize::new(r.width, r.height));
    LayerHandle::new(&mut c).clip(&by);
    let (o, s) = (c.clip_rect.origin, c.clip_rect.size);
    Rect { x: o.x, y: o.y, width: s.width, height: s.height }
}

/// The layer to probe a modification on: fully opaque, in place, without a
/// background hint, and with a clip area that shows whether the modification
/// clips.
pub fn probe_layer<C>() -> (r: Layer<C>)
    ensures
        r == Layer::<C>::probe(),
{
    let area = Rect {
        x: PROBE_START,
        y: PROBE_START,
        width: PROBE_EXTENT,
        height: PROBE_EXTENT,
    };
    let (alpha, transform, clip_rect) = layer_config_new_clip(area);
    Layer { alpha, background_hint: None, transform, clip_rect }
}

/// What the layer that is drawn in takes over from a probe. Opacity is not
/// part of it.
#[derive(Debug)]
pub struct LayerSetup<C> {
    /// In the coordinates around the transform. `None` does not clip.
    pub clip_rect: Option<Rect>,
    pub transform: Transform,
    pub background_hint: Option<C>,
}

impl<C> LayerSetup<C> {
    /// The setup that a probe calls for.
    pub open spec fn of(probe: Layer<C>) -> LayerSetup<C> {
        LayerSetup {
            clip_rect: if probe.clip_rect == probe_area() {
                None
            } else {
                Some(probe.clip_rect)
            },
            transform: probe.transform,
            background_hint: probe.background_hint,
        }
    }

    /// Whether the setup stays within the coordinate range inside `parent`.
    pub open spec fn can_apply(self, parent: Layer<C>) -> bool {
        &&& self.clip_rect matches Some(r) ==> r.can_apply(parent.transform)
            && parent.clip_rect.valid()
        &&& parent.transform.can_apply(self.transform)
    }

    /// The layer inside `parent` that the setup makes: clipped where it clips,
    /// then transformed, then hinted where there is a hint. The clip area that a
    /// probe ends up with is in the coordinates outside its transform, so the
    /// clip comes first.
    pub open spec fn applied(self, parent: Layer<C>) -> Layer<C> {
        (match self.clip_rect {
            Some(r) => parent.clipped(r),
            None => parent,
        }).transformed(self.transform).hinted(self.background_hint)
    }

    /// The operations that make the setup's layer, in order.
    pub open spec fn op_seq(self) -> Seq<LayerOp<C>> {
        (match self.clip_rect {
            Some(r) => seq![LayerOp::Clip(r)],
            None => seq![],
        }) + seq![LayerOp::Transform(self.transform)] + (match self.background_hint {
            Some(hint) => seq![LayerOp::HintBackground(hint)],
            None => seq![],
        })
    }
}

impl<C: Copy> LayerSetup<C> {
    /// The operations to perform on the layer that is drawn in, in order.
    pub fn ops(&self) -> (r: Vec<LayerOp<C>>)
        ensures
            r@ == self.op_seq(),
    {
        let mut ops: Vec<LayerOp<C>> = Vec::new();
        if let Some(r) = self.clip_rect {
            ops.push(LayerOp::Clip(r));
        }
        ops.push(LayerOp::Transform(self.transform));
        if let Some(hint) = self.background_hint {
            ops.push(LayerOp::HintBackground(hint));
        }
        assert(ops@ =~= self.op_seq());
        ops
    }

    /// The layer that is drawn in inside the fully opaque layer `parent`, as its
    /// operations make it.
    pub fn apply(&self, parent: &Layer<C>) -> (r: Layer<C>)
        requires
            parent.alpha == 255,
            self.can_apply(*parent),
        ensures
            r == self.applied(*parent),
    {
        let ops = self.ops();
        proof {
            law_ops_make_the_setup(*self, *parent);
        }
        let mut layer = Layer {
            alpha: parent.alpha,
            background_hint: parent.background_hint,
            transform: parent.transform,
            clip_rect: parent.clip_rect,
        };
        let mut i: usize = 0;
        assert(ops@.take(0) =~= seq![]);
        while i < ops.len()
            invariant
                i <= ops.len(),
                layer.alpha == 255,
                layer == parent.after_all(ops@.take(i as int)),
                parent.can_do_all(ops@),
            decreases ops.len() - i,
        {
            proof {
                lemma_can_do_prefix(*parent, ops@, i + 1);
            }
            assert(ops@.take(i + 1).drop_last() =~= ops@.take(i as int));
            layer = layer.apply(&ops[i]);
            i = i + 1;
        }
        assert(ops@.take(i as int) =~= ops@);
        layer
    }
}

/// Operations that can be performed in order can be stopped at any point.
proof fn lemma_can_do_prefix<C>(layer: Layer<C>, ops: Seq<LayerOp<C>>, n: int)
    requires
        layer.can_do_all(ops),
        0 <= n <= ops.len(),
    ensures
        layer.can_do_all(ops.take(n)),
    decreases ops.len(),
{
    if n == ops.len() {
        assert(ops.take(n) =~= ops);
    } else {
        lemma_can_do_prefix(layer, ops.drop_last(), n);
        assert(ops.drop_last().take(n) =~= ops.take(n));
    }
}

/// The operations of a setup, performed in order, make its layer, and stay
/// within the coordinate range where the setup does.
pub proof fn law_ops_make_the_setup<C>(setup: LayerSetup<C>, parent: Layer<C>)
    ensures
        parent.after_all(setup.op_seq()) == setup.applied(parent),
        parent.can_do_all(setup.op_seq()) <==> setup.can_apply(parent),
{
    let ops = setup.op_seq();
    reveal_with_fuel(Layer::after_all, 4);
    reveal_with_fuel(Layer::can_do_all, 4);
    let unhinted = if setup.background_hint is Some {
        ops.drop_last()
    } else {
        ops
    };
    assert(unhinted.last() == LayerOp::<C>::Transform(setup.transform));
    if let Some(r) = setup.clip_rect {
        assert(unhinted.drop_last() =~= seq![LayerOp::Clip(r)]);
        assert(unhinted.drop_last().drop_last() =~= seq![]);
    } else {
        assert(unhinted.drop_last() =~= seq![]);
    }
}

impl<C: Copy> Layer<C> {
    /// The setup that this layer, a probe that a modification was run on, calls
    /// for.
    pub fn setup(&self) -> (r: LayerSetup<C>)
        ensures
            r == LayerSetup::of(*self),
    {
        let clips = self.clip_rect.x != PROBE_START || self.clip_rect.y != PROBE_START
            || self.clip_rect.width != PROBE_EXTENT || self.clip_rect.height != PROBE_EXTENT;
        LayerSetup {
            clip_rect: if clips {
                Some(self.clip_rect)
            } else {
                None
            },
            transform: self.transform,
            background_hint: self.background_hint,
        }
    }
}

/// One step of drawing a layer.
#[derive(Debug)]
pub enum LayerStep<C> {
    /// Start a scratch layer that will be blended with the given alpha.
    PushLayer(u8),
    /// Draw, inside the layer that the setup makes.
    Draw(LayerSetup<C>),
    /// Blend the scratch layer onto what lies underneath.
    PopLayerBlend,
}

/// The steps for the layer that `probe` calls for. A fully transparent layer
/// is not drawn at all; a fully opaque one is drawn in place; any other is
/// drawn into a scratch layer, which is then blended with its alpha.
pub open spec fn layer_steps<C>(probe: Layer<C>) -> Seq<LayerStep<C>> {
    if probe.alpha == 0 {
        seq![]
    } else if probe.alpha == 255 {
        seq![LayerStep::Draw(LayerSetup::of(probe))]
    } else {
        seq![
            LayerStep::PushLayer(probe.alpha),
            LayerStep::Draw(LayerSetup::of(probe)),
            LayerStep::PopLayerBlend,
        ]
    }
}

/// How to draw the layer that `probe`, a [`probe_layer`] that the view's
/// modification was run on, calls for.
pub fn with_layer<C: Copy>(probe: &Layer<C>) -> (r: Vec<LayerStep<C>>)
    ensures
        r@ == layer_steps(*probe),
{
    let mut steps: Vec<LayerStep<C>> = Vec::new();
    if probe.alpha == 0 {
        assert(steps@ =~= layer_steps(*probe));
        return steps;
    }
    let setup = probe.setup();
    if probe.alpha == 255 {
        steps.push(LayerStep::Draw(setup));
    } else {
        steps.push(LayerStep::PushLayer(probe.alpha));
        steps.push(LayerStep::Draw(setup));
        steps.push(LayerStep::PopLayerBlend);
    }
    assert(steps@ =~= layer_steps(*probe));
    steps
}

/// The alpha that drawing in a layer sees. The blend applies the layer's own
/// alpha, so that everything is drawn at full intensity.
pub fn alpha() -> (r: u8)
    ensures
        r == 255,
{
    255
}

} // verus!
