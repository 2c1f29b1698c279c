//! Why drawing in a layer that is set up from a probe is like drawing in the
//! layer that the view asked for.
//!
//! One clip followed by one transform comes out exactly in any parent. In a
//! parent that does not scale, so does everything else, apart from where an
//! empty clip area is said to lie. In one that scales, each further operation
//! rounds coordinates down on its own when it is run directly, while a probe
//! holds only what they amount to together.

use vstd::prelude::*;

use crate::geometry::{fits_i32, law_clipped_is_the_common_pixels, Rect};
use crate::layer::{
    law_ops_make_the_setup, layer_steps, probe_area, scaled, signed_scale, Layer, LayerOp, LayerSetup, LayerStep,
    Transform, PROBE_EXTENT, SCALE_ONE,
};

verus! {

/// Drawing sees full intensity in every layer, however deep: a setup keeps the
/// alpha of the layer that it is applied in.
pub proof fn law_setup_keeps_alpha<C>(setup: LayerSetup<C>, parent: Layer<C>)
    ensures
        setup.applied(parent).alpha == parent.alpha,
{
}

/// The scale factor 1 leaves coordinates and extents as they are.
proof fn lemma_unit_scale(v: int)
    ensures
        scaled(v, SCALE_ONE) == v,
        v * SCALE_ONE / (SCALE_ONE as int) == v,
        SCALE_ONE * v / (SCALE_ONE as int) == v,
{
    assert(v * 16384 / 16384 == v) by (nonlinear_arith);
    assert(v * signed_scale(SCALE_ONE) == v * 16384);
}

/// A transform run on a probe is read off it unchanged.
proof fn lemma_probe_reads_transform(t: Transform)
    ensures
        Transform::identity().applying(t) == t,
{
    lemma_unit_scale(t.x as int);
    lemma_unit_scale(t.y as int);
    lemma_unit_scale(t.scale as int);
}

/// The identity inside a transform leaves it as it is.
proof fn lemma_identity_inside(t: Transform)
    ensures
        t.applying(Transform::identity()) == t,
{
    lemma_unit_scale(t.scale as int);
    assert(0 * signed_scale(t.scale) == 0);
}

/// A transform that does not scale moves rectangles.
proof fn lemma_unscaled_move(r: Rect, t: Transform)
    requires
        t.scale == SCALE_ONE,
        fits_i32(r.x + t.x),
        fits_i32(r.y + t.y),
    ensures
        r.applying(t) == (Rect {
            x: (r.x + t.x) as i32,
            y: (r.y + t.y) as i32,
            width: r.width,
            height: r.height,
        }),
{
    lemma_unit_scale(r.x as int);
    lemma_unit_scale(r.y as int);
    lemma_unit_scale(r.width as int);
    lemma_unit_scale(r.height as int);
}

/// A probe shows what was asked for: a clip rectangle, a transform and a hint
/// that are run on it in this order are read off it unchanged, as is that there
/// was no clip, whatever the opacity. The clip has to be one that can be run on
/// a probe within the coordinate range.
pub proof fn law_setup_is_read_off_the_probe<C>(setup: LayerSetup<C>, opacity: u8)
    requires
        setup.clip_rect matches Some(r) ==> r.can_apply(Transform::identity()),
    ensures
        LayerSetup::of(Layer { alpha: opacity, ..setup.applied(Layer::probe()) }) == setup,
{
    lemma_probe_reads_transform(setup.transform);
    if let Some(r) = setup.clip_rect {
        lemma_unit_scale(r.x as int);
        lemma_unit_scale(r.y as int);
        lemma_unscaled_move(r, Transform::identity());
    }
}

/// A modification that clips to a rectangle, then transforms, then hints where
/// it does, has the same effect through its probe as directly, in any parent and
/// with any opacity.
pub proof fn law_clipped_layer_is_as_asked_for<C>(
    parent: Layer<C>,
    r: Rect,
    t: Transform,
    hint: Option<C>,
    opacity: u8,
)
    requires
        r.can_apply(Transform::identity()),
    ensures
        ({
            let probe = Layer {
                alpha: opacity,
                ..Layer::probe().clipped(r).transformed(t).hinted(hint)
            };
            LayerSetup::of(probe).applied(parent) == parent.clipped(r).transformed(t).hinted(hint)
        }),
{
    law_setup_is_read_off_the_probe(
        LayerSetup { clip_rect: Some(r), transform: t, background_hint: hint },
        opacity,
    );
}

/// A modification that does not clip has the same effect through its probe as
/// directly, in any parent and with any opacity. The clip area in particular
/// stays the parent's.
pub proof fn law_unclipped_layer_is_as_asked_for<C>(
    parent: Layer<C>,
    t: Transform,
    hint: Option<C>,
    opacity: u8,
)
    ensures
        ({
            let probe = Layer { alpha: opacity, ..Layer::probe().transformed(t).hinted(hint) };
            LayerSetup::of(probe).applied(parent) == parent.transformed(t).hinted(hint)
        }),
{
    law_setup_is_read_off_the_probe(
        LayerSetup { clip_rect: None, transform: t, background_hint: hint },
        opacity,
    );
}

/// An opacity alone changes nothing but the opacity: drawing happens in a layer
/// like the parent, and the finished layer is blended with just that opacity.
pub proof fn law_opacity_alone_keeps_the_layer<C>(parent: Layer<C>, opacity: u8)
    ensures
        ({
            let probe = Layer { alpha: opacity, ..Layer::<C>::probe() };
            &&& LayerSetup::of(probe).applied(parent) == parent
            &&& 0 < opacity < 255 ==> layer_steps(probe) == seq![
                LayerStep::PushLayer(opacity),
                LayerStep::Draw(LayerSetup::of(probe)),
                LayerStep::PopLayerBlend,
            ]
        }),
{
    lemma_identity_inside(parent.transform);
}

/// Whether `steps` draw exactly once, in a layer inside `parent` that is `layer`,
/// both as the setup says and as its operations make it.
pub open spec fn draws_once_in<C>(
    steps: Seq<LayerStep<C>>,
    parent: Layer<C>,
    layer: Layer<C>,
) -> bool {
    &&& exists|i: int| 0 <= i < steps.len() && #[trigger] steps[i] is Draw
    &&& forall|i: int, j: int|
        0 <= i < steps.len() && 0 <= j < steps.len() && #[trigger] steps[i] is Draw && #[trigger]
            steps[j] is Draw ==> i == j
    &&& forall|i: int|
        0 <= i < steps.len() && #[trigger] steps[i] is Draw ==> {
            &&& steps[i]->Draw_0.applied(parent) == layer
            &&& parent.after_all(steps[i]->Draw_0.op_seq()) == layer
        }
}

/// Whether `steps` blend what is drawn exactly once and with `opacity`, where
/// that is neither none nor full, and blend nothing where it is.
pub open spec fn blends_with<C>(steps: Seq<LayerStep<C>>, opacity: u8) -> bool {
    if 0 < opacity < 255 {
        &&& steps.len() == 3
        &&& steps[0] == LayerStep::<C>::PushLayer(opacity)
        &&& steps[1] is Draw
        &&& steps[2] is PopLayerBlend
    } else {
        forall|i: int| 0 <= i < steps.len() ==> #[trigger] steps[i] is Draw
    }
}

/// What is drawn is what the view asked for, in the steps themselves: of a
/// modification that clips to a rectangle, transforms, hints and sets an
/// opacity, the one drawing step draws in the layer that the modification makes
/// of the parent directly, whatever the parent, and the opacity is applied by
/// the blend alone. A fully transparent layer is not drawn.
pub proof fn law_clipped_layer_is_drawn_as_asked_for<C>(
    parent: Layer<C>,
    r: Rect,
    t: Transform,
    hint: Option<C>,
    opacity: u8,
)
    requires
        r.can_apply(Transform::identity()),
    ensures
        ({
            let probe = Layer {
                alpha: opacity,
                ..Layer::probe().clipped(r).transformed(t).hinted(hint)
            };
            &&& opacity == 0 ==> layer_steps(probe) == Seq::<LayerStep<C>>::empty()
            &&& opacity != 0 ==> draws_once_in(
                layer_steps(probe),
                parent,
                parent.clipped(r).transformed(t).hinted(hint),
            )
            &&& blends_with(layer_steps(probe), opacity)
        }),
{
    let probe = Layer { alpha: opacity, ..Layer::probe().clipped(r).transformed(t).hinted(hint) };
    law_clipped_layer_is_as_asked_for(parent, r, t, hint, opacity);
    law_drawn_layer_has_what_the_probe_has(probe, parent);
}

/// The same of a modification that does not clip.
pub proof fn law_unclipped_layer_is_drawn_as_asked_for<C>(
    parent: Layer<C>,
    t: Transform,
    hint: Option<C>,
    opacity: u8,
)
    ensures
        ({
            let probe = Layer { alpha: opacity, ..Layer::probe().transformed(t).hinted(hint) };
            &&& opacity == 0 ==> layer_steps(probe) == Seq::<LayerStep<C>>::empty()
            &&& opacity != 0 ==> draws_once_in(
                layer_steps(probe),
                parent,
                parent.transformed(t).hinted(hint),
            )
            &&& blends_with(layer_steps(probe), opacity)
        }),
{
    let probe = Layer { alpha: opacity, ..Layer::probe().transformed(t).hinted(hint) };
    law_unclipped_layer_is_as_asked_for(parent, t, hint, opacity);
    law_drawn_layer_has_what_the_probe_has(probe, parent);
}

/// Of any probe that is not fully transparent, the one drawing step draws in
/// the parent clipped to the probe's clip area, where that is no longer the one
/// that a probe starts with, then under the probe's transform and hint; and the
/// probe's alpha is what is blended with.
pub proof fn law_drawn_layer_has_what_the_probe_has<C>(probe: Layer<C>, parent: Layer<C>)
    ensures
        probe.alpha == 0 ==> layer_steps(probe) == Seq::<LayerStep<C>>::empty(),
        probe.alpha != 0 ==> draws_once_in(
            layer_steps(probe),
            parent,
            (if probe.clip_rect == probe_area() {
                parent
            } else {
                parent.clipped(probe.clip_rect)
            }).transformed(probe.transform).hinted(probe.background_hint),
        ),
        blends_with(layer_steps(probe), probe.alpha),
{
    law_ops_make_the_setup(LayerSetup::of(probe), parent);
    if probe.alpha == 255 {
        assert(layer_steps(probe)[0] is Draw);
    } else if probe.alpha != 0 {
        assert(layer_steps(probe)[1] is Draw);
    }
}

/// A transform inside a layer goes before the layer's own: a point of the inner
/// layer lies on the display where the layer puts the point that `t` makes of
/// it. Where the layer does not scale this is exact.
pub proof fn law_transformed_layer_places_points<C>(layer: Layer<C>, t: Transform, x: int, y: int)
    requires
        layer.transform.scale == SCALE_ONE,
        layer.transform.can_apply(t),
    ensures
        ({
            let inner = layer.transformed(t).transform;
            &&& scaled(x, inner.scale) + inner.x == scaled(x, t.scale) + t.x + layer.transform.x
            &&& scaled(y, inner.scale) + inner.y == scaled(y, t.scale) + t.y + layer.transform.y
        }),
        layer.transformed(t).clip_rect == layer.clip_rect,
        layer.transformed(t).background_hint == layer.background_hint,
        layer.transformed(t).alpha == layer.alpha,
{
    lemma_unit_scale(t.x as int);
    lemma_unit_scale(t.y as int);
    lemma_unit_scale(t.scale as int);
}

/// A transform inside a layer that scales by a whole number is scaled by it.
pub proof fn law_transformed_layer_scales_offsets<C>(layer: Layer<C>, t: Transform, k: u32)
    requires
        layer.transform.scale == k * SCALE_ONE,
        layer.transform.scale <= i32::MAX,
        layer.transform.can_apply(t),
    ensures
        layer.transformed(t).transform.x == k * t.x + layer.transform.x,
        layer.transformed(t).transform.y == k * t.y + layer.transform.y,
        layer.transformed(t).transform.scale == k * t.scale,
{
    assert(t.x * (k * 16384) == (k * t.x) * 16384) by (nonlinear_arith);
    assert(t.y * (k * 16384) == (k * t.y) * 16384) by (nonlinear_arith);
    assert((k * 16384) * t.scale == (k * t.scale) * 16384) by (nonlinear_arith);
    lemma_unit_scale(k * t.x);
    lemma_unit_scale(k * t.y);
    lemma_unit_scale(k * t.scale);
    assert(0 <= k * t.scale) by (nonlinear_arith);
}

/// A clip leaves exactly the pixels of the layer's clip area that belong to the
/// rectangle, moved to where the layer lies, and leaves all else alone.
pub proof fn law_clipped_layer_shows_the_common_pixels<C>(
    layer: Layer<C>,
    r: Rect,
    px: int,
    py: int,
)
    requires
        layer.transform.scale == SCALE_ONE,
        layer.clip_rect.valid(),
        r.can_apply(layer.transform),
    ensures
        layer.clipped(r).clip_rect.contains(px, py) <==> layer.clip_rect.contains(px, py)
            && r.contains(px - layer.transform.x, py - layer.transform.y),
        layer.clipped(r).transform == layer.transform,
        layer.clipped(r).background_hint == layer.background_hint,
        layer.clipped(r).alpha == layer.alpha,
{
    lemma_unit_scale(r.x as int);
    lemma_unit_scale(r.y as int);
    lemma_unscaled_move(r, layer.transform);
    law_clipped_is_the_common_pixels(r.applying(layer.transform), layer.clip_rect, px, py);
}

/// A hint is the layer's hint from then on; no hint keeps the one before.
pub proof fn law_hint_replaces_the_one_before<C>(layer: Layer<C>, hint: Option<C>)
    ensures
        hint is Some ==> layer.hinted(hint).background_hint == hint,
        hint is None ==> layer.hinted(hint).background_hint == layer.background_hint,
        layer.hinted(hint).transform == layer.transform,
        layer.hinted(hint).clip_rect == layer.clip_rect,
        layer.hinted(hint).alpha == layer.alpha,
{
}

/// The setup that a modification calls for, whose operations are run on a
/// probe.
pub open spec fn setup_for<C>(ops: Seq<LayerOp<C>>, opacity: u8) -> LayerSetup<C> {
    LayerSetup::of(Layer { alpha: opacity, ..Layer::<C>::probe().after_all(ops) })
}

/// How many operations a modification may consist of before its transforms
/// might leave the clip area of a probe.
pub const MAX_OPS: u32 = 4096;

/// How a parent that does not scale, modified directly by some operations,
/// compares with a probe modified by them.
spec fn in_step<C>(parent: Layer<C>, direct: Layer<C>, probe: Layer<C>, n: int) -> bool {
    &&& direct.alpha == parent.alpha
    &&& probe.background_hint is Some ==> direct.background_hint == probe.background_hint
    &&& probe.background_hint is None ==> direct.background_hint == parent.background_hint
    &&& -131072 * n <= probe.transform.x <= 131072 * n
    &&& -131072 * n <= probe.transform.y <= 131072 * n
    &&& direct.transform.x == probe.transform.x + parent.transform.x
    &&& direct.transform.y == probe.transform.y + parent.transform.y
    &&& direct.transform.scale == probe.transform.scale
    &&& if probe.clip_rect.width == PROBE_EXTENT {
        probe.clip_rect == probe_area() && direct.clip_rect == parent.clip_rect
    } else {
        &&& probe.clip_rect.valid()
        &&& direct.clip_rect.valid()
        &&& parent.clip_rect.valid()
        &&& forall|px: int, py: int| #[trigger]
            direct.clip_rect.contains(px, py) <==> probe.clip_rect.contains(
                px - parent.transform.x,
                py - parent.transform.y,
            ) && parent.clip_rect.contains(px, py)
    }
}

proof fn lemma_scaled_range(v: int, scale: u32)
    requires
        fits_i32(v * signed_scale(scale)),
    ensures
        -131072 <= scaled(v, scale) < 131072,
{
}

/// A clip keeps the two in step.
proof fn lemma_clip_in_step<C>(parent: Layer<C>, direct: Layer<C>, probe: Layer<C>, n: int, r: Rect)
    requires
        in_step(parent, direct, probe, n),
        0 <= n <= MAX_OPS,
        r.can_apply(direct.transform),
        r.can_apply(probe.transform),
        direct.clip_rect.valid(),
        probe.clip_rect.valid(),
    ensures
        in_step(parent, direct.clipped(r), probe.clipped(r), n),
{
    let (there, here) = (r.applying(direct.transform), r.applying(probe.transform));
    lemma_scaled_range(r.x as int, probe.transform.scale);
    lemma_scaled_range(r.y as int, probe.transform.scale);
    assert(here.width < 0x4_0000 && here.height < 0x4_0000);
    assert(here.within(probe_area()));
    let (new_direct, new_probe) = (direct.clipped(r), probe.clipped(r));
    assert forall|px: int, py: int| #[trigger]
        new_direct.clip_rect.contains(px, py) <==> new_probe.clip_rect.contains(
            px - parent.transform.x,
            py - parent.transform.y,
        ) && parent.clip_rect.contains(px, py) by {
        let (qx, qy) = (px - parent.transform.x, py - parent.transform.y);
        law_clipped_is_the_common_pixels(there, direct.clip_rect, px, py);
        law_clipped_is_the_common_pixels(here, probe.clip_rect, qx, qy);
        assert(there.contains(px, py) == here.contains(qx, qy));
        assert(here.contains(qx, qy) ==> probe_area().contains(qx, qy));
        if probe.clip_rect.width != PROBE_EXTENT {
            assert(direct.clip_rect.contains(px, py) == (probe.clip_rect.contains(qx, qy)
                && parent.clip_rect.contains(px, py)));
        }
    }
}

/// Any operations keep the two in step.
proof fn lemma_in_step<C>(parent: Layer<C>, ops: Seq<LayerOp<C>>)
    requires
        parent.transform.scale == SCALE_ONE,
        ops.len() <= MAX_OPS,
        parent.can_do_all(ops),
        Layer::<C>::probe().can_do_all(ops),
    ensures
        in_step(
            parent,
            parent.after_all(ops),
            Layer::<C>::probe().after_all(ops),
            ops.len() as int,
        ),
    decreases ops.len(),
{
    if ops.len() > 0 {
        let before = ops.drop_last();
        lemma_in_step(parent, before);
        let direct = parent.after_all(before);
        let probe = Layer::<C>::probe().after_all(before);
        match ops.last() {
            LayerOp::Clip(r) => {
                lemma_clip_in_step(parent, direct, probe, before.len() as int, r);
            },
            LayerOp::Transform(t) => {
                lemma_scaled_range(t.x as int, probe.transform.scale);
                lemma_scaled_range(t.y as int, probe.transform.scale);
            },
            LayerOp::HintBackground(_) => {},
        }
    }
}

/// Any modification has the same effect through its probe as directly in a
/// parent that does not scale, whatever it does in whatever order: the layer
/// has the same alpha, transform and hint, and its clip area has the same
/// pixels. The opacity is applied last; before it, every hint replaces the one
/// before.
pub proof fn law_any_layer_unscaled_is_as_asked_for<C>(
    parent: Layer<C>,
    ops: Seq<LayerOp<C>>,
    opacity: u8,
)
    requires
        parent.transform.scale == SCALE_ONE,
        ops.len() <= MAX_OPS,
        parent.can_do_all(ops),
        Layer::<C>::probe().can_do_all(ops),
        setup_for(ops, opacity).can_apply(parent),
    ensures
        ({
            let through_probe = setup_for(ops, opacity).applied(parent);
            let direct = parent.after_all(ops);
            &&& through_probe.alpha == direct.alpha
            &&& through_probe.background_hint == direct.background_hint
            &&& through_probe.transform == direct.transform
            &&& through_probe.clip_rect.same_pixels(direct.clip_rect)
        }),
{
    let direct = parent.after_all(ops);
    let probe = Layer::<C>::probe().after_all(ops);
    let setup = setup_for(ops, opacity);
    let through_probe = setup.applied(parent);
    lemma_in_step(parent, ops);
    lemma_unit_scale(probe.transform.x as int);
    lemma_unit_scale(probe.transform.y as int);
    lemma_unit_scale(probe.transform.scale as int);
    if let Some(c) = setup.clip_rect {
        lemma_unit_scale(c.x as int);
        lemma_unit_scale(c.y as int);
        lemma_unscaled_move(c, parent.transform);
        assert forall|px: int, py: int|
            #![trigger through_probe.clip_rect.contains(px, py)]
            #![trigger direct.clip_rect.contains(px, py)]
            through_probe.clip_rect.contains(px, py) == direct.clip_rect.contains(px, py) by {
            law_clipped_is_the_common_pixels(
                c.applying(parent.transform),
                parent.clip_rect,
                px,
                py,
            );
        }
    }
}

/// Any modification is drawn as asked for in a parent that does not scale: the
/// one drawing step draws in a layer with the alpha, transform and hint that the
/// modification makes of the parent directly, and with the same visible pixels.
pub proof fn law_any_layer_unscaled_is_drawn_as_asked_for<C>(
    parent: Layer<C>,
    ops: Seq<LayerOp<C>>,
    opacity: u8,
    i: int,
)
    requires
        parent.transform.scale == SCALE_ONE,
        ops.len() <= MAX_OPS,
        parent.can_do_all(ops),
        Layer::<C>::probe().can_do_all(ops),
        setup_for(ops, opacity).can_apply(parent),
        opacity != 0,
        ({
            let steps = layer_steps(
                Layer { alpha: opacity, ..Layer::<C>::probe().after_all(ops) },
            );
            0 <= i < steps.len() && steps[i] is Draw
        }),
    ensures
        ({
            let steps = layer_steps(
                Layer { alpha: opacity, ..Layer::<C>::probe().after_all(ops) },
            );
            let drawn_in = parent.after_all(steps[i]->Draw_0.op_seq());
            let direct = parent.after_all(ops);
            &&& drawn_in.alpha == direct.alpha
            &&& drawn_in.background_hint == direct.background_hint
            &&& drawn_in.transform == direct.transform
            &&& drawn_in.clip_rect.same_pixels(direct.clip_rect)
        }),
{
    let probe = Layer { alpha: opacity, ..Layer::<C>::probe().after_all(ops) };
    law_any_layer_unscaled_is_as_asked_for(parent, ops, opacity);
    law_drawn_layer_has_what_the_probe_has(probe, parent);
}

} // verus!
