use buoyant::primitives::geometry::Rectangle;
use buoyant::primitives::transform::{LinearTransform, ScaleFactor};
use buoyant::primitives::{Interpolate, Point, Size as BuoyantSize};
use buoyant::render_target::surface::DrawTargetSurface;
use buoyant::render_target::{
    EmbeddedGraphicsRenderTarget, LayerConfig, LayerHandle, RenderTarget, SolidBrush,
};
use buoyant_esp32p4::geometry::Rect;
use buoyant_esp32p4::layer::{
    alpha, probe_layer, with_layer, Layer, LayerOp, LayerSetup, LayerStep, Transform,
    PROBE_EXTENT, PROBE_START, SCALE_ONE,
};
use embedded_graphics::mock_display::MockDisplay;
use embedded_graphics::pixelcolor::{Rgb565, RgbColor};

const IDENTITY: Transform = Transform { x: 0, y: 0, scale: SCALE_ONE };

fn transform(x: i32, y: i32, scale: u32) -> Transform {
    Transform { x, y, scale }
}

fn rect(x: i32, y: i32, width: u32, height: u32) -> Rect {
    Rect { x, y, width, height }
}

fn linear(t: Transform) -> LinearTransform {
    LinearTransform {
        offset: Point::new(t.x, t.y),
        scale: ScaleFactor::from_bits(t.scale),
    }
}

fn rectangle(r: Rect) -> Rectangle {
    Rectangle::new(Point::new(r.x, r.y), BuoyantSize::new(r.width, r.height))
}

fn config<C: Copy>(l: &Layer<C>) -> LayerConfig<C> {
    LayerConfig::new(l.alpha, l.background_hint, linear(l.transform), rectangle(l.clip_rect))
}

fn layer<C>(c: LayerConfig<C>) -> Layer<C> {
    Layer {
        alpha: c.alpha,
        background_hint: c.background_hint,
        transform: transform(
            c.transform.offset.x,
            c.transform.offset.y,
            c.transform.scale.to_bits(),
        ),
        clip_rect: rect(
            c.clip_rect.origin.x,
            c.clip_rect.origin.y,
            c.clip_rect.size.width,
            c.clip_rect.size.height,
        ),
    }
}

/// The probe after a modification.
fn probed(modify: impl FnOnce(LayerHandle<u8>) -> LayerHandle<u8>) -> Layer<u8> {
    let mut c = config(&probe_layer::<u8>());
    let _ = modify(LayerHandle::new(&mut c));
    layer(c)
}

/// The parent after a modification is run on it directly.
fn direct(
    parent: &Layer<u8>,
    modify: impl FnOnce(LayerHandle<u8>) -> LayerHandle<u8>,
) -> LayerConfig<u8> {
    let mut c = config(parent);
    let _ = modify(LayerHandle::new(&mut c));
    c
}

fn perform<'h, C: Interpolate + Copy>(
    handle: LayerHandle<'h, C>,
    op: LayerOp<C>,
) -> LayerHandle<'h, C> {
    match op {
        LayerOp::Clip(r) => handle.clip(&rectangle(r)),
        LayerOp::Transform(t) => handle.transform(&linear(t)),
        LayerOp::HintBackground(hint) => handle.hint_background(hint),
    }
}

/// The layer inside `parent` that is drawn in after a modification is run on a
/// probe; the planned layer and the one that the operations make are the same.
fn through_probe(
    parent: &Layer<u8>,
    modify: impl FnOnce(LayerHandle<u8>) -> LayerHandle<u8>,
) -> LayerConfig<u8> {
    let setup = probed(modify).setup();
    let planned = config(&setup.apply(parent));
    let performed = direct(parent, |l| setup.ops().into_iter().fold(l, perform));
    assert_eq!(planned, performed);
    planned
}

fn parent(t: Transform, clip: Rect) -> Layer<u8> {
    Layer { alpha: 255, background_hint: Some(9), transform: t, clip_rect: clip }
}

fn pixels(r: &Rectangle) -> Vec<(i32, i32)> {
    let mut all = Vec::new();
    for y in r.origin.y..r.origin.y + r.size.height as i32 {
        for x in r.origin.x..r.origin.x + r.size.width as i32 {
            all.push((x, y));
        }
    }
    all
}

/// Parents in place, moved, scrolled and scaled.
fn parents() -> Vec<Layer<u8>> {
    vec![
        parent(IDENTITY, rect(0, 0, 64, 64)),
        parent(transform(10, 10, SCALE_ONE), rect(0, 0, 64, 64)),
        parent(transform(0, -40, SCALE_ONE), rect(0, 0, 64, 64)),
        parent(transform(-300, 200, SCALE_ONE), rect(5, 6, 20, 30)),
        parent(transform(3, -7, SCALE_ONE / 2), rect(0, 0, 64, 64)),
        parent(transform(-5, 7, SCALE_ONE * 3 / 2), rect(2, 3, 50, 40)),
    ]
}

#[test]
fn probe_is_a_fresh_layer_around_the_origin() {
    let probe = probe_layer::<u8>();
    assert_eq!(probe.alpha, 255);
    assert_eq!(probe.background_hint, None);
    assert_eq!(probe.transform, IDENTITY);
    assert_eq!(probe.clip_rect, rect(PROBE_START, PROBE_START, PROBE_EXTENT, PROBE_EXTENT));
    assert_eq!(probe.clip_rect, rect(-1073741824, -1073741824, 2147483647, 2147483647));
    assert_eq!(config(&probe), LayerConfig::new_clip(rectangle(probe.clip_rect)));
}

#[test]
fn transparent_layer_is_not_drawn() {
    assert!(with_layer(&probed(|l| l.opacity(0))).is_empty());
    assert!(with_layer(&probed(|l| l.opacity(0).offset(Point::new(1, 2)))).is_empty());
}

#[test]
fn opaque_layer_is_drawn_in_place() {
    let t = transform(3, 4, 2 * SCALE_ONE);
    let probe = probed(|l| {
        l.clip(&rectangle(rect(1, 2, 30, 40))).transform(&linear(t)).hint_background(7)
    });
    let steps = with_layer(&probe);
    assert_eq!(steps.len(), 1);
    match &steps[0] {
        LayerStep::Draw(setup) => {
            assert_eq!(setup.clip_rect, Some(rect(1, 2, 30, 40)));
            assert_eq!(setup.transform, t);
            assert_eq!(setup.background_hint, Some(7));
        }
        _ => panic!("not drawn in place"),
    }
}

#[test]
fn translucent_layer_is_pushed_drawn_and_blended() {
    for opacity in [1, 128, 254] {
        let steps = with_layer(&probed(|l| l.opacity(opacity).hint_background(7)));
        assert_eq!(steps.len(), 3);
        assert!(matches!(steps[0], LayerStep::PushLayer(a) if a == opacity));
        match &steps[1] {
            LayerStep::Draw(setup) => {
                assert_eq!(setup.clip_rect, None);
                assert_eq!(setup.transform, IDENTITY);
                assert_eq!(setup.background_hint, Some(7));
            }
            _ => panic!("not drawn"),
        }
        assert!(matches!(steps[2], LayerStep::PopLayerBlend));
    }
}

#[test]
fn setup_is_read_off_the_probe() {
    let unclipped = probed(|l| l.transform(&linear(transform(-3, 8, 5000))).opacity(9)).setup();
    assert_eq!(unclipped.clip_rect, None);
    assert_eq!(unclipped.transform, transform(-3, 8, 5000));
    assert_eq!(unclipped.background_hint, None);

    let off_target = rect(-131072, 131071, 200000, 0);
    let clipped = probed(|l| l.hint_background(4).clip(&rectangle(off_target))).setup();
    assert_eq!(clipped.clip_rect, Some(off_target));
    assert_eq!(clipped.transform, IDENTITY);
    assert_eq!(clipped.background_hint, Some(4));
}

#[test]
fn setup_clips_then_transforms_then_hints() {
    let r = rect(1, 2, 3, 4);
    let t = transform(5, 6, 7);
    let all = LayerSetup { clip_rect: Some(r), transform: t, background_hint: Some(8u8) }.ops();
    assert_eq!(all.len(), 3);
    assert!(matches!(all[0], LayerOp::Clip(c) if c == r));
    assert!(matches!(all[1], LayerOp::Transform(u) if u == t));
    assert!(matches!(all[2], LayerOp::HintBackground(8)));

    let least = LayerSetup::<u8> { clip_rect: None, transform: t, background_hint: None }.ops();
    assert_eq!(least.len(), 1);
    assert!(matches!(least[0], LayerOp::Transform(u) if u == t));
}

#[test]
fn drawing_sees_full_intensity() {
    assert_eq!(alpha(), 255);
    let root = parent(IDENTITY, rect(0, 0, 64, 64));
    let inner = probed(|l| l.opacity(40)).setup().apply(&root);
    assert_eq!(inner.alpha, 255);
    let innermost = probed(|l| l.opacity(3)).setup().apply(&inner);
    assert_eq!(innermost.alpha, 255);
}

#[test]
fn setup_does_what_a_layer_handle_does() {
    let root = parent(transform(-5, 7, SCALE_ONE * 3 / 2), rect(2, 3, 50, 40));
    let setup = LayerSetup {
        clip_rect: Some(rect(-4, 6, 25, 33)),
        transform: transform(11, -3, SCALE_ONE / 2),
        background_hint: Some(21),
    };
    let inner = setup.apply(&root);
    let asked_for = direct(&root, |l| {
        l.clip(&rectangle(rect(-4, 6, 25, 33)))
            .transform(&linear(transform(11, -3, SCALE_ONE / 2)))
            .hint_background(21)
    });
    assert_eq!(config(&inner), asked_for);
    assert_eq!(inner.clip_rect, rect(2, 16, 24, 27));
    assert_eq!(inner.transform, transform(11, 2, SCALE_ONE * 3 / 4));
    assert_eq!(inner.background_hint, Some(21));
}

#[test]
fn operations_round_coordinates_down() {
    let root = parent(transform(0, 0, SCALE_ONE / 2), rect(-50, -50, 100, 100));
    let clipped = root.apply(&LayerOp::Clip(rect(-1, 1, 5, 7)));
    assert_eq!(clipped.clip_rect, rect(-1, 0, 2, 3));
    assert_eq!(clipped.transform, root.transform);
    let moved = root.apply(&LayerOp::Transform(transform(-3, 5, SCALE_ONE)));
    assert_eq!(moved.transform, transform(-2, 2, SCALE_ONE / 2));
    assert_eq!(moved.clip_rect, root.clip_rect);
    assert_eq!(moved.background_hint, Some(9));
    assert_eq!(root.apply(&LayerOp::HintBackground(6)).background_hint, Some(6));
}

#[test]
fn disjoint_clip_leaves_the_empty_rectangle() {
    let root = parent(IDENTITY, rect(0, 0, 10, 10));
    let setup = LayerSetup {
        clip_rect: Some(rect(10, 0, 5, 5)),
        transform: IDENTITY,
        background_hint: None,
    };
    assert_eq!(setup.apply(&root).clip_rect, rect(0, 0, 0, 0));
}

#[test]
fn opacity_alone_leaves_the_parent_layer() {
    for root in parents() {
        assert_eq!(through_probe(&root, |l| l.opacity(128)), config(&root));
    }
}

#[test]
fn scrolled_parent_keeps_its_clip_area_under_an_opacity() {
    let root = parent(transform(0, -40, SCALE_ONE), rect(0, 0, 64, 64));
    let inner = layer(through_probe(&root, |l| l.opacity(128)));
    assert_eq!(inner.clip_rect, rect(0, 0, 64, 64));
    assert_eq!(inner.transform, transform(0, -40, SCALE_ONE));
}

#[test]
fn offset_alone_keeps_the_clip_area() {
    let root = parent(IDENTITY, rect(0, 0, 64, 64));
    let inner = layer(through_probe(&root, |l| l.offset(Point::new(10, 10))));
    assert_eq!(inner.clip_rect, rect(0, 0, 64, 64));
    assert_eq!(inner.transform, transform(10, 10, SCALE_ONE));
}

#[test]
fn transform_and_hint_take_effect_as_asked_for() {
    let t = linear(transform(4, -5, 2 * SCALE_ONE));
    for root in parents() {
        assert_eq!(
            through_probe(&root, |l| l.opacity(77).transform(&t).hint_background(3)),
            direct(&root, |l| l.transform(&t).hint_background(3)),
        );
        assert_eq!(
            through_probe(&root, |l| l.offset(Point::new(7, -9))),
            direct(&root, |l| l.offset(Point::new(7, -9))),
        );
        let half = ScaleFactor::from_bits(SCALE_ONE / 2);
        assert_eq!(
            through_probe(&root, |l| l.scale(half)),
            direct(&root, |l| l.scale(half)),
        );
    }
}

#[test]
fn clip_takes_effect_as_asked_for() {
    let clips = [
        rect(10, 12, 30, 20),
        rect(0, 0, 64, 64),
        rect(-20, 30, 100, 100),
        rect(290, -190, 50, 50),
        rect(3, 3, 0, 5),
        rect(1000, 1000, 1, 1),
    ];
    let t = linear(transform(4, -5, 2 * SCALE_ONE));
    for root in parents() {
        for r in clips {
            let r = rectangle(r);
            assert_eq!(
                through_probe(&root, |l| l.clip(&r).opacity(200)),
                direct(&root, |l| l.clip(&r)),
            );
            assert_eq!(
                through_probe(&root, |l| l.hint_background(2).clip(&r).transform(&t)),
                direct(&root, |l| l.hint_background(2).clip(&r).transform(&t)),
            );
        }
    }
}

#[test]
fn any_modification_takes_effect_as_asked_for_in_an_unscaled_parent() {
    let (a, b) = (rectangle(rect(-4, 3, 40, 50)), rectangle(rect(6, -2, 30, 12)));
    let far = rectangle(rect(2000, 2000, 10, 10));
    let t = linear(transform(5, 9, SCALE_ONE * 3 / 2));
    let u = linear(transform(-7, 2, SCALE_ONE / 2));
    for root in parents() {
        if root.transform.scale != SCALE_ONE {
            continue;
        }
        assert_eq!(
            through_probe(&root, |l| l.transform(&t).clip(&a).hint_background(5)),
            direct(&root, |l| l.transform(&t).clip(&a).hint_background(5)),
        );
        assert_eq!(
            through_probe(&root, |l| l.clip(&a).transform(&t).clip(&b).transform(&u)),
            direct(&root, |l| l.clip(&a).transform(&t).clip(&b).transform(&u)),
        );
        let empty = through_probe(&root, |l| l.clip(&a).clip(&far));
        let asked_for = direct(&root, |l| l.clip(&a).clip(&far));
        assert_eq!(pixels(&empty.clip_rect), pixels(&asked_for.clip_rect));
        assert_eq!(empty.transform, asked_for.transform);
    }
}

/// A display's stack of scratch layers, and how many were started and blended.
struct Stack {
    alphas: Vec<u8>,
    pushed: usize,
    blended: Vec<u8>,
}

impl Stack {
    fn with_layer(&mut self, opacity: u8, draw: impl FnOnce(&mut Stack)) {
        let mut draw = Some(draw);
        for step in with_layer(&probed(|l| l.opacity(opacity))) {
            match step {
                LayerStep::PushLayer(alpha) => {
                    self.alphas.push(alpha);
                    self.pushed += 1;
                }
                LayerStep::Draw(_) => (draw.take().unwrap())(self),
                LayerStep::PopLayerBlend => self.blended.push(self.alphas.pop().unwrap()),
            }
        }
    }
}

#[test]
fn nested_layers_are_pushed_and_blended_in_pairs() {
    let mut stack = Stack { alphas: vec![1, 2], pushed: 0, blended: vec![] };
    stack.with_layer(200, |s| {
        assert_eq!(s.alphas, vec![1, 2, 200]);
        s.with_layer(255, |s| {
            assert_eq!(s.alphas, vec![1, 2, 200]);
            s.with_layer(100, |s| assert_eq!(s.alphas, vec![1, 2, 200, 100]));
        });
        s.with_layer(0, |s| s.with_layer(50, |_| panic!("drawn in a transparent layer")));
        s.with_layer(7, |s| assert_eq!(s.alphas, vec![1, 2, 200, 7]));
    });
    stack.with_layer(254, |_| {});
    assert_eq!(stack.alphas, vec![1, 2]);
    assert_eq!(stack.pushed, 4);
    assert_eq!(stack.blended, vec![100, 7, 200, 254]);
}

fn display() -> MockDisplay<Rgb565> {
    let mut d = MockDisplay::<Rgb565>::new();
    d.set_allow_overdraw(true);
    d.set_allow_out_of_bounds_drawing(true);
    d
}

/// Draws a shape in a layer, inside a moved and clipped parent.
fn draw(
    target: &mut EmbeddedGraphicsRenderTarget<DrawTargetSurface<MockDisplay<Rgb565>>>,
    modify: impl FnOnce(LayerHandle<Rgb565>) -> LayerHandle<Rgb565>,
) {
    let shape = Rectangle::new(Point::new(4, 4), BuoyantSize::new(10, 10));
    let brush = SolidBrush::new(Rgb565::GREEN);
    target.clear(Rgb565::BLACK);
    target.with_layer(
        |l| l.clip(&rectangle(rect(1, 2, 40, 14))).offset(Point::new(3, -3)),
        |outer| {
            outer.with_layer(modify, |inner| {
                inner.fill(LinearTransform::default(), &brush, None, &shape)
            })
        },
    );
}

fn assert_same_pixels(modify: impl Fn(LayerHandle<Rgb565>) -> LayerHandle<Rgb565>) {
    let mut through_probe = display();
    let mut probe = config(&probe_layer::<Rgb565>());
    let _ = modify(LayerHandle::new(&mut probe));
    for step in with_layer(&layer(probe)) {
        match step {
            LayerStep::Draw(setup) => draw(
                &mut EmbeddedGraphicsRenderTarget::new(&mut through_probe),
                |l| setup.ops().into_iter().fold(l, perform),
            ),
            _ => panic!("an opaque layer needs no scratch layer"),
        }
    }

    let mut direct = display();
    draw(&mut EmbeddedGraphicsRenderTarget::new(&mut direct), modify);
    assert_eq!(through_probe, direct);
}

#[test]
fn layer_set_up_from_a_probe_draws_the_pixels_of_the_direct_layer() {
    let clip = rectangle(rect(6, 0, 5, 64));
    let double = ScaleFactor::from_bits(2 * SCALE_ONE);
    assert_same_pixels(|l| l);
    assert_same_pixels(|l| l.clip(&clip));
    assert_same_pixels(|l| l.offset(Point::new(5, 7)));
    assert_same_pixels(|l| l.offset(Point::new(-6, -5)).scale(double));
    assert_same_pixels(|l| l.clip(&clip).offset(Point::new(2, -3)));
    assert_same_pixels(|l| l.offset(Point::new(2, -3)).clip(&clip));
}
