//! Why scratch layers are pushed and blended in pairs, however layers nest.

use vstd::prelude::*;

use crate::layer::{layer_steps, Layer, LayerStep};

verus! {

/// One change of a display's stack of scratch layers.
pub ghost enum StackChange {
    /// A scratch layer is started, to be blended with the given alpha.
    Push(u8),
    /// The top scratch layer is blended onto what lies underneath.
    Blend,
}

/// The alphas of a display's scratch layers after `changes`, or `None` where a
/// blend finds no scratch layer.
pub open spec fn stack_after(stack: Seq<u8>, changes: Seq<StackChange>) -> Option<Seq<u8>>
    decreases changes.len(),
{
    if changes.len() == 0 {
        Some(stack)
    } else {
        match stack_after(stack, changes.drop_last()) {
            Some(s) => match changes.last() {
                StackChange::Push(alpha) => Some(s.push(alpha)),
                StackChange::Blend => if s.len() == 0 {
                    None
                } else {
                    Some(s.drop_last())
                },
            },
            None => None,
        }
    }
}

/// Whether each push has its blend and each blend its push, properly nested.
pub open spec fn balanced(changes: Seq<StackChange>) -> bool {
    stack_after(Seq::empty(), changes) == Some(Seq::<u8>::empty())
}

/// How many scratch layers are started.
pub open spec fn pushes(changes: Seq<StackChange>) -> nat {
    changes.filter(|c: StackChange| c is Push).len()
}

/// How many scratch layers are blended.
pub open spec fn blends(changes: Seq<StackChange>) -> nat {
    changes.filter(|c: StackChange| c is Blend).len()
}

/// What the steps of a layer do to the display's stack, where the drawing in
/// the layer does what `drawing` says.
pub open spec fn stack_changes<C>(
    steps: Seq<LayerStep<C>>,
    drawing: Seq<StackChange>,
) -> Seq<StackChange>
    decreases steps.len(),
{
    if steps.len() == 0 {
        Seq::empty()
    } else {
        stack_changes(steps.drop_last(), drawing) + match steps.last() {
            LayerStep::PushLayer(alpha) => seq![StackChange::Push(alpha)],
            LayerStep::Draw(_) => drawing,
            LayerStep::PopLayerBlend => seq![StackChange::Blend],
        }
    }
}

/// Layers drawn one after another, each with the layers that are drawn in it.
pub ghost enum Drawing<C> {
    Nothing,
    Layer { probe: Layer<C>, inside: Box<Drawing<C>>, rest: Box<Drawing<C>> },
}

impl<C> Drawing<C> {
    /// What the drawing does to the display's stack.
    pub open spec fn changes(self) -> Seq<StackChange>
        decreases self,
    {
        match self {
            Drawing::Nothing => Seq::empty(),
            Drawing::Layer { probe, inside, rest } => stack_changes(
                layer_steps(probe),
                inside.changes(),
            ) + rest.changes(),
        }
    }

    /// How many of the layers that are drawn are neither fully transparent nor
    /// fully opaque. Nothing in a fully transparent layer is drawn.
    pub open spec fn translucent_layers(self) -> nat
        decreases self,
    {
        match self {
            Drawing::Nothing => 0,
            Drawing::Layer { probe, inside, rest } => (if probe.alpha == 0 {
                0
            } else if probe.alpha == 255 {
                inside.translucent_layers()
            } else {
                1 + inside.translucent_layers()
            }) + rest.translucent_layers(),
        }
    }
}

/// A layer's scratch layer is blended once and after the drawing: there is a
/// push exactly where there is a blend, and the drawing stands between the two.
/// Drawing happens once, and is left out exactly where the layer is fully
/// transparent.
pub proof fn law_drawing_is_between_push_and_blend<C>(probe: Layer<C>)
    ensures
        ({
            let steps = layer_steps(probe);
            &&& probe.alpha == 0 <==> steps.len() == 0
            &&& probe.alpha != 0 ==> exists|k: int|
                0 <= k < steps.len() && #[trigger] steps[k] is Draw
            &&& forall|i: int, j: int|
                0 <= i < steps.len() && 0 <= j < steps.len() && #[trigger] steps[i] is Draw
                    && #[trigger] steps[j] is Draw ==> i == j
            &&& forall|i: int|
                0 <= i < steps.len() && #[trigger] steps[i] is PushLayer ==> i == 0
                    && steps[i]->PushLayer_0 == probe.alpha && steps.last() is PopLayerBlend
                    && steps.len() == 3 && steps[1] is Draw
            &&& forall|i: int|
                0 <= i < steps.len() && #[trigger] steps[i] is PopLayerBlend ==> i == steps.len()
                    - 1 && steps.first() is PushLayer
        }),
{
    if probe.alpha == 255 {
        assert(layer_steps(probe)[0] is Draw);
    } else if probe.alpha != 0 {
        assert(layer_steps(probe)[1] is Draw);
    }
}

/// Changes can be made in two goes.
proof fn lemma_stack_after_both(stack: Seq<u8>, a: Seq<StackChange>, b: Seq<StackChange>)
    ensures
        stack_after(stack, a + b) == (match stack_after(stack, a) {
            Some(s) => stack_after(s, b),
            None => None,
        }),
    decreases b.len(),
{
    if b.len() == 0 {
        assert(a + b =~= a);
    } else {
        lemma_stack_after_both(stack, a, b.drop_last());
        assert((a + b).drop_last() =~= a + b.drop_last());
    }
}

/// Changes that never reach below a stack leave what lies below alone.
proof fn lemma_below_is_left_alone(below: Seq<u8>, stack: Seq<u8>, changes: Seq<StackChange>)
    ensures
        stack_after(stack, changes) matches Some(s) ==> stack_after(below + stack, changes) == Some(
            below + s,
        ),
    decreases changes.len(),
{
    if changes.len() > 0 {
        lemma_below_is_left_alone(below, stack, changes.drop_last());
        if let Some(s) = stack_after(stack, changes.drop_last()) {
            match changes.last() {
                StackChange::Push(alpha) => {
                    assert((below + s).push(alpha) =~= below + s.push(alpha));
                },
                StackChange::Blend => {
                    if s.len() > 0 {
                        assert((below + s).drop_last() =~= below + s.drop_last());
                    }
                },
            }
        }
    }
}

/// Pushes and blends account for the height of the stack.
proof fn lemma_stack_height(stack: Seq<u8>, changes: Seq<StackChange>)
    ensures
        stack_after(stack, changes) matches Some(s) ==> s.len() == stack.len() + pushes(changes)
            - blends(changes),
    decreases changes.len(),
{
    reveal(Seq::filter);
    if changes.len() > 0 {
        lemma_stack_height(stack, changes.drop_last());
    }
}

/// Balanced changes leave every stack as they found it, and blend as many
/// scratch layers as they start.
pub proof fn law_balanced_restores_the_stack(stack: Seq<u8>, changes: Seq<StackChange>)
    requires
        balanced(changes),
    ensures
        stack_after(stack, changes) == Some(stack),
        pushes(changes) == blends(changes),
{
    lemma_below_is_left_alone(stack, Seq::empty(), changes);
    assert(stack + Seq::<u8>::empty() =~= stack);
    lemma_stack_height(Seq::empty(), changes);
}

/// Balanced changes one after another are balanced, and start as many scratch
/// layers as both together.
pub proof fn law_layers_in_a_row_are_balanced(a: Seq<StackChange>, b: Seq<StackChange>)
    requires
        balanced(a),
        balanced(b),
    ensures
        balanced(a + b),
        pushes(a + b) == pushes(a) + pushes(b),
{
    lemma_stack_after_both(Seq::empty(), a, b);
    lemma_pushes_of_both(a, b);
}

proof fn lemma_pushes_of_both(a: Seq<StackChange>, b: Seq<StackChange>)
    ensures
        pushes(a + b) == pushes(a) + pushes(b),
    decreases b.len(),
{
    reveal(Seq::filter);
    if b.len() == 0 {
        assert(a + b =~= a);
    } else {
        lemma_pushes_of_both(a, b.drop_last());
        assert((a + b).drop_last() =~= a + b.drop_last());
    }
}

/// A layer is balanced if the drawing in it is. It starts a scratch layer of
/// its own exactly where it is neither fully transparent nor fully opaque, and
/// those of the drawing where it is not fully transparent.
pub proof fn law_layer_is_balanced<C>(probe: Layer<C>, drawing: Seq<StackChange>)
    requires
        balanced(drawing),
    ensures
        balanced(stack_changes(layer_steps(probe), drawing)),
        pushes(stack_changes(layer_steps(probe), drawing)) == (if probe.alpha == 0 {
            0
        } else if probe.alpha == 255 {
            pushes(drawing)
        } else {
            1 + pushes(drawing)
        }),
{
    let steps = layer_steps(probe);
    let changes = stack_changes(steps, drawing);
    reveal_with_fuel(stack_changes, 4);
    reveal_with_fuel(stack_after, 2);
    reveal(Seq::filter);
    if probe.alpha == 0 {
        assert(changes =~= Seq::empty());
    } else if probe.alpha == 255 {
        assert(steps.drop_last() =~= Seq::empty());
        assert(changes =~= drawing);
    } else {
        let push = seq![StackChange::Push(probe.alpha)];
        let blend = seq![StackChange::Blend];
        assert(steps.drop_last().drop_last().drop_last() =~= Seq::empty());
        assert(changes =~= push + drawing + blend);
        let empty = Seq::<u8>::empty();
        let own = seq![probe.alpha];
        assert(push.drop_last() =~= Seq::empty());
        assert(blend.drop_last() =~= Seq::empty());
        assert(stack_after(empty, push) == Some(empty.push(probe.alpha)));
        assert(empty.push(probe.alpha) =~= own);
        law_balanced_restores_the_stack(own, drawing);
        lemma_stack_after_both(empty, push, drawing);
        lemma_stack_after_both(empty, push + drawing, blend);
        assert(own.drop_last() =~= empty);
        lemma_pushes_of_both(push, drawing);
        lemma_pushes_of_both(push + drawing, blend);
        assert(pushes(push.drop_last()) == 0);
        assert(pushes(blend.drop_last()) == 0);
    }
}

/// However layers nest and follow each other, the display's stack of scratch
/// layers is in the end what it was before, every scratch layer that was started
/// has been blended, properly nested, and there was one for each layer drawn
/// that is neither fully transparent nor fully opaque.
pub proof fn law_any_drawing_is_balanced<C>(drawing: Drawing<C>, stack: Seq<u8>)
    ensures
        balanced(drawing.changes()),
        stack_after(stack, drawing.changes()) == Some(stack),
        pushes(drawing.changes()) == drawing.translucent_layers(),
        blends(drawing.changes()) == drawing.translucent_layers(),
    decreases drawing,
{
    match drawing {
        Drawing::Nothing => {
            reveal(Seq::filter);
        },
        Drawing::Layer { probe, inside, rest } => {
            law_any_drawing_is_balanced(*inside, stack);
            law_any_drawing_is_balanced(*rest, stack);
            law_layer_is_balanced(probe, inside.changes());
            law_layers_in_a_row_are_balanced(
                stack_changes(layer_steps(probe), inside.changes()),
                rest.changes(),
            );
        },
    }
    law_balanced_restores_the_stack(stack, drawing.changes());
}

} // verus!
