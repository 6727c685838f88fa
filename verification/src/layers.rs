//! The render layers that route a drawable to the camera that draws it.

use vstd::prelude::*;

verus! {

/// All normal sprites must be added to this camera layer.
pub const CAMERA_LAYER_SPRITE: usize = 1;

/// All light sprites must be added to this camera layer.
pub const CAMERA_LAYER_LIGHT: usize = 2;

/// Layer of the camera that has the final composite image. It is kept for the
/// full-screen quad; content from outside never carries it.
pub const CAMERA_FINAL_IMAGE: usize = 50;

/// The three layers of the pipeline.
#[derive(Clone, Copy, Debug, PartialEq, Eq, Structural)]
pub enum Layer {
    /// Ordinary visible-colour sprites, drawn without lighting.
    Diffuse,
    /// Light-emitting sprites, drawn into the light target.
    Light,
    /// The full-screen quad of the present pass.
    Presentation,
}

/// Why a layer number cannot be worn by content from outside.
#[derive(Clone, Copy, Debug, PartialEq, Eq, Structural)]
pub enum LayerError {
    /// The number is that of the presentation layer.
    Reserved,
    /// The number is that of no layer of the pipeline.
    Unknown,
}

impl Layer {
    /// The number of the layer.
    pub open spec fn spec_tag(self) -> usize {
        match self {
            Layer::Diffuse => CAMERA_LAYER_SPRITE,
            Layer::Light => CAMERA_LAYER_LIGHT,
            Layer::Presentation => CAMERA_FINAL_IMAGE,
        }
    }

    /// The number of the layer.
    pub fn tag(self) -> (tag: usize)
        ensures
            tag == self.spec_tag(),
    {
        match self {
            Layer::Diffuse => CAMERA_LAYER_SPRITE,
            Layer::Light => CAMERA_LAYER_LIGHT,
            Layer::Presentation => CAMERA_FINAL_IMAGE,
        }
    }

    /// The layer with the number `tag`, if there is one.
    pub open spec fn spec_from_tag(tag: usize) -> Option<Layer> {
        if tag == CAMERA_LAYER_SPRITE {
            Some(Layer::Diffuse)
        } else if tag == CAMERA_LAYER_LIGHT {
            Some(Layer::Light)
        } else if tag == CAMERA_FINAL_IMAGE {
            Some(Layer::Presentation)
        } else {
            None
        }
    }

    /// The layer with the number `tag`, if there is one.
    pub fn from_tag(tag: usize) -> (layer: Option<Layer>)
        ensures
            layer == Layer::spec_from_tag(tag),
            layer matches Some(l) ==> l.spec_tag() == tag,
            layer is None ==> forall|l: Layer| l.spec_tag() != tag,
    {
        if tag == CAMERA_LAYER_SPRITE {
            Some(Layer::Diffuse)
        } else if tag == CAMERA_LAYER_LIGHT {
            Some(Layer::Light)
        } else if tag == CAMERA_FINAL_IMAGE {
            Some(Layer::Presentation)
        } else {
            None
        }
    }

    /// What a drawable from outside that wears `tag` is routed to.
    pub open spec fn spec_for_content(tag: usize) -> Result<Layer, LayerError> {
        if tag == CAMERA_LAYER_SPRITE {
            Ok(Layer::Diffuse)
        } else if tag == CAMERA_LAYER_LIGHT {
            Ok(Layer::Light)
        } else if tag == CAMERA_FINAL_IMAGE {
            Err(LayerError::Reserved)
        } else {
            Err(LayerError::Unknown)
        }
    }

    /// Routes a drawable from outside by the number it wears: to the diffuse
    /// or the light layer, or to an error where the number is the reserved
    /// one or none of the pipeline's.
    pub fn for_content(tag: usize) -> (routed: Result<Layer, LayerError>)
        ensures
            routed == Layer::spec_for_content(tag),
            routed == Ok::<Layer, LayerError>(Layer::Diffuse) <==> tag == CAMERA_LAYER_SPRITE,
            routed == Ok::<Layer, LayerError>(Layer::Light) <==> tag == CAMERA_LAYER_LIGHT,
            routed == Err::<Layer, LayerError>(LayerError::Reserved) <==> tag
                == CAMERA_FINAL_IMAGE,
    {
        match Layer::from_tag(tag) {
            Some(Layer::Diffuse) => Ok(Layer::Diffuse),
            Some(Layer::Light) => Ok(Layer::Light),
            Some(Layer::Presentation) => Err(LayerError::Reserved),
            None => Err(LayerError::Unknown),
        }
    }

    /// Whether a camera on this layer draws a drawable that wears `tag`.
    pub open spec fn spec_observes(self, tag: usize) -> bool {
        tag == self.spec_tag()
    }

    /// Whether a camera on this layer draws a drawable that wears `tag`.
    pub fn observes(self, tag: usize) -> (seen: bool)
        ensures
            seen == self.spec_observes(tag),
    {
        tag == self.tag()
    }
}

/// What the pipeline needs to know of a drawable to route and order it: the
/// layer number it wears and its depth. A greater depth is nearer to the
/// viewer.
#[derive(Clone, Copy, Debug, PartialEq, Eq, Structural)]
pub struct Drawable {
    /// The layer number of the drawable.
    pub layer: usize,
    /// The depth of the drawable.
    pub depth: i32,
}

/// Whether `position` occurs in `order`.
pub open spec fn lists(order: Seq<usize>, position: int) -> bool {
    exists|k: int| 0 <= k < order.len() && #[trigger] order[k] == position
}

/// Whether the drawable at position `a` is drawn before the one at `b`: it
/// lies deeper, or as deep and earlier in the scene.
pub open spec fn drawn_before(drawables: Seq<Drawable>, a: int, b: int) -> bool {
    drawables[a].depth < drawables[b].depth || (drawables[a].depth == drawables[b].depth && a
        < b)
}

/// `order` lists exactly the positions in `drawables` that a camera on
/// `camera` draws, from back to front: by rising depth, and among equals in
/// the order of the scene.
pub open spec fn is_draw_order(camera: Layer, drawables: Seq<Drawable>, order: Seq<usize>) -> bool {
    &&& forall|k: int| 0 <= k < order.len() ==> #[trigger] order[k] < drawables.len()
    &&& forall|k: int|
        0 <= k < order.len() ==> camera.spec_observes(drawables[#[trigger] order[k] as int].layer)
    &&& forall|j: int, k: int|
        0 <= j < k < order.len() ==> drawn_before(
            drawables,
            #[trigger] order[j] as int,
            #[trigger] order[k] as int,
        )
    &&& forall|i: int|
        0 <= i < drawables.len() && camera.spec_observes((#[trigger] drawables[i]).layer)
            ==> lists(order, i)
}

/// A drawable that the camera does not draw leaves the draw order as it is.
proof fn lemma_passed_over(
    camera: Layer,
    seen: Seq<Drawable>,
    next: Seq<Drawable>,
    order: Seq<usize>,
)
    requires
        is_draw_order(camera, seen, order),
        next.len() == seen.len() + 1,
        forall|p: int| 0 <= p < seen.len() ==> seen[p] == next[p],
        !camera.spec_observes(next.last().layer),
    ensures
        is_draw_order(camera, next, order),
{
    assert forall|k: int| 0 <= k < order.len() implies camera.spec_observes(
        next[#[trigger] order[k] as int].layer,
    ) by {
        assert(seen[order[k] as int] == next[order[k] as int]);
    }
    assert forall|j: int, k: int| 0 <= j < k < order.len() implies drawn_before(
        next,
        #[trigger] order[j] as int,
        #[trigger] order[k] as int,
    ) by {
        assert(drawn_before(seen, order[j] as int, order[k] as int));
        assert(seen[order[j] as int] == next[order[j] as int]);
        assert(seen[order[k] as int] == next[order[k] as int]);
    }
    assert forall|i: int|
        0 <= i < next.len() && camera.spec_observes((#[trigger] next[i]).layer) implies lists(
        order,
        i,
    ) by {
        assert(i < seen.len());
        assert(seen[i] == next[i]);
    }
}

/// A drawable that the camera draws takes its place in the draw order behind
/// everything that is no nearer than it and before everything nearer.
proof fn lemma_placed(
    camera: Layer,
    seen: Seq<Drawable>,
    next: Seq<Drawable>,
    order: Seq<usize>,
    at: int,
)
    requires
        is_draw_order(camera, seen, order),
        next.len() == seen.len() + 1,
        seen.len() <= usize::MAX,
        forall|p: int| 0 <= p < seen.len() ==> seen[p] == next[p],
        camera.spec_observes(next.last().layer),
        0 <= at <= order.len(),
        forall|k: int| at <= k < order.len() ==> next[#[trigger] order[k] as int].depth > next.last().depth,
        at > 0 ==> next[order[at - 1] as int].depth <= next.last().depth,
    ensures
        is_draw_order(camera, next, order.insert(at, seen.len() as usize)),
{
    let new = seen.len() as usize;
    let after = order.insert(at, new);
    order.insert_ensures(at, new);
    assert forall|k: int| 0 <= k < after.len() implies #[trigger] after[k] < next.len()
        && camera.spec_observes(next[after[k] as int].layer) by {
        if k < at {
            assert(after[k] == order[k]);
            assert(seen[order[k] as int] == next[order[k] as int]);
        } else if k > at {
            assert(after[k] == order[k - 1]);
            assert(seen[order[k - 1] as int] == next[order[k - 1] as int]);
        }
    }
    assert forall|j: int, k: int| 0 <= j < k < after.len() implies drawn_before(
        next,
        #[trigger] after[j] as int,
        #[trigger] after[k] as int,
    ) by {
        if k < at {
            assert(after[j] == order[j] && after[k] == order[k]);
            assert(drawn_before(seen, order[j] as int, order[k] as int));
            assert(seen[order[j] as int] == next[order[j] as int]);
            assert(seen[order[k] as int] == next[order[k] as int]);
        } else if k == at {
            assert(after[j] == order[j]);
            assert(seen[order[j] as int] == next[order[j] as int]);
            assert(seen[order[at - 1] as int] == next[order[at - 1] as int]);
            if j < at - 1 {
                assert(drawn_before(seen, order[j] as int, order[at - 1] as int));
            }
        } else if j == at {
            assert(after[k] == order[k - 1]);
        } else if j > at {
            assert(after[j] == order[j - 1] && after[k] == order[k - 1]);
            assert(drawn_before(seen, order[j - 1] as int, order[k - 1] as int));
            assert(seen[order[j - 1] as int] == next[order[j - 1] as int]);
            assert(seen[order[k - 1] as int] == next[order[k - 1] as int]);
        } else {
            assert(after[j] == order[j] && after[k] == order[k - 1]);
            assert(seen[order[j] as int] == next[order[j] as int]);
            assert(seen[order[k - 1] as int] == next[order[k - 1] as int]);
            if j < k - 1 {
                assert(drawn_before(seen, order[j] as int, order[k - 1] as int));
            }
        }
    }
    assert forall|i: int|
        0 <= i < next.len() && camera.spec_observes((#[trigger] next[i]).layer) implies lists(
        after,
        i,
    ) by {
        if i == seen.len() {
            assert(after[at] == i);
        } else {
            assert(seen[i] == next[i]);
            let k = choose|k: int| 0 <= k < order.len() && #[trigger] order[k] == i;
            if k < at {
                assert(after[k] == i);
            } else {
                assert(after[k + 1] == i);
            }
        }
    }
}

/// A draw order without the last drawable of the scene is the draw order of
/// the scene without it.
proof fn lemma_without_last(camera: Layer, drawables: Seq<Drawable>, order: Seq<usize>, at: int)
    requires
        drawables.len() > 0,
        is_draw_order(camera, drawables, order),
        0 <= at < order.len(),
        order[at] == drawables.len() - 1,
    ensures
        is_draw_order(camera, drawables.drop_last(), order.remove(at)),
        forall|k: int|
            0 <= k < order.remove(at).len() ==> (k < at <==> drawn_before(
                drawables,
                #[trigger] order.remove(at)[k] as int,
                drawables.len() - 1,
            )),
{
    let last = drawables.len() - 1;
    let seen = drawables.drop_last();
    let rest = order.remove(at);
    order.remove_ensures(at);
    assert forall|k: int| 0 <= k < rest.len() implies #[trigger] rest[k] < seen.len()
        && camera.spec_observes(seen[rest[k] as int].layer) && (k < at <==> drawn_before(
        drawables,
        rest[k] as int,
        last,
    )) by {
        if k < at {
            assert(rest[k] == order[k]);
            assert(drawn_before(drawables, order[k] as int, order[at] as int));
        } else {
            assert(rest[k] == order[k + 1]);
            assert(drawn_before(drawables, order[at] as int, order[k + 1] as int));
        }
    }
    assert forall|j: int, k: int| 0 <= j < k < rest.len() implies drawn_before(
        seen,
        #[trigger] rest[j] as int,
        #[trigger] rest[k] as int,
    ) by {
        let from = if j < at {
            j
        } else {
            j + 1
        };
        let to = if k < at {
            k
        } else {
            k + 1
        };
        assert(rest[j] == order[from] && rest[k] == order[to]);
        assert(drawn_before(drawables, order[from] as int, order[to] as int));
        assert(rest[j] < seen.len() && rest[k] < seen.len());
    }
    assert forall|i: int|
        0 <= i < seen.len() && camera.spec_observes((#[trigger] seen[i]).layer) implies lists(
        rest,
        i,
    ) by {
        assert(seen[i] == drawables[i]);
        let k = choose|k: int| 0 <= k < order.len() && #[trigger] order[k] == i;
        if k < at {
            assert(rest[k] == i);
        } else {
            assert(rest[k - 1] == i);
        }
    }
}

/// A scene has one draw order for a camera and no other.
pub proof fn lemma_draw_order_unique(
    camera: Layer,
    drawables: Seq<Drawable>,
    first: Seq<usize>,
    second: Seq<usize>,
)
    requires
        is_draw_order(camera, drawables, first),
        is_draw_order(camera, drawables, second),
    ensures
        first == second,
    decreases drawables.len(),
{
    if drawables.len() == 0 {
        assert(first.len() == 0) by {
            if first.len() > 0 {
                assert(first[0] < drawables.len());
            }
        }
        assert(second.len() == 0) by {
            if second.len() > 0 {
                assert(second[0] < drawables.len());
            }
        }
        assert(first =~= second);
    } else {
        let last = drawables.len() - 1;
        let seen = drawables.drop_last();
        if camera.spec_observes(drawables[last].layer) {
            let i = choose|k: int| 0 <= k < first.len() && #[trigger] first[k] == last;
            let j = choose|k: int| 0 <= k < second.len() && #[trigger] second[k] == last;
            lemma_without_last(camera, drawables, first, i);
            lemma_without_last(camera, drawables, second, j);
            lemma_draw_order_unique(camera, seen, first.remove(i), second.remove(j));
            first.remove_ensures(i);
            second.remove_ensures(j);
            let rest = first.remove(i);
            if i < j {
                assert(drawn_before(drawables, rest[i] as int, last));
            }
            if j < i {
                assert(drawn_before(drawables, rest[j] as int, last));
            }
            assert(first =~= second) by {
                assert forall|k: int| 0 <= k < first.len() implies first[k] == second[k] by {
                    if k < i {
                        assert(rest[k] == first[k] && rest[k] == second[k]);
                    } else if k > i {
                        assert(rest[k - 1] == first[k] && rest[k - 1] == second[k]);
                    }
                }
            }
        } else {
            assert forall|k: int| 0 <= k < first.len() implies #[trigger] first[k] != last by {
                assert(camera.spec_observes(drawables[first[k] as int].layer));
            }
            assert forall|k: int| 0 <= k < second.len() implies #[trigger] second[k] != last by {
                assert(camera.spec_observes(drawables[second[k] as int].layer));
            }
            lemma_short_of_last(camera, drawables, first);
            lemma_short_of_last(camera, drawables, second);
            lemma_draw_order_unique(camera, seen, first, second);
        }
    }
}

/// Where the camera does not draw the last drawable of the scene, the draw
/// order of the scene is that of the scene without it.
proof fn lemma_short_of_last(camera: Layer, drawables: Seq<Drawable>, order: Seq<usize>)
    requires
        drawables.len() > 0,
        is_draw_order(camera, drawables, order),
        !camera.spec_observes(drawables.last().layer),
    ensures
        is_draw_order(camera, drawables.drop_last(), order),
{
    let seen = drawables.drop_last();
    assert forall|k: int| 0 <= k < order.len() implies #[trigger] order[k] < seen.len()
        && camera.spec_observes(seen[order[k] as int].layer) by {
        assert(camera.spec_observes(drawables[order[k] as int].layer));
    }
    assert forall|j: int, k: int| 0 <= j < k < order.len() implies drawn_before(
        seen,
        #[trigger] order[j] as int,
        #[trigger] order[k] as int,
    ) by {
        assert(drawn_before(drawables, order[j] as int, order[k] as int));
        assert(order[j] < seen.len() && order[k] < seen.len());
    }
    assert forall|i: int|
        0 <= i < seen.len() && camera.spec_observes((#[trigger] seen[i]).layer) implies lists(
        order,
        i,
    ) by {
        assert(seen[i] == drawables[i]);
    }
}

/// The positions of the drawables among `drawables` that a camera on
/// `camera` draws, in the order in which it draws them: from back to front,
/// and among drawables of one depth in the order of the scene.
pub fn draw_order(camera: Layer, drawables: &Vec<Drawable>) -> (order: Vec<usize>)
    ensures
        is_draw_order(camera, drawables@, order@),
{
    let mut order: Vec<usize> = Vec::new();
    let mut i: usize = 0;
    while i < drawables.len()
        invariant
            i <= drawables.len(),
            is_draw_order(camera, drawables@.take(i as int), order@),
        decreases drawables.len() - i,
    {
        let ghost seen = drawables@.take(i as int);
        let ghost next = drawables@.take(i + 1);
        let ghost before = order@;
        if camera.observes(drawables[i].layer) {
            let depth: i32 = drawables[i].depth;
            let mut at: usize = order.len();
            while at > 0 && drawables[order[at - 1]].depth > depth
                invariant
                    i < drawables.len(),
                    depth == drawables@[i as int].depth,
                    order@ == before,
                    at <= order.len(),
                    forall|k: int| 0 <= k < before.len() ==> #[trigger] before[k] < i,
                    forall|k: int|
                        at <= k < before.len() ==> drawables@[#[trigger] before[k] as int].depth
                            > depth,
                decreases at,
            {
                at = at - 1;
            }
            order.insert(at, i);
            proof {
                lemma_placed(camera, seen, next, before, at as int);
            }
        } else {
            proof {
                lemma_passed_over(camera, seen, next, before);
            }
        }
        i = i + 1;
    }
    assert(drawables@.take(drawables@.len() as int) =~= drawables@);
    order
}

/// The three layer numbers differ from one another.
pub proof fn lemma_layers_disjoint(a: Layer, b: Layer)
    ensures
        a.spec_tag() == b.spec_tag() <==> a == b,
{
}

/// A drawable is drawn by at most one camera: what the camera of one layer
/// draws, the camera of any other layer does not.
pub proof fn lemma_layer_isolation(a: Layer, b: Layer, tag: usize)
    requires
        a != b,
    ensures
        !(a.spec_observes(tag) && b.spec_observes(tag)),
{
}

/// Over one scene, the cameras of two different layers draw no drawable in
/// common.
pub proof fn lemma_draw_orders_disjoint(
    a: Layer,
    b: Layer,
    drawables: Seq<Drawable>,
    order_a: Seq<usize>,
    order_b: Seq<usize>,
)
    requires
        a != b,
        is_draw_order(a, drawables, order_a),
        is_draw_order(b, drawables, order_b),
    ensures
        forall|j: int, k: int|
            0 <= j < order_a.len() && 0 <= k < order_b.len() ==> order_a[j] != order_b[k],
{
    assert forall|j: int, k: int|
        0 <= j < order_a.len() && 0 <= k < order_b.len() implies order_a[j] != order_b[k] by {
        assert(a.spec_observes(drawables[order_a[j] as int].layer));
        assert(b.spec_observes(drawables[order_b[k] as int].layer));
    }
}

/// What content from outside may wear is drawn by exactly one of the two
/// capture cameras, and never by the present camera.
pub proof fn lemma_content_reaches_one_capture(tag: usize)
    requires
        Layer::spec_for_content(tag) is Ok,
    ensures
        Layer::Diffuse.spec_observes(tag) != Layer::Light.spec_observes(tag),
        !Layer::Presentation.spec_observes(tag),
{
}

} // verus!
