//! What a clip draws at a given time, in drawing order: the objects of each layer's frame,
//! layer groups drawn through, and the brush previews of the active layer.
use std::collections::HashSet;
use vstd::prelude::*;

verus! {

broadcast use vstd::std_specs::hash::group_hash_axioms;

/// An object of a frame's scene, by id.
#[derive(Clone, Copy, Debug, PartialEq, Eq, Structural)]
pub enum SceneObj {
    Stroke(u64),
    Fill(u64),
}

/// A drawing layer as the renderer sees it at some time: its id, and the objects of its frame
/// at that time (top object first) when it has a loaded frame there.
pub struct DrawLayer {
    pub id: u64,
    pub frame: Option<Vec<SceneObj>>,
}

/// A child of a clip or of a layer group, top child first.
pub enum DrawChild {
    Layer(DrawLayer),
    LayerGroup(Vec<DrawChild>),
    AudioLayer,
}

/// What the editor state adds to a drawing: whether it is the editor's own view (not an
/// export), the active layer, the hidden layers, the objects that a tool hides while it
/// previews, and whether a fill or a stroke preview is being drawn.
pub struct SceneView {
    pub editor_view: bool,
    pub active_layer: u64,
    pub hidden_layers: HashSet<u64>,
    pub hidden_objects: Vec<SceneObj>,
    pub fill_preview: bool,
    pub stroke_preview: bool,
}

/// One thing drawn.
#[derive(Clone, Copy, Debug, PartialEq, Eq, Structural)]
pub enum DrawOp {
    Object(SceneObj),
    FillPreview,
    StrokePreview,
}

/// The plain values of a `SceneView`.
pub struct ViewModel {
    pub editor_view: bool,
    pub active_layer: u64,
    pub hidden_layers: Set<u64>,
    pub hidden_objects: Seq<SceneObj>,
    pub fill_preview: bool,
    pub stroke_preview: bool,
}

impl SceneView {
    pub open spec fn model(&self) -> ViewModel {
        ViewModel {
            editor_view: self.editor_view,
            active_layer: self.active_layer,
            hidden_layers: self.hidden_layers@,
            hidden_objects: self.hidden_objects@,
            fill_preview: self.fill_preview,
            stroke_preview: self.stroke_preview,
        }
    }
}

/// The objects of a frame in drawing order: bottom object first, leaving out in the editor's
/// view those that a tool hides.
pub open spec fn frame_ops(objs: Seq<SceneObj>, v: ViewModel) -> Seq<DrawOp>
    decreases objs.len(),
{
    if objs.len() == 0 {
        Seq::empty()
    } else {
        let o = objs.last();
        let here = if v.editor_view && v.hidden_objects.contains(o) {
            Seq::empty()
        } else {
            seq![DrawOp::Object(o)]
        };
        here + frame_ops(objs.drop_last(), v)
    }
}

/// Whether the brush previews are drawn on the layer `id`.
pub open spec fn shows_previews(id: u64, v: ViewModel) -> bool {
    v.editor_view && id == v.active_layer
}

/// What a drawing layer draws: nothing where the editor's view hides it; else the fill
/// preview under its frame and the stroke preview over it on the active layer, and its
/// frame's objects where it has a frame.
pub open spec fn layer_ops(l: DrawLayer, v: ViewModel) -> Seq<DrawOp> {
    if v.editor_view && v.hidden_layers.contains(l.id) {
        Seq::empty()
    } else {
        let fill = if shows_previews(l.id, v) && v.fill_preview {
            seq![DrawOp::FillPreview]
        } else {
            Seq::empty()
        };
        let objs = match l.frame {
            Some(f) => frame_ops(f@, v),
            None => Seq::empty(),
        };
        let stroke = if shows_previews(l.id, v) && v.stroke_preview {
            seq![DrawOp::StrokePreview]
        } else {
            Seq::empty()
        };
        fill + objs + stroke
    }
}

/// What a child draws: a layer its own, a group what its children draw, an audio layer
/// nothing.
pub open spec fn child_ops(c: DrawChild, v: ViewModel) -> Seq<DrawOp>
    decreases c, 0int,
{
    match c {
        DrawChild::Layer(l) => layer_ops(l, v),
        DrawChild::LayerGroup(children) => list_ops(children@, v),
        DrawChild::AudioLayer => Seq::empty(),
    }
}

/// What a list of children draws: the bottom child first.
pub open spec fn list_ops(children: Seq<DrawChild>, v: ViewModel) -> Seq<DrawOp>
    decreases children, children.len(),
{
    if children.len() == 0 {
        Seq::empty()
    } else {
        child_ops(children[children.len() - 1], v) + list_ops(children.drop_last(), v)
    }
}

/// What a frame draws holds no object that a tool hides, in the editor's view.
proof fn lemma_frame_skips_hidden(objs: Seq<SceneObj>, v: ViewModel, o: SceneObj)
    requires
        v.editor_view,
        v.hidden_objects.contains(o),
    ensures
        !frame_ops(objs, v).contains(DrawOp::Object(o)),
    decreases objs.len(),
{
    if objs.len() > 0 {
        lemma_frame_skips_hidden(objs.drop_last(), v, o);
        let here = if v.hidden_objects.contains(objs.last()) {
            Seq::<DrawOp>::empty()
        } else {
            seq![DrawOp::Object(objs.last())]
        };
        assert(!here.contains(DrawOp::Object(o)));
        vstd::seq_lib::lemma_seq_concat_contains_all_elements(here, frame_ops(objs.drop_last(), v), DrawOp::Object(o));
    }
}

proof fn lemma_child_skips_hidden(c: DrawChild, v: ViewModel, o: SceneObj)
    requires
        v.editor_view,
        v.hidden_objects.contains(o),
    ensures
        !child_ops(c, v).contains(DrawOp::Object(o)),
    decreases c, 0int,
{
    match c {
        DrawChild::Layer(l) => {
            if !v.hidden_layers.contains(l.id) {
                let fill = if shows_previews(l.id, v) && v.fill_preview { seq![DrawOp::FillPreview] } else { Seq::empty() };
                let objs = match l.frame { Some(f) => frame_ops(f@, v), None => Seq::empty() };
                let stroke = if shows_previews(l.id, v) && v.stroke_preview { seq![DrawOp::StrokePreview] } else { Seq::empty() };
                match l.frame {
                    Some(f) => lemma_frame_skips_hidden(f@, v, o),
                    None => {},
                }
                assert(!fill.contains(DrawOp::Object(o)));
                assert(!stroke.contains(DrawOp::Object(o)));
                vstd::seq_lib::lemma_seq_concat_contains_all_elements(fill, objs, DrawOp::Object(o));
                vstd::seq_lib::lemma_seq_concat_contains_all_elements(fill + objs, stroke, DrawOp::Object(o));
            }
        },
        DrawChild::LayerGroup(children) => lemma_list_skips_hidden(children@, v, o),
        DrawChild::AudioLayer => {},
    }
}

proof fn lemma_list_skips_hidden(children: Seq<DrawChild>, v: ViewModel, o: SceneObj)
    requires
        v.editor_view,
        v.hidden_objects.contains(o),
    ensures
        !list_ops(children, v).contains(DrawOp::Object(o)),
    decreases children, children.len(),
{
    if children.len() > 0 {
        lemma_child_skips_hidden(children[children.len() - 1], v, o);
        lemma_list_skips_hidden(children.drop_last(), v, o);
        vstd::seq_lib::lemma_seq_concat_contains_all_elements(
            child_ops(children[children.len() - 1], v),
            list_ops(children.drop_last(), v),
            DrawOp::Object(o),
        );
    }
}

/// In the editor's view, an object that a tool hides while it previews is not drawn, in
/// whatever layer or group it stands.
pub proof fn lemma_hidden_objects_not_drawn(layers: Seq<DrawChild>, v: ViewModel, o: SceneObj)
    requires
        v.editor_view,
        v.hidden_objects.contains(o),
    ensures
        !list_ops(layers, v).contains(DrawOp::Object(o)),
{
    lemma_list_skips_hidden(layers, v, o);
}

proof fn lemma_frame_export(objs: Seq<SceneObj>, v1: ViewModel, v2: ViewModel)
    requires
        !v1.editor_view,
        !v2.editor_view,
    ensures
        frame_ops(objs, v1) == frame_ops(objs, v2),
    decreases objs.len(),
{
    if objs.len() > 0 {
        lemma_frame_export(objs.drop_last(), v1, v2);
    }
}

proof fn lemma_child_export(c: DrawChild, v1: ViewModel, v2: ViewModel)
    requires
        !v1.editor_view,
        !v2.editor_view,
    ensures
        child_ops(c, v1) == child_ops(c, v2),
    decreases c, 0int,
{
    match c {
        DrawChild::Layer(l) => {
            match l.frame {
                Some(f) => lemma_frame_export(f@, v1, v2),
                None => {},
            }
        },
        DrawChild::LayerGroup(children) => lemma_list_export(children@, v1, v2),
        DrawChild::AudioLayer => {},
    }
}

proof fn lemma_list_export(children: Seq<DrawChild>, v1: ViewModel, v2: ViewModel)
    requires
        !v1.editor_view,
        !v2.editor_view,
    ensures
        list_ops(children, v1) == list_ops(children, v2),
    decreases children, children.len(),
{
    if children.len() > 0 {
        lemma_child_export(children[children.len() - 1], v1, v2);
        lemma_list_export(children.drop_last(), v1, v2);
    }
}

/// Outside the editor's view (an export) a clip draws the same whatever the editor state
/// holds: hidden layers, hidden objects, the active layer and the previews change nothing.
pub proof fn lemma_export_ignores_editor_state(layers: Seq<DrawChild>, v1: ViewModel, v2: ViewModel)
    requires
        !v1.editor_view,
        !v2.editor_view,
    ensures
        list_ops(layers, v1) == list_ops(layers, v2),
{
    lemma_list_export(layers, v1, v2);
}


/// Some drawing layer of `c`, at whatever depth of groups, is not among `hidden` and holds
/// `o` in its frame.
pub open spec fn visible_layer_holds(c: DrawChild, hidden: Set<u64>, o: SceneObj) -> bool
    decreases c, 0int,
{
    match c {
        DrawChild::Layer(l) => !hidden.contains(l.id) && (l.frame matches Some(f) && f@.contains(o)),
        DrawChild::LayerGroup(children) => visible_list_holds(children@, hidden, o),
        DrawChild::AudioLayer => false,
    }
}

/// Some child of `children` has a drawing layer, at whatever depth of groups, that is not
/// among `hidden` and holds `o` in its frame.
pub open spec fn visible_list_holds(children: Seq<DrawChild>, hidden: Set<u64>, o: SceneObj) -> bool
    decreases children, children.len(),
{
    if children.len() == 0 {
        false
    } else {
        visible_layer_holds(children[children.len() - 1], hidden, o) || visible_list_holds(
            children.drop_last(),
            hidden,
            o,
        )
    }
}

proof fn lemma_frame_draws_its_objects(objs: Seq<SceneObj>, v: ViewModel, o: SceneObj)
    requires
        frame_ops(objs, v).contains(DrawOp::Object(o)),
    ensures
        objs.contains(o),
    decreases objs.len(),
{
    let here = if v.editor_view && v.hidden_objects.contains(objs.last()) {
        Seq::<DrawOp>::empty()
    } else {
        seq![DrawOp::Object(objs.last())]
    };
    vstd::seq_lib::lemma_seq_concat_contains_all_elements(here, frame_ops(objs.drop_last(), v), DrawOp::Object(o));
    if here.contains(DrawOp::Object(o)) {
        assert(here[0] == DrawOp::Object(o));
        assert(objs[objs.len() - 1] == o);
    } else {
        lemma_frame_draws_its_objects(objs.drop_last(), v, o);
        let k = choose|k: int| 0 <= k < objs.drop_last().len() && objs.drop_last()[k] == o;
        assert(objs[k] == o);
    }
}

proof fn lemma_child_draws_visible(c: DrawChild, v: ViewModel, o: SceneObj)
    requires
        v.editor_view,
        child_ops(c, v).contains(DrawOp::Object(o)),
    ensures
        visible_layer_holds(c, v.hidden_layers, o),
    decreases c, 0int,
{
    match c {
        DrawChild::Layer(l) => {
            let fill = if shows_previews(l.id, v) && v.fill_preview { seq![DrawOp::FillPreview] } else { Seq::empty() };
            let objs = match l.frame { Some(f) => frame_ops(f@, v), None => Seq::empty() };
            let stroke = if shows_previews(l.id, v) && v.stroke_preview { seq![DrawOp::StrokePreview] } else { Seq::empty() };
            if v.hidden_layers.contains(l.id) {
                assert(layer_ops(l, v).len() == 0);
            } else {
                vstd::seq_lib::lemma_seq_concat_contains_all_elements(fill, objs, DrawOp::Object(o));
                vstd::seq_lib::lemma_seq_concat_contains_all_elements(fill + objs, stroke, DrawOp::Object(o));
                assert(!fill.contains(DrawOp::Object(o)));
                assert(!stroke.contains(DrawOp::Object(o)));
                match l.frame {
                    Some(f) => lemma_frame_draws_its_objects(f@, v, o),
                    None => {},
                }
            }
        },
        DrawChild::LayerGroup(children) => lemma_list_draws_visible(children@, v, o),
        DrawChild::AudioLayer => {},
    }
}

proof fn lemma_list_draws_visible(children: Seq<DrawChild>, v: ViewModel, o: SceneObj)
    requires
        v.editor_view,
        list_ops(children, v).contains(DrawOp::Object(o)),
    ensures
        visible_list_holds(children, v.hidden_layers, o),
    decreases children, children.len(),
{
    let last = children[children.len() - 1];
    vstd::seq_lib::lemma_seq_concat_contains_all_elements(
        child_ops(last, v),
        list_ops(children.drop_last(), v),
        DrawOp::Object(o),
    );
    if child_ops(last, v).contains(DrawOp::Object(o)) {
        lemma_child_draws_visible(last, v, o);
    } else {
        lemma_list_draws_visible(children.drop_last(), v, o);
    }
}

/// In the editor's view every object drawn belongs to the frame of a layer that is not
/// hidden, at whatever depth of groups that layer stands: a hidden layer, in a group or not,
/// draws none of its objects, and a clip whose layers are all hidden draws no object.
pub proof fn lemma_hidden_layers_not_drawn(layers: Seq<DrawChild>, v: ViewModel, o: SceneObj)
    requires
        v.editor_view,
        list_ops(layers, v).contains(DrawOp::Object(o)),
    ensures
        visible_list_holds(layers, v.hidden_layers, o),
{
    lemma_list_draws_visible(layers, v, o);
}


proof fn lemma_frame_draws_no_preview(objs: Seq<SceneObj>, v: ViewModel)
    ensures
        !frame_ops(objs, v).contains(DrawOp::FillPreview),
        !frame_ops(objs, v).contains(DrawOp::StrokePreview),
    decreases objs.len(),
{
    if objs.len() > 0 {
        lemma_frame_draws_no_preview(objs.drop_last(), v);
        let here = if v.editor_view && v.hidden_objects.contains(objs.last()) {
            Seq::<DrawOp>::empty()
        } else {
            seq![DrawOp::Object(objs.last())]
        };
        assert(!here.contains(DrawOp::FillPreview));
        assert(!here.contains(DrawOp::StrokePreview));
        vstd::seq_lib::lemma_seq_concat_contains_all_elements(here, frame_ops(objs.drop_last(), v), DrawOp::FillPreview);
        vstd::seq_lib::lemma_seq_concat_contains_all_elements(here, frame_ops(objs.drop_last(), v), DrawOp::StrokePreview);
    }
}

proof fn lemma_child_previews(c: DrawChild, v: ViewModel)
    ensures
        child_ops(c, v).contains(DrawOp::FillPreview) ==> v.editor_view && v.fill_preview
            && !v.hidden_layers.contains(v.active_layer),
        child_ops(c, v).contains(DrawOp::StrokePreview) ==> v.editor_view && v.stroke_preview
            && !v.hidden_layers.contains(v.active_layer),
    decreases c, 0int,
{
    match c {
        DrawChild::Layer(l) => {
            if !(v.editor_view && v.hidden_layers.contains(l.id)) {
                let fill = if shows_previews(l.id, v) && v.fill_preview { seq![DrawOp::FillPreview] } else { Seq::empty() };
                let objs = match l.frame { Some(f) => frame_ops(f@, v), None => Seq::empty() };
                let stroke = if shows_previews(l.id, v) && v.stroke_preview { seq![DrawOp::StrokePreview] } else { Seq::empty() };
                match l.frame {
                    Some(f) => lemma_frame_draws_no_preview(f@, v),
                    None => {},
                }
                assert(fill.contains(DrawOp::FillPreview) ==> shows_previews(l.id, v) && v.fill_preview);
                assert(!fill.contains(DrawOp::StrokePreview));
                assert(!stroke.contains(DrawOp::FillPreview));
                assert(stroke.contains(DrawOp::StrokePreview) ==> shows_previews(l.id, v) && v.stroke_preview);
                vstd::seq_lib::lemma_seq_concat_contains_all_elements(fill, objs, DrawOp::FillPreview);
                vstd::seq_lib::lemma_seq_concat_contains_all_elements(fill + objs, stroke, DrawOp::FillPreview);
                vstd::seq_lib::lemma_seq_concat_contains_all_elements(fill, objs, DrawOp::StrokePreview);
                vstd::seq_lib::lemma_seq_concat_contains_all_elements(fill + objs, stroke, DrawOp::StrokePreview);
            }
        },
        DrawChild::LayerGroup(children) => lemma_list_previews(children@, v),
        DrawChild::AudioLayer => {},
    }
}

proof fn lemma_list_previews(children: Seq<DrawChild>, v: ViewModel)
    ensures
        list_ops(children, v).contains(DrawOp::FillPreview) ==> v.editor_view && v.fill_preview
            && !v.hidden_layers.contains(v.active_layer),
        list_ops(children, v).contains(DrawOp::StrokePreview) ==> v.editor_view && v.stroke_preview
            && !v.hidden_layers.contains(v.active_layer),
    decreases children, children.len(),
{
    if children.len() > 0 {
        let last = children[children.len() - 1];
        lemma_child_previews(last, v);
        lemma_list_previews(children.drop_last(), v);
        vstd::seq_lib::lemma_seq_concat_contains_all_elements(child_ops(last, v), list_ops(children.drop_last(), v), DrawOp::FillPreview);
        vstd::seq_lib::lemma_seq_concat_contains_all_elements(child_ops(last, v), list_ops(children.drop_last(), v), DrawOp::StrokePreview);
    }
}

/// The brush previews are drawn only in the editor's view, only while a tool shows one, and
/// never when the active layer is hidden; an export draws no preview.
pub proof fn lemma_previews_only_in_editor(layers: Seq<DrawChild>, v: ViewModel)
    ensures
        list_ops(layers, v).contains(DrawOp::FillPreview) ==> v.editor_view && v.fill_preview
            && !v.hidden_layers.contains(v.active_layer),
        list_ops(layers, v).contains(DrawOp::StrokePreview) ==> v.editor_view && v.stroke_preview
            && !v.hidden_layers.contains(v.active_layer),
{
    lemma_list_previews(layers, v);
}


/// Drawing a frame draws its lower objects first: the objects of `a + b` are drawn as those
/// of `b`, then those of `a`.
pub proof fn lemma_frame_bottom_first(a: Seq<SceneObj>, b: Seq<SceneObj>, v: ViewModel)
    ensures
        frame_ops(a + b, v) == frame_ops(b, v) + frame_ops(a, v),
    decreases b.len(),
{
    if b.len() == 0 {
        assert(a + b =~= a);
        assert(frame_ops(b, v) + frame_ops(a, v) =~= frame_ops(a, v));
    } else {
        lemma_frame_bottom_first(a, b.drop_last(), v);
        assert((a + b).drop_last() =~= a + b.drop_last());
        assert((a + b).last() == b.last());
        let here = if v.editor_view && v.hidden_objects.contains(b.last()) {
            Seq::<DrawOp>::empty()
        } else {
            seq![DrawOp::Object(b.last())]
        };
        assert(frame_ops(a + b, v) == here + frame_ops(a + b.drop_last(), v));
        assert(frame_ops(b, v) == here + frame_ops(b.drop_last(), v));
        assert(here + (frame_ops(b.drop_last(), v) + frame_ops(a, v)) =~= (here + frame_ops(
            b.drop_last(),
            v,
        )) + frame_ops(a, v));
    }
}

/// A frame of one object draws that object, unless a tool hides it in the editor's view, and
/// an empty frame draws nothing.
pub proof fn lemma_frame_single(o: SceneObj, v: ViewModel)
    ensures
        !(v.editor_view && v.hidden_objects.contains(o)) ==> frame_ops(seq![o], v) == seq![DrawOp::Object(o)],
        v.editor_view && v.hidden_objects.contains(o) ==> frame_ops(seq![o], v).len() == 0,
        frame_ops(Seq::empty(), v).len() == 0,
{
    let one = seq![o];
    assert(one.drop_last() =~= Seq::<SceneObj>::empty());
    assert(one.last() == o);
    assert(frame_ops(one.drop_last(), v) =~= Seq::<DrawOp>::empty());
    assert(seq![DrawOp::Object(o)] + Seq::<DrawOp>::empty() =~= seq![DrawOp::Object(o)]);
    assert(Seq::<DrawOp>::empty() + Seq::<DrawOp>::empty() =~= Seq::<DrawOp>::empty());
}

/// A clip draws its lower children first: the children `a + b` are drawn as `b`, then `a`.
pub proof fn lemma_layers_bottom_first(a: Seq<DrawChild>, b: Seq<DrawChild>, v: ViewModel)
    ensures
        list_ops(a + b, v) == list_ops(b, v) + list_ops(a, v),
    decreases b.len(),
{
    if b.len() == 0 {
        assert(a + b =~= a);
        assert(list_ops(b, v) + list_ops(a, v) =~= list_ops(a, v));
    } else {
        lemma_layers_bottom_first(a, b.drop_last(), v);
        assert((a + b).drop_last() =~= a + b.drop_last());
        assert((a + b)[(a + b).len() - 1] == b[b.len() - 1]);
        let here = child_ops(b[b.len() - 1], v);
        assert(list_ops(a + b, v) == here + list_ops(a + b.drop_last(), v));
        assert(list_ops(b, v) == here + list_ops(b.drop_last(), v));
        assert(here + (list_ops(b.drop_last(), v) + list_ops(a, v)) =~= (here + list_ops(
            b.drop_last(),
            v,
        )) + list_ops(a, v));
    }
}

/// A group draws exactly what its children would draw in its place.
pub proof fn lemma_group_draws_children(children: Seq<DrawChild>, v: ViewModel)
    ensures
        forall|c: DrawChild| c matches DrawChild::LayerGroup(g) && g@ == children ==> #[trigger] child_ops(c, v)
            == list_ops(children, v),
{
}

/// On a drawing layer that shows both brush previews, the fill preview comes first, under the
/// layer's objects, and the stroke preview last, over them.
pub proof fn lemma_previews_wrap_layer(l: DrawLayer, v: ViewModel)
    requires
        v.editor_view,
        l.id == v.active_layer,
        !v.hidden_layers.contains(l.id),
        v.fill_preview,
        v.stroke_preview,
    ensures
        layer_ops(l, v).len() >= 2,
        layer_ops(l, v)[0] == DrawOp::FillPreview,
        layer_ops(l, v).last() == DrawOp::StrokePreview,
{
}

/// Whether `o` is among `objs`.
fn contains_obj(objs: &Vec<SceneObj>, o: SceneObj) -> (r: bool)
    ensures
        r == objs@.contains(o),
{
    let mut i: usize = 0;
    while i < objs.len()
        invariant
            i <= objs@.len(),
            forall|j: int| 0 <= j < i ==> objs@[j] != o,
        decreases objs.len() - i,
    {
        if objs[i] == o {
            return true;
        }
        i = i + 1;
    }
    false
}

/// Appends what the frame `objs` draws.
fn push_frame_ops(objs: &Vec<SceneObj>, view: &SceneView, out: &mut Vec<DrawOp>)
    ensures
        final(out)@ == old(out)@ + frame_ops(objs@, view.model()),
{
    let ghost start = out@;
    let mut k: usize = objs.len();
    assert(objs@.take(objs@.len() as int) =~= objs@);
    while k > 0
        invariant
            k <= objs@.len(),
            start + frame_ops(objs@, view.model()) == out@ + frame_ops(objs@.take(k as int), view.model()),
        decreases k,
    {
        let o = objs[k - 1];
        let ghost before = out@;
        assert(objs@.take(k as int).drop_last() =~= objs@.take(k - 1));
        assert(objs@.take(k as int).last() == o);
        if !(view.editor_view && contains_obj(&view.hidden_objects, o)) {
            out.push(DrawOp::Object(o));
            assert(out@ =~= before + seq![DrawOp::Object(o)]);
        } else {
            assert(out@ =~= before + Seq::<DrawOp>::empty());
        }
        assert(before + frame_ops(objs@.take(k as int), view.model()) =~= out@ + frame_ops(objs@.take(k - 1), view.model()));
        k = k - 1;
    }
    assert(out@ + frame_ops(objs@.take(0), view.model()) =~= out@);
}

/// Appends what the drawing layer `l` draws.
fn push_layer_ops(l: &DrawLayer, view: &SceneView, out: &mut Vec<DrawOp>)
    ensures
        final(out)@ == old(out)@ + layer_ops(*l, view.model()),
{
    let ghost start = out@;
    if view.editor_view && view.hidden_layers.contains(&l.id) {
        assert(out@ =~= start + Seq::<DrawOp>::empty());
        return;
    }
    let previews = view.editor_view && l.id == view.active_layer;
    if previews && view.fill_preview {
        out.push(DrawOp::FillPreview);
    }
    let ghost after_fill = out@;
    match &l.frame {
        Some(objs) => push_frame_ops(objs, view, out),
        None => {},
    }
    let ghost after_objs = out@;
    if previews && view.stroke_preview {
        out.push(DrawOp::StrokePreview);
    }
    proof {
        let v = view.model();
        let fill = if shows_previews(l.id, v) && v.fill_preview { seq![DrawOp::FillPreview] } else { Seq::empty() };
        let objs = match &l.frame { Some(f) => frame_ops(f@, v), None => Seq::empty() };
        let stroke = if shows_previews(l.id, v) && v.stroke_preview { seq![DrawOp::StrokePreview] } else { Seq::empty() };
        assert(after_fill =~= start + fill);
        assert(after_objs =~= after_fill + objs);
        assert(out@ =~= after_objs + stroke);
        assert(out@ =~= start + (fill + objs + stroke));
    }
}

/// Appends what the child `c` draws.
fn push_child_ops(c: &DrawChild, view: &SceneView, out: &mut Vec<DrawOp>)
    ensures
        final(out)@ == old(out)@ + child_ops(*c, view.model()),
    decreases c, 0int,
{
    match c {
        DrawChild::Layer(l) => push_layer_ops(l, view, out),
        DrawChild::LayerGroup(children) => push_list_ops(children, view, out),
        DrawChild::AudioLayer => {
            assert(out@ =~= old(out)@ + Seq::<DrawOp>::empty());
        },
    }
}

/// Appends what the list of children `children` draws.
fn push_list_ops(children: &Vec<DrawChild>, view: &SceneView, out: &mut Vec<DrawOp>)
    ensures
        final(out)@ == old(out)@ + list_ops(children@, view.model()),
    decreases children@, children@.len(),
{
    let ghost start = out@;
    let mut k: usize = children.len();
    assert(children@.take(children@.len() as int) =~= children@);
    while k > 0
        invariant
            k <= children@.len(),
            start + list_ops(children@, view.model()) == out@ + list_ops(children@.take(k as int), view.model()),
        decreases k,
    {
        let ghost before = out@;
        assert(children@.take(k as int).drop_last() =~= children@.take(k - 1));
        assert(children@.take(k as int)[k - 1] == children@[k - 1]);
        push_child_ops(&children[k - 1], view, out);
        assert(before + list_ops(children@.take(k as int), view.model()) =~= out@ + list_ops(children@.take(k - 1), view.model()));
        k = k - 1;
    }
    assert(out@ + list_ops(children@.take(0), view.model()) =~= out@);
}

/// What the clip whose children are `layers` draws, in drawing order.
pub fn render_scene(layers: &Vec<DrawChild>, view: &SceneView) -> (r: Vec<DrawOp>)
    ensures
        r@ == list_ops(layers@, view.model()),
        forall|o: SceneObj| view.editor_view && #[trigger] r@.contains(DrawOp::Object(o))
            ==> visible_list_holds(layers@, view.hidden_layers@, o),
        forall|o: SceneObj| view.editor_view && #[trigger] view.hidden_objects@.contains(o)
            ==> !r@.contains(DrawOp::Object(o)),
        r@.contains(DrawOp::FillPreview) ==> view.editor_view && view.fill_preview
            && !view.hidden_layers@.contains(view.active_layer),
        r@.contains(DrawOp::StrokePreview) ==> view.editor_view && view.stroke_preview
            && !view.hidden_layers@.contains(view.active_layer),
{
    let mut out: Vec<DrawOp> = Vec::new();
    push_list_ops(layers, view, &mut out);
    assert(out@ =~= list_ops(layers@, view.model()));
    proof {
        assert forall|o: SceneObj| view.editor_view && #[trigger] out@.contains(DrawOp::Object(o))
            implies visible_list_holds(layers@, view.hidden_layers@, o) by {
            lemma_hidden_layers_not_drawn(layers@, view.model(), o);
        }
        assert forall|o: SceneObj| view.editor_view && #[trigger] view.hidden_objects@.contains(o)
            implies !out@.contains(DrawOp::Object(o)) by {
            lemma_hidden_objects_not_drawn(layers@, view.model(), o);
        }
        lemma_previews_only_in_editor(layers@, view.model());
    }
    out
}

} // verus!
