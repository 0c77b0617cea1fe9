//! The layers shown in the timeline: the list drawn, where a dragged layer lands, and the
//! lists of layers being dragged.
use std::collections::HashSet;
use vstd::prelude::*;

use crate::id_set::set_items;

verus! {

broadcast use vstd::std_specs::hash::group_hash_axioms;

/// What holds a layer: a clip, or a layer group, by id.
#[derive(Clone, Copy, PartialEq, Eq, Structural)]
pub enum LayerParent {
    Clip(u64),
    LayerGroup(u64),
}

/// A layer of any kind, by id.
#[derive(Clone, Copy, PartialEq, Eq, Structural)]
pub enum LayerRef {
    Layer(u64),
    LayerGroup(u64),
}

/// A row of the timeline: a layer, an audio layer or a layer group, with its id and parent.
#[derive(Clone, Copy, PartialEq, Eq, Structural)]
pub enum RenderLayerKind {
    Layer(u64, LayerParent),
    AudioLayer(u64, LayerParent),
    LayerGroup(u64, LayerParent),
}

/// A row of the timeline and its position among the children of its parent.
#[derive(Clone, Copy)]
pub struct RenderLayer {
    pub idx: usize,
    pub kind: RenderLayerKind,
}

/// The rows of the timeline, top to bottom.
pub struct RenderList {
    pub layers: Vec<RenderLayer>,
}

/// Where a dragged layer is dropped: on the row `render_list_idx`, above or below its middle.
#[derive(Clone, Copy)]
pub struct LayerDropLocation {
    pub render_list_idx: usize,
    pub above: bool,
}

/// The parent of a row.
pub open spec fn parent_of(kind: RenderLayerKind) -> LayerParent {
    match kind {
        RenderLayerKind::Layer(_, p) => p,
        RenderLayerKind::AudioLayer(_, p) => p,
        RenderLayerKind::LayerGroup(_, p) => p,
    }
}

/// The rows for the children of a clip, `None` standing for a child that is not loaded: each
/// loaded child keeps its position among the children.
pub open spec fn loaded_layers(children: Seq<Option<RenderLayerKind>>) -> Seq<RenderLayer>
    decreases children.len(),
{
    if children.len() == 0 {
        Seq::empty()
    } else {
        let prev = loaded_layers(children.drop_last());
        match children.last() {
            Some(kind) => prev.push(RenderLayer { idx: (children.len() - 1) as usize, kind }),
            None => prev,
        }
    }
}

/// The position among its parent's children that a layer dropped at `drop` takes.
pub open spec fn drop_index(layer: RenderLayer, above: bool) -> int {
    layer.idx + if above { 0int } else { 1int }
}

/// Where a layer dropped on the row `layer`, above its middle or below it, goes: next to a
/// layer or an audio layer, in its parent, before it when above and after it otherwise; on a
/// group, above the group or into the group as its first child.
pub open spec fn row_transfer_location(layer: RenderLayer, above: bool) -> (LayerParent, int) {
    match layer.kind {
        RenderLayerKind::LayerGroup(group, parent) => if above {
            (parent, layer.idx + 1)
        } else {
            (LayerParent::LayerGroup(group), 0)
        },
        _ => (parent_of(layer.kind), drop_index(layer, above)),
    }
}

/// Where a layer dropped at `drop` goes, in the rows `layers` of the clip `clip` that has
/// `clip_layer_count` children: below the last row it goes to the end of the clip, else where
/// dropping on that row sends it.
pub open spec fn transfer_location(
    layers: Seq<RenderLayer>,
    drop: LayerDropLocation,
    clip: u64,
    clip_layer_count: usize,
) -> (LayerParent, int) {
    if drop.render_list_idx == layers.len() {
        (LayerParent::Clip(clip), clip_layer_count as int)
    } else {
        row_transfer_location(layers[drop.render_list_idx as int], drop.above)
    }
}

/// The first plain layer among the rows, if any.
pub open spec fn first_layer(layers: Seq<RenderLayer>) -> Option<u64>
    decreases layers.len(),
{
    if layers.len() == 0 {
        None
    } else {
        match layers[0].kind {
            RenderLayerKind::Layer(ptr, _) => Some(ptr),
            _ => first_layer(layers.drop_first()),
        }
    }
}

/// The id of a row that shows a plain layer.
pub open spec fn layer_ptr(kind: RenderLayerKind) -> Option<u64> {
    match kind {
        RenderLayerKind::Layer(p, _) => Some(p),
        _ => None,
    }
}

/// Some row shows the plain layer `ptr`.
pub open spec fn shows_layer(layers: Seq<RenderLayer>, ptr: u64) -> bool {
    exists|i: int| 0 <= i < layers.len() && layer_ptr(#[trigger] layers[i].kind) == Some(ptr)
}

/// The active layer once the rows are known: it stays where a row shows it, and otherwise
/// becomes the first plain layer, or none.
pub open spec fn active_layer_after(layers: Seq<RenderLayer>, active: Option<u64>) -> Option<u64> {
    match active {
        Some(a) => if shows_layer(layers, a) {
            active
        } else {
            first_layer(layers)
        },
        None => first_layer(layers),
    }
}

impl RenderList {

    /// The rows for the children of a clip, skipping the children that are not loaded.
    pub fn make(children: &Vec<Option<RenderLayerKind>>) -> (r: Self)
        ensures
            r.layers@ == loaded_layers(children@),
    {
        let mut layers: Vec<RenderLayer> = Vec::new();
        let n = children.len();
        for idx in 0..n
            invariant
                n == children.len(),
                layers@ == loaded_layers(children@.take(idx as int)),
        {
            assert(children@.take(idx + 1).drop_last() =~= children@.take(idx as int));
            match children[idx] {
                Some(kind) => {
                    layers.push(RenderLayer { idx, kind });
                },
                None => {},
            }
        }
        assert(children@.take(n as int) =~= children@);
        RenderList { layers }
    }

    /// The number of rows.
    pub fn len(&self) -> (r: usize)
        ensures
            r == self.layers@.len(),
    {
        self.layers.len()
    }

    /// Where a layer dropped at `drop` goes: next to the row it was dropped on, in that row's
    /// parent, before it when dropped above its middle and after it otherwise; a group row
    /// takes it above the group, or below its middle into the group as its first child.
    pub fn get_row_transfer_location(&self, drop: LayerDropLocation) -> (r: (LayerParent, usize))
        requires
            drop.render_list_idx < self.layers@.len(),
            self.layers@[drop.render_list_idx as int].idx < usize::MAX,
        ensures
            r.0 == row_transfer_location(self.layers@[drop.render_list_idx as int], drop.above).0,
            r.1 == row_transfer_location(self.layers@[drop.render_list_idx as int], drop.above).1,
    {
        let layer = self.layers[drop.render_list_idx];
        match layer.kind {
            RenderLayerKind::LayerGroup(group, parent) => {
                if drop.above {
                    (parent, layer.idx + 1)
                } else {
                    (LayerParent::LayerGroup(group), 0)
                }
            },
            RenderLayerKind::Layer(_, parent) => (parent, layer.idx + if drop.above {
                0
            } else {
                1
            }),
            RenderLayerKind::AudioLayer(_, parent) => (parent, layer.idx + if drop.above {
                0
            } else {
                1
            }),
        }
    }

    /// Where a layer dropped at `drop` goes in the clip `clip`, which has `clip_layer_count`
    /// children. Dropping below the last row sends it to the end of the clip; dropping on a
    /// group puts it above the group or, below the group's middle, first in the group.
    pub fn get_transfer_location(
        &self,
        drop: LayerDropLocation,
        clip: u64,
        clip_layer_count: usize,
    ) -> (r: (LayerParent, usize))
        requires
            drop.render_list_idx <= self.layers@.len(),
            drop.render_list_idx < self.layers@.len() ==> self.layers@[drop.render_list_idx as int].idx
                < usize::MAX,
        ensures
            r.0 == transfer_location(self.layers@, drop, clip, clip_layer_count).0,
            r.1 == transfer_location(self.layers@, drop, clip, clip_layer_count).1,
    {
        if drop.render_list_idx == self.layers.len() {
            return (LayerParent::Clip(clip), clip_layer_count);
        }
        self.get_row_transfer_location(drop)
    }

    /// The layer to keep active: `active` where a row shows it, else the first plain layer, or
    /// none when there is no plain layer.
    pub fn update_active_layer(&self, active: Option<u64>) -> (r: Option<u64>)
        ensures
            r == active_layer_after(self.layers@, active),
    {
        let n = self.layers.len();
        let mut found = false;
        let mut first: Option<u64> = None;
        let mut i: usize = 0;
        while i < n
            invariant
                0 <= i <= n,
                n == self.layers@.len(),
                found == (active is Some && exists|k: int|
                    0 <= k < i && layer_ptr(#[trigger] self.layers@[k].kind) == active),
                first == first_layer(self.layers@.take(i as int)),
                first is None ==> forall|k: int| 0 <= k < i ==> !(#[trigger] self.layers@[k].kind is Layer),
                first is Some ==> first_layer(self.layers@) == first,
            decreases n - i,
        {
            proof {
                lemma_first_layer_take(self.layers@, i as int);
            }
            match self.layers[i].kind {
                RenderLayerKind::Layer(ptr, _) => {
                    if Some(ptr) == active {
                        found = true;
                    }
                    if first.is_none() {
                        first = Some(ptr);
                    }
                },
                _ => {},
            }
            i = i + 1;
        }
        proof {
            assert(self.layers@.take(n as int) =~= self.layers@);
            if first is None {
                lemma_no_layer_first_none(self.layers@);
            }
        }
        if found {
            active
        } else {
            first
        }
    }
}

/// Dropping below the middle of a row lands where dropping above the middle of the next row
/// does, when the next row is the next child of the same parent and neither row is a group.
pub proof fn lemma_drop_between_rows(layers: Seq<RenderLayer>, i: usize, clip: u64, clip_layer_count: usize)
    requires
        i < usize::MAX,
        i + 1 < layers.len(),
        !(layers[i as int].kind is LayerGroup),
        !(layers[i + 1].kind is LayerGroup),
        parent_of(layers[i as int].kind) == parent_of(layers[i + 1].kind),
        layers[i + 1].idx == layers[i as int].idx + 1,
    ensures
        transfer_location(
            layers,
            LayerDropLocation { render_list_idx: i, above: false },
            clip,
            clip_layer_count,
        ) == transfer_location(
            layers,
            LayerDropLocation { render_list_idx: (i + 1) as usize, above: true },
            clip,
            clip_layer_count,
        ),
{
}

proof fn lemma_first_layer_take(s: Seq<RenderLayer>, i: int)
    requires
        0 <= i < s.len(),
    ensures
        first_layer(s.take(i)) is None ==> first_layer(s.take(i + 1)) == match s[i].kind {
            RenderLayerKind::Layer(p, _) => Some(p),
            _ => None,
        },
        first_layer(s.take(i)) is Some ==> first_layer(s.take(i + 1)) == first_layer(s.take(i)),
        first_layer(s.take(i)) is None ==> (s[i].kind is Layer ==> first_layer(s) == first_layer(
            s.take(i + 1),
        )),
        first_layer(s.take(i)) is Some ==> first_layer(s) == first_layer(s.take(i)),
    decreases i,
{
    if i == 0 {
        assert(s.take(1).drop_first() =~= Seq::<RenderLayer>::empty());
        assert(s.take(1)[0] == s[0]);
        assert(first_layer(Seq::<RenderLayer>::empty()) is None);
        assert(s.take(0).len() == 0);
    } else {
        assert(s.drop_first()[i - 1] == s[i]);
        assert(s.take(i + 1).drop_first() =~= s.drop_first().take(i));
        assert(s.take(i).drop_first() =~= s.drop_first().take(i - 1));
        assert(s.take(i + 1)[0] == s[0]);
        assert(s.take(i)[0] == s[0]);
        if !(s[0].kind is Layer) {
            lemma_first_layer_take(s.drop_first(), i - 1);
        }
    }
}

proof fn lemma_no_layer_first_none(s: Seq<RenderLayer>)
    requires
        forall|k: int| 0 <= k < s.len() ==> !(#[trigger] s[k].kind is Layer),
    ensures
        first_layer(s) is None,
    decreases s.len(),
{
    if s.len() > 0 {
        assert(!(s[0].kind is Layer));
        assert forall|k: int| 0 <= k < s.drop_first().len() implies !(
        #[trigger] s.drop_first()[k].kind is Layer) by {
            assert(s.drop_first()[k] == s[k + 1]);
        }
        lemma_no_layer_first_none(s.drop_first());
    }
}

/// Layers and layer groups being dragged, by id.
pub struct LayerList {
    pub layers: HashSet<u64>,
    pub layer_groups: HashSet<u64>,
}

/// One step of moving layers: the layer, its new parent and its position there.
#[derive(Clone, Copy)]
pub struct LayerTransfer {
    pub layer: LayerRef,
    pub new_parent: LayerParent,
    pub new_idx: usize,
}

/// The steps that move each id of `ids`, wrapped by `wrap`, to `new_parent` at `new_idx`.
pub open spec fn transfers_of(
    ids: Seq<u64>,
    wrap: spec_fn(u64) -> LayerRef,
    new_parent: LayerParent,
    new_idx: usize,
) -> Seq<LayerTransfer> {
    ids.map_values(|id: u64| LayerTransfer { layer: wrap(id), new_parent, new_idx })
}

impl LayerList {

    /// No layers.
    pub fn new() -> (r: Self)
        ensures
            r.layers@ == Set::<u64>::empty(),
            r.layer_groups@ == Set::<u64>::empty(),
    {
        LayerList { layers: HashSet::new(), layer_groups: HashSet::new() }
    }

    /// Adds a layer or a layer group.
    pub fn add(&mut self, layer: LayerRef)
        ensures
            match layer {
                LayerRef::Layer(p) => final(self).layers@ == old(self).layers@.insert(p)
                    && final(self).layer_groups@ == old(self).layer_groups@,
                LayerRef::LayerGroup(p) => final(self).layer_groups@ == old(self).layer_groups@.insert(
                    p,
                ) && final(self).layers@ == old(self).layers@,
            },
    {
        match layer {
            LayerRef::Layer(p) => {
                self.layers.insert(p);
            },
            LayerRef::LayerGroup(p) => {
                self.layer_groups.insert(p);
            },
        }
    }

    /// The list of just `layer`.
    pub fn single(layer: LayerRef) -> (r: Self)
        ensures
            match layer {
                LayerRef::Layer(p) => r.layers@ == set![p] && r.layer_groups@ == Set::<u64>::empty(),
                LayerRef::LayerGroup(p) => r.layer_groups@ == set![p] && r.layers@ == Set::<
                    u64,
                >::empty(),
            },
    {
        let mut r = Self::new();
        r.add(layer);
        proof {
            match layer {
                LayerRef::Layer(p) => assert(Set::<u64>::empty().insert(p) =~= set![p]),
                LayerRef::LayerGroup(p) => assert(Set::<u64>::empty().insert(p) =~= set![p]),
            }
        }
        r
    }

    /// The steps that move every listed layer, then every listed group, to `new_parent` at
    /// `new_idx`.
    pub fn transfer(&self, new_parent: LayerParent, new_idx: usize) -> (r: Vec<LayerTransfer>)
        ensures
            exists|ls: Seq<u64>, gs: Seq<u64>|
                {
                    &&& ls.no_duplicates() && ls.to_set() == self.layers@
                    &&& gs.no_duplicates() && gs.to_set() == self.layer_groups@
                    &&& r@ == transfers_of(ls, |id: u64| LayerRef::Layer(id), new_parent, new_idx)
                        + transfers_of(gs, |id: u64| LayerRef::LayerGroup(id), new_parent, new_idx)
                },
    {
        let ls = set_items(&self.layers);
        let gs = set_items(&self.layer_groups);
        let mut r: Vec<LayerTransfer> = Vec::new();
        for i in 0..ls.len()
            invariant
                r@ == transfers_of(ls@.take(i as int), |id: u64| LayerRef::Layer(id), new_parent, new_idx),
        {
            r.push(LayerTransfer { layer: LayerRef::Layer(ls[i]), new_parent, new_idx });
            assert(r@ =~= transfers_of(ls@.take(i + 1), |id: u64| LayerRef::Layer(id), new_parent, new_idx));
        }
        assert(ls@.take(ls@.len() as int) =~= ls@);
        let ghost first = r@;
        for i in 0..gs.len()
            invariant
                r@ == first + transfers_of(gs@.take(i as int), |id: u64| LayerRef::LayerGroup(id), new_parent, new_idx),
        {
            r.push(LayerTransfer { layer: LayerRef::LayerGroup(gs[i]), new_parent, new_idx });
            assert(r@ =~= first + transfers_of(gs@.take(i + 1), |id: u64| LayerRef::LayerGroup(id), new_parent, new_idx));
        }
        assert(gs@.take(gs@.len() as int) =~= gs@);
        r
    }
}

/// Where a dragged layer would drop this frame: below the last row when layers are carried
/// over the empty part of the layer area, else on the row it hovers, if any.
pub fn layer_drop_target(
    row_hover: Option<LayerDropLocation>,
    area_hovered: bool,
    carrying_layers: bool,
    n_rows: usize,
) -> (r: Option<LayerDropLocation>)
    requires
        carrying_layers && area_hovered ==> n_rows > 0,
    ensures
        r == if carrying_layers && area_hovered {
            Some(LayerDropLocation { render_list_idx: (n_rows - 1) as usize, above: false })
        } else {
            row_hover
        },
{
    if carrying_layers && area_hovered {
        Some(LayerDropLocation { render_list_idx: n_rows - 1, above: false })
    } else {
        row_hover
    }
}

/// The dropped layers to transfer and where: a payload that was dropped is taken once there is
/// a drop location; without one it waits.
pub fn take_layer_drop<T>(hover: Option<LayerDropLocation>, dropped: &mut Option<T>) -> (r: Option<(T, LayerDropLocation)>)
    ensures
        match hover {
            Some(loc) => {
                &&& *final(dropped) is None
                &&& r == match *old(dropped) {
                    Some(p) => Some((p, loc)),
                    None => None,
                }
            },
            None => r is None && *final(dropped) == *old(dropped),
        },
{
    match hover {
        Some(loc) => match dropped.take() {
            Some(p) => Some((p, loc)),
            None => None,
        },
        None => None,
    }
}

} // verus!
