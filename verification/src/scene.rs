//! What the scene draws at a given time: the objects of each visible layer's frame.
use std::collections::HashSet;
use vstd::prelude::*;

verus! {

broadcast use vstd::std_specs::hash::group_hash_axioms;

/// A layer of the clip as the scene sees it at some time: whether it is hidden, and the
/// objects of its frame at that time, when it has a loaded frame there.
pub struct LayerScene {
    pub hidden: bool,
    pub scene: Option<Vec<u64>>,
}

/// The objects drawn for one layer: none for a hidden layer or one without a frame, else its
/// frame's objects, last first.
pub open spec fn layer_objects(layer: LayerScene) -> Seq<u64> {
    if layer.hidden {
        Seq::empty()
    } else {
        match layer.scene {
            Some(objs) => objs@.reverse(),
            None => Seq::empty(),
        }
    }
}

/// The objects drawn for the layers `layers` (in the clip's order), bottom layer first: the
/// layers are taken from last to first.
pub open spec fn scene_objects(layers: Seq<LayerScene>) -> Seq<u64>
    decreases layers.len(),
{
    if layers.len() == 0 {
        Seq::empty()
    } else {
        layer_objects(layers.last()) + scene_objects(layers.drop_last())
    }
}

/// The objects of the scene, in drawing order.
pub fn render_list(layers: &Vec<LayerScene>) -> (r: Vec<u64>)
    ensures
        r@ == scene_objects(layers@),
{
    let mut r: Vec<u64> = Vec::new();
    let n = layers.len();
    let mut i: usize = n;
    assert(layers@.take(n as int) =~= layers@);
    assert(r@ + scene_objects(layers@) =~= scene_objects(layers@));
    while i > 0
        invariant
            0 <= i <= n,
            n == layers@.len(),
            scene_objects(layers@) == r@ + scene_objects(layers@.take(i as int)),
        decreases i,
    {
        let layer = &layers[i - 1];
        assert(layers@.take(i as int).drop_last() =~= layers@.take(i - 1));
        assert(layers@.take(i as int).last() == layers@[i - 1]);
        let ghost before = r@;
        if !layer.hidden {
            match &layer.scene {
                Some(objs) => {
                    let mut k: usize = objs.len();
                    while k > 0
                        invariant
                            0 <= k <= objs@.len(),
                            r@ == before + objs@.reverse().take(objs@.len() - k),
                        decreases k,
                    {
                        r.push(objs[k - 1]);
                        k = k - 1;
                        assert(r@ =~= before + objs@.reverse().take(objs@.len() - k));
                    }
                    assert(objs@.reverse().take(objs@.len() as int) =~= objs@.reverse());
                },
                None => {},
            }
        }
        assert(r@ == before + layer_objects(layers@[i - 1]));
        assert(before + scene_objects(layers@.take(i as int)) =~= r@ + scene_objects(layers@.take(i - 1)));
        i = i - 1;
    }
    assert(layers@.take(0) =~= Seq::<LayerScene>::empty());
    assert(r@ + Seq::<u64>::empty() =~= r@);
    r
}

/// The set of objects that the scene draws.
pub fn rendered_strokes(render_list: &Vec<u64>) -> (r: HashSet<u64>)
    ensures
        r@ == render_list@.to_set(),
{
    let mut r: HashSet<u64> = HashSet::new();
    for i in 0..render_list.len()
        invariant
            r@ == render_list@.take(i as int).to_set(),
    {
        r.insert(render_list[i]);
        assert(render_list@.take(i + 1) =~= render_list@.take(i as int).push(render_list@[i as int]));
        proof {
            render_list@.take(i as int).lemma_push_to_set_commute(render_list@[i as int]);
        }
    }
    assert(render_list@.take(render_list@.len() as int) =~= render_list@);
    r
}

} // verus!
