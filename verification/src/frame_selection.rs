//! The frames selected in the timeline.
use std::collections::HashSet;
use vstd::prelude::*;

use crate::frame_order::{in_move_order, move_origins, plan_frame_moves, FrameMove, TimedFrame};
use crate::id_set::set_items;

verus! {

broadcast use {vstd::std_specs::hash::group_hash_axioms, vstd::seq_lib::group_to_multiset_ensures};

/// `s` with `f` added when it was missing and removed when it was there.
pub open spec fn toggled(s: Set<u64>, f: u64) -> Set<u64> {
    if s.contains(f) {
        s.remove(f)
    } else {
        s.insert(f)
    }
}

/// The frames of `s`, second components, appear once each.
pub open spec fn frames_distinct(s: Seq<TimedFrame>) -> bool {
    forall|a: int, b: int| 0 <= a < s.len() && 0 <= b < s.len() && a != b ==> s[a].1 != s[b].1
}

/// A permutation of a sequence whose frames appear once each has the same property.
proof fn lemma_permutation_keeps_distinct(s1: Seq<TimedFrame>, s2: Seq<TimedFrame>)
    requires
        s1.to_multiset() == s2.to_multiset(),
        frames_distinct(s2),
    ensures
        frames_distinct(s1),
{
    assert(s2.no_duplicates());
    s2.lemma_multiset_has_no_duplicates();
    s1.lemma_multiset_has_no_duplicates_conv();
    assert forall|a: int, b: int| 0 <= a < s1.len() && 0 <= b < s1.len() && a != b implies s1[a].1
        != s1[b].1 by {
        assert(s1.to_multiset().count(s1[a]) > 0);
        assert(s1.to_multiset().count(s1[b]) > 0);
        let i = choose|i: int| 0 <= i < s2.len() && s2[i] == s1[a];
        let j = choose|j: int| 0 <= j < s2.len() && s2[j] == s1[b];
        assert(s1[a] != s1[b]);
    }
}

/// The set of selected frames, by id.
pub struct FrameSelection {
    frames: HashSet<u64>,
}

impl View for FrameSelection {
    type V = Set<u64>;

    closed spec fn view(&self) -> Set<u64> {
        self.frames@
    }
}

impl FrameSelection {

    /// No frame selected.
    pub fn new() -> (r: Self)
        ensures
            r@ == Set::<u64>::empty(),
    {
        FrameSelection { frames: HashSet::new() }
    }

    /// Whether no frame is selected.
    pub fn is_empty(&self) -> (r: bool)
        ensures
            r == (self@ == Set::<u64>::empty()),
    {
        let r = self.frames.is_empty();
        assert(r == (self@ =~= Set::<u64>::empty()));
        r
    }

    /// Adds `frame` to the selection.
    pub fn select_frame(&mut self, frame: u64)
        ensures
            final(self)@ == old(self)@.insert(frame),
    {
        self.frames.insert(frame);
    }

    /// Selects `frame` when it was not selected, and deselects it when it was.
    pub fn invert_select_frame(&mut self, frame: u64)
        ensures
            final(self)@ == toggled(old(self)@, frame),
    {
        if !self.frames.remove(&frame) {
            self.frames.insert(frame);
        }
    }

    /// Whether `frame` is selected.
    pub fn is_frame_selected(&mut self, frame: u64) -> (r: bool)
        ensures
            r == old(self)@.contains(frame),
            final(self)@ == old(self)@,
    {
        self.frames.contains(&frame)
    }

    /// Deselects every frame.
    pub fn clear(&mut self)
        ensures
            final(self)@ == Set::<u64>::empty(),
    {
        self.frames.clear();
    }

    /// The moves that shift the selected frames by `frame_offset`. `frame_time` gives the time
    /// of a frame, or nothing where the frame is not loaded; those frames stay where they are.
    /// Frames move latest first when they move later, earliest first otherwise.
    pub fn move_selected<F: Fn(u64) -> Option<i32>>(&self, frame_time: &F, frame_offset: i32) -> (moves: Vec<FrameMove>)
        requires
            forall|p: u64| frame_time.requires((p,)),
            forall|p: u64, t: i32|
                frame_time.ensures((p,), Some(t)) ==> i32::MIN <= t + frame_offset <= i32::MAX,
        ensures
            forall|i: int|
                0 <= i < moves@.len() ==> self@.contains(#[trigger] moves@[i].frame)
                    && frame_time.ensures(
                    (moves@[i].frame,),
                    Some(move_origins(moves@, frame_offset)[i].0),
                ),
            frames_distinct(move_origins(moves@, frame_offset)),
            forall|p: u64|
                self@.contains(p) ==> frame_time.ensures((p,), None) || exists|i: int|
                    0 <= i < moves@.len() && #[trigger] moves@[i].frame == p,
            in_move_order(moves@, frame_offset),
    {
        let items = set_items(&self.frames);
        let n = items.len();
        let mut known: Vec<TimedFrame> = Vec::new();
        let ghost mut src: Seq<int> = Seq::empty();
        for i in 0..n
            invariant
                n == items.len(),
                items@.no_duplicates(),
                items@.to_set() == self@,
                forall|p: u64| frame_time.requires((p,)),
                src.len() == known@.len(),
                forall|k: int|
                    0 <= k < known@.len() ==> frame_time.ensures(
                        ((#[trigger] known@[k]).1,),
                        Some(known@[k].0),
                    ),
                forall|k: int|
                    0 <= k < known@.len() ==> 0 <= #[trigger] src[k] < i && items@[src[k]]
                        == known@[k].1,
                frames_distinct(known@),
                forall|j: int|
                    0 <= j < i ==> frame_time.ensures((#[trigger] items@[j],), None) || exists|k: int|
                        0 <= k < known@.len() && known@[k].1 == items@[j],
        {
            let p = items[i];
            match frame_time(p) {
                Some(t) => {
                    let ghost before = known@;
                    let ghost src_before = src;
                    known.push((t, p));
                    proof {
                        src = src.push(i as int);
                    }
                    assert forall|a: int, b: int|
                        0 <= a < known@.len() && 0 <= b < known@.len() && a != b implies known@[a].1
                        != known@[b].1 by {
                        if a < before.len() && b < before.len() {
                        } else if a < before.len() {
                            assert(src[a] == src_before[a]);
                            assert(items@[src[a]] != items@[i as int]);
                        } else {
                            assert(src[b] == src_before[b]);
                            assert(items@[src[b]] != items@[i as int]);
                        }
                    }
                    assert forall|k: int| 0 <= k < known@.len() implies 0 <= #[trigger] src[k] < i + 1
                        && items@[src[k]] == known@[k].1 by {
                        if k < before.len() {
                            assert(src[k] == src_before[k]);
                        }
                    }
                    assert forall|j: int|
                        0 <= j < i + 1 implies frame_time.ensures((#[trigger] items@[j],), None)
                        || exists|k: int| 0 <= k < known@.len() && known@[k].1 == items@[j] by {
                        if j == i {
                            assert(known@[before.len() as int].1 == items@[j]);
                        } else if !frame_time.ensures((items@[j],), None) {
                            let k = choose|k: int| 0 <= k < before.len() && before[k].1 == items@[j];
                            assert(known@[k].1 == items@[j]);
                        }
                    }
                },
                None => {},
            }
        }
        assert forall|k: int| 0 <= k < known@.len() implies i32::MIN <= #[trigger] known@[k].0
            + frame_offset <= i32::MAX by {
            assert(frame_time.ensures((known@[k].1,), Some(known@[k].0)));
        }
        let moves = plan_frame_moves(&known, frame_offset);
        let ghost origins = move_origins(moves@, frame_offset);
        proof {
            lemma_permutation_keeps_distinct(origins, known@);
            assert forall|i: int| 0 <= i < moves@.len() implies self@.contains(
                #[trigger] moves@[i].frame,
            ) && frame_time.ensures((moves@[i].frame,), Some(origins[i].0)) by {
                assert(origins[i] == (origins[i].0, moves@[i].frame));
                assert(origins.to_multiset().count(origins[i]) > 0);
                assert(known@.contains(origins[i]));
                let k = choose|k: int| 0 <= k < known@.len() && known@[k] == origins[i];
                assert(items@[src[k]] == known@[k].1);
                assert(items@.to_set().contains(items@[src[k]]));
            }
            assert forall|p: u64| self@.contains(p) implies frame_time.ensures((p,), None) || exists|i: int|
                0 <= i < moves@.len() && #[trigger] moves@[i].frame == p by {
                assert(items@.to_set().contains(p));
                let j = choose|j: int| 0 <= j < n && items@[j] == p;
                if !frame_time.ensures((p,), None) {
                    let k = choose|k: int| 0 <= k < known@.len() && known@[k].1 == items@[j];
                    assert(known@.to_multiset().count(known@[k]) > 0);
                    assert(origins.contains(known@[k]));
                    let i = choose|i: int| 0 <= i < origins.len() && origins[i] == known@[k];
                    assert(moves@[i].frame == p);
                }
            }
        }
        moves
    }

    /// The frames to delete: every selected frame, once each.
    pub fn delete(&self) -> (frames: Vec<u64>)
        ensures
            frames@.no_duplicates(),
            frames@.to_set() == self@,
    {
        set_items(&self.frames)
    }
}

/// Inverting the selection of the same frame twice leaves the selection as it was.
pub proof fn lemma_invert_twice(s: Set<u64>, f: u64)
    ensures
        toggled(toggled(s, f), f) == s,
{
    assert(toggled(toggled(s, f), f) =~= s);
}

/// After a frame is inverted, it is selected exactly when it was not selected before.
pub proof fn lemma_invert_flips(s: Set<u64>, f: u64)
    ensures
        toggled(s, f).contains(f) == !s.contains(f),
        forall|g: u64| g != f ==> toggled(s, f).contains(g) == s.contains(g),
{
}

/// Whether the frame area drops its frame selection this frame: when it lost the focus, and
/// when it was clicked or a box selection started on it without Shift held.
pub fn clears_selection(focused: bool, clicked: bool, box_select_started: bool, shift: bool) -> (r: bool)
    ensures
        r == (!focused || (clicked && !shift) || (box_select_started && !shift)),
{
    !focused || (clicked && !shift) || (box_select_started && !shift)
}

} // verus!
