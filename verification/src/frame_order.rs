//! Ordering the frames of a layer: the plan of moves for a drag, and the dots that the
//! timeline draws for a layer.
use vstd::prelude::*;

verus! {

broadcast use vstd::seq_lib::group_to_multiset_ensures;

/// A frame to move: its time and its id.
pub type TimedFrame = (i32, u64);

/// One step of a move: the frame and the time it moves to.
#[derive(Clone, Copy)]
pub struct FrameMove {
    pub frame: u64,
    pub new_time: i32,
}

/// The `(time, frame)` pair that a move by `offset` started from.
pub open spec fn move_origin(m: FrameMove, offset: i32) -> TimedFrame {
    ((m.new_time - offset) as i32, m.frame)
}

/// Where each move in `moves` started from.
pub open spec fn move_origins(moves: Seq<FrameMove>, offset: i32) -> Seq<TimedFrame> {
    moves.map_values(|m: FrameMove| move_origin(m, offset))
}

/// `s` is ordered by time, earliest first.
pub open spec fn ascending_by_time(s: Seq<TimedFrame>) -> bool {
    forall|i: int, j: int| 0 <= i < j < s.len() ==> s[i].0 <= s[j].0
}

/// Every frame of `frames` can be moved by `offset` without leaving the range of `i32`.
pub open spec fn offset_fits(frames: Seq<TimedFrame>, offset: i32) -> bool {
    forall|i: int|
        0 <= i < frames.len() ==> i32::MIN <= #[trigger] frames[i].0 + offset <= i32::MAX
}

/// The order in which moves by `offset` are made: latest first when frames move later,
/// earliest first otherwise.
pub open spec fn in_move_order(moves: Seq<FrameMove>, offset: i32) -> bool {
    &&& offset <= 0 ==> forall|i: int, j: int|
        0 <= i < j < moves.len() ==> moves[i].new_time <= moves[j].new_time
    &&& offset > 0 ==> forall|i: int, j: int|
        0 <= i < j < moves.len() ==> moves[i].new_time >= moves[j].new_time
}

/// Made in move order, no move puts a frame onto the time of a frame that has yet to move.
pub proof fn lemma_moves_avoid_waiting_frames(moves: Seq<FrameMove>, offset: i32)
    requires
        in_move_order(moves, offset),
        offset != 0,
        forall|i: int|
            0 <= i < moves.len() ==> i32::MIN <= #[trigger] moves[i].new_time - offset <= i32::MAX,
    ensures
        forall|i: int, j: int|
            #![trigger moves[i], move_origin(moves[j], offset)]
            0 <= i < j < moves.len() ==> moves[i].new_time != move_origin(moves[j], offset).0,
{
    assert forall|i: int, j: int|
        #![trigger moves[i], move_origin(moves[j], offset)]
        0 <= i < j < moves.len() implies moves[i].new_time != move_origin(moves[j], offset).0 by {
        assert(i32::MIN <= moves[j].new_time - offset <= i32::MAX);
    }
}

/// Sorts `frames` by time, keeping frames of equal time in their order.
fn sort_by_time(frames: &Vec<TimedFrame>) -> (r: Vec<TimedFrame>)
    ensures
        r@.to_multiset() == frames@.to_multiset(),
        ascending_by_time(r@),
{
    let mut sorted: Vec<TimedFrame> = Vec::new();
    let n = frames.len();
    for i in 0..n
        invariant
            n == frames.len(),
            sorted@.to_multiset() == frames@.take(i as int).to_multiset(),
            ascending_by_time(sorted@),
    {
        let x = frames[i];
        let mut p: usize = 0;
        while p < sorted.len() && sorted[p].0 <= x.0
            invariant
                0 <= p <= sorted.len(),
                forall|k: int| 0 <= k < p ==> sorted@[k].0 <= x.0,
            decreases sorted.len() - p,
        {
            p = p + 1;
        }
        let ghost before = sorted@;
        sorted.insert(p, x);
        proof {
            vstd::seq_lib::to_multiset_insert(before, p as int, x);
            assert(frames@.take(i + 1) =~= frames@.take(i as int).push(x));
            assert forall|a: int, b: int| 0 <= a < b < sorted@.len() implies sorted@[a].0
                <= sorted@[b].0 by {
                if b < p {
                } else if b == p {
                    assert(sorted@[a] == before[a]);
                } else if a < p {
                    assert(sorted@[b] == before[b - 1]);
                    if p < before.len() {
                        assert(before[p as int].0 > x.0);
                    }
                } else if a == p {
                    assert(sorted@[b] == before[b - 1]);
                    assert(before[p as int].0 > x.0);
                    assert(before[p as int].0 <= before[b - 1].0);
                } else {
                    assert(sorted@[a] == before[a - 1] && sorted@[b] == before[b - 1]);
                }
            }
        }
    }
    assert(frames@.take(n as int) =~= frames@);
    sorted
}

/// The moves that shift the selected frames `frames` by `frame_offset`. Frames are moved
/// latest first when they move later and earliest first otherwise, so that no frame is moved
/// onto one that has yet to move.
pub fn plan_frame_moves(frames: &Vec<TimedFrame>, frame_offset: i32) -> (moves: Vec<FrameMove>)
    requires
        offset_fits(frames@, frame_offset),
    ensures
        moves@.len() == frames@.len(),
        move_origins(moves@, frame_offset).to_multiset() == frames@.to_multiset(),
        in_move_order(moves@, frame_offset),
        forall|i: int|
            0 <= i < moves@.len() ==> i32::MIN <= #[trigger] moves@[i].new_time - frame_offset
                <= i32::MAX,
{
    let sorted = sort_by_time(frames);
    let n = sorted.len();
    assert(n == frames@.len()) by {
        sorted@.to_multiset_ensures();
        frames@.to_multiset_ensures();
    }
    let mut order: Vec<TimedFrame> = Vec::new();
    if frame_offset > 0 {
        for k in 0..n
            invariant
                n == sorted.len(),
                order@ == sorted@.reverse().take(k as int),
        {
            order.push(sorted[n - 1 - k]);
            assert(order@ =~= sorted@.reverse().take(k + 1));
        }
        assert(order@ =~= sorted@.reverse());
        proof {
            sorted@.lemma_reverse_to_multiset();
        }
    } else {
        for k in 0..n
            invariant
                n == sorted.len(),
                order@ == sorted@.take(k as int),
        {
            order.push(sorted[k]);
            assert(order@ =~= sorted@.take(k + 1));
        }
        assert(order@ =~= sorted@);
    }
    assert forall|i: int| 0 <= i < n implies i32::MIN <= #[trigger] order@[i].0 + frame_offset
        <= i32::MAX by {
        assert(order@.to_multiset().count(order@[i]) > 0);
        assert(frames@.to_multiset().count(order@[i]) > 0);
        assert(frames@.contains(order@[i]));
    }
    let mut moves: Vec<FrameMove> = Vec::new();
    for k in 0..n
        invariant
            n == order.len(),
            forall|i: int|
                0 <= i < n ==> i32::MIN <= #[trigger] order@[i].0 + frame_offset <= i32::MAX,
            moves@.len() == k,
            forall|i: int|
                0 <= i < k ==> #[trigger] moves@[i] == (FrameMove {
                    frame: order@[i].1,
                    new_time: (order@[i].0 + frame_offset) as i32,
                }),
    {
        let (time, frame) = order[k];
        moves.push(FrameMove { frame, new_time: time + frame_offset });
    }
    assert(move_origins(moves@, frame_offset) =~= order@);
    moves
}


/// A frame of a layer as the timeline sees it: its time, whether it holds no strokes, whether
/// it is selected, and whether the box being dragged out covers it.
#[derive(Clone, Copy)]
pub struct LayerFrame {
    pub time: i32,
    pub empty: bool,
    pub selected: bool,
    pub in_selection_rect: bool,
}

/// What orders the dots of a layer: the time shown, emptiness, and the highlight.
pub type DotKey = (i32, bool, bool);

/// The dot drawn for a frame: it spans from `time` to `end_time`, the frame before the next
/// dot or the end of the clip.
#[derive(Clone, Copy)]
pub struct FrameDot {
    pub layer_idx: usize,
    pub time: i32,
    pub end_time: i32,
    pub selected: bool,
    pub empty: bool,
}

/// The order of tuples: by time, then emptiness, then highlight, `false` before `true`.
pub open spec fn key_le(a: DotKey, b: DotKey) -> bool {
    ||| a.0 < b.0
    ||| (a.0 == b.0 && !a.1 && b.1)
    ||| (a.0 == b.0 && a.1 == b.1 && (!a.2 || b.2))
}

/// `s` is in the order of `key_le`.
pub open spec fn keys_sorted(s: Seq<DotKey>) -> bool {
    forall|i: int, j: int| 0 <= i < j < s.len() ==> key_le(s[i], s[j])
}

/// The time at which a frame is shown: selected frames follow the drag by `offset` frames,
/// and no frame is shown before the start.
pub open spec fn display_time(f: LayerFrame, offset: i32) -> int {
    let t = f.time + if f.selected { offset as int } else { 0 };
    if t < 0 {
        0
    } else {
        t
    }
}

/// The key of the dot for `f`: it is highlighted where its layer can be edited and it is
/// selected or inside the box selection.
pub open spec fn frame_key(f: LayerFrame, editable: bool, offset: i32) -> DotKey {
    (display_time(f, offset) as i32, f.empty, editable && (f.selected || f.in_selection_rect))
}

/// The keys of the frames of a layer.
pub open spec fn frame_keys(frames: Seq<LayerFrame>, editable: bool, offset: i32) -> Seq<DotKey> {
    frames.map_values(|f: LayerFrame| frame_key(f, editable, offset))
}

/// The key a dot was drawn from.
pub open spec fn dot_key(d: FrameDot) -> DotKey {
    (d.time, d.empty, d.selected)
}

/// The keys of a row of dots.
pub open spec fn dot_keys(dots: Seq<FrameDot>) -> Seq<DotKey> {
    dots.map_values(|d: FrameDot| dot_key(d))
}

/// Selected frames can be shown `offset` frames away without leaving the range of `i32`.
pub open spec fn drag_fits(frames: Seq<LayerFrame>, offset: i32) -> bool {
    forall|i: int|
        0 <= i < frames.len() && #[trigger] frames[i].selected ==> i32::MIN <= frames[i].time
            + offset <= i32::MAX
}

fn key_le_exec(a: DotKey, b: DotKey) -> (r: bool)
    ensures
        r == key_le(a, b),
{
    a.0 < b.0 || (a.0 == b.0 && !a.1 && b.1) || (a.0 == b.0 && a.1 == b.1 && (!a.2 || b.2))
}

fn sort_keys(keys: &Vec<DotKey>) -> (r: Vec<DotKey>)
    ensures
        r@.to_multiset() == keys@.to_multiset(),
        keys_sorted(r@),
{
    let mut sorted: Vec<DotKey> = Vec::new();
    let n = keys.len();
    for i in 0..n
        invariant
            n == keys.len(),
            sorted@.to_multiset() == keys@.take(i as int).to_multiset(),
            keys_sorted(sorted@),
    {
        let x = keys[i];
        let mut p: usize = 0;
        while p < sorted.len() && key_le_exec(sorted[p], x)
            invariant
                0 <= p <= sorted.len(),
                forall|k: int| 0 <= k < p ==> key_le(sorted@[k], x),
            decreases sorted.len() - p,
        {
            p = p + 1;
        }
        let ghost before = sorted@;
        sorted.insert(p, x);
        proof {
            vstd::seq_lib::to_multiset_insert(before, p as int, x);
            assert(keys@.take(i + 1) =~= keys@.take(i as int).push(x));
            assert forall|a: int, b: int| 0 <= a < b < sorted@.len() implies key_le(
                sorted@[a],
                sorted@[b],
            ) by {
                if b < p {
                } else if b == p {
                    assert(sorted@[a] == before[a]);
                } else if a < p {
                    assert(sorted@[b] == before[b - 1]);
                    assert(!key_le(before[p as int], x));
                    assert(key_le(before[a], before[b - 1]));
                } else if a == p {
                    assert(sorted@[b] == before[b - 1]);
                    assert(!key_le(before[p as int], x));
                    if b - 1 > p {
                        assert(key_le(before[p as int], before[b - 1]));
                    }
                } else {
                    assert(sorted@[a] == before[a - 1] && sorted@[b] == before[b - 1]);
                }
            }
        }
    }
    assert(keys@.take(n as int) =~= keys@);
    sorted
}

/// The dots of the layer at `layer_idx` in the timeline, given its frames, whether the layer
/// can be edited, how many frames the selection is being dragged by, and the clip's length.
/// The dots come in the order of their keys, and each reaches to the frame before the next
/// dot; the last reaches to the end of the clip.
pub fn frame_dots(
    layer_idx: usize,
    frames: &Vec<LayerFrame>,
    layer_editable: bool,
    frame_offset: i32,
    clip_length: u32,
) -> (dots: Vec<FrameDot>)
    requires
        drag_fits(frames@, frame_offset),
        clip_length as i32 > i32::MIN,
    ensures
        dots@.len() == frames@.len(),
        dot_keys(dots@).to_multiset() == frame_keys(frames@, layer_editable, frame_offset).to_multiset(),
        keys_sorted(dot_keys(dots@)),
        forall|i: int| 0 <= i < dots@.len() ==> (#[trigger] dots@[i]).layer_idx == layer_idx,
        forall|i: int|
            0 <= i < dots@.len() - 1 ==> (#[trigger] dots@[i]).end_time == dots@[i + 1].time - 1,
        dots@.len() > 0 ==> dots@.last().end_time == clip_length as i32 - 1,
{
    let n = frames.len();
    let mut keys: Vec<DotKey> = Vec::new();
    for i in 0..n
        invariant
            n == frames.len(),
            drag_fits(frames@, frame_offset),
            keys@ == frame_keys(frames@, layer_editable, frame_offset).take(i as int),
    {
        let f = frames[i];
        let shown = if f.selected {
            f.time + frame_offset
        } else {
            f.time
        };
        let shown = if shown < 0 {
            0
        } else {
            shown
        };
        keys.push((shown, f.empty, layer_editable && (f.selected || f.in_selection_rect)));
        assert(keys@ =~= frame_keys(frames@, layer_editable, frame_offset).take(i + 1));
    }
    assert(keys@ =~= frame_keys(frames@, layer_editable, frame_offset));
    let sorted = sort_keys(&keys);
    assert(sorted@.len() == n) by {
        sorted@.to_multiset_ensures();
        keys@.to_multiset_ensures();
    }
    assert forall|k: int| 0 <= k < n implies (#[trigger] sorted@[k]).0 >= 0 by {
        assert(sorted@.to_multiset().count(sorted@[k]) > 0);
        assert(keys@.to_multiset().count(sorted@[k]) > 0);
        assert(keys@.contains(sorted@[k]));
    }
    let last_time: i32 = clip_length as i32 - 1;
    let mut dots: Vec<FrameDot> = Vec::new();
    for i in 0..n
        invariant
            n == sorted.len(),
            last_time == clip_length as i32 - 1,
            dots@.len() == i,
            forall|k: int| 0 <= k < i ==> #[trigger] dot_key(dots@[k]) == sorted@[k],
            forall|k: int| 0 <= k < i ==> (#[trigger] dots@[k]).layer_idx == layer_idx,
            forall|k: int| 0 <= k < i && k < n - 1 ==> (#[trigger] dots@[k]).end_time == sorted@[k + 1].0 - 1,
            forall|k: int| 0 <= k < i && k == n - 1 ==> (#[trigger] dots@[k]).end_time == last_time,
            forall|k: int| 0 <= k < n ==> (#[trigger] sorted@[k]).0 >= 0,
    {
        let (time, empty, selected) = sorted[i];
        let end_time = if i == n - 1 {
            last_time
        } else {
            sorted[i + 1].0 - 1
        };
        dots.push(FrameDot { layer_idx, time, end_time, selected, empty });
    }
    assert(dot_keys(dots@) =~= sorted@);
    dots
}

} // verus!
