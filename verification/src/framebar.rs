//! The bar of frame numbers above the timeline: scrubbing the playhead and dragging the
//! onion skin bounds.
use vstd::prelude::*;

verus! {

/// What a drag on the frame bar moves.
#[derive(Clone, Copy, PartialEq, Eq, Structural)]
pub enum DragTarget {
    PlayHead,
    OnionSkinPrev,
    OnionSkinNext,
}

/// What a click or drag on the frame bar does to the editor.
#[derive(Clone, Copy, PartialEq, Eq, Structural)]
pub enum FramebarAction {
    /// Move the playhead to this frame.
    JumpTo(i32),
    /// Show this many onion skin frames before the current one.
    SetOnionSkinPrevFrames(u32),
    /// Show this many onion skin frames after the current one.
    SetOnionSkinNextFrames(u32),
}

/// The frame bar, remembering what the current drag moves.
pub struct Framebar {
    pub drag_target: DragTarget,
}

/// The last frame of a clip of `clip_length` frames, as the frame bar computes it.
pub open spec fn last_frame(clip_length: u32) -> int {
    clip_length as i32 - 1
}

/// The frame the playhead jumps to when `frame` is clicked: no later than the clip's last frame.
pub open spec fn jump_frame(frame: i32, clip_length: u32) -> int {
    if frame < last_frame(clip_length) {
        frame as int
    } else {
        last_frame(clip_length)
    }
}

/// The action of dragging the target `target` to `frame` while the current frame is
/// `curr_frame`.
pub open spec fn drag_action(target: DragTarget, curr_frame: i32, frame: i32, clip_length: u32) -> FramebarAction {
    match target {
        DragTarget::PlayHead => FramebarAction::JumpTo(jump_frame(frame, clip_length) as i32),
        DragTarget::OnionSkinPrev => FramebarAction::SetOnionSkinPrevFrames(
            if curr_frame - frame > 0 { (curr_frame - frame) as u32 } else { 0 },
        ),
        DragTarget::OnionSkinNext => FramebarAction::SetOnionSkinNextFrames(
            if frame - curr_frame > 0 { (frame - curr_frame) as u32 } else { 0 },
        ),
    }
}

impl Framebar {

    /// A frame bar whose drags move the playhead.
    pub fn new() -> (r: Self)
        ensures
            r.drag_target == DragTarget::PlayHead,
    {
        Framebar { drag_target: DragTarget::PlayHead }
    }

    /// A drag starts on what the mouse hovers.
    pub fn start_drag(&mut self, hovered: DragTarget)
        ensures
            final(self).drag_target == hovered,
    {
        self.drag_target = hovered;
    }

    /// Clicking on `frame` jumps to it, but no further than the clip's last frame.
    pub fn click(&self, frame: i32, clip_length: u32) -> (r: FramebarAction)
        requires
            clip_length as i32 > i32::MIN,
        ensures
            r == FramebarAction::JumpTo(jump_frame(frame, clip_length) as i32),
            r == FramebarAction::JumpTo(
                if frame <= clip_length as i32 - 1 { frame } else { (clip_length as i32 - 1) as i32 },
            ),
    {
        let last = clip_length as i32 - 1;
        FramebarAction::JumpTo(if frame < last {
            frame
        } else {
            last
        })
    }

    /// Dragging to `frame`, with `curr_frame` the current frame: the playhead follows the
    /// mouse, and an onion skin bound sets how many frames the onion skin shows on its side.
    pub fn drag_to(&self, curr_frame: i32, frame: i32, clip_length: u32) -> (r: FramebarAction)
        requires
            self.drag_target == DragTarget::PlayHead ==> clip_length as i32 > i32::MIN,
            self.drag_target == DragTarget::OnionSkinPrev ==> i32::MIN <= curr_frame - frame <= i32::MAX,
            self.drag_target == DragTarget::OnionSkinNext ==> i32::MIN <= frame - curr_frame <= i32::MAX,
        ensures
            r == drag_action(self.drag_target, curr_frame, frame, clip_length),
            self.drag_target == DragTarget::PlayHead ==> r == FramebarAction::JumpTo(
                if frame <= clip_length as i32 - 1 { frame } else { (clip_length as i32 - 1) as i32 },
            ),
    {
        match self.drag_target {
            DragTarget::PlayHead => self.click(frame, clip_length),
            DragTarget::OnionSkinPrev => {
                let d = curr_frame - frame;
                FramebarAction::SetOnionSkinPrevFrames(if d > 0 {
                    d as u32
                } else {
                    0
                })
            },
            DragTarget::OnionSkinNext => {
                let d = frame - curr_frame;
                FramebarAction::SetOnionSkinNextFrames(if d > 0 {
                    d as u32
                } else {
                    0
                })
            },
        }
    }
}

/// The frame `i` frames before `curr_frame`, with `i` taken as an `i32` (wrapping around for
/// counts past `i32::MAX`).
pub open spec fn past_frame(curr_frame: i32, i: u32) -> int {
    curr_frame - (i as i32)
}

/// The frame `i` frames after `curr_frame`, with `i` taken as an `i32` (wrapping around for
/// counts past `i32::MAX`).
pub open spec fn future_frame(curr_frame: i32, i: u32) -> int {
    curr_frame + (i as i32)
}

/// The frames that bound the onion skin: `prev_frames` before and `next_frames` after the
/// current frame, neither before the start.
pub fn onion_skin_bounds(curr_frame: i32, prev_frames: u32, next_frames: u32) -> (r: (i32, i32))
    requires
        i32::MIN <= past_frame(curr_frame, prev_frames) <= i32::MAX,
        i32::MIN <= future_frame(curr_frame, next_frames) <= i32::MAX,
    ensures
        r.0 == if past_frame(curr_frame, prev_frames) > 0 { past_frame(curr_frame, prev_frames) } else { 0 },
        r.1 == if future_frame(curr_frame, next_frames) > 0 { future_frame(curr_frame, next_frames) } else { 0 },
        r.0 >= 0 && r.1 >= 0,
        prev_frames <= i32::MAX ==> r.0 >= curr_frame - prev_frames && (r.0 == curr_frame - prev_frames
            || r.0 == 0) && r.0 <= if curr_frame > 0 { curr_frame as int } else { 0 },
        next_frames <= i32::MAX ==> r.1 >= curr_frame + next_frames && (r.1 == curr_frame + next_frames
            || r.1 == 0),
{
    let prev = curr_frame - prev_frames as i32;
    let next = curr_frame + next_frames as i32;
    (if prev > 0 {
        prev
    } else {
        0
    }, if next > 0 {
        next
    } else {
        0
    })
}

/// Dragging an onion skin bound back onto the bound itself leaves the onion skin as it was.
pub proof fn lemma_drag_onto_bound(curr_frame: i32, prev_frames: u32, next_frames: u32, clip_length: u32)
    requires
        prev_frames <= i32::MAX,
        next_frames <= i32::MAX,
        curr_frame - prev_frames >= 0,
        curr_frame + next_frames <= i32::MAX,
    ensures
        drag_action(DragTarget::OnionSkinPrev, curr_frame, (curr_frame - prev_frames) as i32, clip_length)
            == FramebarAction::SetOnionSkinPrevFrames(prev_frames),
        curr_frame >= 0 ==> drag_action(
            DragTarget::OnionSkinNext,
            curr_frame,
            (curr_frame + next_frames) as i32,
            clip_length,
        ) == FramebarAction::SetOnionSkinNextFrames(next_frames),
{
}



/// Dragging the playhead jumps where a click on the same frame does: to that frame, but never
/// past the clip's last frame.
pub proof fn lemma_playhead_drag_clamped(curr_frame: i32, frame: i32, clip_length: u32)
    requires
        clip_length as i32 > i32::MIN,
    ensures
        drag_action(DragTarget::PlayHead, curr_frame, frame, clip_length) matches FramebarAction::JumpTo(t)
            && t <= clip_length as i32 - 1
            && t <= frame
            && (t == frame || t == clip_length as i32 - 1),
        drag_action(DragTarget::PlayHead, curr_frame, frame, clip_length) == FramebarAction::JumpTo(
            if frame <= clip_length as i32 - 1 { frame } else { (clip_length as i32 - 1) as i32 },
        ),
{
}

/// Dragging an onion skin bound never touches the playhead: it sets how many frames the
/// onion skin shows on that side, the distance from the current frame to the mouse, or none
/// when the mouse is on the other side.
pub proof fn lemma_onion_drag_distance(curr_frame: i32, frame: i32, clip_length: u32)
    requires
        i32::MIN <= curr_frame - frame <= i32::MAX,
    ensures
        drag_action(DragTarget::OnionSkinPrev, curr_frame, frame, clip_length) matches FramebarAction::SetOnionSkinPrevFrames(n)
            && (frame <= curr_frame ==> n == curr_frame - frame)
            && (frame > curr_frame ==> n == 0),
        drag_action(DragTarget::OnionSkinNext, curr_frame, frame, clip_length) matches FramebarAction::SetOnionSkinNextFrames(n)
            && (frame >= curr_frame ==> n == frame - curr_frame)
            && (frame < curr_frame ==> n == 0),
{
}

/// A frame drawn as an onion skin: which frame, how far from the current frame, and on
/// which side.
#[derive(Clone, Copy, PartialEq, Eq, Structural)]
pub struct OnionSkinFrame {
    pub frame: i32,
    pub distance: u32,
    pub past: bool,
}

/// The onion skins drawn around `curr_frame`, in drawing order: the `prev_frames` frames
/// before it, farthest first, then the `next_frames` frames after it, farthest first.
pub fn onion_skin_frames(curr_frame: i32, prev_frames: u32, next_frames: u32) -> (r: Vec<OnionSkinFrame>)
    requires
        forall|i: u32| 1 <= i <= prev_frames ==> i32::MIN <= #[trigger] past_frame(curr_frame, i) <= i32::MAX,
        forall|i: u32| 1 <= i <= next_frames ==> i32::MIN <= #[trigger] future_frame(curr_frame, i) <= i32::MAX,
    ensures
        r@.len() == prev_frames + next_frames,
        forall|k: int|
            0 <= k < prev_frames ==> {
                &&& #[trigger] r@[k].frame == past_frame(curr_frame, (prev_frames - k) as u32)
                &&& r@[k].distance == prev_frames - k
                &&& r@[k].past
            },
        forall|k: int|
            prev_frames <= k < prev_frames + next_frames ==> {
                &&& #[trigger] r@[k].frame == future_frame(curr_frame, (next_frames - (k - prev_frames)) as u32)
                &&& r@[k].distance == next_frames - (k - prev_frames)
                &&& !r@[k].past
            },
        prev_frames <= i32::MAX ==> forall|k: int|
            0 <= k < prev_frames ==> #[trigger] r@[k].frame == curr_frame - r@[k].distance && r@[k].frame
                < curr_frame,
        next_frames <= i32::MAX ==> forall|k: int|
            prev_frames <= k < prev_frames + next_frames ==> #[trigger] r@[k].frame == curr_frame
                + r@[k].distance && r@[k].frame > curr_frame,
        forall|k: int, l: int| 0 <= k < l < prev_frames ==> #[trigger] r@[k].distance > #[trigger] r@[l].distance,
        forall|k: int, l: int|
            prev_frames <= k < l < prev_frames + next_frames ==> #[trigger] r@[k].distance
                > #[trigger] r@[l].distance,
        forall|k: int| 0 <= k < r@.len() ==> #[trigger] r@[k].distance >= 1,
{
    let mut r: Vec<OnionSkinFrame> = Vec::new();
    let mut i: u32 = prev_frames;
    while i >= 1
        invariant
            0 <= i <= prev_frames,
            forall|i: u32| 1 <= i <= prev_frames ==> i32::MIN <= #[trigger] past_frame(curr_frame, i) <= i32::MAX,
            r@.len() == prev_frames - i,
            forall|k: int|
                0 <= k < r@.len() ==> {
                    &&& #[trigger] r@[k].frame == past_frame(curr_frame, (prev_frames - k) as u32)
                    &&& r@[k].distance == prev_frames - k
                    &&& r@[k].past
                },
        decreases i,
    {
        assert(i32::MIN <= past_frame(curr_frame, i) <= i32::MAX);
        r.push(OnionSkinFrame { frame: curr_frame - i as i32, distance: i, past: true });
        i = i - 1;
    }
    let mut j: u32 = next_frames;
    while j >= 1
        invariant
            0 <= j <= next_frames,
            forall|i: u32| 1 <= i <= next_frames ==> i32::MIN <= #[trigger] future_frame(curr_frame, i) <= i32::MAX,
            r@.len() == prev_frames + (next_frames - j),
            forall|k: int|
                0 <= k < prev_frames ==> {
                    &&& #[trigger] r@[k].frame == past_frame(curr_frame, (prev_frames - k) as u32)
                    &&& r@[k].distance == prev_frames - k
                    &&& r@[k].past
                },
            forall|k: int|
                prev_frames <= k < r@.len() ==> {
                    &&& #[trigger] r@[k].frame == future_frame(curr_frame, (next_frames - (k - prev_frames)) as u32)
                    &&& r@[k].distance == next_frames - (k - prev_frames)
                    &&& !r@[k].past
                },
        decreases j,
    {
        assert(i32::MIN <= future_frame(curr_frame, j) <= i32::MAX);
        r.push(OnionSkinFrame { frame: curr_frame + j as i32, distance: j, past: false });
        j = j - 1;
    }
    assert forall|k: int, l: int| 0 <= k < l < prev_frames implies #[trigger] r@[k].distance
        > #[trigger] r@[l].distance by {
        assert(r@[k].frame == past_frame(curr_frame, (prev_frames - k) as u32));
        assert(r@[l].frame == past_frame(curr_frame, (prev_frames - l) as u32));
    }
    assert forall|k: int, l: int| prev_frames <= k < l < prev_frames + next_frames implies #[trigger] r@[k].distance
        > #[trigger] r@[l].distance by {
        assert(r@[k].frame == future_frame(curr_frame, (next_frames - (k - prev_frames)) as u32));
        assert(r@[l].frame == future_frame(curr_frame, (next_frames - (l - prev_frames)) as u32));
    }
    assert forall|k: int| 0 <= k < r@.len() implies #[trigger] r@[k].distance >= 1 by {
        if k < prev_frames {
            assert(r@[k].frame == past_frame(curr_frame, (prev_frames - k) as u32));
        } else {
            assert(r@[k].frame == future_frame(curr_frame, (next_frames - (k - prev_frames)) as u32));
        }
    }
    r
}

/// How many frames apart the frame bar prints its frame numbers.
pub const FRAME_NUMBER_STEP: i32 = 5;

/// The columns of a timeline `n_frames` wide that carry a frame number and a highlight: every
/// `FRAME_NUMBER_STEP`-th column, starting with the last of the first step. The number printed
/// above column `c` is `c + 1`.
pub fn frame_number_columns(n_frames: u32) -> (r: Vec<i32>)
    ensures
        forall|k: int|
            0 <= k < r@.len() ==> #[trigger] r@[k] == FRAME_NUMBER_STEP * k + FRAME_NUMBER_STEP - 1
                && r@[k] < n_frames as i32,
        FRAME_NUMBER_STEP * r@.len() + FRAME_NUMBER_STEP - 1 >= n_frames as i32,
{
    let limit = n_frames as i32;
    let mut r: Vec<i32> = Vec::new();
    if limit <= FRAME_NUMBER_STEP - 1 {
        return r;
    }
    let mut c: i32 = FRAME_NUMBER_STEP - 1;
    loop
        invariant_except_break
            c == FRAME_NUMBER_STEP * r@.len() + FRAME_NUMBER_STEP - 1,
        invariant
            c < limit,
            limit == n_frames as i32,
            forall|k: int|
                0 <= k < r@.len() ==> #[trigger] r@[k] == FRAME_NUMBER_STEP * k + FRAME_NUMBER_STEP - 1
                    && r@[k] < limit,
        ensures
            FRAME_NUMBER_STEP * r@.len() + FRAME_NUMBER_STEP - 1 >= limit,
            forall|k: int|
                0 <= k < r@.len() ==> #[trigger] r@[k] == FRAME_NUMBER_STEP * k + FRAME_NUMBER_STEP - 1
                    && r@[k] < limit,
        decreases limit - c,
    {
        r.push(c);
        if c >= limit - FRAME_NUMBER_STEP {
            break;
        }
        c = c + FRAME_NUMBER_STEP;
    }
    r
}

} // verus!
