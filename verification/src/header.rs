//! The buttons above the timeline: adding a keyframe or a layer, the onion skin switch, and
//! the playback buttons.
use vstd::prelude::*;

verus! {

/// A button of the timeline's header.
#[derive(Clone, Copy, Debug, PartialEq, Eq, Structural)]
pub enum HeaderClick {
    AddKeyframe,
    AddLayer,
    ToggleOnionSkin,
    JumpToStart,
    PrevFrame,
    TogglePlay,
    NextFrame,
    JumpToEnd,
}

/// The part of the editor state that the header changes.
#[derive(Clone, Copy, Debug, PartialEq, Eq, Structural)]
pub struct HeaderState {
    pub playing: bool,
    pub show_onion_skin: bool,
    pub active_layer: u64,
}

/// What a header button asks of the project or the playhead.
#[derive(Debug)]
pub enum HeaderAction {
    /// Create the frame `ptr` on the layer `layer` at the frame `time`.
    CreateFrame { ptr: u64, layer: u64, time: i32 },
    /// Create the layer `ptr`, named `name`, as the child number `idx` of the clip `clip`.
    CreateLayer { ptr: u64, clip: u64, idx: usize, name: String },
    /// Move the playhead to the frame.
    JumpToFrame(u32),
}

/// What clicking `click` does to `state`, with `next_ptr` the id the project hands out next
/// (none when it has run out): a new keyframe stops playback, a new layer becomes the active
/// one, and the two switches flip.
pub open spec fn header_state_after(click: HeaderClick, state: HeaderState, next_ptr: Option<u64>) -> HeaderState {
    match click {
        HeaderClick::AddKeyframe => match next_ptr {
            Some(_) => HeaderState { playing: false, ..state },
            None => state,
        },
        HeaderClick::AddLayer => match next_ptr {
            Some(ptr) => HeaderState { active_layer: ptr, ..state },
            None => state,
        },
        HeaderClick::ToggleOnionSkin => HeaderState { show_onion_skin: !state.show_onion_skin, ..state },
        HeaderClick::TogglePlay => HeaderState { playing: !state.playing, ..state },
        _ => state,
    }
}

/// `r` is the action that clicking `click` asks for, with `curr_frame` the current frame and
/// a clip `clip` of `clip_length` frames with `n_layers` children: a keyframe at the current
/// frame on the active layer, a layer named "Layer" at the end of the clip, or a jump to the
/// first or the last frame. Nothing when no id is left, and nothing for the other buttons.
pub open spec fn header_action_is(
    r: Option<HeaderAction>,
    click: HeaderClick,
    state: HeaderState,
    next_ptr: Option<u64>,
    curr_frame: i32,
    clip: u64,
    n_layers: usize,
    clip_length: u32,
) -> bool {
    match click {
        HeaderClick::AddKeyframe => match next_ptr {
            Some(ptr) => r matches Some(HeaderAction::CreateFrame { ptr: p, layer, time })
                && p == ptr && layer == state.active_layer && time == curr_frame,
            None => r is None,
        },
        HeaderClick::AddLayer => match next_ptr {
            Some(ptr) => r matches Some(HeaderAction::CreateLayer { ptr: p, clip: c, idx, name })
                && p == ptr && c == clip && idx == n_layers && name@ == "Layer"@,
            None => r is None,
        },
        HeaderClick::JumpToStart => r == Some(HeaderAction::JumpToFrame(0)),
        HeaderClick::JumpToEnd => r == Some(HeaderAction::JumpToFrame((clip_length - 1) as u32)),
        _ => r is None,
    }
}

/// Clicks the header button `click`: changes `state` and gives the action to carry out.
pub fn header_click(
    click: HeaderClick,
    state: &mut HeaderState,
    next_ptr: Option<u64>,
    curr_frame: i32,
    clip: u64,
    n_layers: usize,
    clip_length: u32,
) -> (r: Option<HeaderAction>)
    requires
        click == HeaderClick::JumpToEnd ==> clip_length > 0,
    ensures
        *final(state) == header_state_after(click, *old(state), next_ptr),
        header_action_is(r, click, *old(state), next_ptr, curr_frame, clip, n_layers, clip_length),
        click == HeaderClick::TogglePlay ==> final(state).playing == !old(state).playing,
        click == HeaderClick::AddKeyframe && next_ptr is Some ==> !final(state).playing,
        click != HeaderClick::TogglePlay && click != HeaderClick::AddKeyframe ==> final(state).playing
            == old(state).playing,
{
    match click {
        HeaderClick::AddKeyframe => match next_ptr {
            Some(ptr) => {
                state.playing = false;
                Some(HeaderAction::CreateFrame { ptr, layer: state.active_layer, time: curr_frame })
            },
            None => None,
        },
        HeaderClick::AddLayer => match next_ptr {
            Some(ptr) => {
                state.active_layer = ptr;
                Some(HeaderAction::CreateLayer { ptr, clip, idx: n_layers, name: "Layer".to_owned() })
            },
            None => None,
        },
        HeaderClick::ToggleOnionSkin => {
            state.show_onion_skin = !state.show_onion_skin;
            None
        },
        HeaderClick::TogglePlay => {
            state.playing = !state.playing;
            None
        },
        HeaderClick::JumpToStart => Some(HeaderAction::JumpToFrame(0)),
        HeaderClick::JumpToEnd => Some(HeaderAction::JumpToFrame(clip_length - 1)),
        HeaderClick::PrevFrame => None,
        HeaderClick::NextFrame => None,
    }
}

/// The play button flips playback: it starts playback when paused and pauses it when
/// playing, touching nothing else, so that clicking it twice restores the state.
pub proof fn lemma_play_button_flips(state: HeaderState, next_ptr: Option<u64>)
    ensures
        header_state_after(HeaderClick::TogglePlay, state, next_ptr).playing == !state.playing,
        header_state_after(HeaderClick::TogglePlay, state, next_ptr).show_onion_skin == state.show_onion_skin,
        header_state_after(HeaderClick::TogglePlay, state, next_ptr).active_layer == state.active_layer,
        header_state_after(
            HeaderClick::TogglePlay,
            header_state_after(HeaderClick::TogglePlay, state, next_ptr),
            next_ptr,
        ) == state,
{
}

/// Adding a keyframe stops playback, whether it was playing or paused, and keeps the active
/// layer; when no id is left nothing changes.
pub proof fn lemma_new_keyframe_stops_playback(state: HeaderState, next_ptr: Option<u64>)
    ensures
        next_ptr is Some ==> !header_state_after(HeaderClick::AddKeyframe, state, next_ptr).playing,
        header_state_after(HeaderClick::AddKeyframe, state, next_ptr).active_layer == state.active_layer,
        next_ptr is None ==> header_state_after(HeaderClick::AddKeyframe, state, next_ptr) == state,
{
}

/// The onion skin switch flips the onion skin and nothing else.
pub proof fn lemma_onion_skin_switch_flips(state: HeaderState, next_ptr: Option<u64>)
    ensures
        header_state_after(HeaderClick::ToggleOnionSkin, state, next_ptr).show_onion_skin == !state.show_onion_skin,
        header_state_after(HeaderClick::ToggleOnionSkin, state, next_ptr).playing == state.playing,
        header_state_after(HeaderClick::ToggleOnionSkin, state, next_ptr).active_layer == state.active_layer,
{
}

/// A new layer becomes the active layer, and playback and the onion skin are left alone.
pub proof fn lemma_new_layer_becomes_active(state: HeaderState, ptr: u64)
    ensures
        header_state_after(HeaderClick::AddLayer, state, Some(ptr)).active_layer == ptr,
        header_state_after(HeaderClick::AddLayer, state, Some(ptr)).playing == state.playing,
        header_state_after(HeaderClick::AddLayer, state, Some(ptr)).show_onion_skin == state.show_onion_skin,
{
}

/// The actions the buttons ask for: a new keyframe goes on the active layer at the current
/// frame, a new layer goes after the clip's last child, the jump buttons go to the first and
/// the last frame of the clip, and the frame-step buttons and the switches ask for nothing.
pub proof fn lemma_header_actions(
    r: Option<HeaderAction>,
    click: HeaderClick,
    state: HeaderState,
    next_ptr: Option<u64>,
    curr_frame: i32,
    clip: u64,
    n_layers: usize,
    clip_length: u32,
)
    requires
        header_action_is(r, click, state, next_ptr, curr_frame, clip, n_layers, clip_length),
        click == HeaderClick::JumpToEnd ==> clip_length > 0,
    ensures
        next_ptr is None && (click == HeaderClick::AddKeyframe || click == HeaderClick::AddLayer) ==> r is None,
        click == HeaderClick::AddKeyframe && next_ptr is Some ==> (r matches Some(
            HeaderAction::CreateFrame { ptr, layer, time },
        ) && Some(ptr) == next_ptr && layer == state.active_layer && time == curr_frame),
        click == HeaderClick::AddLayer && next_ptr is Some ==> (r matches Some(
            HeaderAction::CreateLayer { ptr, clip: c, idx, name },
        ) && Some(ptr) == next_ptr && c == clip && idx == n_layers),
        click == HeaderClick::JumpToStart ==> (r matches Some(HeaderAction::JumpToFrame(f)) && f == 0),
        click == HeaderClick::JumpToEnd ==> (r matches Some(HeaderAction::JumpToFrame(f)) && f + 1 == clip_length),
        click == HeaderClick::PrevFrame || click == HeaderClick::NextFrame || click == HeaderClick::TogglePlay
            || click == HeaderClick::ToggleOnionSkin ==> r is None,
{
}

} // verus!
