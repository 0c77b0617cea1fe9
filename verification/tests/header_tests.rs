use cipollino_client::header::{header_click, HeaderAction, HeaderClick, HeaderState};

fn state() -> HeaderState {
    HeaderState { playing: true, show_onion_skin: false, active_layer: 4 }
}

#[test]
fn add_keyframe_stops_playback() {
    let mut s = state();
    let r = header_click(HeaderClick::AddKeyframe, &mut s, Some(9), 12, 1, 3, 24);
    assert!(matches!(r, Some(HeaderAction::CreateFrame { ptr: 9, layer: 4, time: 12 })));
    assert!(!s.playing);
    let mut s = state();
    assert!(header_click(HeaderClick::AddKeyframe, &mut s, None, 12, 1, 3, 24).is_none());
    assert!(s == state());
}

#[test]
fn add_layer_goes_last_and_becomes_active() {
    let mut s = state();
    match header_click(HeaderClick::AddLayer, &mut s, Some(9), 12, 1, 3, 24) {
        Some(HeaderAction::CreateLayer { ptr, clip, idx, name }) => {
            assert_eq!((ptr, clip, idx), (9, 1, 3));
            assert_eq!(name, "Layer");
        }
        other => panic!("unexpected {:?}", other),
    }
    assert_eq!(s.active_layer, 9);
}

#[test]
fn switches_and_jumps() {
    let mut s = state();
    assert!(header_click(HeaderClick::ToggleOnionSkin, &mut s, None, 0, 1, 0, 24).is_none());
    assert!(s.show_onion_skin);
    assert!(header_click(HeaderClick::TogglePlay, &mut s, None, 0, 1, 0, 24).is_none());
    assert!(!s.playing);
    assert!(matches!(header_click(HeaderClick::JumpToStart, &mut s, None, 7, 1, 0, 24), Some(HeaderAction::JumpToFrame(0))));
    assert!(matches!(header_click(HeaderClick::JumpToEnd, &mut s, None, 7, 1, 0, 24), Some(HeaderAction::JumpToFrame(23))));
    assert!(header_click(HeaderClick::PrevFrame, &mut s, Some(3), 7, 1, 0, 24).is_none());
    assert!(header_click(HeaderClick::NextFrame, &mut s, Some(3), 7, 1, 0, 24).is_none());
}
