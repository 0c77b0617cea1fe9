use cipollino_client::decimal::{frame_number_label, new_color_name};
use cipollino_client::frame_order::{frame_dots, plan_frame_moves, LayerFrame};
use cipollino_client::frame_selection::{clears_selection, FrameSelection};
use cipollino_client::framebar::{
    frame_number_columns, onion_skin_bounds, onion_skin_frames, DragTarget, Framebar, FramebarAction,
    OnionSkinFrame,
};
use cipollino_client::layers::{
    LayerDropLocation, LayerList, LayerParent, LayerRef, RenderLayerKind, RenderList,
};
use cipollino_client::properties::{sync_clip_length, sync_dialog_name, sync_dialog_value};

fn moves_of(frames: &[(i32, u64)], offset: i32) -> Vec<(u64, i32)> {
    plan_frame_moves(&frames.to_vec(), offset).iter().map(|m| (m.frame, m.new_time)).collect()
}

#[test]
fn moving_later_moves_latest_first() {
    let moves = moves_of(&[(3, 30), (1, 10), (2, 20)], 2);
    assert_eq!(moves, vec![(30, 5), (20, 4), (10, 3)]);
}

#[test]
fn moving_earlier_moves_earliest_first() {
    let moves = moves_of(&[(3, 30), (1, 10), (2, 20)], -1);
    assert_eq!(moves, vec![(10, 0), (20, 1), (30, 2)]);
}

#[test]
fn moving_by_zero_keeps_times() {
    let moves = moves_of(&[(4, 1), (2, 2)], 0);
    assert_eq!(moves, vec![(2, 2), (1, 4)]);
    assert!(moves_of(&[], 3).is_empty());
}

#[test]
fn moves_never_land_on_waiting_frames() {
    for offset in [-3, -1, 1, 2, 5] {
        let frames = [(0, 1), (1, 2), (2, 3), (5, 4), (6, 5)];
        let moves = plan_frame_moves(&frames.to_vec(), offset);
        for i in 0..moves.len() {
            for j in (i + 1)..moves.len() {
                assert_ne!(moves[i].new_time, moves[j].new_time - offset);
            }
        }
    }
}

fn frame(time: i32, empty: bool, selected: bool) -> LayerFrame {
    LayerFrame { time, empty, selected, in_selection_rect: false }
}

#[test]
fn frame_dots_are_sorted_and_span_to_next() {
    let frames = vec![frame(10, false, false), frame(0, true, false), frame(4, false, false)];
    let dots = frame_dots(2, &frames, true, 0, 20);
    let got: Vec<(i32, i32, bool, bool)> = dots.iter().map(|d| (d.time, d.end_time, d.empty, d.selected)).collect();
    assert_eq!(got, vec![(0, 3, true, false), (4, 9, false, false), (10, 19, false, false)]);
    assert!(dots.iter().all(|d| d.layer_idx == 2));
}

#[test]
fn frame_dots_follow_the_drag() {
    let frames = vec![frame(2, false, true), frame(5, false, false)];
    let dots = frame_dots(0, &frames, true, 4, 10);
    let got: Vec<(i32, i32, bool)> = dots.iter().map(|d| (d.time, d.end_time, d.selected)).collect();
    assert_eq!(got, vec![(5, 5, false), (6, 9, true)]);
}

#[test]
fn frame_dots_clamp_at_start_and_respect_locks() {
    let mut f = frame(1, false, true);
    f.in_selection_rect = true;
    let dots = frame_dots(0, &vec![f], false, -5, 3);
    assert_eq!((dots[0].time, dots[0].end_time, dots[0].selected), (0, 2, false));
    let mut g = frame(1, false, false);
    g.in_selection_rect = true;
    let dots = frame_dots(0, &vec![g], true, 0, 3);
    assert!(dots[0].selected);
}

#[test]
fn frame_selection_basics() {
    let mut sel = FrameSelection::new();
    assert!(sel.is_empty());
    sel.select_frame(5);
    assert!(sel.is_frame_selected(5));
    assert!(!sel.is_empty());
    sel.invert_select_frame(5);
    assert!(!sel.is_frame_selected(5));
    sel.invert_select_frame(6);
    assert!(sel.is_frame_selected(6));
    sel.clear();
    assert!(sel.is_empty());
}

#[test]
fn inverting_twice_restores_selection() {
    let mut sel = FrameSelection::new();
    sel.select_frame(1);
    sel.select_frame(2);
    sel.invert_select_frame(3);
    sel.invert_select_frame(3);
    sel.invert_select_frame(1);
    sel.invert_select_frame(1);
    let mut frames = sel.delete();
    frames.sort();
    assert_eq!(frames, vec![1, 2]);
}

#[test]
fn move_selected_uses_loaded_frames_only() {
    let mut sel = FrameSelection::new();
    for f in [10, 20, 30] {
        sel.select_frame(f);
    }
    let times = |p: u64| if p == 20 { None } else { Some((p / 10) as i32) };
    let moves = sel.move_selected(&times, 1);
    let got: Vec<(u64, i32)> = moves.iter().map(|m| (m.frame, m.new_time)).collect();
    assert_eq!(got, vec![(30, 4), (10, 2)]);
}

#[test]
fn framebar_starts_on_playhead() {
    let bar = Framebar::new();
    assert!(bar.drag_target == DragTarget::PlayHead);
    assert!(bar.click(50, 24) == FramebarAction::JumpTo(23));
    assert!(bar.click(3, 24) == FramebarAction::JumpTo(3));
    assert!(bar.drag_to(10, 12, 24) == FramebarAction::JumpTo(12));
}

#[test]
fn framebar_drags_onion_skin_bounds() {
    let mut bar = Framebar::new();
    bar.start_drag(DragTarget::OnionSkinPrev);
    assert!(bar.drag_to(10, 7, 24) == FramebarAction::SetOnionSkinPrevFrames(3));
    assert!(bar.drag_to(10, 12, 24) == FramebarAction::SetOnionSkinPrevFrames(0));
    bar.start_drag(DragTarget::OnionSkinNext);
    assert!(bar.drag_to(10, 12, 24) == FramebarAction::SetOnionSkinNextFrames(2));
    assert!(bar.drag_to(10, 8, 24) == FramebarAction::SetOnionSkinNextFrames(0));
}

#[test]
fn dragging_onto_a_bound_keeps_it() {
    let (prev, next) = onion_skin_bounds(10, 2, 3);
    assert_eq!((prev, next), (8, 13));
    let mut bar = Framebar::new();
    bar.start_drag(DragTarget::OnionSkinPrev);
    assert!(bar.drag_to(10, prev, 24) == FramebarAction::SetOnionSkinPrevFrames(2));
    bar.start_drag(DragTarget::OnionSkinNext);
    assert!(bar.drag_to(10, next, 24) == FramebarAction::SetOnionSkinNextFrames(3));
    assert_eq!(onion_skin_bounds(1, 4, 0), (0, 1));
}

#[test]
fn onion_skin_drawing_order() {
    let frames = onion_skin_frames(10, 2, 1);
    assert!(frames == vec![
        OnionSkinFrame { frame: 8, distance: 2, past: true },
        OnionSkinFrame { frame: 9, distance: 1, past: true },
        OnionSkinFrame { frame: 11, distance: 1, past: false },
    ]);
    assert!(onion_skin_frames(0, 0, 0).is_empty());
}

#[test]
fn frame_number_columns_every_five() {
    assert_eq!(frame_number_columns(12), vec![4, 9]);
    assert_eq!(frame_number_columns(10), vec![4, 9]);
    assert_eq!(frame_number_columns(4), Vec::<i32>::new());
    assert_eq!(frame_number_label(4), "5");
    assert_eq!(frame_number_label(99), "100");
    assert_eq!(frame_number_label(0), "1");
}

#[test]
fn new_color_names() {
    assert_eq!(new_color_name(0), "Color 1");
    assert_eq!(new_color_name(41), "Color 42");
}

fn layer(ptr: u64, parent: LayerParent) -> Option<RenderLayerKind> {
    Some(RenderLayerKind::Layer(ptr, parent))
}

#[test]
fn render_list_skips_unloaded_children() {
    let clip = LayerParent::Clip(1);
    let list = RenderList::make(&vec![layer(10, clip), None, layer(12, clip)]);
    assert_eq!(list.len(), 2);
    assert_eq!(list.layers[0].idx, 0);
    assert_eq!(list.layers[1].idx, 2);
}

#[test]
fn transfer_locations() {
    let clip = LayerParent::Clip(1);
    let list = RenderList::make(&vec![
        layer(10, clip),
        Some(RenderLayerKind::LayerGroup(11, clip)),
        Some(RenderLayerKind::AudioLayer(12, clip)),
    ]);
    let at = |i: usize, above: bool| LayerDropLocation { render_list_idx: i, above };
    assert!(list.get_row_transfer_location(at(0, true)) == (clip, 0));
    assert!(list.get_row_transfer_location(at(0, false)) == (clip, 1));
    assert!(list.get_row_transfer_location(at(1, false)) == (LayerParent::LayerGroup(11), 0));
    assert!(list.get_transfer_location(at(1, true), 1, 3) == (clip, 2));
    assert!(list.get_transfer_location(at(1, false), 1, 3) == (LayerParent::LayerGroup(11), 0));
    assert!(list.get_transfer_location(at(2, false), 1, 3) == (clip, 3));
    assert!(list.get_transfer_location(at(3, true), 1, 3) == (clip, 3));
}

#[test]
fn dropping_between_rows_agrees() {
    let clip = LayerParent::Clip(1);
    let list = RenderList::make(&vec![layer(10, clip), layer(11, clip)]);
    let below_first = list.get_transfer_location(LayerDropLocation { render_list_idx: 0, above: false }, 1, 2);
    let above_second = list.get_transfer_location(LayerDropLocation { render_list_idx: 1, above: true }, 1, 2);
    assert!(below_first == above_second);
}

#[test]
fn active_layer_is_kept_or_reset() {
    let clip = LayerParent::Clip(1);
    let list = RenderList::make(&vec![Some(RenderLayerKind::AudioLayer(5, clip)), layer(10, clip), layer(11, clip)]);
    assert_eq!(list.update_active_layer(Some(11)), Some(11));
    assert_eq!(list.update_active_layer(Some(99)), Some(10));
    assert_eq!(list.update_active_layer(None), Some(10));
    assert_eq!(list.update_active_layer(Some(5)), Some(10));
    let empty = RenderList::make(&vec![]);
    assert_eq!(empty.update_active_layer(Some(3)), None);
}

#[test]
fn layer_list_transfer() {
    let mut list = LayerList::single(LayerRef::Layer(3));
    list.add(LayerRef::LayerGroup(4));
    list.add(LayerRef::Layer(5));
    let steps = list.transfer(LayerParent::LayerGroup(9), 2);
    assert_eq!(steps.len(), 3);
    assert!(matches!(steps[2].layer, LayerRef::LayerGroup(4)));
    let mut layers: Vec<u64> = steps[..2]
        .iter()
        .map(|s| match s.layer {
            LayerRef::Layer(p) => p,
            LayerRef::LayerGroup(_) => panic!("group before layers"),
        })
        .collect();
    layers.sort();
    assert_eq!(layers, vec![3, 5]);
    assert!(steps.iter().all(|s| s.new_parent == LayerParent::LayerGroup(9) && s.new_idx == 2));
}

#[test]
fn dialog_fields_sync() {
    let mut width = 100;
    assert_eq!(sync_dialog_value(&mut width, 200, true, true), Some(100));
    assert_eq!(width, 100);
    assert_eq!(sync_dialog_value(&mut width, 200, false, true), None);
    assert_eq!(width, 100);
    assert_eq!(sync_dialog_value(&mut width, 200, false, false), None);
    assert_eq!(width, 200);

    let mut name = "Edited".to_string();
    assert_eq!(sync_dialog_name(&mut name, &"Clip".to_string(), false, false), None);
    assert_eq!(name, "Clip");
    assert_eq!(sync_dialog_name(&mut name, &"Other".to_string(), true, false), Some("Clip".to_string()));

    let mut length = 30;
    assert_eq!(sync_clip_length(&mut length, 24, true, false), Some(30));
    assert_eq!(length, 24);
}

#[test]
fn playhead_drag_needs_no_frame_difference() {
    let bar = Framebar::new();
    assert!(bar.drag_to(i32::MIN, 1, 10) == FramebarAction::JumpTo(1));
    let mut bar = Framebar::new();
    bar.start_drag(DragTarget::OnionSkinNext);
    assert!(bar.drag_to(i32::MIN, -1, 10) == FramebarAction::SetOnionSkinNextFrames(i32::MAX as u32));
}

#[test]
fn onion_skin_counts_wrap_as_i32() {
    assert_eq!(onion_skin_bounds(5, u32::MAX, 0), (6, 5));
    assert_eq!(onion_skin_bounds(5, 0, u32::MAX), (5, 4));
}

#[test]
fn selection_is_cleared_unless_shift_extends_it() {
    assert!(clears_selection(false, false, false, true));
    assert!(clears_selection(true, true, false, false));
    assert!(clears_selection(true, false, true, false));
    assert!(!clears_selection(true, true, true, true));
    assert!(!clears_selection(true, false, false, false));
}
