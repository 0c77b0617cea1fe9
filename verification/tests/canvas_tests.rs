use cipollino_client::canvas::{canvas_step, CanvasCursor, CanvasInput, ToolEvent};
use cipollino_client::layers::{layer_drop_target, take_layer_drop, LayerDropLocation};

fn quiet() -> CanvasInput {
    CanvasInput {
        has_mouse_pos: true,
        hovered: true,
        clicked: false,
        pressed: false,
        released: false,
        mouse_down: false,
        drag_started: false,
        dragging: false,
        drag_stopped: false,
        panning: false,
    }
}

#[test]
fn using_a_tool_pauses_playback() {
    let step = canvas_step(CanvasInput { pressed: true, drag_started: true, dragging: true, ..quiet() });
    assert_eq!(step.tool_events, vec![ToolEvent::Pressed, ToolEvent::DragStarted, ToolEvent::Dragged]);
    assert!(step.pause);
    assert!(step.request_focus);
    assert!(!step.release_focus);
    assert_eq!(step.cursor, Some(CanvasCursor::Tool));
    let idle = canvas_step(quiet());
    assert!(idle.tool_events.is_empty());
    assert!(!idle.pause);
}

#[test]
fn panning_keeps_the_tool_out() {
    let step = canvas_step(CanvasInput { panning: true, dragging: true, mouse_down: true, ..quiet() });
    assert!(step.tool_events.is_empty());
    assert!(!step.pause);
    assert!(step.keep_selection);
    assert_eq!(step.cursor, Some(CanvasCursor::Grabbing));
    let step = canvas_step(CanvasInput { panning: true, ..quiet() });
    assert_eq!(step.cursor, Some(CanvasCursor::Grab));
}

#[test]
fn no_mouse_position_no_tool() {
    let step = canvas_step(CanvasInput { has_mouse_pos: false, clicked: true, released: true, ..quiet() });
    assert!(step.tool_events.is_empty());
    assert!(step.release_focus);
    assert_eq!(step.cursor, Some(CanvasCursor::Default));
    let step = canvas_step(CanvasInput { hovered: false, ..quiet() });
    assert_eq!(step.cursor, None);
}

#[test]
fn dropping_layers_below_the_rows() {
    let row = Some(LayerDropLocation { render_list_idx: 1, above: true });
    let below = layer_drop_target(row, true, true, 3).unwrap();
    assert_eq!((below.render_list_idx, below.above), (2, false));
    let on_row = layer_drop_target(row, true, false, 3).unwrap();
    assert_eq!((on_row.render_list_idx, on_row.above), (1, true));
    assert!(layer_drop_target(None, false, true, 0).is_none());
}

#[test]
fn a_drop_waits_for_a_location() {
    let mut dropped = Some("layers");
    assert!(take_layer_drop(None, &mut dropped).is_none());
    assert_eq!(dropped, Some("layers"));
    let at = LayerDropLocation { render_list_idx: 0, above: false };
    let (payload, loc) = take_layer_drop(Some(at), &mut dropped).unwrap();
    assert_eq!(payload, "layers");
    assert_eq!(loc.render_list_idx, 0);
    assert!(dropped.is_none());
}
