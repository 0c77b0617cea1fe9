//! How the scene canvas hands the mouse to the current tool: which tool events fire, when the
//! canvas takes or drops the focus, when playback pauses, and which cursor shows.
use vstd::prelude::*;

verus! {

/// What the mouse did on the canvas this frame.
#[derive(Clone, Copy, Debug, PartialEq, Eq, Structural)]
pub struct CanvasInput {
    /// The mouse is over the canvas, so that it has a position in the scene.
    pub has_mouse_pos: bool,
    pub hovered: bool,
    pub clicked: bool,
    pub pressed: bool,
    pub released: bool,
    pub mouse_down: bool,
    pub drag_started: bool,
    pub dragging: bool,
    pub drag_stopped: bool,
    /// The pan key (Control) is held.
    pub panning: bool,
}

/// A mouse event handed to the current tool.
#[derive(Clone, Copy, Debug, PartialEq, Eq, Structural)]
pub enum ToolEvent {
    Clicked,
    Pressed,
    Released,
    DragStarted,
    Dragged,
    DragStopped,
}

/// The cursor the canvas shows.
#[derive(Clone, Copy, Debug, PartialEq, Eq, Structural)]
pub enum CanvasCursor {
    /// The open hand of panning.
    Grab,
    /// The closed hand of panning with the button down.
    Grabbing,
    /// The cursor that the current tool asks for at the mouse.
    Tool,
    /// The default cursor.
    Default,
}

/// What the canvas does with one frame of mouse input.
pub struct CanvasStep {
    /// The events for the tool, in the order the tool gets them.
    pub tool_events: Vec<ToolEvent>,
    pub request_focus: bool,
    pub release_focus: bool,
    /// The selection is kept as it is while the view is panned.
    pub keep_selection: bool,
    /// Playback stops because the tool was used.
    pub pause: bool,
    /// The cursor to set, when the canvas is hovered.
    pub cursor: Option<CanvasCursor>,
}

/// `e` in a sequence when `happened`, else nothing.
pub open spec fn event_if(happened: bool, e: ToolEvent) -> Seq<ToolEvent> {
    if happened {
        seq![e]
    } else {
        Seq::empty()
    }
}

/// The tool's events: each mouse event that happened, in a fixed order, when the mouse has a
/// position and the view is not being panned.
pub open spec fn tool_events(i: CanvasInput) -> Seq<ToolEvent> {
    if i.has_mouse_pos && !i.panning {
        event_if(i.clicked, ToolEvent::Clicked) + event_if(i.pressed, ToolEvent::Pressed)
            + event_if(i.released, ToolEvent::Released) + event_if(i.drag_started, ToolEvent::DragStarted)
            + event_if(i.dragging, ToolEvent::Dragged) + event_if(i.drag_stopped, ToolEvent::DragStopped)
    } else {
        Seq::empty()
    }
}

/// The cursor for the hovered canvas: a hand while panning, closed with the button down, else
/// the tool's cursor where the mouse has a position and the default one otherwise.
pub open spec fn canvas_cursor(i: CanvasInput) -> Option<CanvasCursor> {
    if !i.hovered {
        None
    } else if i.panning {
        Some(if i.mouse_down { CanvasCursor::Grabbing } else { CanvasCursor::Grab })
    } else if i.has_mouse_pos {
        Some(CanvasCursor::Tool)
    } else {
        Some(CanvasCursor::Default)
    }
}

fn push_if(events: &mut Vec<ToolEvent>, happened: bool, e: ToolEvent)
    ensures
        final(events)@ == old(events)@ + event_if(happened, e),
{
    if happened {
        events.push(e);
    } else {
        assert(events@ =~= old(events)@ + Seq::<ToolEvent>::empty());
    }
}

/// Handles one frame of mouse input on the canvas: the canvas takes the focus on a press and
/// drops it on a release, panning keeps the selection while dragging, the tool gets the
/// mouse events, and using the tool stops playback.
pub fn canvas_step(input: CanvasInput) -> (r: CanvasStep)
    ensures
        r.tool_events@ == tool_events(input),
        r.request_focus == input.pressed,
        r.release_focus == input.released,
        r.keep_selection == (input.panning && input.dragging),
        r.pause == (tool_events(input).len() > 0),
        r.cursor == canvas_cursor(input),
        input.panning ==> r.tool_events@.len() == 0 && !r.pause,
        forall|a: int, b: int|
            0 <= a < b < r.tool_events@.len() ==> event_rank(r.tool_events@[a]) < event_rank(r.tool_events@[b]),
        !input.hovered ==> r.cursor is None,
        input.hovered && input.panning ==> r.cursor == Some(
            if input.mouse_down { CanvasCursor::Grabbing } else { CanvasCursor::Grab },
        ),
        input.hovered && !input.panning ==> r.cursor == Some(
            if input.has_mouse_pos { CanvasCursor::Tool } else { CanvasCursor::Default },
        ),
        !input.has_mouse_pos ==> r.tool_events@.len() == 0 && !r.pause,
        input.has_mouse_pos && !input.panning && (input.clicked || input.pressed || input.released
            || input.drag_started || input.dragging || input.drag_stopped) ==> r.pause,
{
    proof {
        lemma_panning_keeps_tool_out(input);
        lemma_tool_use_pauses(input);
        lemma_tool_event_order(input);
    }
    let mut events: Vec<ToolEvent> = Vec::new();
    if input.has_mouse_pos && !input.panning {
        push_if(&mut events, input.clicked, ToolEvent::Clicked);
        push_if(&mut events, input.pressed, ToolEvent::Pressed);
        push_if(&mut events, input.released, ToolEvent::Released);
        push_if(&mut events, input.drag_started, ToolEvent::DragStarted);
        push_if(&mut events, input.dragging, ToolEvent::Dragged);
        push_if(&mut events, input.drag_stopped, ToolEvent::DragStopped);
    }
    let cursor = if !input.hovered {
        None
    } else if input.panning {
        Some(if input.mouse_down {
            CanvasCursor::Grabbing
        } else {
            CanvasCursor::Grab
        })
    } else if input.has_mouse_pos {
        Some(CanvasCursor::Tool)
    } else {
        Some(CanvasCursor::Default)
    };
    let pause = events.len() > 0;
    CanvasStep {
        tool_events: events,
        request_focus: input.pressed,
        release_focus: input.released,
        keep_selection: input.panning && input.dragging,
        pause,
        cursor,
    }
}

/// While the pan key is held, or where the mouse has no position in the scene, the tool gets
/// no mouse event at all and playback goes on.
pub proof fn lemma_panning_keeps_tool_out(input: CanvasInput)
    ensures
        input.panning ==> tool_events(input).len() == 0,
        !input.has_mouse_pos ==> tool_events(input).len() == 0,
{
}

/// Otherwise the tool gets each mouse event that happened and no other; so any use of the
/// mouse on the canvas stops playback.
pub proof fn lemma_tool_use_pauses(input: CanvasInput)
    ensures
        input.has_mouse_pos && !input.panning ==> {
            &&& tool_events(input).contains(ToolEvent::Clicked) == input.clicked
            &&& tool_events(input).contains(ToolEvent::Pressed) == input.pressed
            &&& tool_events(input).contains(ToolEvent::Released) == input.released
            &&& tool_events(input).contains(ToolEvent::DragStarted) == input.drag_started
            &&& tool_events(input).contains(ToolEvent::Dragged) == input.dragging
            &&& tool_events(input).contains(ToolEvent::DragStopped) == input.drag_stopped
        },
        input.has_mouse_pos && !input.panning && (input.clicked || input.pressed || input.released
            || input.drag_started || input.dragging || input.drag_stopped) ==> tool_events(input).len() > 0,
{
    if input.has_mouse_pos && !input.panning {
        let a = event_if(input.clicked, ToolEvent::Clicked);
        let b = event_if(input.pressed, ToolEvent::Pressed);
        let c = event_if(input.released, ToolEvent::Released);
        let d = event_if(input.drag_started, ToolEvent::DragStarted);
        let e = event_if(input.dragging, ToolEvent::Dragged);
        let f = event_if(input.drag_stopped, ToolEvent::DragStopped);
        assert forall|t: ToolEvent| #[trigger] tool_events(input).contains(t) == (a.contains(t)
            || b.contains(t) || c.contains(t) || d.contains(t) || e.contains(t) || f.contains(t)) by {
            vstd::seq_lib::lemma_seq_concat_contains_all_elements(a, b, t);
            vstd::seq_lib::lemma_seq_concat_contains_all_elements(a + b, c, t);
            vstd::seq_lib::lemma_seq_concat_contains_all_elements(a + b + c, d, t);
            vstd::seq_lib::lemma_seq_concat_contains_all_elements(a + b + c + d, e, t);
            vstd::seq_lib::lemma_seq_concat_contains_all_elements(a + b + c + d + e, f, t);
        }
        assert forall|t: ToolEvent, h: bool, x: ToolEvent| #[trigger] event_if(h, x).contains(t) == (h && t == x) by {
            if h && t == x {
                assert(event_if(h, x)[0] == t);
            }
        }
        assert(tool_events(input).contains(ToolEvent::Clicked) == input.clicked);
        assert(tool_events(input).contains(ToolEvent::Pressed) == input.pressed);
        assert(tool_events(input).contains(ToolEvent::Released) == input.released);
        assert(tool_events(input).contains(ToolEvent::DragStarted) == input.drag_started);
        assert(tool_events(input).contains(ToolEvent::Dragged) == input.dragging);
        assert(tool_events(input).contains(ToolEvent::DragStopped) == input.drag_stopped);
    }
}

/// The place of a tool event in the order in which the tool gets them.
pub open spec fn event_rank(t: ToolEvent) -> int {
    match t {
        ToolEvent::Clicked => 0,
        ToolEvent::Pressed => 1,
        ToolEvent::Released => 2,
        ToolEvent::DragStarted => 3,
        ToolEvent::Dragged => 4,
        ToolEvent::DragStopped => 5,
    }
}

/// Appending to events of ranks below `k` a possible event of rank `k` keeps the ranks
/// strictly rising.
proof fn lemma_append_ranked(x: Seq<ToolEvent>, happened: bool, e: ToolEvent)
    requires
        forall|a: int, b: int| 0 <= a < b < x.len() ==> event_rank(x[a]) < event_rank(x[b]),
        forall|a: int| 0 <= a < x.len() ==> event_rank(x[a]) < event_rank(e),
    ensures
        forall|a: int, b: int|
            0 <= a < b < (x + event_if(happened, e)).len() ==> event_rank((x + event_if(happened, e))[a])
                < event_rank((x + event_if(happened, e))[b]),
        forall|a: int|
            0 <= a < (x + event_if(happened, e)).len() ==> event_rank((x + event_if(happened, e))[a])
                <= event_rank(e),
{
    let y = x + event_if(happened, e);
    assert forall|a: int| 0 <= a < y.len() implies event_rank(y[a]) <= event_rank(e) by {
        if a >= x.len() {
            assert(y[a] == e);
        }
    }
    assert forall|a: int, b: int| 0 <= a < b < y.len() implies event_rank(y[a]) < event_rank(y[b]) by {
        if b >= x.len() {
            assert(y[b] == e);
        }
    }
}

/// The tool gets its events in a fixed order: click, press, release, drag start, drag, drag
/// stop, each at most once.
pub proof fn lemma_tool_event_order(input: CanvasInput)
    ensures
        forall|a: int, b: int|
            0 <= a < b < tool_events(input).len() ==> event_rank(tool_events(input)[a]) < event_rank(
                tool_events(input)[b],
            ),
{
    if input.has_mouse_pos && !input.panning {
        let e0 = Seq::<ToolEvent>::empty();
        lemma_append_ranked(e0, input.clicked, ToolEvent::Clicked);
        let e1 = e0 + event_if(input.clicked, ToolEvent::Clicked);
        lemma_append_ranked(e1, input.pressed, ToolEvent::Pressed);
        let e2 = e1 + event_if(input.pressed, ToolEvent::Pressed);
        lemma_append_ranked(e2, input.released, ToolEvent::Released);
        let e3 = e2 + event_if(input.released, ToolEvent::Released);
        lemma_append_ranked(e3, input.drag_started, ToolEvent::DragStarted);
        let e4 = e3 + event_if(input.drag_started, ToolEvent::DragStarted);
        lemma_append_ranked(e4, input.dragging, ToolEvent::Dragged);
        let e5 = e4 + event_if(input.dragging, ToolEvent::Dragged);
        lemma_append_ranked(e5, input.drag_stopped, ToolEvent::DragStopped);
        let e6 = e5 + event_if(input.drag_stopped, ToolEvent::DragStopped);
        assert(e1 =~= event_if(input.clicked, ToolEvent::Clicked));
        assert(e6 =~= tool_events(input));
    }
}

} // verus!
