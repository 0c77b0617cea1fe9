//! Fields that edit a property of a clip: when to send the edited value, and when to show the
//! clip's current value again.
use vstd::prelude::*;

verus! {

/// A number field of the clip properties dialog. When editing finished, the value in the
/// field is sent; otherwise, while the field has no focus, it shows the clip's value.
pub fn sync_dialog_value(preview: &mut u32, current: u32, done_editing: bool, focused: bool) -> (commit: Option<u32>)
    ensures
        done_editing ==> commit == Some(*old(preview)) && *final(preview) == *old(preview),
        !done_editing && !focused ==> commit is None && *final(preview) == current,
        !done_editing && focused ==> commit is None && *final(preview) == *old(preview),
{
    if done_editing {
        Some(*preview)
    } else {
        if !focused {
            *preview = current;
        }
        None
    }
}

/// The name field of the clip properties dialog, which behaves as a number field does.
pub fn sync_dialog_name(preview: &mut String, current: &String, done_editing: bool, focused: bool) -> (commit: Option<String>)
    ensures
        done_editing ==> commit == Some(*old(preview)) && *final(preview) == *old(preview),
        !done_editing && !focused ==> commit is None && *final(preview) == *current,
        !done_editing && focused ==> commit is None && *final(preview) == *old(preview),
{
    if done_editing {
        Some(preview.clone())
    } else {
        if !focused {
            *preview = current.clone();
        }
        None
    }
}

/// The clip length field of the timeline header. When editing finished, the value in the
/// field is sent; and whenever the field has no focus, it shows the clip's length.
pub fn sync_clip_length(preview: &mut u32, current: u32, done_editing: bool, focused: bool) -> (commit: Option<u32>)
    ensures
        commit == if done_editing { Some(*old(preview)) } else { None },
        *final(preview) == if focused { *old(preview) } else { current },
{
    let commit = if done_editing {
        Some(*preview)
    } else {
        None
    };
    if !focused {
        *preview = current;
    }
    commit
}

} // verus!
