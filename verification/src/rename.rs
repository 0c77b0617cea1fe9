//! Renaming a layer or an asset in place: which object is being renamed, the text being
//! typed, and when the new name is sent.
use vstd::prelude::*;

verus! {

/// An object of any kind: the kind, and its id among objects of that kind.
#[derive(Clone, Copy, Debug, PartialEq, Eq, Structural)]
pub struct AnyPtr {
    pub kind: u32,
    pub key: u64,
}

/// The state of an in-place rename: the object being renamed with the name typed so far, and
/// whether the rename started this frame (so that the text field takes the focus).
pub struct RenameState {
    pub renaming: Option<(AnyPtr, String)>,
    pub started_renaming: bool,
}

/// What the label of a renamed object does this frame.
pub struct RenameFrame {
    /// The text field should take the focus.
    pub request_focus: bool,
    /// The new name to send, when typing finished.
    pub commit: Option<String>,
}

impl RenameState {

    /// Nothing being renamed.
    pub fn new() -> (r: Self)
        ensures
            r.renaming is None,
            !r.started_renaming,
    {
        RenameState { renaming: None, started_renaming: false }
    }

    /// Starts renaming `ptr`, whose current name is `curr_name`.
    pub fn start_rename(&mut self, ptr: AnyPtr, curr_name: &String)
        ensures
            final(self).renaming == Some((ptr, *curr_name)),
            final(self).started_renaming,
    {
        self.renaming = Some((ptr, curr_name.clone()));
        self.started_renaming = true;
    }

    /// Whether `ptr` is being renamed, so that its label shows a text field.
    pub fn is_renaming(&self, ptr: AnyPtr) -> (r: bool)
        ensures
            r == (self.renaming matches Some((p, _)) && p == ptr),
    {
        match &self.renaming {
            Some((p, _)) => *p == ptr,
            None => false,
        }
    }

    /// The text field of the object being renamed changed to `text`.
    pub fn set_text(&mut self, text: String)
        ensures
            final(self).started_renaming == old(self).started_renaming,
            final(self).renaming == match old(self).renaming {
                Some((p, _)) => Some((p, text)),
                None => None,
            },
    {
        match self.renaming.take() {
            Some((p, _)) => {
                self.renaming = Some((p, text));
            },
            None => {},
        }
    }

    /// The end of a frame in which the label of `ptr` was drawn, `done_editing` telling whether
    /// typing finished. For the object being renamed, the text field takes the focus in the
    /// frame the rename started, and when typing finished the typed name is sent and the
    /// rename ends. Other objects change nothing.
    pub fn finish_frame(&mut self, ptr: AnyPtr, done_editing: bool) -> (r: RenameFrame)
        ensures
            match old(self).renaming {
                Some((p, name)) if p == ptr => {
                    &&& r.request_focus == old(self).started_renaming
                    &&& !final(self).started_renaming
                    &&& done_editing ==> r.commit == Some(name) && final(self).renaming is None
                    &&& !done_editing ==> r.commit is None && final(self).renaming == old(self).renaming
                },
                _ => {
                    &&& !r.request_focus
                    &&& r.commit is None
                    &&& final(self).renaming == old(self).renaming
                    &&& final(self).started_renaming == old(self).started_renaming
                },
            },
    {
        if !self.is_renaming(ptr) {
            return RenameFrame { request_focus: false, commit: None };
        }
        let request_focus = self.started_renaming;
        self.started_renaming = false;
        if done_editing {
            match self.renaming.take() {
                Some((_, name)) => RenameFrame { request_focus, commit: Some(name) },
                None => RenameFrame { request_focus, commit: None },
            }
        } else {
            RenameFrame { request_focus, commit: None }
        }
    }
}

} // verus!
