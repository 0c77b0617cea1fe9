use cipollino_client::rename::{AnyPtr, RenameState};

fn layer(key: u64) -> AnyPtr {
    AnyPtr { kind: 1, key }
}

#[test]
fn rename_takes_focus_once_then_commits() {
    let mut state = RenameState::new();
    assert!(!state.is_renaming(layer(3)));
    state.start_rename(layer(3), &"Layer".to_string());
    assert!(state.is_renaming(layer(3)));
    assert!(!state.is_renaming(layer(4)));

    let first = state.finish_frame(layer(3), false);
    assert!(first.request_focus);
    assert!(first.commit.is_none());

    state.set_text("Ink".to_string());
    let second = state.finish_frame(layer(3), false);
    assert!(!second.request_focus);
    assert!(second.commit.is_none());

    let last = state.finish_frame(layer(3), true);
    assert_eq!(last.commit, Some("Ink".to_string()));
    assert!(!state.is_renaming(layer(3)));
}

#[test]
fn other_labels_leave_the_rename_alone() {
    let mut state = RenameState::new();
    state.start_rename(layer(3), &"Layer".to_string());
    let other = state.finish_frame(layer(5), true);
    assert!(!other.request_focus);
    assert!(other.commit.is_none());
    assert!(state.is_renaming(layer(3)));
    assert!(state.started_renaming);
}

#[test]
fn same_key_of_another_kind_is_another_object() {
    let mut state = RenameState::new();
    state.start_rename(layer(3), &"Layer".to_string());
    assert!(!state.is_renaming(AnyPtr { kind: 2, key: 3 }));
}

#[test]
fn typing_without_a_rename_does_nothing() {
    let mut state = RenameState::new();
    state.set_text("x".to_string());
    assert!(state.renaming.is_none());
}
