use satisfactory_accounting_app::group_name::{display_name, GroupName, GroupNameMsg, NameState};

fn draft_of(f: &GroupName) -> Option<(String, bool)> {
    match &f.state {
        NameState::Viewing => None,
        NameState::Editing { draft, focused } => Some((draft.clone(), *focused)),
    }
}

#[test]
fn edit_round_trip_renames_once_with_final_text() {
    let mut f = GroupName::new();
    assert!(!f.rendered(false));
    assert_eq!(f.update("Old", GroupNameMsg::StartEdit), (true, None));
    assert_eq!(draft_of(&f), Some(("Old".to_owned(), false)));
    assert!(f.rendered(true));
    assert!(!f.rendered(true));
    for t in ["O", "Ol", "Oli"] {
        assert_eq!(f.update("Old", GroupNameMsg::UpdatePending { pending: t.to_owned() }), (true, None));
    }
    assert_eq!(draft_of(&f), Some(("Oli".to_owned(), true)));
    assert_eq!(f.update("Old", GroupNameMsg::CommitEdit), (false, Some("Oli".to_owned())));
    assert_eq!(draft_of(&f), None);
    assert_eq!(f.update("Old", GroupNameMsg::CommitEdit), (false, None));
}

#[test]
fn commit_without_typing_returns_current_name() {
    let mut f = GroupName::new();
    f.update("Smelters", GroupNameMsg::StartEdit);
    assert_eq!(f.update("Smelters", GroupNameMsg::CommitEdit).1, Some("Smelters".to_owned()));
}

#[test]
fn props_change_discards_draft() {
    let mut f = GroupName::new();
    f.update("A", GroupNameMsg::StartEdit);
    f.update("A", GroupNameMsg::UpdatePending { pending: "draft".to_owned() });
    assert!(f.changed());
    assert_eq!(draft_of(&f), None);
    assert_eq!(f.update("B", GroupNameMsg::CommitEdit), (false, None));
}

#[test]
fn commit_while_viewing_is_dropped() {
    let mut f = GroupName::new();
    assert_eq!(f.update("A", GroupNameMsg::CommitEdit), (false, None));
    assert_eq!(draft_of(&f), None);
}

#[test]
fn restart_edit_refocuses() {
    let mut f = GroupName::new();
    f.update("A", GroupNameMsg::StartEdit);
    assert!(f.rendered(true));
    f.update("A", GroupNameMsg::StartEdit);
    assert_eq!(draft_of(&f), Some(("A".to_owned(), false)));
    assert!(f.rendered(true));
}

#[test]
fn label_for_empty_name_is_placeholder() {
    assert_eq!(display_name(""), ("unnamed".to_owned(), true));
    assert_eq!(display_name("Iron"), ("Iron".to_owned(), false));
}
