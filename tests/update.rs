use helix_gpui::update::Update;

#[test]
fn editor_event_wraps_the_event() {
    let u: Update<(), (), (), &str> = Update::editor_event("saved");
    assert!(matches!(u, Update::EditorEvent("saved")));
    assert!(u.is_editor_event());
}

#[test]
fn other_updates_are_not_engine_events() {
    let redraw: Update<u8, u8, u8, u8> = Update::Redraw;
    assert!(!redraw.is_editor_event());
    assert!(!Update::<u8, u8, u8, u8>::Prompt(1).is_editor_event());
    assert!(!Update::<u8, u8, u8, u8>::Picker(2).is_editor_event());
    assert!(!Update::<u8, u8, u8, u8>::Info(3).is_editor_event());
}
