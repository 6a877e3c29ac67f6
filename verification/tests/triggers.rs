use language_detection::buffer::{BufferId, BufferSnapshot, LanguageName, MIN_CONTENT_LENGTH};
use language_detection::detector::LanguageDetector;
use language_detection::triggers::{
    on_buffer_event, on_editor_event, on_new_editor, should_detect, BufferEvent, EditorEvent,
    EditorSetup,
};

const BUFFER: BufferId = BufferId(7);

fn snapshot(language: Option<&str>, len: usize) -> BufferSnapshot {
    BufferSnapshot {
        id: BUFFER,
        language: language.map(|name| LanguageName(name.to_string())),
        len,
    }
}

#[test]
fn test_should_detect_plain_text_ai_enabled() {
    assert!(should_detect("Plain Text", false, false));
}

#[test]
fn test_should_not_detect_non_plain_text() {
    assert!(!should_detect("Rust", false, false));
}

#[test]
fn test_should_not_detect_when_ai_disabled() {
    assert!(!should_detect("Plain Text", true, false));
}

#[test]
fn test_should_not_detect_when_user_overridden() {
    assert!(!should_detect("Plain Text", false, true));
}

#[test]
fn test_should_not_detect_all_flags_set() {
    assert!(!should_detect("Rust", true, true));
}

#[test]
fn buffers_without_a_language_are_plain_text() {
    assert_eq!(snapshot(None, 0).language_name(), "Plain Text");
    assert_eq!(snapshot(Some("Plain Text"), 0).language_name(), "Plain Text");
    assert_eq!(snapshot(Some("Rust"), 0).language_name(), "Rust");
}

#[test]
fn edits_of_enough_plain_text_start_detection() {
    let detector = LanguageDetector::new();
    assert_eq!(MIN_CONTENT_LENGTH, 16);
    for language in [None, Some("Plain Text")] {
        let buffer = snapshot(language, 16);
        assert_eq!(
            on_editor_event(&detector, EditorEvent::Edited, Some(&buffer), false),
            Some(BUFFER)
        );
    }
}

#[test]
fn other_edits_do_not_start_detection() {
    let mut detector = LanguageDetector::new();
    let edited = EditorEvent::Edited;
    let plain = snapshot(None, 100);
    let short = snapshot(None, 15);
    let rust = snapshot(Some("Rust"), 100);
    assert_eq!(on_editor_event(&detector, EditorEvent::Other, Some(&plain), false), None);
    assert_eq!(on_editor_event(&detector, edited, None, false), None);
    assert_eq!(on_editor_event(&detector, edited, Some(&plain), true), None);
    assert_eq!(on_editor_event(&detector, edited, Some(&short), false), None);
    assert_eq!(on_editor_event(&detector, edited, Some(&rust), false), None);
    detector.mark_user_overridden(BUFFER);
    assert_eq!(on_editor_event(&detector, edited, Some(&plain), false), None);
}

fn watch(detect_now: bool) -> EditorSetup {
    EditorSetup::WatchBuffer { buffer_id: BUFFER, detect_now }
}

#[test]
fn new_editors_are_set_up_by_mode_and_buffer() {
    let detector = LanguageDetector::new();
    let plain = snapshot(None, 16);
    assert_eq!(on_new_editor(&detector, false, Some(&plain), false), EditorSetup::Ignore);
    assert_eq!(on_new_editor(&detector, false, None, false), EditorSetup::Ignore);
    assert_eq!(on_new_editor(&detector, true, None, false), EditorSetup::WatchEditor);
    assert_eq!(on_new_editor(&detector, true, Some(&plain), false), watch(true));
    for buffer in [snapshot(None, 15), snapshot(Some("Rust"), 100), snapshot(Some("plain text"), 100)] {
        assert_eq!(on_new_editor(&detector, true, Some(&buffer), false), watch(false));
    }
}

#[test]
fn new_editors_obey_the_ai_setting() {
    let detector = LanguageDetector::new();
    let plain = snapshot(Some("Plain Text"), 16);
    assert_eq!(on_new_editor(&detector, true, Some(&plain), true), watch(false));
    assert_eq!(on_new_editor(&detector, true, Some(&plain), false), watch(true));
}

#[test]
fn new_editors_obey_an_override() {
    let mut detector = LanguageDetector::new();
    let plain = snapshot(Some("Plain Text"), 16);
    detector.mark_user_overridden(BUFFER);
    assert_eq!(on_new_editor(&detector, true, Some(&plain), false), watch(false));
    detector.clear_user_override(BUFFER);
    assert_eq!(on_new_editor(&detector, true, Some(&plain), false), watch(true));
}

#[test]
fn creation_and_edits_agree() {
    let mut detector = LanguageDetector::new();
    for overridden in [false, true] {
        if overridden {
            detector.mark_user_overridden(BUFFER);
        }
        for ai_disabled in [false, true] {
            for buffer in [snapshot(None, 15), snapshot(None, 16), snapshot(Some("Rust"), 16)] {
                let edit =
                    on_editor_event(&detector, EditorEvent::Edited, Some(&buffer), ai_disabled);
                assert_eq!(
                    on_new_editor(&detector, true, Some(&buffer), ai_disabled),
                    watch(edit.is_some())
                );
            }
        }
    }
}

#[test]
fn only_changes_of_language_are_overrides() {
    let mut detector = LanguageDetector::new();
    on_buffer_event(&mut detector, BUFFER, BufferEvent::Other);
    assert!(!detector.is_user_overridden(BUFFER));
    on_buffer_event(&mut detector, BUFFER, BufferEvent::LanguageChanged);
    assert!(detector.is_user_overridden(BUFFER));
}
