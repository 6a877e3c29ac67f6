use language_detection::buffer::{BufferId, BufferSnapshot};
use language_detection::detector::{DetectorEvent, LanguageDetector};
use language_detection::triggers::{on_editor_event, EditorEvent};

const A: BufferId = BufferId(1);
const B: BufferId = BufferId(2);

fn detects(detector: &LanguageDetector, id: BufferId) -> bool {
    let buffer = BufferSnapshot { id, language: None, len: 64 };
    on_editor_event(detector, EditorEvent::Edited, Some(&buffer), false) == Some(id)
}

#[test]
fn starts_with_no_overrides() {
    let detector = LanguageDetector::new();
    assert!(!detector.is_user_overridden(A));
    assert!(!detector.is_currently_applying(A));
}

#[test]
fn overrides_are_kept_per_buffer() {
    let mut detector = LanguageDetector::new();
    detector.mark_user_overridden(A);
    detector.mark_user_overridden(A);
    assert!(detector.is_user_overridden(A));
    assert!(!detector.is_user_overridden(B));
    detector.clear_user_override(B);
    assert!(detector.is_user_overridden(A));
    detector.clear_user_override(A);
    assert!(!detector.is_user_overridden(A));
}

#[test]
fn one_buffer_is_applied_to_at_a_time() {
    let mut detector = LanguageDetector::new();
    detector.set_currently_applying(Some(A));
    assert!(detector.is_currently_applying(A));
    assert!(!detector.is_currently_applying(B));
    detector.set_currently_applying(Some(B));
    assert!(!detector.is_currently_applying(A));
    assert!(detector.is_currently_applying(B));
    detector.set_currently_applying(None);
    assert!(!detector.is_currently_applying(B));
}

#[test]
fn a_user_change_stops_detection_until_release() {
    let mut detector = LanguageDetector::new();
    detector.handle(DetectorEvent::LanguageChanged(A));
    assert!(!detects(&detector, A));
    assert!(detects(&detector, B));
    detector.handle(DetectorEvent::ApplyStarted(A));
    detector.handle(DetectorEvent::LanguageChanged(A));
    detector.handle(DetectorEvent::ApplyFinished);
    detector.handle(DetectorEvent::EditorReleased(B));
    detector.handle(DetectorEvent::UndoStarted(B));
    assert!(!detects(&detector, A));
    detector.handle(DetectorEvent::EditorReleased(A));
    assert!(detects(&detector, A));
}

#[test]
fn a_change_by_detection_is_no_override() {
    let mut detector = LanguageDetector::new();
    detector.handle(DetectorEvent::ApplyStarted(A));
    detector.handle(DetectorEvent::LanguageChanged(A));
    detector.handle(DetectorEvent::LanguageChanged(B));
    detector.handle(DetectorEvent::ApplyFinished);
    assert!(!detector.is_user_overridden(A));
    assert!(detector.is_user_overridden(B));
    assert!(!detector.is_currently_applying(A));
    detector.handle(DetectorEvent::LanguageChanged(A));
    assert!(detector.is_user_overridden(A));
}

#[test]
fn overlapping_changes_count_as_the_users() {
    let mut detector = LanguageDetector::new();
    detector.handle(DetectorEvent::ApplyStarted(A));
    detector.handle(DetectorEvent::ApplyStarted(B));
    detector.handle(DetectorEvent::LanguageChanged(A));
    assert!(detector.is_user_overridden(A));
}

#[test]
fn undo_leaves_the_buffer_open_to_detection() {
    let mut detector = LanguageDetector::new();
    detector.handle(DetectorEvent::LanguageChanged(A));
    detector.handle(DetectorEvent::LanguageChanged(B));
    detector.handle(DetectorEvent::UndoStarted(A));
    assert!(detector.is_currently_applying(A));
    detector.handle(DetectorEvent::LanguageChanged(A));
    detector.handle(DetectorEvent::ApplyFinished);
    assert!(detects(&detector, A));
    assert!(!detects(&detector, B));
}

#[test]
fn repeated_changes_count_once() {
    let mut detector = LanguageDetector::new();
    detector.handle(DetectorEvent::LanguageChanged(A));
    detector.handle(DetectorEvent::LanguageChanged(A));
    detector.handle(DetectorEvent::EditorReleased(A));
    assert!(!detector.is_user_overridden(A));
}
