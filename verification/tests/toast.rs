use language_detection::buffer::BufferId;
use language_detection::detector::LanguageDetector;
use language_detection::toast::{show_detection_toast, undo_detection, ToastCounter};

const BUFFER: BufferId = BufferId(42);

#[test]
fn toasts_name_the_language_and_offer_undo() {
    let toast = show_detection_toast(&mut ToastCounter::new(), BUFFER, "C++");
    assert_eq!(toast.id, "lang-detect-42-0");
    assert_eq!(toast.message, "Detected: C++");
    assert_eq!(toast.action, "Undo");
    assert!(toast.autohide);
}

#[test]
fn toasts_are_numbered_from_zero_over_all_buffers() {
    let mut counter = ToastCounter::new();
    for n in 0..250u64 {
        let toast = show_detection_toast(&mut counter, BufferId(n % 3), "");
        assert_eq!(toast.id, format!("lang-detect-{}-{}", n % 3, n));
        assert_eq!(toast.message, "Detected: ");
    }
    assert_eq!(counter.take(), 250);
    assert_eq!(counter.take(), 251);
}

#[test]
fn toast_ids_are_written_in_decimal() {
    for id in [0, 1, 9, 10, 99, 100, 1203, 45060, u64::MAX] {
        let toast = show_detection_toast(&mut ToastCounter::new(), BufferId(id), "Go");
        assert_eq!(toast.id, format!("lang-detect-{id}-0"));
    }
}

#[test]
fn toast_ids_do_not_repeat_or_run_together() {
    let mut counter = ToastCounter::new();
    let mut ids: Vec<String> = Vec::new();
    for n in 0..130u64 {
        let id = show_detection_toast(&mut counter, BufferId(n % 12), "Go").id;
        assert!(!ids.contains(&id), "{id}");
        ids.push(id);
    }
}

#[test]
fn undo_needs_the_buffer_and_the_project() {
    let mut detector = LanguageDetector::new();
    detector.mark_user_overridden(BUFFER);
    assert!(undo_detection(&mut detector, BUFFER, false, true).is_none());
    assert!(undo_detection(&mut detector, BUFFER, true, false).is_none());
    assert!(undo_detection(&mut detector, BUFFER, false, false).is_none());
    assert!(detector.is_user_overridden(BUFFER));
    assert!(!detector.is_currently_applying(BUFFER));
}

#[test]
fn undo_clears_the_override_and_is_not_taken_for_one() {
    let mut detector = LanguageDetector::new();
    detector.mark_user_overridden(BUFFER);
    let language = undo_detection(&mut detector, BUFFER, true, true);
    assert_eq!(language.unwrap().0, "Plain Text");
    assert!(!detector.is_user_overridden(BUFFER));
    assert!(detector.is_currently_applying(BUFFER));
}
