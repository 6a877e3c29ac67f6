use language_detection::buffer::{BufferId, LanguageName};
use language_detection::detection::{
    trigger_detection, AppliedDetection, Debounce, DETECTION_DEBOUNCE_MILLIS,
};
use language_detection::detector::LanguageDetector;
use language_detection::identify::resolve_label;

const BUFFER: BufferId = BufferId(3);

fn rust() -> Option<(LanguageName, String)> {
    Some((LanguageName("Rust".to_string()), "Rust (shown)".to_string()))
}

fn registry(extension: &str) -> Option<LanguageName> {
    match extension {
        "rs" => Some(LanguageName("Rust".to_string())),
        "Dockerfile" => Some(LanguageName("Dockerfile".to_string())),
        _ => None,
    }
}

fn run(
    detector: &mut LanguageDetector,
    has_addon: bool,
    has_project: bool,
    detected: Option<(LanguageName, String)>,
    found: bool,
    buffer_alive: bool,
    workspace_alive: bool,
) -> Option<AppliedDetection> {
    let debounce = if has_addon { Some(Debounce::new()) } else { None };
    let (debounce, pending) = trigger_detection(debounce, BUFFER, b"fn main() {}".to_vec())?;
    assert_eq!(pending.delay_millis, 500);
    let running = pending.delay_elapsed(debounce, has_project)?;
    assert_eq!(running.buffer_id, BUFFER);
    assert_eq!(running.content, b"fn main() {}");
    let named = running.identified(detected)?;
    assert_eq!(named.language_name.0, "Rust");
    let loaded = named.resolved(found)?;
    loaded.apply(detector, buffer_alive, workspace_alive)
}

#[test]
fn detection_waits_for_half_a_second() {
    assert_eq!(DETECTION_DEBOUNCE_MILLIS, 500);
}

#[test]
fn a_complete_run_sets_the_language_and_notifies() {
    let mut detector = LanguageDetector::new();
    let applied = run(&mut detector, true, true, rust(), true, true, true).unwrap();
    assert_eq!(applied.buffer_id, BUFFER);
    assert_eq!(applied.language_name.0, "Rust");
    assert_eq!(applied.notify.as_deref(), Some("Rust (shown)"));
    assert!(detector.is_currently_applying(BUFFER));
    assert!(!detector.is_user_overridden(BUFFER));
}

#[test]
fn without_a_workspace_nobody_is_notified() {
    let mut detector = LanguageDetector::new();
    let applied = run(&mut detector, true, true, rust(), true, true, false).unwrap();
    assert_eq!(applied.language_name.0, "Rust");
    assert_eq!(applied.notify, None);
    assert!(detector.is_currently_applying(BUFFER));
}

#[test]
fn an_incomplete_run_changes_nothing() {
    let mut detector = LanguageDetector::new();
    assert!(run(&mut detector, false, true, rust(), true, true, true).is_none());
    assert!(run(&mut detector, true, false, rust(), true, true, true).is_none());
    assert!(run(&mut detector, true, true, None, true, true, true).is_none());
    assert!(run(&mut detector, true, true, rust(), false, true, true).is_none());
    assert!(run(&mut detector, true, true, rust(), true, false, true).is_none());
    assert!(!detector.is_currently_applying(BUFFER));
}

#[test]
fn a_later_trigger_replaces_an_earlier_one() {
    let editor = Debounce::new();
    let (editor, first) = trigger_detection(Some(editor), BUFFER, b"first".to_vec()).unwrap();
    let (other, elsewhere) =
        trigger_detection(Some(Debounce::new()), BUFFER, b"elsewhere".to_vec()).unwrap();
    let (editor, second) = trigger_detection(Some(editor), BUFFER, b"second".to_vec()).unwrap();
    assert!(first.delay_elapsed(editor, true).is_none());
    assert_eq!(second.delay_elapsed(editor, true).unwrap().content, b"second");
    assert_eq!(elsewhere.delay_elapsed(other, true).unwrap().content, b"elsewhere");
}

#[test]
fn turns_start_again_after_the_highest() {
    let editor = Debounce { latest: u64::MAX };
    let (editor, first) = trigger_detection(Some(editor), BUFFER, Vec::new()).unwrap();
    assert_eq!(first.turn, 0);
    let (editor, second) = trigger_detection(Some(editor), BUFFER, Vec::new()).unwrap();
    assert!(first.delay_elapsed(editor, true).is_none());
    assert!(second.delay_elapsed(editor, true).is_some());
}

#[test]
fn equal_labels_resolve_to_equal_languages() {
    for label in [None, Some("rust"), Some("zig"), Some("txt")] {
        let names = |res: Option<(LanguageName, String)>| res.map(|(name, display)| (name.0, display));
        assert_eq!(names(resolve_label(label, registry)), names(resolve_label(label, registry)));
    }
}

#[test]
fn labels_resolve_through_their_extension() {
    let (language_name, display_name) = resolve_label(Some("rust"), registry).unwrap();
    assert_eq!(language_name.0, "Rust");
    assert_eq!(display_name, "Rust");
    let (language_name, display_name) = resolve_label(Some("dockerfile"), registry).unwrap();
    assert_eq!(language_name.0, "Dockerfile");
    assert_eq!(display_name, "Dockerfile");
}

#[test]
fn labels_without_a_language_resolve_to_nothing() {
    assert!(resolve_label(None, registry).is_none());
    assert!(resolve_label(Some("txt"), registry).is_none());
    assert!(resolve_label(Some("rs"), registry).is_none());
    assert!(resolve_label(Some("zig"), registry).is_none());
}

#[test]
fn content_without_a_kind_resolves_to_nothing() {
    let any = |_: &str| Some(LanguageName("Any".to_string()));
    for label in ["empty", "txt", "unknown"] {
        assert!(resolve_label(Some(label), any).is_none());
    }
    assert!(resolve_label(Some("python"), any).is_some());
}
