use vstd::prelude::*;

use crate::buffer::{BufferId, BufferSnapshot, MIN_CONTENT_LENGTH};
use crate::detector::{DetectorEvent, DetectorState, LanguageDetector};
use crate::text::str_eq;

verus! {

/// What the detection rules read of an editor event.
#[derive(Debug, Clone, Copy, PartialEq, Eq, Structural)]
pub enum EditorEvent {
    /// The text was edited or pasted into.
    Edited,
    /// Anything else.
    Other,
}

/// What the detection rules read of a buffer event.
#[derive(Debug, Clone, Copy, PartialEq, Eq, Structural)]
pub enum BufferEvent {
    /// The language of the buffer was changed.
    LanguageChanged,
    /// Anything else.
    Other,
}

/// What is to be set up for a new editor.
#[derive(Debug, Clone, Copy, PartialEq, Eq, Structural)]
pub enum EditorSetup {
    /// Nothing: the editor takes no part in detection.
    Ignore,
    /// The debounce state, and a subscription to the editor's events.
    WatchEditor,
    /// As for `WatchEditor`, and a subscription to the events of the buffer
    /// and to the editor's release. With `detect_now`, detection starts at
    /// once.
    WatchBuffer { buffer_id: BufferId, detect_now: bool },
}

/// Guard of detection: should the language of a buffer be detected at all?
pub open spec fn detectable(
    language_name: Seq<char>,
    disable_ai: bool,
    user_overridden: bool,
) -> bool {
    language_name == "Plain Text"@ && !disable_ai && !user_overridden
}

/// `buffer` is open to detection: the guard allows it, and the buffer holds
/// enough text.
pub open spec fn open_to_detection(
    state: DetectorState,
    buffer: &BufferSnapshot,
    ai_disabled: bool,
) -> bool {
    &&& detectable(
        buffer.effective_language(),
        ai_disabled,
        state.overridden.contains(buffer.id),
    )
    &&& buffer.long_enough()
}

/// The setup of a new editor, which is in full mode or not, and which shows a
/// single buffer or not. A buffer that is open to detection when the editor is
/// created, as one filled from standard input may be, is detected at once.
pub open spec fn setup_for(
    state: DetectorState,
    full_mode: bool,
    buffer: Option<&BufferSnapshot>,
    ai_disabled: bool,
) -> EditorSetup {
    if !full_mode {
        EditorSetup::Ignore
    } else {
        match buffer {
            Some(buffer) => EditorSetup::WatchBuffer {
                buffer_id: buffer.id,
                detect_now: open_to_detection(state, buffer, ai_disabled),
            },
            None => EditorSetup::WatchEditor,
        }
    }
}

/// Whether the creation of an editor in full mode, or not, starts the detection
/// of `buffer`'s language.
pub open spec fn creation_triggers(
    state: DetectorState,
    full_mode: bool,
    buffer: &BufferSnapshot,
    ai_disabled: bool,
) -> bool {
    setup_for(state, full_mode, Some(buffer), ai_disabled) == (EditorSetup::WatchBuffer {
        buffer_id: buffer.id,
        detect_now: true,
    })
}

/// Whether `event` in an editor starts the detection of `buffer`'s language:
/// it is an edit, and the buffer is open to detection.
pub open spec fn edit_triggers(
    state: DetectorState,
    event: EditorEvent,
    buffer: &BufferSnapshot,
    ai_disabled: bool,
) -> bool {
    &&& event == EditorEvent::Edited
    &&& open_to_detection(state, buffer, ai_disabled)
}

/// Guard of detection: should the language of a buffer be detected at all?
pub fn should_detect(language_name: &str, disable_ai: bool, user_overridden: bool) -> (res: bool)
    ensures
        res == detectable(language_name@, disable_ai, user_overridden),
        res <==> language_name@ == "Plain Text"@ && !disable_ai && !user_overridden,
{
    str_eq(language_name, "Plain Text") && !disable_ai && !user_overridden
}

fn is_open_to_detection(
    detector: &LanguageDetector,
    buffer: &BufferSnapshot,
    ai_disabled: bool,
) -> (res: bool)
    ensures
        res == open_to_detection(detector@, buffer, ai_disabled),
{
    let user_overridden = detector.is_user_overridden(buffer.id);
    should_detect(buffer.language_name(), ai_disabled, user_overridden) && buffer.len
        >= MIN_CONTENT_LENGTH
}

/// Decides what is to be set up for a new editor. `buffer` is the only buffer
/// that the editor shows, or `None` where it shows several; `ai_disabled` tells
/// whether AI is disabled for that buffer.
pub fn on_new_editor(
    detector: &LanguageDetector,
    full_mode: bool,
    buffer: Option<&BufferSnapshot>,
    ai_disabled: bool,
) -> (res: EditorSetup)
    ensures
        res == setup_for(detector@, full_mode, buffer, ai_disabled),
        res is Ignore <==> !full_mode,
        res is WatchEditor <==> full_mode && buffer is None,
        res is WatchBuffer <==> full_mode && buffer is Some,
        res matches EditorSetup::WatchBuffer { buffer_id, detect_now } ==> {
            &&& buffer_id == buffer->0.id
            &&& detect_now <==> {
                &&& buffer->0.language matches Some(name) ==> name.0@ == "Plain Text"@
                &&& !ai_disabled
                &&& !detector@.overridden.contains(buffer_id)
                &&& buffer->0.len >= 16
            }
        },
{
    if !full_mode {
        return EditorSetup::Ignore;
    }
    match buffer {
        Some(buffer) => EditorSetup::WatchBuffer {
            buffer_id: buffer.id,
            detect_now: is_open_to_detection(detector, buffer, ai_disabled),
        },
        None => EditorSetup::WatchEditor,
    }
}

/// Decides whether an editor event starts detection, and of which buffer.
/// `buffer` is the only buffer that the editor shows, or `None` where it shows
/// several; `ai_disabled` tells whether AI is disabled for that buffer.
pub fn on_editor_event(
    detector: &LanguageDetector,
    event: EditorEvent,
    buffer: Option<&BufferSnapshot>,
    ai_disabled: bool,
) -> (res: Option<BufferId>)
    ensures
        res == match buffer {
            Some(buffer) => if edit_triggers(detector@, event, buffer, ai_disabled) {
                Some(buffer.id)
            } else {
                None
            },
            None => None,
        },
        res is Some <==> {
            &&& event is Edited
            &&& buffer is Some
            &&& buffer->0.language matches Some(name) ==> name.0@ == "Plain Text"@
            &&& !ai_disabled
            &&& !detector@.overridden.contains(buffer->0.id)
            &&& buffer->0.len >= 16
        },
        res matches Some(id) ==> id == buffer->0.id,
{
    if event != EditorEvent::Edited {
        return None;
    }
    match buffer {
        Some(buffer) => if is_open_to_detection(detector, buffer, ai_disabled) {
            Some(buffer.id)
        } else {
            None
        },
        None => None,
    }
}

/// Keeps the detector up to date with the events of a watched buffer: a change
/// of language that detection did not make is the user's.
pub fn on_buffer_event(detector: &mut LanguageDetector, buffer_id: BufferId, event: BufferEvent)
    ensures
        final(detector)@ == match event {
            BufferEvent::LanguageChanged => old(detector)@.after(
                DetectorEvent::LanguageChanged(buffer_id),
            ),
            BufferEvent::Other => old(detector)@,
        },
        final(detector)@.applying == old(detector)@.applying,
        final(detector)@.overridden == if event is LanguageChanged && old(detector)@.applying
            != Some(buffer_id) {
            old(detector)@.overridden.insert(buffer_id)
        } else {
            old(detector)@.overridden
        },
{
    if event == BufferEvent::LanguageChanged {
        detector.handle(DetectorEvent::LanguageChanged(buffer_id));
    }
}

} // verus!
