use vstd::prelude::*;

use crate::buffer::{BufferId, BufferSnapshot};
use crate::detector::{DetectorEvent, DetectorState};
use crate::triggers::{
    creation_triggers, detectable, edit_triggers, setup_for, EditorEvent, EditorSetup,
};

verus! {

/// The buffer that an event is about.
pub open spec fn subject(event: DetectorEvent) -> Option<BufferId> {
    match event {
        DetectorEvent::LanguageChanged(id) => Some(id),
        DetectorEvent::EditorReleased(id) => Some(id),
        DetectorEvent::ApplyStarted(id) => Some(id),
        DetectorEvent::UndoStarted(id) => Some(id),
        DetectorEvent::ApplyFinished => None,
    }
}

/// The events that make the detector forget an override of the buffer `id`.
pub open spec fn forgets(event: DetectorEvent, id: BufferId) -> bool {
    event == DetectorEvent::EditorReleased(id) || event == DetectorEvent::UndoStarted(id)
}

/// The event number `k` is a change of the language of the buffer `id` that
/// detection did not make.
pub open spec fn user_change_at(
    state: DetectorState,
    events: Seq<DetectorEvent>,
    id: BufferId,
    k: int,
) -> bool {
    &&& 0 <= k < events.len()
    &&& events[k] == DetectorEvent::LanguageChanged(id)
    &&& state.after_all(events.take(k)).applying != Some(id)
}

/// A language that the user chooses is an override.
pub proof fn law_user_change_is_an_override(state: DetectorState, id: BufferId)
    requires
        state.applying != Some(id),
    ensures
        state.after(DetectorEvent::LanguageChanged(id)).overridden.contains(id),
{
}

/// An override lasts: whatever happens, short of an editor of the buffer being
/// released and a detection being taken back, neither an event in an editor of
/// the buffer nor the creation of one starts a detection.
pub proof fn law_override_lasts(
    state: DetectorState,
    events: Seq<DetectorEvent>,
    event: EditorEvent,
    full_mode: bool,
    buffer: &BufferSnapshot,
    ai_disabled: bool,
)
    requires
        state.overridden.contains(buffer.id),
        forall|k: int| 0 <= k < events.len() ==> !#[trigger] forgets(events[k], buffer.id),
    ensures
        state.after_all(events).overridden.contains(buffer.id),
        !edit_triggers(state.after_all(events), event, buffer, ai_disabled),
        !creation_triggers(state.after_all(events), full_mode, buffer, ai_disabled),
    decreases events.len(),
{
    if events.len() > 0 {
        let earlier = events.drop_last();
        assert forall|k: int| 0 <= k < earlier.len() implies !#[trigger] forgets(
            earlier[k],
            buffer.id,
        ) by {
            assert(!forgets(events[k], buffer.id));
        }
        assert(!forgets(events[events.len() - 1], buffer.id));
        law_override_lasts(state, earlier, event, full_mode, buffer, ai_disabled);
    }
}

/// Only the user makes an override: a buffer that was not overridden and is now
/// has had its language changed while detection was not changing it.
pub proof fn law_override_has_a_cause(
    state: DetectorState,
    events: Seq<DetectorEvent>,
    id: BufferId,
)
    requires
        !state.overridden.contains(id),
        state.after_all(events).overridden.contains(id),
    ensures
        exists|k: int| #[trigger] user_change_at(state, events, id, k),
    decreases events.len(),
{
    if events.len() > 0 {
        let earlier = events.drop_last();
        if state.after_all(earlier).overridden.contains(id) {
            law_override_has_a_cause(state, earlier, id);
            let k = choose|k: int| #[trigger] user_change_at(state, earlier, id, k);
            assert(earlier.take(k) == events.take(k));
            assert(user_change_at(state, events, id, k));
        } else {
            let k = events.len() - 1;
            assert(events.take(k) == earlier);
            assert(user_change_at(state, events, id, k));
        }
    }
}

/// A buffer is overridden if and only if the user has changed its language and
/// nothing has made the detector forget it since. This is said of a detector
/// that starts afresh.
pub proof fn law_overridden_iff(events: Seq<DetectorEvent>, id: BufferId)
    ensures
        DetectorState::initial().after_all(events).overridden.contains(id) <==> exists|k: int|
            {
                &&& #[trigger] user_change_at(DetectorState::initial(), events, id, k)
                &&& forall|j: int| k < j < events.len() ==> !#[trigger] forgets(events[j], id)
            },
    decreases events.len(),
{
    let start = DetectorState::initial();
    if events.len() > 0 {
        let earlier = events.drop_last();
        let last = events.len() - 1;
        law_overridden_iff(earlier, id);
        assert(events.take(last) == earlier);
        if start.after_all(events).overridden.contains(id) {
            if start.after_all(earlier).overridden.contains(id) {
                let k = choose|k: int|
                    {
                        &&& #[trigger] user_change_at(start, earlier, id, k)
                        &&& forall|j: int|
                            k < j < earlier.len() ==> !#[trigger] forgets(earlier[j], id)
                    };
                assert(earlier.take(k) == events.take(k));
                assert(user_change_at(start, events, id, k));
                assert forall|j: int| k < j < events.len() implies !#[trigger] forgets(
                    events[j],
                    id,
                ) by {
                    if j < last {
                        assert(!forgets(earlier[j], id));
                    }
                }
            } else {
                assert(user_change_at(start, events, id, last));
            }
        }
        assert forall|k: int| #[trigger]
            user_change_at(start, events, id, k) && (forall|j: int|
                k < j < events.len() ==> !#[trigger] forgets(
                    events[j],
                    id,
                )) implies start.after_all(events).overridden.contains(id) by {
            if k < last {
                assert(earlier.take(k) == events.take(k));
                assert(user_change_at(start, earlier, id, k));
                assert forall|j: int| k < j < earlier.len() implies !#[trigger] forgets(
                    earlier[j],
                    id,
                ) by {
                    assert(!forgets(events[j], id));
                }
                assert(!forgets(events[last], id));
            }
        }
    } else {
        assert(forall|k: int| !#[trigger] user_change_at(start, events, id, k));
    }
}

/// The change of language that detection makes is not taken for the user's: it
/// leaves the overrides as they were, and once it is over no buffer is being
/// changed.
pub proof fn law_own_change_is_no_override(state: DetectorState, id: BufferId)
    ensures
        state.after_all(
            seq![
                DetectorEvent::ApplyStarted(id),
                DetectorEvent::LanguageChanged(id),
                DetectorEvent::ApplyFinished,
            ],
        ) == (DetectorState { applying: None, ..state }),
{
    let events = seq![
        DetectorEvent::ApplyStarted(id),
        DetectorEvent::LanguageChanged(id),
        DetectorEvent::ApplyFinished,
    ];
    reveal_with_fuel(DetectorState::after_all, 4);
    assert(events.drop_last().drop_last().drop_last().len() == 0);
}

/// Taking a detection back leaves the buffer open to detection, and the
/// overrides of other buffers as they were: the next edit of enough plain text
/// is detected again, unless AI is disabled.
pub proof fn law_undo_reopens(
    state: DetectorState,
    buffer: &BufferSnapshot,
    ai_disabled: bool,
)
    ensures
        ({
            let undone = state.after_all(
                seq![
                    DetectorEvent::UndoStarted(buffer.id),
                    DetectorEvent::LanguageChanged(buffer.id),
                    DetectorEvent::ApplyFinished,
                ],
            );
            &&& undone == DetectorState {
                overridden: state.overridden.remove(buffer.id),
                applying: None,
            }
            &&& edit_triggers(undone, EditorEvent::Edited, buffer, ai_disabled) <==> (
            buffer.effective_language() == "Plain Text"@ && buffer.long_enough() && !ai_disabled)
        }),
{
    let events = seq![
        DetectorEvent::UndoStarted(buffer.id),
        DetectorEvent::LanguageChanged(buffer.id),
        DetectorEvent::ApplyFinished,
    ];
    reveal_with_fuel(DetectorState::after_all, 4);
    assert(events.drop_last().drop_last().drop_last().len() == 0);
}

/// Once an editor of a buffer has been released, the buffer is not overridden.
pub proof fn law_release_forgets(state: DetectorState, id: BufferId)
    ensures
        !state.after(DetectorEvent::EditorReleased(id)).overridden.contains(id),
{
}

/// Buffers are independent: what happens to one leaves the override of another
/// as it is.
pub proof fn law_buffers_independent(state: DetectorState, event: DetectorEvent, id: BufferId)
    requires
        subject(event) != Some(id),
    ensures
        state.after(event).overridden.contains(id) == state.overridden.contains(id),
{
}

/// A change of language that is reported by each of several editors counts
/// once.
pub proof fn law_repeated_change_counts_once(state: DetectorState, id: BufferId)
    ensures
        state.after(DetectorEvent::LanguageChanged(id)).after(DetectorEvent::LanguageChanged(id))
            == state.after(DetectorEvent::LanguageChanged(id)),
{
    assert(state.overridden.insert(id).insert(id) == state.overridden.insert(id));
}

/// A detection starts only where the guard allows one, and only in enough text:
/// on an edit as well as when an editor is created.
pub proof fn law_detections_obey_the_guard(
    state: DetectorState,
    event: EditorEvent,
    full_mode: bool,
    buffer: &BufferSnapshot,
    ai_disabled: bool,
)
    requires
        edit_triggers(state, event, buffer, ai_disabled) || creation_triggers(
            state,
            full_mode,
            buffer,
            ai_disabled,
        ),
    ensures
        detectable(
            buffer.effective_language(),
            ai_disabled,
            state.overridden.contains(buffer.id),
        ),
        buffer.long_enough(),
{
}

/// The creation of an editor in full mode starts a detection exactly where an
/// edit would.
pub proof fn law_creation_and_edits_agree(
    state: DetectorState,
    buffer: &BufferSnapshot,
    ai_disabled: bool,
)
    ensures
        creation_triggers(state, true, buffer, ai_disabled) == edit_triggers(
            state,
            EditorEvent::Edited,
            buffer,
            ai_disabled,
        ),
{
}

/// The guard allows exactly plain text for which AI is enabled and which the
/// user has not overridden.
pub proof fn law_guard(language_name: Seq<char>, disable_ai: bool, user_overridden: bool)
    ensures
        detectable(language_name, disable_ai, user_overridden) <==> language_name == "Plain Text"@
            && !disable_ai && !user_overridden,
{
}

/// An event starts a detection if and only if it is an edit, the buffer's
/// language is plain text or there is none, AI is enabled, the buffer is not
/// overridden, and it holds at least 16 bytes.
pub proof fn law_edit_starts_detection(
    state: DetectorState,
    event: EditorEvent,
    buffer: &BufferSnapshot,
    ai_disabled: bool,
)
    ensures
        edit_triggers(state, event, buffer, ai_disabled) <==> {
            &&& event is Edited
            &&& buffer.language matches Some(name) ==> name.0@ == "Plain Text"@
            &&& !ai_disabled
            &&& !state.overridden.contains(buffer.id)
            &&& buffer.len >= 16
        },
{
}

/// More text never stops a detection: what starts one in a buffer starts one in
/// the same buffer with as much text or more.
pub proof fn law_longer_text_is_detected_too(
    state: DetectorState,
    event: EditorEvent,
    full_mode: bool,
    shorter: &BufferSnapshot,
    longer: &BufferSnapshot,
    ai_disabled: bool,
)
    requires
        shorter.id == longer.id,
        shorter.language == longer.language,
        shorter.len <= longer.len,
    ensures
        edit_triggers(state, event, shorter, ai_disabled) ==> edit_triggers(
            state,
            event,
            longer,
            ai_disabled,
        ),
        creation_triggers(state, full_mode, shorter, ai_disabled) ==> creation_triggers(
            state,
            full_mode,
            longer,
            ai_disabled,
        ),
{
}

/// An editor in full mode that shows a single buffer watches that buffer,
/// whatever the buffer holds and whatever the settings; one that shows several
/// is watched without them, and one in another mode is ignored. The buffer is
/// detected at once if and only if it holds at least 16 bytes of plain text, AI
/// is enabled and the buffer is not overridden.
pub proof fn law_new_editor(
    state: DetectorState,
    full_mode: bool,
    buffer: Option<&BufferSnapshot>,
    ai_disabled: bool,
)
    ensures
        setup_for(state, full_mode, buffer, ai_disabled) is Ignore <==> !full_mode,
        setup_for(state, full_mode, buffer, ai_disabled) is WatchEditor <==> full_mode
            && buffer is None,
        full_mode && buffer is Some ==> ({
            let shown = buffer->0;
            &&& setup_for(state, full_mode, buffer, ai_disabled) matches EditorSetup::WatchBuffer {
                buffer_id,
                detect_now,
            }
            &&& buffer_id == shown.id
            &&& detect_now <==> {
                &&& shown.language matches Some(name) ==> name.0@ == "Plain Text"@
                &&& !ai_disabled
                &&& !state.overridden.contains(shown.id)
                &&& shown.len >= 16
            }
        }),
{
}

/// What each event does to the override of any buffer `x` and to the buffer that
/// is being changed.
pub proof fn law_events(state: DetectorState, id: BufferId, x: BufferId)
    ensures
        ({
            let next = state.after(DetectorEvent::LanguageChanged(id));
            &&& next.applying == state.applying
            &&& next.overridden.contains(x) <==> state.overridden.contains(x) || (x == id
                && state.applying != Some(id))
        }),
        ({
            let next = state.after(DetectorEvent::EditorReleased(id));
            &&& next.applying == state.applying
            &&& next.overridden.contains(x) <==> state.overridden.contains(x) && x != id
        }),
        ({
            let next = state.after(DetectorEvent::ApplyStarted(id));
            &&& next.applying == Some(id)
            &&& next.overridden.contains(x) <==> state.overridden.contains(x)
        }),
        ({
            let next = state.after(DetectorEvent::UndoStarted(id));
            &&& next.applying == Some(id)
            &&& next.overridden.contains(x) <==> state.overridden.contains(x) && x != id
        }),
        ({
            let next = state.after(DetectorEvent::ApplyFinished);
            &&& next.applying is None
            &&& next.overridden.contains(x) <==> state.overridden.contains(x)
        }),
{
}

/// A detector starts with no override and no buffer being changed, and a history
/// is its events, one after the other.
pub proof fn law_histories(state: DetectorState, events: Seq<DetectorEvent>, event: DetectorEvent)
    ensures
        forall|id: BufferId| !#[trigger] DetectorState::initial().overridden.contains(id),
        DetectorState::initial().applying is None,
        state.after_all(seq![]) == state,
        state.after_all(events.push(event)) == state.after_all(events).after(event),
{
    assert(events.push(event).drop_last() == events);
}

} // verus!
