use std::collections::HashSet;

use vstd::prelude::*;

use crate::buffer::BufferId;

verus! {

broadcast use vstd::std_specs::hash::group_hash_axioms;

/// The contents of a `LanguageDetector`.
#[verifier::ext_equal]
pub struct DetectorState {
    /// The buffers whose language the user has chosen.
    pub overridden: Set<BufferId>,
    /// The buffer whose language is being set by detection.
    pub applying: Option<BufferId>,
}

/// What happens to a detector.
#[derive(Debug, Clone, Copy)]
pub enum DetectorEvent {
    /// The language of a buffer has changed.
    LanguageChanged(BufferId),
    /// An editor of a buffer has been released.
    EditorReleased(BufferId),
    /// A detected language is about to be set on a buffer.
    ApplyStarted(BufferId),
    /// A detected language is about to be taken back from a buffer.
    UndoStarted(BufferId),
    /// The events caused by the last change of language have been delivered.
    ApplyFinished,
}

impl DetectorState {
    /// The state in which no buffer is overridden and none is being changed.
    pub open spec fn initial() -> DetectorState {
        DetectorState { overridden: Set::empty(), applying: None }
    }

    /// The state that follows on `event`.
    pub open spec fn after(self, event: DetectorEvent) -> DetectorState {
        match event {
            DetectorEvent::LanguageChanged(id) => if self.applying == Some(id) {
                self
            } else {
                DetectorState { overridden: self.overridden.insert(id), ..self }
            },
            DetectorEvent::EditorReleased(id) => DetectorState {
                overridden: self.overridden.remove(id),
                ..self
            },
            DetectorEvent::ApplyStarted(id) => DetectorState { applying: Some(id), ..self },
            DetectorEvent::UndoStarted(id) => DetectorState {
                overridden: self.overridden.remove(id),
                applying: Some(id),
            },
            DetectorEvent::ApplyFinished => DetectorState { applying: None, ..self },
        }
    }

    /// The state that follows on all of `events`, in order.
    pub open spec fn after_all(self, events: Seq<DetectorEvent>) -> DetectorState
        decreases events.len(),
    {
        if events.len() == 0 {
            self
        } else {
            self.after_all(events.drop_last()).after(events.last())
        }
    }
}

/// Tracks which buffers had their language manually overridden by the user,
/// and which buffer is currently being updated by detection.
pub struct LanguageDetector {
    user_overridden_buffers: HashSet<u64>,
    currently_applying: Option<BufferId>,
}

impl View for LanguageDetector {
    type V = DetectorState;

    closed spec fn view(&self) -> DetectorState {
        DetectorState {
            overridden: Set::new(|id: BufferId| self.user_overridden_buffers@.contains(id.0)),
            applying: self.currently_applying,
        }
    }
}

impl LanguageDetector {
    pub fn new() -> (res: Self)
        ensures
            res@ == DetectorState::initial(),
            res@.overridden == Set::<BufferId>::empty(),
            res@.applying is None,
    {
        let res = LanguageDetector {
            user_overridden_buffers: HashSet::new(),
            currently_applying: None,
        };
        assert(res@ =~= DetectorState::initial());
        res
    }

    pub fn is_user_overridden(&self, buffer_id: BufferId) -> (res: bool)
        ensures
            res == self@.overridden.contains(buffer_id),
    {
        self.user_overridden_buffers.contains(&buffer_id.0)
    }

    pub fn mark_user_overridden(&mut self, buffer_id: BufferId)
        ensures
            final(self)@ == (DetectorState {
                overridden: old(self)@.overridden.insert(buffer_id),
                ..old(self)@
            }),
    {
        let ghost before = self@;
        self.user_overridden_buffers.insert(buffer_id.0);
        assert(self@ =~= DetectorState { overridden: before.overridden.insert(buffer_id), ..before });
    }

    pub fn clear_user_override(&mut self, buffer_id: BufferId)
        ensures
            final(self)@ == (DetectorState {
                overridden: old(self)@.overridden.remove(buffer_id),
                ..old(self)@
            }),
    {
        let ghost before = self@;
        self.user_overridden_buffers.remove(&buffer_id.0);
        assert(self@ =~= DetectorState { overridden: before.overridden.remove(buffer_id), ..before });
    }

    pub fn set_currently_applying(&mut self, buffer_id: Option<BufferId>)
        ensures
            final(self)@ == (DetectorState { applying: buffer_id, ..old(self)@ }),
    {
        self.currently_applying = buffer_id;
    }

    pub fn is_currently_applying(&self, buffer_id: BufferId) -> (res: bool)
        ensures
            res == (self@.applying == Some(buffer_id)),
    {
        match self.currently_applying {
            Some(id) => id == buffer_id,
            None => false,
        }
    }

    /// Brings the detector up to date with `event`.
    ///
    /// A change of language counts as the user's own unless detection is just
    /// changing that buffer.
    pub fn handle(&mut self, event: DetectorEvent)
        ensures
            final(self)@ == old(self)@.after(event),
    {
        match event {
            DetectorEvent::LanguageChanged(id) => {
                if !self.is_currently_applying(id) {
                    self.mark_user_overridden(id);
                }
            },
            DetectorEvent::EditorReleased(id) => self.clear_user_override(id),
            DetectorEvent::ApplyStarted(id) => self.set_currently_applying(Some(id)),
            DetectorEvent::UndoStarted(id) => {
                self.set_currently_applying(Some(id));
                self.clear_user_override(id);
            },
            DetectorEvent::ApplyFinished => self.set_currently_applying(None),
        }
    }
}

} // verus!
