use vstd::prelude::*;

use crate::buffer::{BufferId, LanguageName};
use crate::detector::{DetectorEvent, DetectorState, LanguageDetector};
use crate::identify::{detect_language, detection_outcome};

verus! {

/// How long the text must have been left alone before its language is
/// detected.
pub const DETECTION_DEBOUNCE_MILLIS: u64 = 500;

/// The debounce state of an editor: which of the detections that were triggered
/// in it is the latest.
#[derive(Debug, Clone, Copy, PartialEq, Eq, Structural)]
pub struct Debounce {
    /// The turn of the latest detection.
    pub latest: u64,
}

/// A detection that waits for the text to come to rest.
#[derive(Debug)]
pub struct PendingDetection {
    pub buffer_id: BufferId,
    /// The turn of the detection among those of its editor.
    pub turn: u64,
    /// The text of the buffer at the time of the edit.
    pub content: Vec<u8>,
    pub delay_millis: u64,
}

/// A detection whose content is being identified.
#[derive(Debug)]
pub struct RunningDetection {
    pub buffer_id: BufferId,
    pub content: Vec<u8>,
}

/// A detection whose language has a name and is being loaded.
#[derive(Debug)]
pub struct NamedDetection {
    pub buffer_id: BufferId,
    /// The name to load the language by.
    pub language_name: LanguageName,
    pub display_name: String,
}

/// A detection whose language is loaded and can be set.
#[derive(Debug)]
pub struct LoadedDetection {
    pub buffer_id: BufferId,
    /// The name that the language was loaded by.
    pub language_name: LanguageName,
    pub display_name: String,
}

/// A detection whose language is to be set on the buffer.
#[derive(Debug)]
pub struct AppliedDetection {
    pub buffer_id: BufferId,
    /// The name of the language to set.
    pub language_name: LanguageName,
    /// The name of the language to notify the user of, where there is a
    /// workspace to show the notification in.
    pub notify: Option<String>,
}

impl Debounce {
    /// The debounce state of an editor in which nothing was triggered yet.
    pub open spec fn initial() -> Debounce {
        Debounce { latest: 0 }
    }

    /// The debounce state after one more trigger. Turns start again from zero
    /// after the highest.
    pub open spec fn triggered(self) -> Debounce {
        Debounce {
            latest: if self.latest == u64::MAX {
                0
            } else {
                (self.latest + 1) as u64
            },
        }
    }

    /// The debounce state after `triggers` more triggers.
    pub open spec fn triggered_times(self, triggers: nat) -> Debounce
        decreases triggers,
    {
        if triggers == 0 {
            self
        } else {
            self.triggered_times((triggers - 1) as nat).triggered()
        }
    }

    pub fn new() -> (res: Self)
        ensures
            res == Debounce::initial(),
    {
        Debounce { latest: 0 }
    }
}

/// The detection that starts when one is triggered for a buffer with the text
/// `content`, in an editor with the debounce state `debounce`. There is none
/// for an editor without debounce state.
pub open spec fn triggered(
    debounce: Option<Debounce>,
    buffer_id: BufferId,
    content: Vec<u8>,
) -> Option<PendingDetection> {
    match debounce {
        Some(debounce) => Some(
            PendingDetection {
                buffer_id,
                turn: debounce.triggered().latest,
                content,
                delay_millis: DETECTION_DEBOUNCE_MILLIS,
            },
        ),
        None => None,
    }
}

/// Starts a detection, which is to wait for `delay_millis`. Returns it together
/// with the new debounce state of the editor.
pub fn trigger_detection(
    debounce: Option<Debounce>,
    buffer_id: BufferId,
    content: Vec<u8>,
) -> (res: Option<(Debounce, PendingDetection)>)
    ensures
        match res {
            Some((next, pending)) => debounce is Some && next == debounce->0.triggered() && Some(
                pending,
            ) == triggered(debounce, buffer_id, content),
            None => triggered(debounce, buffer_id, content) is None,
        },
        res is Some <==> debounce is Some,
        res matches Some((next, pending)) ==> pending.delay_millis == 500 && pending.buffer_id
            == buffer_id && pending.content == content && pending.turn == next.latest,
{
    match debounce {
        Some(debounce) => {
            let turn = debounce.latest.wrapping_add(1);
            Some(
                (
                    Debounce { latest: turn },
                    PendingDetection {
                        buffer_id,
                        turn,
                        content,
                        delay_millis: DETECTION_DEBOUNCE_MILLIS,
                    },
                ),
            )
        },
        None => None,
    }
}

impl PendingDetection {
    /// The detection once its delay has passed, in an editor whose debounce
    /// state is now `debounce`: it goes on where none was triggered after it,
    /// and in a project only.
    pub open spec fn elapsed(self, debounce: Debounce, has_project: bool) -> Option<
        RunningDetection,
    > {
        if self.turn == debounce.latest && has_project {
            Some(RunningDetection { buffer_id: self.buffer_id, content: self.content })
        } else {
            None
        }
    }

    /// Goes on with the detection once its delay has passed.
    pub fn delay_elapsed(self, debounce: Debounce, has_project: bool) -> (res: Option<
        RunningDetection,
    >)
        ensures
            res == self.elapsed(debounce, has_project),
            res is Some <==> self.turn == debounce.latest && has_project,
            res matches Some(running) ==> running.buffer_id == self.buffer_id && running.content
                == self.content,
    {
        if self.turn != debounce.latest || !has_project {
            return None;
        }
        Some(RunningDetection { buffer_id: self.buffer_id, content: self.content })
    }
}

/// A detection starts exactly in an editor with debounce state, whatever the
/// buffer and its text. It always waits for 500 milliseconds, keeps the buffer
/// and the text that it was triggered with, and takes the turn after the latest.
pub proof fn law_every_detection_waits(
    debounce: Option<Debounce>,
    buffer_id: BufferId,
    content: Vec<u8>,
)
    ensures
        triggered(debounce, buffer_id, content) is Some <==> debounce is Some,
        triggered(debounce, buffer_id, content) matches Some(pending) ==> {
            &&& pending.delay_millis == 500
            &&& pending.buffer_id == buffer_id
            &&& pending.content == content
            &&& pending.turn == debounce->0.triggered().latest
        },
{
}

/// Turns start at zero and rise by one a trigger; zero follows on the highest.
pub proof fn law_turns(debounce: Debounce)
    ensures
        Debounce::initial().latest == 0,
        debounce.latest < u64::MAX ==> debounce.triggered().latest == debounce.latest + 1,
        debounce.latest == u64::MAX ==> debounce.triggered().latest == 0,
        debounce.triggered_times(0) == debounce,
        debounce.triggered_times(1) == debounce.triggered(),
{
    reveal_with_fuel(Debounce::triggered_times, 2);
}

/// When its delay has passed, a detection goes on exactly where its turn is the
/// latest and there is a project, with its buffer and its text.
pub proof fn law_delay_passed(pending: PendingDetection, debounce: Debounce, has_project: bool)
    ensures
        pending.elapsed(debounce, has_project) is Some <==> pending.turn == debounce.latest
            && has_project,
        pending.elapsed(debounce, has_project) matches Some(running) ==> running.buffer_id
            == pending.buffer_id && running.content == pending.content,
{
}

/// A detection goes on with whatever language was detected, and stops where
/// there is none, whatever its content.
pub proof fn law_detected_language_is_kept(
    running: RunningDetection,
    detected: Option<(LanguageName, String)>,
)
    ensures
        running.named(detected) is Some <==> detected is Some,
        running.named(detected) matches Some(named) ==> named.buffer_id == running.buffer_id
            && named.language_name == (detected->0).0 && named.display_name == (detected->0).1,
{
}

/// A detection goes on exactly where its language could be loaded, and keeps
/// its buffer and both names.
pub proof fn law_loaded_language_is_kept(named: NamedDetection, found: bool)
    ensures
        named.loaded(found) is Some <==> found,
        named.loaded(found) matches Some(loaded) ==> loaded.buffer_id == named.buffer_id
            && loaded.language_name == named.language_name && loaded.display_name
            == named.display_name,
{
}

/// The language is set exactly where the buffer is still there, and the user is
/// notified exactly where the workspace is too. Setting it marks that buffer,
/// and no other, as being changed, so that the change of language that follows
/// is not taken for the user's: once it is over, all overrides are as they were.
pub proof fn law_applying(
    loaded: LoadedDetection,
    state: DetectorState,
    buffer_alive: bool,
    workspace_alive: bool,
)
    ensures
        loaded.applied(buffer_alive, workspace_alive) is Some <==> buffer_alive,
        loaded.applied(buffer_alive, workspace_alive) matches Some(applied) ==> {
            &&& applied.buffer_id == loaded.buffer_id
            &&& applied.language_name == loaded.language_name
            &&& applied.notify is Some <==> workspace_alive
            &&& applied.notify matches Some(name) ==> name == loaded.display_name
        },
        !buffer_alive ==> loaded.state_applied(state, buffer_alive) == state,
        buffer_alive ==> ({
            let applying = loaded.state_applied(state, buffer_alive);
            let over = applying.after(DetectorEvent::LanguageChanged(loaded.buffer_id)).after(
                DetectorEvent::ApplyFinished,
            );
            &&& applying.applying == Some(loaded.buffer_id)
            &&& applying.overridden == state.overridden
            &&& over.overridden == state.overridden
            &&& over.applying is None
        }),
{
}

proof fn lemma_turns_count_up(debounce: Debounce, triggers: nat)
    requires
        triggers <= u64::MAX,
    ensures
        debounce.triggered_times(triggers).latest == if debounce.latest + triggers <= u64::MAX {
            debounce.latest + triggers
        } else {
            debounce.latest + triggers - u64::MAX - 1
        },
    decreases triggers,
{
    if triggers > 0 {
        lemma_turns_count_up(debounce, (triggers - 1) as nat);
    }
}

/// A later trigger takes the place of an earlier one in the same editor: while
/// the earlier detection waits and `later` more are triggered, it does not go
/// on when its delay has passed. This holds until the turns are used up.
pub proof fn law_later_trigger_replaces(
    debounce: Debounce,
    buffer_id: BufferId,
    content: Vec<u8>,
    later: nat,
    has_project: bool,
)
    requires
        0 < later <= u64::MAX,
    ensures
        triggered(Some(debounce), buffer_id, content)->0.elapsed(
            debounce.triggered().triggered_times(later),
            has_project,
        ) is None,
{
    lemma_turns_count_up(debounce.triggered(), later);
}

/// The latest trigger in an editor is the one that counts: its detection goes
/// on in a project, with the text as of that trigger.
pub proof fn law_latest_trigger_counts(
    debounce: Debounce,
    buffer_id: BufferId,
    content: Vec<u8>,
    has_project: bool,
)
    ensures
        ({
            let running = triggered(Some(debounce), buffer_id, content)->0.elapsed(
                debounce.triggered(),
                has_project,
            );
            &&& running is Some <==> has_project
            &&& running matches Some(running) ==> running.buffer_id == buffer_id && running.content
                == content
        }),
{
}

impl RunningDetection {
    /// The detection once its content has been identified: it goes on where a
    /// language was found.
    pub open spec fn named(self, detected: Option<(LanguageName, String)>) -> Option<
        NamedDetection,
    > {
        match detected {
            Some((language_name, display_name)) => Some(
                NamedDetection { buffer_id: self.buffer_id, language_name, display_name },
            ),
            None => None,
        }
    }

    /// Identifies the content with Magika, names its language with `lookup`,
    /// and goes on with the detection.
    pub fn identify<F: Fn(&str) -> Option<LanguageName>>(
        self,
        session: &mut magika::Session,
        lookup: F,
    ) -> (res: Option<NamedDetection>)
        requires
            forall|ext: &str| call_requires(lookup, (ext,)),
        ensures
            exists|detected: Option<(LanguageName, String)>|
                {
                    &&& #[trigger] detection_outcome(self.content@, lookup, detected)
                    &&& res == self.named(detected)
                },
    {
        let detected = detect_language(session, self.content.as_slice(), lookup);
        self.identified(detected)
    }

    /// Goes on with the detection, given what `detect_language` made of its
    /// content.
    pub fn identified(self, detected: Option<(LanguageName, String)>) -> (res: Option<
        NamedDetection,
    >)
        ensures
            res == self.named(detected),
            res is Some <==> detected is Some,
            res matches Some(named) ==> named.buffer_id == self.buffer_id && (
            named.language_name,
            named.display_name,
        ) == detected->0,
    {
        match detected {
            Some((language_name, display_name)) => Some(
                NamedDetection { buffer_id: self.buffer_id, language_name, display_name },
            ),
            None => None,
        }
    }
}

impl NamedDetection {
    /// The detection once its language has been asked for: it goes on where
    /// the language could be loaded.
    pub open spec fn loaded(self, found: bool) -> Option<LoadedDetection> {
        if found {
            Some(
                LoadedDetection {
                    buffer_id: self.buffer_id,
                    language_name: self.language_name,
                    display_name: self.display_name,
                },
            )
        } else {
            None
        }
    }

    /// Goes on with the detection, given whether the language named
    /// `language_name` could be loaded.
    pub fn resolved(self, found: bool) -> (res: Option<LoadedDetection>)
        ensures
            res == self.loaded(found),
            res is Some <==> found,
            res matches Some(loaded) ==> loaded.buffer_id == self.buffer_id && loaded.language_name
                == self.language_name && loaded.display_name == self.display_name,
    {
        if !found {
            return None;
        }
        Some(
            LoadedDetection {
                buffer_id: self.buffer_id,
                language_name: self.language_name,
                display_name: self.display_name,
            },
        )
    }
}

impl LoadedDetection {
    /// The detection as it is applied: the language is set where the buffer is
    /// still there, and the user is notified where the workspace is.
    pub open spec fn applied(self, buffer_alive: bool, workspace_alive: bool) -> Option<
        AppliedDetection,
    > {
        if buffer_alive {
            Some(
                AppliedDetection {
                    buffer_id: self.buffer_id,
                    language_name: self.language_name,
                    notify: if workspace_alive {
                        Some(self.display_name)
                    } else {
                        None
                    },
                },
            )
        } else {
            None
        }
    }

    /// The detector's state once the detection is applied.
    pub open spec fn state_applied(
        self,
        state: DetectorState,
        buffer_alive: bool,
    ) -> DetectorState {
        if buffer_alive {
            state.after(DetectorEvent::ApplyStarted(self.buffer_id))
        } else {
            state
        }
    }

    /// Applies the detection. Where a result comes back, its language is to be
    /// set on the buffer, and `ApplyFinished` is due to the detector once the
    /// events that this causes have been delivered. An override that was made
    /// after the detection had been triggered is not asked for.
    pub fn apply(
        self,
        detector: &mut LanguageDetector,
        buffer_alive: bool,
        workspace_alive: bool,
    ) -> (res: Option<AppliedDetection>)
        ensures
            res == self.applied(buffer_alive, workspace_alive),
            final(detector)@ == self.state_applied(old(detector)@, buffer_alive),
            res is Some <==> buffer_alive,
            res matches Some(applied) ==> applied.buffer_id == self.buffer_id
                && applied.language_name == self.language_name && applied.notify == (
            if workspace_alive {
                Some(self.display_name)
            } else {
                None
            }),
            final(detector)@.overridden == old(detector)@.overridden,
            final(detector)@.applying == if buffer_alive {
                Some(self.buffer_id)
            } else {
                old(detector)@.applying
            },
    {
        if !buffer_alive {
            return None;
        }
        detector.handle(DetectorEvent::ApplyStarted(self.buffer_id));
        let notify = if workspace_alive {
            Some(self.display_name)
        } else {
            None
        };
        Some(
            AppliedDetection {
                buffer_id: self.buffer_id,
                language_name: self.language_name,
                notify,
            },
        )
    }
}

/// What a detection comes to when it is taken from its trigger to its end.
/// `debounce` is the debounce state of its editor when its delay has passed.
pub open spec fn run_to_end(
    pending: Option<PendingDetection>,
    debounce: Debounce,
    has_project: bool,
    detected: Option<(LanguageName, String)>,
    found: bool,
    buffer_alive: bool,
    workspace_alive: bool,
) -> Option<AppliedDetection> {
    match pending {
        Some(pending) => match pending.elapsed(debounce, has_project) {
            Some(running) => match running.named(detected) {
                Some(named) => match named.loaded(found) {
                    Some(loaded) => loaded.applied(buffer_alive, workspace_alive),
                    None => None,
                },
                None => None,
            },
            None => None,
        },
        None => None,
    }
}

/// A detection sets a language on its buffer, and on no other, if and only if
/// the editor has debounce state, no other detection was triggered in it
/// meanwhile, there is a project, a language was detected and could be loaded,
/// and the buffer is still there. The language is the one that was detected. The
/// user is notified, with that language's display name, if and only if the
/// workspace is still there as well.
pub proof fn law_detection_run(
    before: Option<Debounce>,
    buffer_id: BufferId,
    content: Vec<u8>,
    later: nat,
    has_project: bool,
    detected: Option<(LanguageName, String)>,
    found: bool,
    buffer_alive: bool,
    workspace_alive: bool,
)
    requires
        later <= u64::MAX,
    ensures
        ({
            let end = run_to_end(
                triggered(before, buffer_id, content),
                before->0.triggered().triggered_times(later),
                has_project,
                detected,
                found,
                buffer_alive,
                workspace_alive,
            );
            &&& end is Some <==> before is Some && later == 0 && has_project && detected is Some
                && found && buffer_alive
            &&& end matches Some(applied) ==> {
                &&& applied.buffer_id == buffer_id
                &&& applied.language_name == (detected->0).0
                &&& applied.notify == if workspace_alive {
                    Some((detected->0).1)
                } else {
                    None
                }
            }
        }),
{
    lemma_turns_count_up(before->0.triggered(), later);
}

} // verus!
