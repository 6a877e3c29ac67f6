use vstd::prelude::*;
use vstd::string::*;

use crate::buffer::{BufferId, LanguageName};
use crate::detector::{DetectorEvent, DetectorState, LanguageDetector};
use crate::text::{
    decimal, law_decimal_injective, law_decimal_reads_back, lemma_decimal_is_digits, push_decimal,
    read_back,
};

verus! {

/// The notification that a language was detected.
#[derive(Debug)]
pub struct DetectionToast {
    /// Tells this notification from all others about detection.
    pub id: String,
    pub message: String,
    /// What the button says that takes the detection back.
    pub action: String,
    /// The notification goes away by itself.
    pub autohide: bool,
}

/// Numbers the notifications, in the order in which they are shown.
#[derive(Debug)]
pub struct ToastCounter {
    next: u64,
}

impl View for ToastCounter {
    type V = u64;

    /// The number of the next notification.
    closed spec fn view(&self) -> u64 {
        self.next
    }
}

/// The number that follows on `number`: the next higher one, and zero after the
/// highest.
pub open spec fn following(number: u64) -> u64 {
    if number == u64::MAX {
        0
    } else {
        (number + 1) as u64
    }
}

/// The number of the next notification once `shown` have been shown.
pub open spec fn number_after(shown: nat) -> u64
    decreases shown,
{
    if shown == 0 {
        0
    } else {
        following(number_after((shown - 1) as nat))
    }
}

impl ToastCounter {
    pub fn new() -> (res: Self)
        ensures
            res@ == number_after(0),
            res@ == 0,
    {
        ToastCounter { next: 0 }
    }

    /// Takes the next number.
    pub fn take(&mut self) -> (res: u64)
        ensures
            res == old(self)@,
            final(self)@ == following(old(self)@),
            old(self)@ < u64::MAX ==> final(self)@ == old(self)@ + 1,
            old(self)@ == u64::MAX ==> final(self)@ == 0,
    {
        let number = self.next;
        self.next = number.wrapping_add(1);
        number
    }
}

/// Notifications are numbered from zero upwards, without a gap: the one that is
/// shown after `shown` others has the number `shown`. This holds until the
/// numbers are used up.
pub proof fn law_numbers_count_up(shown: nat)
    requires
        shown <= u64::MAX,
    ensures
        number_after(shown) == shown,
    decreases shown,
{
    if shown > 0 {
        law_numbers_count_up((shown - 1) as nat);
    }
}

/// The id of the notification number `toast_seq`, which is about the buffer
/// `buffer_id`.
pub open spec fn toast_id(buffer_id: BufferId, toast_seq: u64) -> Seq<char> {
    "lang-detect-"@ + decimal(buffer_id.0 as nat) + "-"@ + decimal(toast_seq as nat)
}

/// An id starts with `lang-detect-`, goes on with the number of the buffer, a
/// hyphen, and the number of the notification, and ends there.
pub proof fn law_toast_id_parts(buffer_id: BufferId, toast_seq: u64)
    ensures
        ({
            let id = toast_id(buffer_id, toast_seq);
            let buffer_end = 12 + decimal(buffer_id.0 as nat).len() as int;
            &&& id.take(12) == seq!['l', 'a', 'n', 'g', '-', 'd', 'e', 't', 'e', 'c', 't', '-']
            &&& read_back(id.subrange(12, buffer_end)) == buffer_id.0
            &&& id[buffer_end] == '-'
            &&& read_back(id.skip(buffer_end + 1)) == toast_seq
        }),
{
    reveal_strlit("lang-detect-");
    reveal_strlit("-");
    let id = toast_id(buffer_id, toast_seq);
    let (x, u) = (decimal(buffer_id.0 as nat), decimal(toast_seq as nat));
    law_decimal_reads_back(buffer_id.0 as nat);
    law_decimal_reads_back(toast_seq as nat);
    assert(id.subrange(12, 12 + x.len() as int) == x);
    assert(id.skip(12 + x.len() as int + 1) == u);
}

/// Two notifications with the same id have the same number and are about the
/// same buffer.
pub proof fn law_toast_ids_distinct(a: BufferId, a_seq: u64, b: BufferId, b_seq: u64)
    requires
        toast_id(a, a_seq) == toast_id(b, b_seq),
    ensures
        a == b,
        a_seq == b_seq,
{
    reveal_strlit("-");
    let prefix = "lang-detect-"@;
    let start = prefix.len() as int;
    let id = toast_id(a, a_seq);
    let (x, y) = (decimal(a.0 as nat), decimal(b.0 as nat));
    let (u, v) = (decimal(a_seq as nat), decimal(b_seq as nat));
    lemma_decimal_is_digits(a.0 as nat);
    lemma_decimal_is_digits(b.0 as nat);
    if x.len() < y.len() {
        assert(id[start + x.len()] == '-');
        assert(id[start + x.len()] == y[x.len() as int]);
    }
    if y.len() < x.len() {
        assert(id[start + y.len()] == '-');
        assert(id[start + y.len()] == x[y.len() as int]);
    }
    assert(x == id.subrange(start, start + x.len()));
    assert(y == id.subrange(start, start + y.len()));
    assert(u == id.subrange(start + x.len() + 1, id.len() as int));
    assert(v == id.subrange(start + y.len() + 1, id.len() as int));
    law_decimal_injective(a.0 as nat, b.0 as nat);
    law_decimal_injective(a_seq as nat, b_seq as nat);
}

/// No two notifications share an id, whether they are about the same buffer or
/// not. This holds of those that are shown before the numbers are used up.
pub proof fn law_no_id_is_reused(a: BufferId, a_shown: nat, b: BufferId, b_shown: nat)
    requires
        a_shown < b_shown <= u64::MAX,
    ensures
        toast_id(a, number_after(a_shown)) != toast_id(b, number_after(b_shown)),
{
    law_numbers_count_up(a_shown);
    law_numbers_count_up(b_shown);
    if toast_id(a, number_after(a_shown)) == toast_id(b, number_after(b_shown)) {
        law_toast_ids_distinct(a, number_after(a_shown), b, number_after(b_shown));
    }
}

/// The notification that the language called `language_display_name` was
/// detected in a buffer. All notifications are numbered by the same counter.
pub fn show_detection_toast(
    counter: &mut ToastCounter,
    buffer_id: BufferId,
    language_display_name: &str,
) -> (res: DetectionToast)
    ensures
        res.id@ == toast_id(buffer_id, old(counter)@),
        res.id@ == "lang-detect-"@ + decimal(buffer_id.0 as nat) + "-"@ + decimal(
            old(counter)@ as nat,
        ),
        final(counter)@ == following(old(counter)@),
        old(counter)@ < u64::MAX ==> final(counter)@ == old(counter)@ + 1,
        old(counter)@ == u64::MAX ==> final(counter)@ == 0,
        res.message@ == "Detected: "@ + language_display_name@,
        res.action@ == "Undo"@,
        res.autohide,
{
    let toast_seq = counter.take();
    let mut id = "lang-detect-".to_owned();
    push_decimal(&mut id, buffer_id.0);
    id.append("-");
    push_decimal(&mut id, toast_seq);
    let mut message = "Detected: ".to_owned();
    message.append(language_display_name);
    DetectionToast { id, message, action: "Undo".to_owned(), autohide: true }
}

/// The detector's state once the user has asked to take a detection back.
pub open spec fn state_undone(
    state: DetectorState,
    buffer_id: BufferId,
    buffer_alive: bool,
    project_alive: bool,
) -> DetectorState {
    if buffer_alive && project_alive {
        state.after(DetectorEvent::UndoStarted(buffer_id))
    } else {
        state
    }
}

/// Taking a detection back, with the buffer and the project there, marks the
/// buffer as being changed and drops its override, whether it had one or not.
/// The change of language that follows is then not taken for the user's: once
/// it is over, the buffer is not overridden, no buffer is being changed, and the
/// overrides of all other buffers are as they were.
pub proof fn law_undo(
    state: DetectorState,
    buffer_id: BufferId,
    buffer_alive: bool,
    project_alive: bool,
    other: BufferId,
)
    ensures
        !(buffer_alive && project_alive) ==> state_undone(
            state,
            buffer_id,
            buffer_alive,
            project_alive,
        ) == state,
        buffer_alive && project_alive ==> ({
            let undone = state_undone(state, buffer_id, buffer_alive, project_alive);
            let over = undone.after(DetectorEvent::LanguageChanged(buffer_id)).after(
                DetectorEvent::ApplyFinished,
            );
            &&& undone.applying == Some(buffer_id)
            &&& !undone.overridden.contains(buffer_id)
            &&& other != buffer_id ==> undone.overridden.contains(other)
                == state.overridden.contains(other)
            &&& !over.overridden.contains(buffer_id)
            &&& over.applying is None
            &&& other != buffer_id ==> over.overridden.contains(other)
                == state.overridden.contains(other)
        }),
{
}

/// Takes a detection back. Where it returns a language, which is plain text,
/// the language of the buffer is to be set back to it, and `ApplyFinished` is
/// due to the detector once the events that this causes have been delivered.
pub fn undo_detection(
    detector: &mut LanguageDetector,
    buffer_id: BufferId,
    buffer_alive: bool,
    project_alive: bool,
) -> (res: Option<LanguageName>)
    ensures
        res is Some <==> buffer_alive && project_alive,
        res matches Some(name) ==> name@ == "Plain Text"@,
        final(detector)@ == state_undone(old(detector)@, buffer_id, buffer_alive, project_alive),
        res is Some ==> final(detector)@.applying == Some(buffer_id)
            && final(detector)@.overridden == old(detector)@.overridden.remove(buffer_id),
        res is None ==> final(detector)@ == old(detector)@,
{
    if !buffer_alive || !project_alive {
        return None;
    }
    detector.handle(DetectorEvent::UndoStarted(buffer_id));
    Some(LanguageName("Plain Text".to_owned()))
}

} // verus!
