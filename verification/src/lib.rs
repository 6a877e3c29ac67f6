//! Decides when the language of a text buffer is to be detected, detects it,
//! and keeps track of which buffers the user has taken a decision on.
//!
//! An edit that leaves enough plain text in a buffer starts a detection, and so
//! does a new editor of such a buffer (module `triggers`). The detection waits
//! for the text to come to rest, labels it with Magika (`identify`), maps the
//! label to the extension of a language (`labels`), sets that language and
//! notifies the user (`detection`, `toast`). A language that the user chooses is
//! an override, which `detector` remembers; a language that detection sets is
//! not. What holds over whole histories is stated in `laws`.

pub mod buffer;
pub mod detection;
pub mod detector;
pub mod identify;
pub mod labels;
pub mod laws;
pub mod text;
pub mod toast;
pub mod triggers;
