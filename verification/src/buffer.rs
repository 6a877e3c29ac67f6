use vstd::prelude::*;

verus! {

/// The least number of bytes that a buffer must hold before its language is
/// worth detecting.
pub const MIN_CONTENT_LENGTH: usize = 16;

/// Identifies a buffer across the whole application.
#[derive(Debug, Clone, Copy, PartialEq, Eq, Structural)]
pub struct BufferId(pub u64);

/// The name of a language, as a language registry knows it.
#[derive(Debug)]
pub struct LanguageName(pub String);

impl View for LanguageName {
    type V = Seq<char>;

    open spec fn view(&self) -> Seq<char> {
        self.0@
    }
}

/// What the detection rules read of a buffer.
#[derive(Debug)]
pub struct BufferSnapshot {
    pub id: BufferId,
    /// The language of the buffer, if it has one.
    pub language: Option<LanguageName>,
    /// The length of the buffer's text in bytes.
    pub len: usize,
}

impl BufferSnapshot {
    /// The name of the buffer's language; a buffer without one holds plain
    /// text.
    pub open spec fn effective_language(&self) -> Seq<char> {
        match self.language {
            Some(name) => name@,
            None => "Plain Text"@,
        }
    }

    /// The buffer holds enough text for its language to be detected.
    pub open spec fn long_enough(&self) -> bool {
        self.len >= MIN_CONTENT_LENGTH
    }

    /// The name of the buffer's language; a buffer without one holds plain
    /// text.
    pub fn language_name(&self) -> (res: &str)
        ensures
            res@ == self.effective_language(),
            self.language matches Some(name) ==> res@ == name.0@,
            self.language is None ==> res@ == "Plain Text"@,
    {
        match &self.language {
            Some(name) => name.0.as_str(),
            None => "Plain Text",
        }
    }
}

} // verus!
