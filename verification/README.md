# language_detection

Detects the language of plain text buffers in an editor. Once the user has chosen
the language of a buffer, no detection starts in it until an editor of the buffer
is released or a detection in it is taken back.

The crate is a Verus library: every function in `src/` states what it does in
`requires` and `ensures`, and Verus proves it.

- `labels`: the table from content type labels to file extensions.
- `identify`: labelling of content with Magika, and naming of its language. The
  call into Magika is the one place where a contract is trusted, not proved.
- `detector`: which buffers are overridden, and which one is being changed.
- `triggers`: which editors and which edits start a detection.
- `detection`: the course of a detection, from its trigger to the change of
  language.
- `toast`: the notification of a detection, and taking a detection back.
- `laws`: what holds over whole histories of events.
- `text`, `buffer`: decimal notation and string equality; buffers as the rules
  see them.

`app/` is the glue to the editor: subscriptions, timers, background tasks and
notifications.

Magika needs an ONNX Runtime, which the final binary provides (see the
documentation of the `magika` and `ort` crates). The tests are built with ort's
`alternative-backend` feature, so that they link without one.
