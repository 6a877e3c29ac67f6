use vstd::prelude::*;
use vstd::utf8::valid_utf8;

use crate::buffer::LanguageName;
use crate::labels::{
    extension_for, extension_table, law_table_row_in_force, lemma_untyped_labels_have_no_extension,
    magika_label_to_extension,
};

verus! {

/// A session of the Magika model, `magika::Session`.
#[verifier::external_type_specification]
#[verifier::external_body]
pub struct ExSession(magika::Session);

/// The errors of Magika, `magika::Error`.
#[verifier::external_type_specification]
#[verifier::external_body]
pub struct ExError(magika::Error);

/// Magika may answer `content` with `label`, or with a failure, which is the
/// answer `None`.
///
/// Magika weighs the bytes with a neural network in floating point, so two
/// machines may answer the same bytes differently: the name stands for a
/// relation, not for one answer.
pub uninterp spec fn magika_may_answer(content: Seq<u8>, label: Option<Seq<char>>) -> bool;

/// The first block of `content`, on which Magika decides whether to run its
/// model.
pub open spec fn first_block(content: Seq<u8>) -> Seq<u8> {
    if content.len() <= 4096 {
        content
    } else {
        content.take(4096)
    }
}

/// An ASCII space, tab, line feed, vertical tab, form feed or carriage return.
pub open spec fn is_whitespace(byte: u8) -> bool {
    byte == 0x20 || 0x09 <= byte <= 0x0d
}

/// Magika does not run its model on `content`: less than eight bytes are left
/// of the first block once its leading whitespace is dropped.
pub open spec fn too_little_for_model(content: Seq<u8>) -> bool {
    forall|i: int|
        0 <= i < first_block(content).len() - 7 ==> is_whitespace(#[trigger] first_block(content)[i])
}

/// The label of `content` where it is settled by rules, without the model.
pub open spec fn ruled_label(content: Seq<u8>) -> Option<Seq<char>> {
    if content.len() == 0 {
        Some("empty"@)
    } else if !too_little_for_model(content) {
        None
    } else if valid_utf8(first_block(content)) {
        Some("txt"@)
    } else {
        Some("unknown"@)
    }
}

/// Calls `magika::Session::identify_content_sync` and reads the label of what
/// it returns with `magika::FileType::info`.
///
/// Claimed of it: what comes back, label or failure, is an answer that Magika
/// may give to these bytes; and where the label is settled by rules, it does
/// not fail and gives the label of `ruled_label`. Nothing is said of which label
/// the model picks for other content, nor of when it fails on it: both depend
/// on the machine.
#[verifier::external_body]
fn identify_content(
    session: &mut magika::Session,
    content: &[u8],
) -> (res: Result<&'static str, magika::Error>)
    ensures
        match res {
            Ok(label) => magika_may_answer(content@, Some(label@)) && (ruled_label(content@) is None
                || ruled_label(content@) == Some(label@)),
            Err(_) => magika_may_answer(content@, None) && ruled_label(content@) is None,
        },
{
    Ok(session.identify_content_sync(content)?.info().label)
}

/// What a label comes to: `res` is the language that `lookup` finds for the
/// label's extension, with its name to display. There is none without a label,
/// for a label without an extension, and where `lookup` finds nothing.
pub open spec fn resolution<F: Fn(&str) -> Option<LanguageName>>(
    label: Option<Seq<char>>,
    lookup: F,
    res: Option<(LanguageName, String)>,
) -> bool {
    let extension = match label {
        Some(label) => extension_for(label),
        None => None,
    };
    match extension {
        Some(extension) => exists|ext: &str, found: Option<LanguageName>|
            {
                &&& ext@ == extension
                &&& #[trigger] call_ensures(lookup, (ext,), found)
                &&& match found {
                    Some(name) => res matches Some((language_name, display_name)) && language_name
                        == name && display_name@ == name@,
                    None => res is None,
                }
            },
        None => res is None,
    }
}

/// Finds the language that a label stands for, by asking `lookup` for the
/// language of the label's extension. Returns the language's name twice: to
/// load the language by, and to display.
pub fn resolve_label<F: Fn(&str) -> Option<LanguageName>>(label: Option<&str>, lookup: F) -> (res:
    Option<(LanguageName, String)>)
    requires
        forall|ext: &str| call_requires(lookup, (ext,)),
    ensures
        resolution(
            match label {
                Some(label) => Some(label@),
                None => None,
            },
            lookup,
            res,
        ),
        label is None ==> res is None,
        forall|i: int|
            0 <= i < extension_table().len() && label is Some && (#[trigger] extension_table()[i]).0
                == label->0@ ==> exists|ext: &str, found: Option<LanguageName>|
                {
                    &&& ext@ == extension_table()[i].1
                    &&& #[trigger] call_ensures(lookup, (ext,), found)
                    &&& found is Some <==> res is Some
                    &&& res matches Some((language_name, display_name)) ==> language_name == found->0
                        && display_name@ == (found->0).0@
                },
{
    proof {
        assert forall|i: int|
            0 <= i < extension_table().len() && label is Some && (#[trigger] extension_table()[i]).0
                == label->0@ implies extension_for(label->0@) == Some(extension_table()[i].1) by {
            law_table_row_in_force(i);
        }
    }
    let extension = match label {
        Some(label) => magika_label_to_extension(label),
        None => None,
    };
    match extension {
        Some(extension) => match lookup(extension) {
            Some(language_name) => {
                let display_name = language_name.0.clone();
                Some((language_name, display_name))
            },
            None => None,
        },
        None => None,
    }
}

/// What the detection of the language of `content` may come to: the resolution
/// of an answer that Magika may give to the content. Content that is labelled by
/// rules has no language.
pub open spec fn detection_outcome<F: Fn(&str) -> Option<LanguageName>>(
    content: Seq<u8>,
    lookup: F,
    res: Option<(LanguageName, String)>,
) -> bool {
    &&& exists|label: Option<Seq<char>>|
        {
            &&& magika_may_answer(content, label)
            &&& #[trigger] resolution(label, lookup, res)
        }
    &&& ruled_label(content) is Some ==> res is None
}

/// `lookup` is a function of the extension: asked for the same extension, it
/// finds the same name.
pub open spec fn consistent<F: Fn(&str) -> Option<LanguageName>>(lookup: F) -> bool {
    forall|a: &str, b: &str, x: Option<LanguageName>, y: Option<LanguageName>|
        a@ == b@ && #[trigger] call_ensures(lookup, (a,), x) && #[trigger] call_ensures(
            lookup,
            (b,),
            y,
        ) ==> same_name(x, y)
}

/// The same name was found, or none either time.
pub open spec fn same_name(x: Option<LanguageName>, y: Option<LanguageName>) -> bool {
    match (x, y) {
        (Some(x), Some(y)) => x@ == y@,
        (None, None) => true,
        _ => false,
    }
}

/// The same language was detected, or none either time.
pub open spec fn same_detection(
    x: Option<(LanguageName, String)>,
    y: Option<(LanguageName, String)>,
) -> bool {
    match (x, y) {
        (Some((x_name, x_display)), Some((y_name, y_display))) => x_name@ == y_name@ && x_display@
            == y_display@,
        (None, None) => true,
        _ => false,
    }
}

/// Content matters only through its label: two contents with the same answer
/// from Magika come to the same language, as long as the registry behind
/// `lookup` does not change.
pub proof fn law_label_determines_language<F: Fn(&str) -> Option<LanguageName>>(
    label: Option<Seq<char>>,
    lookup: F,
    x: Option<(LanguageName, String)>,
    y: Option<(LanguageName, String)>,
)
    requires
        consistent(lookup),
        resolution(label, lookup, x),
        resolution(label, lookup, y),
    ensures
        same_detection(x, y),
{
}

/// A label that stands in the table is resolved by asking `lookup` for the
/// extension beside it: whatever that finds, name or nothing, is the result, and
/// a name that it finds is the one to display as well.
pub proof fn law_row_is_looked_up<F: Fn(&str) -> Option<LanguageName>>(
    i: int,
    lookup: F,
    res: Option<(LanguageName, String)>,
)
    requires
        0 <= i < extension_table().len(),
        resolution(Some(extension_table()[i].0), lookup, res),
    ensures
        exists|ext: &str, found: Option<LanguageName>|
            {
                &&& ext@ == extension_table()[i].1
                &&& #[trigger] call_ensures(lookup, (ext,), found)
                &&& found is Some <==> res is Some
                &&& res matches Some((language_name, display_name)) ==> language_name == found->0
                    && display_name@ == (found->0).0@
            },
{
    law_table_row_in_force(i);
}

/// Where `lookup` finds the name `name` for the extension of a row of the table,
/// and nothing else, the row's label is resolved to that name.
pub proof fn law_known_extension_is_named<F: Fn(&str) -> Option<LanguageName>>(
    i: int,
    lookup: F,
    name: Seq<char>,
    res: Option<(LanguageName, String)>,
)
    requires
        0 <= i < extension_table().len(),
        forall|ext: &str, found: Option<LanguageName>|
            ext@ == extension_table()[i].1 && #[trigger] call_ensures(lookup, (ext,), found)
                ==> found is Some && (found->0).0@ == name,
        resolution(Some(extension_table()[i].0), lookup, res),
    ensures
        res matches Some((language_name, display_name)) && language_name.0@ == name
            && display_name@ == name,
{
    law_row_is_looked_up(i, lookup, res);
}

/// Without a label there is no language, and neither is there for a label that
/// stands in no row of the table, whatever `lookup` finds.
pub proof fn law_unlisted_label_has_no_language<F: Fn(&str) -> Option<LanguageName>>(
    label: Option<Seq<char>>,
    lookup: F,
    res: Option<(LanguageName, String)>,
)
    requires
        forall|i: int|
            0 <= i < extension_table().len() ==> Some((#[trigger] extension_table()[i]).0) != label,
        resolution(label, lookup, res),
    ensures
        res is None,
{
    if label is Some {
        assert forall|ext: Seq<char>| !#[trigger] extension_table().contains((label->0, ext)) by {
            if extension_table().contains((label->0, ext)) {
                let i = choose|i: int|
                    0 <= i < extension_table().len() && extension_table()[i] == (label->0, ext);
                assert(Some(extension_table()[i].0) != label);
            }
        }
    }
}

/// A detection goes by an answer that Magika may give to the content. A failure
/// and a label that stands in no row of the table come to nothing; a label that
/// does comes to what `lookup` finds for the extension beside it.
pub proof fn law_detection_goes_by_the_answer<F: Fn(&str) -> Option<LanguageName>>(
    content: Seq<u8>,
    lookup: F,
    res: Option<(LanguageName, String)>,
) -> (answer: Option<Seq<char>>)
    requires
        detection_outcome(content, lookup, res),
    ensures
        magika_may_answer(content, answer),
        (forall|i: int|
            0 <= i < extension_table().len() ==> Some((#[trigger] extension_table()[i]).0)
                != answer) ==> res is None,
        forall|i: int|
            0 <= i < extension_table().len() && Some((#[trigger] extension_table()[i]).0) == answer
                ==> exists|ext: &str, found: Option<LanguageName>|
                {
                    &&& ext@ == extension_table()[i].1
                    &&& #[trigger] call_ensures(lookup, (ext,), found)
                    &&& found is Some <==> res is Some
                    &&& res matches Some((language_name, display_name)) ==> language_name == found->0
                        && display_name@ == (found->0).0@
                },
{
    let answer = choose|label: Option<Seq<char>>|
        {
            &&& magika_may_answer(content, label)
            &&& #[trigger] resolution(label, lookup, res)
        };
    if forall|i: int|
        0 <= i < extension_table().len() ==> Some((#[trigger] extension_table()[i]).0) != answer {
        law_unlisted_label_has_no_language(answer, lookup, res);
    }
    assert forall|i: int|
        0 <= i < extension_table().len() && Some((#[trigger] extension_table()[i]).0)
            == answer implies exists|ext: &str, found: Option<LanguageName>|
        {
            &&& ext@ == extension_table()[i].1
            &&& #[trigger] call_ensures(lookup, (ext,), found)
            &&& found is Some <==> res is Some
            &&& res matches Some((language_name, display_name)) ==> language_name == found->0
                && display_name@ == (found->0).0@
        } by {
        law_row_is_looked_up(i, lookup, res);
    }
    answer
}

/// A detection finds no language in content of less than eight bytes, nor in a
/// first block that is blank but for its last seven bytes.
pub proof fn law_too_little_text_has_no_language<F: Fn(&str) -> Option<LanguageName>>(
    content: Seq<u8>,
    lookup: F,
    res: Option<(LanguageName, String)>,
)
    requires
        detection_outcome(content, lookup, res),
        content.len() < 8 || (forall|i: int|
            0 <= i < content.len() - 7 && i < 4089 ==> #[trigger] content[i] == 0x20 || 0x09
                <= content[i] <= 0x0d),
    ensures
        res is None,
{
    assert(ruled_label(content) is Some);
}

/// Content that is labelled by rules is never taken for code: whatever `lookup`
/// knows, its label comes to no language.
pub proof fn law_ruled_content_has_no_language<F: Fn(&str) -> Option<LanguageName>>(
    content: Seq<u8>,
    lookup: F,
    res: Option<(LanguageName, String)>,
)
    requires
        ruled_label(content) is Some,
        resolution(ruled_label(content), lookup, res),
    ensures
        res is None,
{
    lemma_untyped_labels_have_no_extension();
}

/// Detects the language of `content`: Magika labels the content and `lookup`
/// names the language of the label's extension. Content that Magika fails on
/// has no language.
pub fn detect_language<F: Fn(&str) -> Option<LanguageName>>(
    session: &mut magika::Session,
    content: &[u8],
    lookup: F,
) -> (res: Option<(LanguageName, String)>)
    requires
        forall|ext: &str| call_requires(lookup, (ext,)),
    ensures
        detection_outcome(content@, lookup, res),
{
    let label: Option<&'static str> = match identify_content(session, content) {
        Ok(label) => Some(label),
        Err(_) => None,
    };
    let res = resolve_label(label, lookup);
    proof {
        if ruled_label(content@) is Some {
            law_ruled_content_has_no_language(content@, lookup, res);
        }
    }
    res
}

} // verus!
