//! Loading the markup document and the stylesheet, with graceful degradation.
//!
//! Reading the two files is the shell's job; this module decides what the
//! overlay does with each outcome. A failed content read never aborts the
//! process: the error's description becomes the displayed text, so the
//! overlay always renders something. A failed style read simply leaves the
//! toolkit's default appearance in place.

use vstd::prelude::*;
use vstd::string::StringExecFns;

verus! {

/// The text shown in place of the document when reading it failed;
/// `error` is the read failure's description.
pub open spec fn fallback_text(error: Seq<char>) -> Seq<char> {
    "Error loading file: "@ + error
}

/// The text the overlay displays for a given outcome of reading the content
/// file: the document verbatim, or a visible error message.
pub open spec fn loaded_text(read: Result<Seq<char>, Seq<char>>) -> Seq<char> {
    match read {
        Ok(document) => document,
        Err(error) => fallback_text(error),
    }
}

/// The markup handed to the text-rendering widget, together with whether it
/// is the document itself or a substituted error message.
#[derive(Clone, Debug)]
pub struct LoadedContent {
    pub text: String,
    pub is_fallback: bool,
}

/// Turn the outcome of reading the content file into the text to display.
/// A readable document passes through verbatim; an unreadable one degrades
/// to a non-empty, human-readable message that carries the failure's
/// description, rather than aborting.
pub fn load_content(read: Result<String, String>) -> (content: LoadedContent)
    ensures
        read matches Ok(document) ==> content.text@ == loaded_text(Ok(document@)),
        read matches Err(error) ==> content.text@ == loaded_text(Err(error@)),
        content.is_fallback == (read is Err),
        content.is_fallback ==> content.text@.len() > 0,
{
    match read {
        Ok(document) => LoadedContent { text: document, is_fallback: false },
        Err(error) => {
            let mut message = String::from_str("Error loading file: ");
            message.append(error.as_str());
            proof {
                reveal_strlit("Error loading file: ");
            }
            LoadedContent { text: message, is_fallback: true }
        },
    }
}

/// Decide what stylesheet text, if any, is registered against the display.
/// A readable stylesheet is applied as it stands; an unreadable one is
/// dropped, leaving the default toolkit appearance, and is never fatal.
pub fn style_to_apply(read: Result<String, String>) -> (style: Option<String>)
    ensures
        read matches Ok(sheet) ==> style matches Some(applied) && applied@ == sheet@,
        read is Err ==> style is None,
{
    match read {
        Ok(sheet) => Some(sheet),
        Err(_) => None,
    }
}

/// An unreadable content file still yields visible, non-empty text, and that
/// text carries the read failure's description unchanged at its end.
pub proof fn lemma_unreadable_content_still_visible(error: Seq<char>)
    ensures
        loaded_text(Err(error)).len() > 0,
        loaded_text(Err(error)) == fallback_text(error),
        loaded_text(Err(error)).skip(loaded_text(Err(error)).len() - error.len()) == error,
{
    reveal_strlit("Error loading file: ");
    assert(loaded_text(Err(error)).skip(loaded_text(Err(error)).len() - error.len())
        =~= error);
}

/// A readable content file is displayed verbatim: the markup is passed
/// through unmodified.
pub proof fn lemma_readable_content_verbatim(document: Seq<char>)
    ensures
        loaded_text(Ok(document)) == document,
{
}

} // verus!
