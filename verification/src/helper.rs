//! The text transform that the library offers to templates as a helper.

use crate::assets::UPPERCASE_HELPER;
use crate::engine::missing_parameter;
use handlebars::RenderError;
use vstd::prelude::*;

verus! {

/// The upper-case equivalent of a text by the rules of Unicode, as
/// `str::to_uppercase` gives it.
pub uninterp spec fn upper_cased(text: Seq<char>) -> Seq<char>;

/// `str::to_uppercase` returns the upper-case equivalent of the text as a new
/// `String`.
pub assume_specification[ str::to_uppercase ](text: &str) -> (upper: String)
    ensures
        upper@ == upper_cased(text@),
;

/// The `uppercase` helper: a text in upper case.
pub fn uppercase(text: &str) -> (upper: String)
    ensures
        upper@ == upper_cased(text@),
{
    text.to_uppercase()
}

/// What the helper makes of its first parameter: the text in upper case, or
/// the engine's error for a missing parameter where there is none or it is
/// no text, which makes the helper fail.
pub fn uppercase_parameter(parameter: Option<&str>) -> (upper: Result<String, RenderError>)
    ensures
        parameter is None ==> upper is Err,
        parameter matches Some(text) ==> upper matches Ok(raised) && raised@ == upper_cased(text@),
{
    match parameter {
        Some(text) => Ok(uppercase(text)),
        None => Err(missing_parameter(UPPERCASE_HELPER, 0)),
    }
}

} // verus!
