//! Rendering a page: register the layout, expand the content, register the
//! helper, hand back the text.

use crate::assets::plant_names;
use crate::assets::plantings;
use crate::assets::DataPayload;
use crate::assets::LAYOUT;
use crate::assets::LAYOUT_NAME;
use crate::assets::PLANTINGS_LIST;
use crate::assets::PLANTS_FIELD;
use crate::assets::UPPERCASE_HELPER;
use crate::engine::builtin_helpers;
use crate::engine::compiles;
use crate::engine::expansion;
use crate::engine::no_templates;
use crate::engine::parse_template;
use crate::engine::parsed;
use crate::engine::register_template_string;
use crate::engine::register_uppercase_helper;
use crate::engine::render_template;
use crate::partial::has_partial;
use crate::partial::holds_partial;
use crate::partial::Piece;
use handlebars::Handlebars;
use vstd::prelude::*;

verus! {

/// Why a render gave no text.
#[derive(Clone, Copy, Debug, PartialEq, Eq, Structural)]
pub enum RenderFailure {
    /// The layout was not registered: the engine did not take it as a
    /// template.
    Registration,
    /// The content did not expand: it asks for a partial, the engine did not
    /// take it as a template, or it refers to what the data or the engine
    /// does not hold.
    Render,
}

/// What a render hands back, told from how its two steps went: whether the
/// layout was registered, and what the expansion of the content gave. A layout
/// that was refused decides the matter, whatever the expansion would give.
pub open spec fn outcome(layout_registered: bool, expanded: Option<Seq<char>>) -> Result<
    Seq<char>,
    RenderFailure,
> {
    if !layout_registered {
        Err(RenderFailure::Registration)
    } else {
        match expanded {
            Some(text) => Ok(text),
            None => Err(RenderFailure::Render),
        }
    }
}

/// The templates that the engine holds when the content is expanded: the
/// layout, under its name, and nothing else.
pub open spec fn layout_alone(layout: Seq<char>) -> Map<Seq<char>, Seq<char>> {
    no_templates().insert(LAYOUT_NAME@, layout)
}

/// What a content expands to by itself against `{ plants: .. }`, in an
/// engine in strict mode that holds these templates and no helper but its
/// own. A content that the parser finds a partial in does not expand.
pub open spec fn content_expansion(
    templates: Map<Seq<char>, Seq<char>>,
    content: Seq<char>,
    plants: Seq<Seq<char>>,
) -> Option<Seq<char>> {
    if holds_partial(parsed(content)) {
        None
    } else {
        expansion(templates, builtin_helpers(), true, content, PLANTS_FIELD@, plants)
    }
}

/// How a render of a layout, a content and the names of the plants may end.
///
/// A text is handed back only where the grammar accepts both the layout and
/// the content, and the text is then the expansion of the content: the same
/// with the layout registered beside it and without. The render failure comes
/// only after the layout was accepted. The registration failure may come on
/// any layout: the engine's parser gives up where the stack runs short.
pub open spec fn may_end_in(
    layout: Seq<char>,
    content: Seq<char>,
    plants: Seq<Seq<char>>,
    end: Result<Seq<char>, RenderFailure>,
) -> bool {
    match end {
        Ok(text) => {
            &&& compiles(layout)
            &&& compiles(content)
            &&& content_expansion(layout_alone(layout), content, plants) == Some(text)
            &&& content_expansion(no_templates(), content, plants) == Some(text)
        },
        Err(RenderFailure::Registration) => true,
        Err(RenderFailure::Render) => compiles(layout),
    }
}

/// A render's result as a value of the model: the text by its characters.
pub open spec fn rendering(result: Result<String, RenderFailure>) -> Result<
    Seq<char>,
    RenderFailure,
> {
    match result {
        Ok(text) => Ok(text@),
        Err(failure) => Err(failure),
    }
}

/// Settles what a render returns once both steps are known.
pub fn render_outcome(layout_registered: bool, expanded: Option<String>) -> (result: Result<
    String,
    RenderFailure,
>)
    ensures
        rendering(result) == outcome(layout_registered, expanded.deep_view()),
{
    if !layout_registered {
        return Err(RenderFailure::Registration);
    }
    match expanded {
        Some(text) => Ok(text),
        None => Err(RenderFailure::Render),
    }
}

/// Two renders of the same layout, content and data that both hand back a
/// text hand back the same text.
pub proof fn lemma_render_is_deterministic(
    layout: Seq<char>,
    content: Seq<char>,
    plants: Seq<Seq<char>>,
    first: Result<String, RenderFailure>,
    second: Result<String, RenderFailure>,
)
    requires
        may_end_in(layout, content, plants, rendering(first)),
        may_end_in(layout, content, plants, rendering(second)),
        first is Ok,
        second is Ok,
    ensures
        rendering(first) == rendering(second),
{
}

/// The helpers that a content is expanded with do not hold the upper-case
/// helper: it is registered only after the expansion.
pub proof fn lemma_uppercase_not_offered_to_content()
    ensures
        !builtin_helpers().contains(UPPERCASE_HELPER@),
{
    reveal_strlit("uppercase");
    assert(UPPERCASE_HELPER@.len() == 9);
    reveal_strlit("if");
    assert("if"@.len() == 2);
    reveal_strlit("unless");
    assert("unless"@.len() == 6);
    reveal_strlit("each");
    assert("each"@.len() == 4);
    reveal_strlit("with");
    assert("with"@.len() == 4);
    reveal_strlit("lookup");
    assert("lookup"@.len() == 6);
    reveal_strlit("raw");
    assert("raw"@.len() == 3);
    reveal_strlit("log");
    assert("log"@.len() == 3);
    reveal_strlit("eq");
    assert("eq"@.len() == 2);
    reveal_strlit("ne");
    assert("ne"@.len() == 2);
    reveal_strlit("gt");
    assert("gt"@.len() == 2);
    reveal_strlit("gte");
    assert("gte"@.len() == 3);
    reveal_strlit("lt");
    assert("lt"@.len() == 2);
    reveal_strlit("lte");
    assert("lte"@.len() == 3);
    reveal_strlit("and");
    assert("and"@.len() == 3);
    reveal_strlit("or");
    assert("or"@.len() == 2);
    reveal_strlit("not");
    assert("not"@.len() == 3);
    reveal_strlit("len");
    assert("len"@.len() == 3);
}

/// The pieces that the engine's parser makes of a text, or nothing where the
/// parser does not take the text.
pub fn template_pieces(text: &str) -> (pieces: Option<Vec<Piece>>)
    ensures
        pieces matches Some(found) ==> compiles(text@) && found@ == parsed(text@),
{
    match parse_template(text) {
        Ok(found) => Some(found),
        Err(_) => None,
    }
}

/// Renders a content template against the data, in a new engine in strict
/// mode, in which the layout is registered first and the upper-case helper
/// last, after the expansion.
///
/// The content is expanded by itself, not through the layout: a layout that
/// the engine accepts leaves no trace in the page. The engine follows the
/// inclusion of a partial without a bound on its depth, so the content is
/// parsed first, and one in which the parser finds a partial is refused and
/// is not expanded. Every other content that the parser takes is handed to
/// the engine, and what the engine makes of it is handed back.
///
/// A layout or a content that the engine's grammar does not accept makes the
/// render fail.
pub fn render_page(layout: &str, content: &str, data: &DataPayload) -> (result: Result<
    String,
    RenderFailure,
>)
    ensures
        may_end_in(layout@, content@, data@, rendering(result)),
        !compiles(layout@) ==> result == Err::<String, RenderFailure>(RenderFailure::Registration),
        !compiles(content@) || holds_partial(parsed(content@)) ==> result is Err,
{
    let mut registry = Handlebars::new();
    registry.set_strict_mode(true);
    let registered = register_template_string(&mut registry, LAYOUT_NAME, layout);
    if registered.is_err() {
        return render_outcome(false, None);
    }
    let expanded = match template_pieces(content) {
        None => None,
        Some(pieces) => {
            if has_partial(&pieces) {
                None
            } else {
                match render_template(&registry, content, PLANTS_FIELD, &data.plants) {
                    Ok(text) => Some(text),
                    Err(_) => None,
                }
            }
        },
    };
    proof {
        lemma_uppercase_not_offered_to_content();
    }
    register_uppercase_helper(&mut registry, UPPERCASE_HELPER);
    render_outcome(true, expanded)
}

/// Renders the list of the season's plantings.
///
/// A text that comes back is what the engine made of the list.
pub fn render() -> (result: Result<String, RenderFailure>)
    ensures
        may_end_in(LAYOUT@, PLANTINGS_LIST@, plant_names(), rendering(result)),
        result matches Ok(text) ==> !holds_partial(parsed(PLANTINGS_LIST@)) && expansion(
            no_templates(),
            builtin_helpers(),
            true,
            PLANTINGS_LIST@,
            PLANTS_FIELD@,
            plant_names(),
        ) == Some(text@),
{
    let data = plantings();
    render_page(LAYOUT, PLANTINGS_LIST, &data)
}

} // verus!
