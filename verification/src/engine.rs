//! The template engine, as far as this library relies on it.
//!
//! Nothing in this file is proved. Each item states what the library takes on
//! trust from the `handlebars` crate, built with its default features, and from
//! `serde_json`, which carries the data to it.
//!
//! The engine's parser gives up on a text where the stack runs short, so
//! whether the engine succeeds is not a matter of the text alone. The
//! contracts therefore say what holds of a success and promise none.

use crate::helper::uppercase_parameter;
use crate::partial::holds_partial;
use crate::partial::Piece;
use handlebars::Context;
use handlebars::Handlebars;
use handlebars::Helper;
use handlebars::HelperResult;
use handlebars::Output;
use handlebars::RenderContext;
use handlebars::RenderError;
use handlebars::template::Template;
use handlebars::template::TemplateElement;
use handlebars::RenderErrorReason;
use handlebars::TemplateError;
use vstd::prelude::*;

verus! {

/// The engine's registry of templates and helpers, `handlebars::Handlebars`.
#[verifier::external_type_specification]
#[verifier::external_body]
pub struct ExHandlebars<'reg>(Handlebars<'reg>);

/// The error of `Handlebars::register_template_string`.
#[verifier::external_type_specification]
#[verifier::external_body]
pub struct ExTemplateError(TemplateError);

/// The error of `Handlebars::render_template`.
#[verifier::external_type_specification]
#[verifier::external_body]
pub struct ExRenderError(RenderError);

/// A compiled template of the engine, `handlebars::template::Template`.
#[verifier::external_type_specification]
#[verifier::external_body]
pub struct ExTemplate(Template);

/// The templates that a registry holds: each registered name with the source
/// text that was compiled under it.
pub uninterp spec fn registered_templates(registry: Handlebars<'_>) -> Map<Seq<char>, Seq<char>>;

/// The names under which a registry holds a helper. Beside the engine's own
/// helpers the library registers one helper only, and under a name that is not
/// taken, so that a name stands for the same helper in every registry.
pub uninterp spec fn registered_helpers(registry: Handlebars<'_>) -> Set<Seq<char>>;

/// Whether a registry is in strict mode, in which a value that the data does
/// not hold is an error.
pub uninterp spec fn strict_mode(registry: Handlebars<'_>) -> bool;

/// Whether the engine's grammar accepts a text as a template. A text that
/// `Handlebars::register_template_string` takes is one.
pub uninterp spec fn compiles(source: Seq<char>) -> bool;

/// The pieces that the engine's parser, `Template::compile`, makes of a text
/// that it accepts.
pub uninterp spec fn parsed(source: Seq<char>) -> Seq<Piece>;

/// The text that `Handlebars::render_template` gives where it succeeds, for a
/// template text, in a registry with these templates and helpers and in this
/// mode, and for the data `{ field: items }`; `None` where it cannot succeed.
/// The other settings of the registry are those of a new one: the library
/// changes none of them.
pub uninterp spec fn expansion(
    templates: Map<Seq<char>, Seq<char>>,
    helpers: Set<Seq<char>>,
    strict: bool,
    template: Seq<char>,
    field: Seq<char>,
    items: Seq<Seq<char>>,
) -> Option<Seq<char>>;

/// A registry that holds no template.
pub open spec fn no_templates() -> Map<Seq<char>, Seq<char>> {
    Map::empty()
}

/// The helpers that the engine registers by itself in every new registry.
pub open spec fn builtin_helpers() -> Set<Seq<char>> {
    set![
        "if"@, "unless"@, "each"@, "with"@, "lookup"@, "raw"@, "log"@, "eq"@, "ne"@, "gt"@,
        "gte"@, "lt"@, "lte"@, "and"@, "or"@, "not"@, "len"@,
    ]
}

/// The text of a rendering that succeeded.
pub open spec fn rendered_text(rendered: Result<String, RenderError>) -> Option<Seq<char>> {
    match rendered {
        Ok(text) => Some(text@),
        Err(_) => None,
    }
}

/// `Handlebars::new` gives a registry without templates, in which the engine
/// has registered its own helpers and no other, and which is not in strict
/// mode.
pub assume_specification<'reg>[ Handlebars::<'reg>::new ]() -> (registry: Handlebars<'reg>)
    ensures
        registered_templates(registry) == no_templates(),
        registered_helpers(registry) == builtin_helpers(),
        !strict_mode(registry),
;

/// `Handlebars::set_strict_mode` sets the mode and leaves the templates and
/// the helpers as they are.
pub assume_specification<'reg>[ Handlebars::<'reg>::set_strict_mode ](
    registry: &mut Handlebars<'reg>,
    enabled: bool,
)
    ensures
        strict_mode(*final(registry)) == enabled,
        registered_templates(*final(registry)) == registered_templates(*old(registry)),
        registered_helpers(*final(registry)) == registered_helpers(*old(registry)),
;

/// `Handlebars::register_template_string` compiles the source. It succeeds
/// only on a text that the grammar accepts, and then stores the template
/// under the name, in place of an earlier one of that name; where it fails,
/// the templates are as they were. The helpers and the mode are not touched.
#[verifier::external_body]
pub(crate) fn register_template_string(
    registry: &mut Handlebars<'_>,
    name: &str,
    source: &str,
) -> (registered: Result<(), TemplateError>)
    ensures
        registered is Ok ==> compiles(source@),
        registered is Ok ==> registered_templates(*final(registry)) == registered_templates(
            *old(registry),
        ).insert(name@, source@),
        registered is Err ==> registered_templates(*final(registry)) == registered_templates(
            *old(registry),
        ),
        registered_helpers(*final(registry)) == registered_helpers(*old(registry)),
        strict_mode(*final(registry)) == strict_mode(*old(registry)),
{
    registry.register_template_string(name, source)
}

/// Hands out the elements of a compiled template, the field
/// `Template::elements`, each as the piece that stands for its variant: a
/// partial tag or block as a request for a partial, a helper with the
/// templates of its block and of its `else`, a decorator with the template of
/// its block, anything else as plain.
#[verifier::external_body]
pub(crate) fn pieces_of(template: &Template) -> (pieces: Vec<Piece>) {
    let inner = |t: &Option<Template>| t.as_ref().map_or(Vec::new(), pieces_of);
    template.elements.iter().map(|element| match element {
        TemplateElement::PartialExpression(_) | TemplateElement::PartialBlock(_) => Piece::Partial,
        TemplateElement::Expression(h)
        | TemplateElement::HtmlExpression(h)
        | TemplateElement::HelperBlock(h) => Piece::Block(inner(&h.template), inner(&h.inverse)),
        TemplateElement::DecoratorExpression(d) | TemplateElement::DecoratorBlock(d) => {
            Piece::Block(inner(&d.template), Vec::new())
        },
        _ => Piece::Other,
    }).collect()
}

/// `Template::compile` parses a text. It succeeds only on a text that the
/// grammar accepts, and the template that it then gives is made of the pieces
/// that the parser makes of the text.
#[verifier::external_body]
pub(crate) fn parse_template(source: &str) -> (pieces: Result<Vec<Piece>, TemplateError>)
    ensures
        pieces matches Ok(found) ==> compiles(source@) && found@ == parsed(source@),
{
    Template::compile(source).map(|template| pieces_of(&template))
}

/// `Handlebars::render_template` compiles the template text and expands it
/// against the data `{ field: items }`, with the templates and helpers of the
/// registry at hand and in its mode. It succeeds only on a text that the
/// grammar accepts, and the text that it then gives is the expansion.
///
/// The engine follows the inclusion of a partial to any depth, and an inline
/// partial that includes itself makes it recurse until the stack is
/// exhausted: a text that the parser finds a partial in is not handed to it.
/// The engine looks up a registered template only where it expands a partial,
/// so what is handed to it expands as it would in a registry without
/// templates.
#[verifier::external_body]
pub(crate) fn render_template(
    registry: &Handlebars<'_>,
    template: &str,
    field: &str,
    items: &Vec<String>,
) -> (rendered: Result<String, RenderError>)
    requires
        !holds_partial(parsed(template@)),
    ensures
        rendered is Ok ==> compiles(template@),
        rendered is Ok ==> rendered_text(rendered) == expansion(
            registered_templates(*registry),
            registered_helpers(*registry),
            strict_mode(*registry),
            template@,
            field@,
            items.deep_view(),
        ),
        rendered is Ok ==> rendered_text(rendered) == expansion(
            no_templates(),
            registered_helpers(*registry),
            strict_mode(*registry),
            template@,
            field@,
            items.deep_view(),
        ),
{
    let data = serde_json::Value::from_iter([(field, items.clone())]);
    registry.render_template(template, &data)
}

/// The engine's error for a helper that lacks a parameter,
/// `RenderErrorReason::ParamNotFoundForIndex`, as a `RenderError`.
#[verifier::external_body]
pub(crate) fn missing_parameter(helper: &'static str, index: usize) -> (error: RenderError) {
    RenderErrorReason::ParamNotFoundForIndex(helper, index).into()
}

/// `Handlebars::register_helper` stores a helper under the name, here one that
/// writes what `uppercase_parameter` makes of its first parameter. The
/// templates and the mode are not touched.
///
/// The engine would put the helper in place of one that has the name already:
/// the name is to be a new one.
#[verifier::external_body]
pub(crate) fn register_uppercase_helper(registry: &mut Handlebars<'_>, name: &str)
    requires
        !registered_helpers(*old(registry)).contains(name@),
    ensures
        registered_helpers(*final(registry)) == registered_helpers(*old(registry)).insert(name@),
        registered_templates(*final(registry)) == registered_templates(*old(registry)),
        strict_mode(*final(registry)) == strict_mode(*old(registry)),
{
    registry.register_helper(
        name,
        Box::new(
            |h: &Helper, _: &Handlebars, _: &Context, _: &mut RenderContext, out: &mut dyn Output|
                -> HelperResult {
                let text = uppercase_parameter(h.param(0).and_then(|v| v.value().as_str()))?;
                Ok(out.write(&text)?)
            },
        ),
    );
}

} // verus!
