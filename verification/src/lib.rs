//! Renders the list of a season's plantings through the Handlebars template
//! engine.
//!
//! [`render`] registers the built-in layout with a new engine in strict mode,
//! expands the built-in list against the names of the plants, registers the
//! `uppercase` helper and hands back the text. [`render_page`] does the same
//! with a layout, a content and data of the caller's.
//!
//! A content is expanded by itself. The engine follows partials without a
//! bound on their depth, so a content is parsed first, by the engine's own
//! parser, and refused where the parser finds a partial in it.
//!
//! The engine is the `handlebars` crate. What the library relies on of it is
//! stated in [`engine`], what it relies on of `str::to_uppercase` in
//! [`helper`]; both are taken on trust, and everything else is verified.

pub mod assets;
pub mod engine;
pub mod helper;
pub mod partial;
pub mod render;

pub use assets::plantings;
pub use assets::DataPayload;
pub use helper::uppercase;
pub use helper::uppercase_parameter;
pub use partial::has_partial;
pub use partial::Piece;
pub use render::render;
pub use render::render_outcome;
pub use render::render_page;
pub use render::template_pieces;
pub use render::RenderFailure;
