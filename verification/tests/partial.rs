use wasm_handlebars::assets::LAYOUT;
use wasm_handlebars::assets::PLANTINGS_LIST;
use wasm_handlebars::has_partial;
use wasm_handlebars::template_pieces;
use wasm_handlebars::Piece;

fn finds_partial(text: &str) -> bool {
    has_partial(&template_pieces(text).unwrap())
}

#[test]
fn has_partial_finds_none_among_no_pieces() {
    assert!(!has_partial(&Vec::new()));
    assert!(!has_partial(&vec![Piece::Other]));
    assert!(!has_partial(&vec![Piece::Other, Piece::Block(Vec::new(), Vec::new()), Piece::Other]));
}

#[test]
fn has_partial_finds_a_request_at_the_top() {
    assert!(has_partial(&vec![Piece::Partial]));
    assert!(has_partial(&vec![Piece::Other, Piece::Other, Piece::Partial]));
    assert!(has_partial(&vec![Piece::Partial, Piece::Other]));
}

#[test]
fn has_partial_finds_a_request_inside_a_block() {
    assert!(has_partial(&vec![Piece::Block(vec![Piece::Partial], Vec::new())]));
    assert!(has_partial(&vec![Piece::Block(Vec::new(), vec![Piece::Other, Piece::Partial])]));
    let deep = Piece::Block(
        vec![Piece::Other, Piece::Block(Vec::new(), vec![Piece::Block(vec![Piece::Partial], Vec::new())])],
        vec![Piece::Other],
    );
    assert!(has_partial(&vec![Piece::Other, deep]));
    let plain = Piece::Block(
        vec![Piece::Other, Piece::Block(Vec::new(), vec![Piece::Block(vec![Piece::Other], Vec::new())])],
        vec![Piece::Other],
    );
    assert!(!has_partial(&vec![Piece::Other, plain]));
}

#[test]
fn template_pieces_gives_nothing_for_a_text_that_does_not_parse() {
    assert_eq!(template_pieces("{{#each"), None);
    assert_eq!(template_pieces("{{#if a}}{{/each}}"), None);
    assert_eq!(template_pieces("{{> }}"), None);
}

#[test]
fn template_pieces_follows_the_parse() {
    assert_eq!(template_pieces(""), Some(Vec::new()));
    assert_eq!(template_pieces("text"), Some(vec![Piece::Other]));
    assert_eq!(template_pieces("{{> layout_page}}"), Some(vec![Piece::Partial]));
    assert_eq!(template_pieces("{{#> layout_page}}in{{/layout_page}}"), Some(vec![Piece::Partial]));
    assert_eq!(
        template_pieces("{{plants}}"),
        Some(vec![Piece::Block(Vec::new(), Vec::new())])
    );
    assert_eq!(
        template_pieces("{{#if plants}}a{{> item}}{{else}}b{{/if}}"),
        Some(vec![Piece::Block(vec![Piece::Other, Piece::Partial], vec![Piece::Other])])
    );
}

#[test]
fn the_parse_finds_an_inclusion() {
    assert!(finds_partial("{{> layout_page}}"));
    assert!(finds_partial("{{>layout_page}}"));
    assert!(finds_partial("<p>{{> item this}}</p>"));
    assert!(finds_partial("{{#if plants}}{{> item}}{{/if}}"));
    assert!(finds_partial("{{#if plants}}a{{else}}{{> item}}{{/if}}"));
    assert!(finds_partial("{{#if plants}}a{{else if x}}{{> item}}{{/if}}"));
    assert!(finds_partial("{{#*inline \"a\"}}{{> b}}{{/inline}}"));
    assert!(finds_partial("{{#> layout_page}}inside{{/layout_page}}"));
    assert!(finds_partial("{{~#> item}}x{{/item}}"));
    assert!(finds_partial("{{ ~ > item}}"));
    assert!(finds_partial(LAYOUT));
}

#[test]
fn the_parse_passes_what_only_looks_like_an_inclusion() {
    assert!(!finds_partial(""));
    assert!(!finds_partial(PLANTINGS_LIST));
    assert!(!finds_partial("{{#if (gt n 1)}}>{{/if}}"));
    assert!(!finds_partial("{{! {{> x }}"));
    assert!(!finds_partial("{{!-- {{> x}} }} {{> y}} --}}"));
    assert!(!finds_partial("\\{{> x}}"));
    assert!(!finds_partial("{{{{raw}}}} {{> x}} {{{{/raw}}}}"));
    assert!(!finds_partial("{{lookup this \"{{> x}}\"}}"));
    assert!(!finds_partial("{{x.[{{> y]}}"));
    assert!(!finds_partial("{{x [\"]}} {{> p}}\"]}}"));
}

#[test]
fn the_parse_finds_an_inclusion_behind_a_key() {
    assert!(finds_partial("{{#unless @[\"]}}{{>layout_page}}\"]}}{{/unless}}"));
    assert!(finds_partial("{{#unless @1.[\"]}}{{>layout_page}}\"]}}{{/unless}}"));
    assert!(finds_partial("{{1.[\"]}}{{>p}}\"]}}"));
    assert!(finds_partial("{{x.[\"]}} {{> p}} {{y \"c\"}}"));
    assert!(finds_partial("{{x1.[\"]}} {{> p}} {{y \"c\"}}"));
    assert!(finds_partial("\\\\{{> x}}"));
}
