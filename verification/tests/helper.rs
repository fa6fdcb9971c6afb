use wasm_handlebars::uppercase;
use wasm_handlebars::uppercase_parameter;

#[test]
fn uppercase_raises_every_letter() {
    assert_eq!(uppercase("peas"), "PEAS");
    assert_eq!(uppercase("soy beans"), "SOY BEANS");
    assert_eq!(uppercase("Green Beans 2020"), "GREEN BEANS 2020");
}

#[test]
fn uppercase_keeps_what_has_no_upper_case() {
    assert_eq!(uppercase(""), "");
    assert_eq!(uppercase("CORN"), "CORN");
    assert_eq!(uppercase("1, 2; 3!"), "1, 2; 3!");
}

#[test]
fn uppercase_follows_unicode() {
    assert_eq!(uppercase("straße"), "STRASSE");
    assert_eq!(uppercase("élan"), "ÉLAN");
}

#[test]
fn uppercase_parameter_raises_a_text() {
    assert_eq!(uppercase_parameter(Some("peas")).unwrap(), "PEAS");
    assert_eq!(uppercase_parameter(Some("")).unwrap(), "");
    assert_eq!(uppercase_parameter(Some("a<b")).unwrap(), "A<B");
}

#[test]
fn uppercase_parameter_fails_for_no_text() {
    assert!(uppercase_parameter(None).is_err());
}
