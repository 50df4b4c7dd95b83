//! Tests for the localization contracts.

use zamburak::i18n::{
    message_or_fallback, LocalizationArgs, LocalizedDiagnostic, Localizer, NoOpLocalizer,
};

#[test]
fn noop_localizer_lookup_returns_none() {
    let localizer = NoOpLocalizer;
    assert!(localizer.lookup("any-key", None).is_none());
}

#[test]
fn noop_localizer_message_returns_fallback() {
    let localizer = NoOpLocalizer;
    let result = localizer.message("missing-key", None, "fallback text");
    assert_eq!(result, "fallback text");
}

#[test]
fn noop_localizer_ignores_interpolation_arguments() {
    let localizer = NoOpLocalizer;
    let mut args = LocalizationArgs::new();
    args.insert("tool", "send_email".to_owned());
    assert!(localizer.lookup("any-key", Some(&args)).is_none());
    assert_eq!(localizer.message("any-key", Some(&args), ""), "");
}

#[test]
fn localizer_trait_is_object_safe() {
    let localizer: &dyn Localizer = &NoOpLocalizer;
    assert_eq!(localizer.message("key", None, "fb"), "fb");
}

struct TestDiag;

impl LocalizedDiagnostic for TestDiag {
    fn render_localized(&self, localizer: &dyn Localizer) -> String {
        localizer.message("test-id", None, "test-fallback")
    }
}

#[test]
fn localized_diagnostic_renders_through_localizer() {
    let diag = TestDiag;
    let localizer = NoOpLocalizer;
    assert_eq!(diag.render_localized(&localizer), "test-fallback");
}

struct DenyLocalizer;

impl Localizer for DenyLocalizer {
    fn lookup(&self, id: &str, args: Option<&LocalizationArgs<'_>>) -> Option<String> {
        if id != "deny" {
            return None;
        }
        let tool = args.and_then(|args| args.get("tool"));
        Some(match tool {
            Some(tool) => format!("refused: {tool}"),
            None => "refused".to_owned(),
        })
    }
}

#[test]
fn message_prefers_the_translation_over_the_fallback() {
    let localizer = DenyLocalizer;
    assert_eq!(localizer.message("deny", None, "Access denied"), "refused");
    assert_eq!(localizer.message("allow", None, "Access granted"), "Access granted");

    let mut args = LocalizationArgs::new();
    args.insert("tool", "send_email".to_owned());
    assert_eq!(
        localizer.message("deny", Some(&args), "Access denied"),
        "refused: send_email"
    );
}

#[test]
fn message_or_fallback_keeps_an_empty_translation() {
    assert_eq!(message_or_fallback(Some(String::new()), "fallback"), "");
    assert_eq!(message_or_fallback(Some("shown".to_owned()), "fallback"), "shown");
    assert_eq!(message_or_fallback(None, "fallback"), "fallback");
}
