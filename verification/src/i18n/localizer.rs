//! Core localizer trait and no-op fallback implementation.

use std::collections::HashMap;

use vstd::prelude::*;

verus! {

/// Arguments for message interpolation.
///
/// Keys are argument names; values are formatted string representations.
pub type LocalizationArgs<'a> = HashMap<&'a str, String>;

/// Injection-first localizer contract.
///
/// All user-facing localized text must be rendered through an
/// implementation of this trait. The host application owns the concrete
/// implementation and its lifecycle: the library reads no process locale
/// and keeps no process-wide localization state.
pub trait Localizer: Send + Sync {
    /// Look up a message by identifier with optional interpolation
    /// arguments.
    ///
    /// Returns `None` when no translation is available for the requested
    /// identifier.
    fn lookup(&self, id: &str, args: Option<&LocalizationArgs<'_>>) -> Option<String>;

    /// Look up a message, falling back to caller-provided text when lookup
    /// returns `None`: the result is the text to show for an answer that
    /// [`Localizer::lookup`] gives to the same request.
    fn message(&self, id: &str, args: Option<&LocalizationArgs<'_>>, fallback: &str) -> (message:
        String)
        ensures
            exists|answer: Option<String>| #[trigger]
                call_ensures(Self::lookup, (self, id, args), answer) && message@ == shown_text(
                    answer,
                    fallback@,
                ),
    {
        message_or_fallback(self.lookup(id, args), fallback)
    }
}

/// The text to show for a message that was looked up: its translation where
/// there is one, the caller-provided fallback otherwise.
pub open spec fn shown_text(translated: Option<String>, fallback: Seq<char>) -> Seq<char> {
    match translated {
        Some(text) => text@,
        None => fallback,
    }
}

/// The text to show for a message: its translation where there is one, the
/// caller-provided fallback otherwise.
pub fn message_or_fallback(translated: Option<String>, fallback: &str) -> (message: String)
    ensures
        message@ == shown_text(translated, fallback@),
{
    match translated {
        Some(text) => text,
        None => fallback.to_owned(),
    }
}

/// No-op localizer that always returns caller-provided fallback text.
///
/// Used when no localization backend is configured. Provides deterministic
/// behaviour in tests and minimal deployments.
pub struct NoOpLocalizer;

impl Localizer for NoOpLocalizer {
    fn lookup(&self, _id: &str, _args: Option<&LocalizationArgs<'_>>) -> (message: Option<String>)
        ensures
            message is None,
    {
        None
    }

    fn message(&self, id: &str, args: Option<&LocalizationArgs<'_>>, fallback: &str) -> (message:
        String)
        ensures
            message@ == fallback@,
    {
        message_or_fallback(self.lookup(id, args), fallback)
    }
}

/// Trait for types that can render a localized user-facing diagnostic.
///
/// Implementations produce localized text through an injected localizer
/// rather than embedding locale decisions in their stable English output.
pub trait LocalizedDiagnostic {
    /// Render this diagnostic using the provided localizer.
    fn render_localized(&self, localizer: &dyn Localizer) -> String;
}

} // verus!
