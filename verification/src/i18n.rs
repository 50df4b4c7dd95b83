//! Injection-first localization contracts for user-facing diagnostics.
//!
//! All localized rendering goes through an injected [`Localizer`]. The
//! library provides [`NoOpLocalizer`] for deterministic fallback when no
//! localization backend is configured. Host applications own locale
//! negotiation and loader lifecycle.

pub mod localizer;

pub use localizer::{
    message_or_fallback, shown_text, LocalizationArgs, LocalizedDiagnostic, Localizer,
    NoOpLocalizer,
};
