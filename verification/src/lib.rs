//! Client library for the Gemini generative-language HTTP API.
//!
//! The library validates configuration, shapes every request (URL and JSON
//! body) and interprets every response (status classification, model-name
//! normalization); the surrounding application supplies the HTTP transport.

use vstd::prelude::*;

pub mod body;
pub mod client;
pub mod ready;
pub mod text;

pub use client::GeminiClient;

use crate::text::{has_prefix, str_has_prefix};

verus! {

/// Default model, served through the AI Studio endpoint.
pub const DEFAULT_GEMINI_MODEL: &'static str = "gemini-3-flash-preview";

/// AI Studio base URL.
pub const GEMINI_AI_STUDIO_URL: &'static str = "https://generativelanguage.googleapis.com/v1";

/// Named Gemini models.
pub const GEMINI_2_5_FLASH: &'static str = "gemini-2.5-flash";

pub const GEMINI_2_5_FLASH_LITE: &'static str = "gemini-2.5-flash-lite";

pub const GEMINI_3_FLASH_PREVIEW: &'static str = "gemini-3-flash-preview";

pub const GEMINI_3_0_FLASH: &'static str = "gemini-3.0-flash";

pub const GEMINI_3_0_PRO: &'static str = "gemini-3.0-pro";

pub const GEMINI_3_1_FLASH: &'static str = "gemini-3.1-flash";

pub const GEMINI_3_1_PRO: &'static str = "gemini-3.1-pro";

/// True exactly when the identifier names a Gemini model. Every named model
/// constant carries the `gemini-` prefix, so the prefix test decides.
pub fn is_gemini_model(model: &str) -> (r: bool)
    ensures
        r == has_prefix(model@, "gemini-"@),
{
    str_has_prefix(model, "gemini-")
}

} // verus!
