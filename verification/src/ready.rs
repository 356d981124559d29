//! Readiness check: resolve an API key from the recognized configuration
//! sources, in priority order, and assess a model-listing outcome. Failure
//! to list models is deliberately not fatal: it only clears the flags of the
//! report.

use vstd::prelude::*;

use crate::text::{blank, has_substring, is_blank, str_contains};

verus! {

/// Configuration failures of the readiness check.
#[derive(Debug)]
pub enum ReadinessError {
    /// No key value was supplied at all.
    ApiKeyNotFound,
    /// The supplied key is blank.
    ApiKeyEmpty,
}

/// What the readiness check found: whether the models could be listed, and
/// whether the requested model appeared among them.
#[derive(Debug, PartialEq, Eq, Structural)]
pub struct ReadinessReport {
    pub models_listed: bool,
    pub model_available: bool,
}

/// The first key value that is present, in priority order.
pub open spec fn resolved_key(
    studio: Option<String>,
    gemini: Option<String>,
    google: Option<String>,
) -> Option<String> {
    if studio is Some {
        studio
    } else if gemini is Some {
        gemini
    } else {
        google
    }
}

/// Pick the API key among the three recognized sources, in priority order;
/// fail when none is present or the winning value is blank.
pub fn resolve_api_key(
    studio: Option<String>,
    gemini: Option<String>,
    google: Option<String>,
) -> (r: Result<String, ReadinessError>)
    ensures
        match r {
            Ok(k) => resolved_key(studio, gemini, google) matches Some(v) && k@ == v@ && !blank(
                v@,
            ),
            Err(e) => match e {
                ReadinessError::ApiKeyNotFound => resolved_key(studio, gemini, google) is None,
                ReadinessError::ApiKeyEmpty => resolved_key(studio, gemini, google) matches Some(v)
                    && blank(v@),
            },
        },
{
    let k = match studio {
        Some(v) => v,
        None => match gemini {
            Some(v) => v,
            None => match google {
                Some(v) => v,
                None => {
                    return Err(ReadinessError::ApiKeyNotFound);
                },
            },
        },
    };
    if is_blank(k.as_str()) {
        return Err(ReadinessError::ApiKeyEmpty);
    }
    Ok(k)
}

/// True exactly when some listed name has the requested model as a
/// substring.
pub fn model_available(models: &Vec<String>, model: &str) -> (r: bool)
    ensures
        r == (exists|i: int|
            0 <= i < models@.len() && has_substring((#[trigger] models@[i])@, model@)),
{
    let n = models.len();
    let mut i: usize = 0;
    while i < n
        invariant
            n == models@.len(),
            i <= n,
            forall|j: int| 0 <= j < i ==> !has_substring((#[trigger] models@[j])@, model@),
        decreases n - i,
    {
        if str_contains(models[i].as_str(), model) {
            return true;
        }
        i += 1;
    }
    false
}

/// Assess a model-listing outcome, `None` standing for a listing that
/// failed. Every outcome yields a report: a listing failure is downgraded
/// to cleared flags, never to an error.
pub fn readiness_report(listing: Option<&Vec<String>>, model: &str) -> (r: ReadinessReport)
    ensures
        r.models_listed == listing is Some,
        (listing matches Some(models) ==> r.model_available == (exists|i: int|
            0 <= i < models@.len() && has_substring((#[trigger] models@[i])@, model@))),
        listing is None ==> !r.model_available,
{
    match listing {
        Some(models) => ReadinessReport {
            models_listed: true,
            model_available: model_available(models, model),
        },
        None => ReadinessReport { models_listed: false, model_available: false },
    }
}

/// The model the readiness check speaks of: the configured one, or the
/// default.
pub fn effective_model<'a>(configured: Option<&'a str>) -> (r: &'a str)
    ensures
        match configured {
            Some(m) => r@ == m@,
            None => r@ == crate::DEFAULT_GEMINI_MODEL@,
        },
{
    match configured {
        Some(m) => m,
        None => crate::DEFAULT_GEMINI_MODEL,
    }
}

} // verus!
