//! Gemini API client: configuration, request shaping and response
//! interpretation. The surrounding application supplies the HTTP transport
//! and hands every response back as plain values (status code and decoded
//! body), so everything here is verified.

use vstd::prelude::*;
use vstd::string::{StrSliceExecFns, StringExecFns};

use crate::body::{
    generate_body_spec, generate_request_body, generate_vertex_body_spec,
    generate_vertex_request_body,
};

use crate::text::{
    blank, find_from, has_prefix, has_substring, is_blank, lemma_find_from_complete,
    lemma_find_from_sound, lemma_strip_trailing_slashes_clean, match_at, str_eq, str_find_from,
    str_has_prefix, str_strip_prefix, strip_prefix_spec, strip_trailing_slash_str,
    strip_trailing_slashes,
};

verus! {

/// Errors of the client, each carrying only plain values. `Http` holds the
/// response status code of an otherwise unclassified failure; `Json` the
/// message of a body that did not decode; `Api` is reserved for
/// provider-reported error payloads.
#[derive(Debug)]
pub enum GeminiError {
    Http(u16),
    Json(String),
    Api(String),
    InvalidApiKey,
    ModelNotFound(String),
}

/// Response envelope of the model list endpoint.
#[derive(Debug)]
pub struct ModelListResponse {
    pub models: Vec<ModelInfo>,
}

/// Metadata record describing one callable model.
#[derive(Debug)]
pub struct ModelInfo {
    pub name: String,
    pub display_name: Option<String>,
    pub description: Option<String>,
    pub supported_generation_methods: Option<Vec<String>>,
}

/// Gemini API client handle: an API key and a base URL, immutable after
/// construction.
#[derive(Clone)]
pub struct GeminiClient {
    pub api_key: String,
    pub base_url: String,
}

/// An HTTP status code that counts as success.
pub open spec fn is_success_status(status: u16) -> bool {
    200 <= status < 300
}

/// The error a listing call reports for a non-success status.
pub open spec fn list_error_matches(e: GeminiError, status: u16) -> bool {
    if status == 401 {
        e matches GeminiError::InvalidApiKey
    } else {
        e == GeminiError::Http(status)
    }
}

/// The error a model-addressed call reports for a non-success status:
/// 404 carries the identifier exactly as the caller gave it.
pub open spec fn lookup_error_matches(e: GeminiError, status: u16, requested: Seq<char>) -> bool {
    if status == 404 {
        e matches GeminiError::ModelNotFound(m) && m@ == requested
    } else if status == 401 {
        e matches GeminiError::InvalidApiKey
    } else {
        e == GeminiError::Http(status)
    }
}

/// The host of a URL: the authority component between the scheme separator
/// and the next slash (the whole remainder when no slash follows; empty when
/// the URL has no scheme separator).
pub open spec fn host_of(url: Seq<char>) -> Seq<char> {
    match find_from(url, "://"@, 0) {
        None => Seq::empty(),
        Some(i) => match find_from(url, "/"@, i + 3) {
            None => url.subrange(i + 3, url.len() as int),
            Some(j) => url.subrange(i + 3, j),
        },
    }
}

/// Extract the host of a URL.
pub fn host_str(url: &str) -> (r: String)
    ensures
        r@ == host_of(url@),
{
    proof {
        reveal_strlit("://");
        reveal_strlit("/");
    }
    let n = url.unicode_len();
    match str_find_from(url, "://", 0) {
        None => String::new(),
        Some(i) => {
            proof {
                lemma_find_from_sound(url@, "://"@, 0);
            }
            let start = i + 3;
            match str_find_from(url, "/", start) {
                None => {
                    let sub = url.substring_char(start, n);
                    sub.to_owned()
                },
                Some(j) => {
                    proof {
                        lemma_find_from_sound(url@, "/"@, start as int);
                    }
                    let sub = url.substring_char(start, j);
                    sub.to_owned()
                },
            }
        },
    }
}

/// A model identifier normalized to carry the `models/` resource prefix.
pub open spec fn model_resource_spec(name: Seq<char>) -> Seq<char> {
    if has_prefix(name, "models/"@) {
        name
    } else {
        "models/"@ + name
    }
}

/// Normalize a model identifier to its full resource path.
pub fn model_resource(model_name: &str) -> (r: String)
    ensures
        r@ == model_resource_spec(model_name@),
{
    if str_has_prefix(model_name, "models/") {
        model_name.to_owned()
    } else {
        let mut r = String::from_str("models/");
        r.append(model_name);
        r
    }
}

/// Normalization is insensitive to the resource prefix: an identifier given
/// bare and the same identifier given with the prefix already attached name
/// the same resource path.
pub proof fn lemma_model_resource_prefix_insensitive(name: Seq<char>)
    requires
        !has_prefix(name, "models/"@),
    ensures
        model_resource_spec("models/"@ + name) == model_resource_spec(name),
{
    let p = "models/"@;
    assert((p + name).subrange(0, p.len() as int) =~= p);
}

/// The Vertex AI generation URL targets the streaming endpoint, whatever
/// the base URL, model identifier and key.
pub proof fn lemma_vertex_url_targets_stream(base: Seq<char>, model: Seq<char>, key: Seq<char>)
    ensures
        has_substring(
            base + "/"@ + model + ":streamGenerateContent?key="@ + key,
            ":streamGenerateContent"@,
        ),
{
    reveal_strlit("/");
    reveal_strlit(":streamGenerateContent?key=");
    reveal_strlit(":streamGenerateContent");
    let u = base + "/"@ + model + ":streamGenerateContent?key="@ + key;
    let pat = ":streamGenerateContent"@;
    let off = (base.len() + 1 + model.len()) as int;
    assert(u.subrange(off, off + pat.len() as int) =~= pat);
    assert(match_at(u, pat, off));
}

/// The AI Studio generation URL targets the non-streaming endpoint,
/// whatever the base URL, model identifier and key.
pub proof fn lemma_generate_url_targets_generate(base: Seq<char>, model: Seq<char>, key: Seq<char>)
    ensures
        has_substring(
            base + "/"@ + model_resource_spec(model) + ":generateContent?key="@ + key,
            ":generateContent"@,
        ),
{
    reveal_strlit("/");
    reveal_strlit(":generateContent?key=");
    reveal_strlit(":generateContent");
    let u = base + "/"@ + model_resource_spec(model) + ":generateContent?key="@ + key;
    let pat = ":generateContent"@;
    let off = (base.len() + 1 + model_resource_spec(model).len()) as int;
    assert(u.subrange(off, off + pat.len() as int) =~= pat);
    assert(match_at(u, pat, off));
}

/// Vertex AI endpoint base URL.
pub const VERTEX_AI_BASE_URL: &'static str =
    "https://aiplatform.googleapis.com/v1/publishers/google/models";

/// The two fixed endpoints classify correctly: the Vertex AI base URL's
/// host is the Vertex host, the AI Studio base URL's host is not.
pub proof fn lemma_endpoint_families_distinct()
    ensures
        host_of(VERTEX_AI_BASE_URL@) == "aiplatform.googleapis.com"@,
        host_of(crate::GEMINI_AI_STUDIO_URL@) != "aiplatform.googleapis.com"@,
{
    reveal_strlit("https://aiplatform.googleapis.com/v1/publishers/google/models");
    reveal_strlit("https://generativelanguage.googleapis.com/v1");
    reveal_strlit("aiplatform.googleapis.com");
    reveal_strlit("://");
    reveal_strlit("/");
    let pat = "aiplatform.googleapis.com"@;
    let sep = "://"@;
    let sl = "/"@;
    let vertex = VERTEX_AI_BASE_URL@;
    let studio = crate::GEMINI_AI_STUDIO_URL@;

    assert(sep =~= vertex.subrange(5, 8));
    assert forall|k: int| 0 <= k < 5 implies !match_at(vertex, sep, k) by {
        if match_at(vertex, sep, k) {
            assert(vertex.subrange(k, k + 3)[0] == vertex[k]);
            assert(vertex[k] == ':');
            assert(false);
        }
    }
    lemma_find_from_complete(vertex, sep, 0, 5);
    assert(sl =~= vertex.subrange(33, 34));
    assert forall|k: int| 8 <= k < 33 implies !match_at(vertex, sl, k) by {
        if match_at(vertex, sl, k) {
            assert(vertex.subrange(k, k + 1)[0] == vertex[k]);
            assert(vertex[k] == '/');
            assert(false);
        }
    }
    lemma_find_from_complete(vertex, sl, 8, 33);
    assert(host_of(vertex) == vertex.subrange(8, 33));
    assert(vertex.subrange(8, 33) =~= pat);

    assert(sep =~= studio.subrange(5, 8));
    assert forall|k: int| 0 <= k < 5 implies !match_at(studio, sep, k) by {
        if match_at(studio, sep, k) {
            assert(studio.subrange(k, k + 3)[0] == studio[k]);
            assert(studio[k] == ':');
            assert(false);
        }
    }
    lemma_find_from_complete(studio, sep, 0, 5);
    assert(sl =~= studio.subrange(41, 42));
    assert forall|k: int| 8 <= k < 41 implies !match_at(studio, sl, k) by {
        if match_at(studio, sl, k) {
            assert(studio.subrange(k, k + 1)[0] == studio[k]);
            assert(studio[k] == '/');
            assert(false);
        }
    }
    lemma_find_from_complete(studio, sl, 8, 41);
    assert(host_of(studio) == studio.subrange(8, 41));
    assert(host_of(studio).len() == 33);
    assert(pat.len() == 25);
}

impl GeminiClient {
    /// The key is never blank and the base URL never ends in a slash.
    pub open spec fn wf(&self) -> bool {
        &&& !blank(self.api_key@)
        &&& (self.base_url@.len() == 0 || self.base_url@[self.base_url@.len() - 1] != '/')
    }

    /// Create a client bound to the AI Studio endpoint; a blank key is
    /// rejected.
    pub fn new(api_key: &str) -> (r: Result<GeminiClient, GeminiError>)
        ensures
            match r {
                Ok(c) => !blank(api_key@) && c.api_key@ == api_key@
                    && c.base_url@ == crate::GEMINI_AI_STUDIO_URL@ && c.wf(),
                Err(e) => blank(api_key@) && e == GeminiError::InvalidApiKey,
            },
    {
        if is_blank(api_key) {
            return Err(GeminiError::InvalidApiKey);
        }
        proof {
            reveal_strlit("https://generativelanguage.googleapis.com/v1");
        }
        Ok(GeminiClient {
            api_key: api_key.to_owned(),
            base_url: crate::GEMINI_AI_STUDIO_URL.to_owned(),
        })
    }

    /// Create a client with the given base URL, stripped of any trailing
    /// slashes; the same key validation applies.
    pub fn with_base_url(api_key: &str, base_url: &str) -> (r: Result<GeminiClient, GeminiError>)
        ensures
            match r {
                Ok(c) => !blank(api_key@) && c.api_key@ == api_key@
                    && c.base_url@ == strip_trailing_slashes(base_url@) && c.wf(),
                Err(e) => blank(api_key@) && e == GeminiError::InvalidApiKey,
            },
    {
        let mut c = match Self::new(api_key) {
            Ok(c) => c,
            Err(e) => return Err(e),
        };
        c.base_url = strip_trailing_slash_str(base_url);
        proof {
            lemma_strip_trailing_slashes_clean(base_url@);
        }
        Ok(c)
    }

    /// True exactly when the base URL's host is the Vertex AI endpoint
    /// host.
    pub fn is_vertex_ai(&self) -> (r: bool)
        ensures
            r == (host_of(self.base_url@) == "aiplatform.googleapis.com"@),
    {
        let host = host_str(self.base_url.as_str());
        str_eq(host.as_str(), "aiplatform.googleapis.com")
    }

    /// URL of the model list endpoint.
    pub fn list_models_url(&self) -> (r: String)
        ensures
            r@ == self.base_url@ + "/models?key="@ + self.api_key@,
    {
        let mut url = self.base_url.clone();
        url.append("/models?key=");
        url.append(self.api_key.as_str());
        url
    }

    /// URL of the metadata endpoint for one model; the identifier is
    /// normalized to its resource path first.
    pub fn get_model_url(&self, model_name: &str) -> (r: String)
        ensures
            r@ == self.base_url@ + "/"@ + model_resource_spec(model_name@) + "?key="@
                + self.api_key@,
    {
        let resource = model_resource(model_name);
        let mut url = self.base_url.clone();
        url.append("/");
        url.append(resource.as_str());
        url.append("?key=");
        url.append(self.api_key.as_str());
        url
    }

    /// URL of the non-streaming generation endpoint; the identifier is
    /// normalized to its resource path first.
    pub fn generate_url(&self, model: &str) -> (r: String)
        ensures
            r@ == self.base_url@ + "/"@ + model_resource_spec(model@) + ":generateContent?key="@
                + self.api_key@,
    {
        let resource = model_resource(model);
        let mut url = self.base_url.clone();
        url.append("/");
        url.append(resource.as_str());
        url.append(":generateContent?key=");
        url.append(self.api_key.as_str());
        url
    }

    /// URL of the streaming generation endpoint of the Vertex AI family;
    /// the identifier is used verbatim.
    pub fn generate_vertex_url(&self, model: &str) -> (r: String)
        ensures
            r@ == self.base_url@ + "/"@ + model@ + ":streamGenerateContent?key="@ + self.api_key@,
    {
        let mut url = self.base_url.clone();
        url.append("/");
        url.append(model);
        url.append(":streamGenerateContent?key=");
        url.append(self.api_key.as_str());
        url
    }

    /// Choose the request shape of a generation call — URL and JSON body —
    /// by endpoint family: the Vertex AI family takes the streaming
    /// endpoint, the identifier verbatim and a role field; the AI Studio
    /// family takes the non-streaming endpoint, the normalized identifier
    /// and no role field.
    pub fn generate_request(&self, model: &str, prompt: &str) -> (r: (String, String))
        ensures
            ({
                let vertex = host_of(self.base_url@) == "aiplatform.googleapis.com"@;
                &&& vertex ==> r.0@ == self.base_url@ + "/"@ + model@
                    + ":streamGenerateContent?key="@ + self.api_key@ && r.1@
                    == generate_vertex_body_spec(prompt@)
                &&& !vertex ==> r.0@ == self.base_url@ + "/"@ + model_resource_spec(model@)
                    + ":generateContent?key="@ + self.api_key@ && r.1@ == generate_body_spec(
                    prompt@,
                )
            }),
    {
        if self.is_vertex_ai() {
            (self.generate_vertex_url(model), generate_vertex_request_body(prompt))
        } else {
            (self.generate_url(model), generate_request_body(prompt))
        }
    }
}

/// Outcome of a model list call, from the response status and the decoded
/// body: on success the model names with any `models/` prefix stripped, a 401
/// reports an invalid key, any other failing status an HTTP error, and an
/// undecodable body a JSON error.
pub fn list_models_result(status: u16, body: Result<ModelListResponse, String>) -> (r: Result<
    Vec<String>,
    GeminiError,
>)
    ensures
        match r {
            Ok(names) => is_success_status(status) && (body matches Ok(resp)
                && names@.len() == resp.models@.len() && (forall|i: int|
                0 <= i < names@.len() ==> (#[trigger] names@[i])@ == strip_prefix_spec(
                    resp.models@[i].name@,
                    "models/"@,
                ))),
            Err(e) => if !is_success_status(status) {
                list_error_matches(e, status)
            } else {
                body matches Err(msg) && e matches GeminiError::Json(m) && m@ == msg@
            },
        },
{
    if !(200 <= status && status < 300) {
        if status == 401 {
            return Err(GeminiError::InvalidApiKey);
        }
        return Err(GeminiError::Http(status));
    }
    let resp = match body {
        Ok(resp) => resp,
        Err(msg) => return Err(GeminiError::Json(msg)),
    };
    let n = resp.models.len();
    let mut names: Vec<String> = Vec::new();
    let mut i: usize = 0;
    while i < n
        invariant
            n == resp.models@.len(),
            i <= n,
            names@.len() == i,
            forall|j: int|
                0 <= j < i ==> (#[trigger] names@[j])@ == strip_prefix_spec(
                    resp.models@[j].name@,
                    "models/"@,
                ),
        decreases n - i,
    {
        let m = &resp.models[i];
        names.push(str_strip_prefix(m.name.as_str(), "models/"));
        i += 1;
    }
    Ok(names)
}

/// Outcome of a model metadata call, from the response status and the
/// decoded body: a 404 reports the identifier exactly as requested.
pub fn get_model_result(status: u16, model_name: &str, body: Result<ModelInfo, String>) -> (r:
    Result<ModelInfo, GeminiError>)
    ensures
        match r {
            Ok(info) => is_success_status(status) && (body matches Ok(b) && info == b),
            Err(e) => if !is_success_status(status) {
                lookup_error_matches(e, status, model_name@)
            } else {
                body matches Err(msg) && e matches GeminiError::Json(m) && m@ == msg@
            },
        },
{
    if !(200 <= status && status < 300) {
        if status == 404 {
            return Err(GeminiError::ModelNotFound(model_name.to_owned()));
        }
        if status == 401 {
            return Err(GeminiError::InvalidApiKey);
        }
        return Err(GeminiError::Http(status));
    }
    match body {
        Ok(info) => Ok(info),
        Err(msg) => Err(GeminiError::Json(msg)),
    }
}

/// Outcome of a generation call, from the response status and the raw body
/// text, which is returned unparsed on success.
pub fn generate_result(status: u16, model: &str, body_text: String) -> (r: Result<
    String,
    GeminiError,
>)
    ensures
        match r {
            Ok(t) => is_success_status(status) && t == body_text,
            Err(e) => !is_success_status(status) && lookup_error_matches(e, status, model@),
        },
{
    if !(200 <= status && status < 300) {
        if status == 404 {
            return Err(GeminiError::ModelNotFound(model.to_owned()));
        }
        if status == 401 {
            return Err(GeminiError::InvalidApiKey);
        }
        return Err(GeminiError::Http(status));
    }
    Ok(body_text)
}

} // verus!
