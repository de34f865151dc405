//! The provider of embeddings and generated text, as far as it is decided
//! here: which configuration is live, where requests go, how an answer of
//! the model is freed of its wrapping, and how a failure is named.

use vstd::prelude::*;
use crate::errors::AppError;
use crate::models::{AIConfig, AIProvider, ApiKey, key_text};
use crate::text::{
    from_chars, span_ends_with, span_starts_with, to_chars, trimmed, trimmed_span,
    without_prefixes, without_suffixes,
};

verus! {

/// Where requests go when the configuration names no address.
pub open spec fn default_base_url() -> Seq<char> {
    "https://api.openai.com/v1"@
}

/// The fence that opens a block of JSON in an answer.
pub open spec fn json_fence() -> Seq<char> {
    "```json"@
}

/// The fence that opens or closes a block of any kind.
pub open spec fn fence() -> Seq<char> {
    "```"@
}

/// An answer of the model without the white space around it and without the
/// fences that wrap it: first those that open a block of JSON, then those
/// that open any block, then those that close one. What is inside the fences
/// stays as it is, white space included.
pub open spec fn cleaned_json(raw: Seq<char>) -> Seq<char> {
    without_suffixes(
        without_prefixes(without_prefixes(trimmed(raw), json_fence()), fence()),
        fence(),
    )
}

/// The dimension of the embeddings of the model that a service starts with.
pub const INITIAL_EMBEDDING_DIM: usize = 1536;

impl AIConfig {
    /// The configuration that a service starts with, around the key it is
    /// given: the provider's own address, its model `gpt-4o` for text and
    /// `text-embedding-3-small` for embeddings.
    pub fn initial(api_key: ApiKey) -> (config: AIConfig)
        ensures
            config.provider == AIProvider::OpenAI,
            config.model_name@ == "gpt-4o"@,
            config.embedding_model@ == "text-embedding-3-small"@,
            config.api_key == api_key,
            config.embedding_dim == INITIAL_EMBEDDING_DIM,
            config.base_url is None,
    {
        AIConfig {
            provider: AIProvider::OpenAI,
            model_name: String::from_str("gpt-4o"),
            embedding_model: String::from_str("text-embedding-3-small"),
            api_key,
            embedding_dim: INITIAL_EMBEDDING_DIM,
            base_url: None,
        }
    }

    /// The address that requests go to.
    pub open spec fn endpoint(&self) -> Seq<char> {
        match self.base_url {
            Some(url) => url@,
            None => default_base_url(),
        }
    }

    /// The address that requests go to: the one that the configuration
    /// names, or else the provider's own.
    pub fn base_url_or_default(&self) -> (url: &str)
        ensures
            url@ == self.endpoint(),
    {
        match &self.base_url {
            Some(url) => url.as_str(),
            None => "https://api.openai.com/v1",
        }
    }

    /// The value of the header that authorizes a request, if the
    /// configuration holds a key.
    pub open spec fn authorization(&self) -> Option<Seq<char>> {
        if key_text(self.api_key).len() == 0 {
            None
        } else {
            Some("Bearer "@ + key_text(self.api_key))
        }
    }

    /// The value of the header that authorizes a request: none where the key
    /// is empty.
    pub fn authorization_header(&self) -> (header: Option<String>)
        ensures
            header is Some <==> self.authorization() is Some,
            header matches Some(value) ==> value@ == self.authorization()->0,
    {
        let key = self.api_key.expose();
        if key.is_empty() {
            None
        } else {
            Some(String::from_str("Bearer ").concat(key))
        }
    }
}

/// The provider in use, with the configuration that is live.
pub struct RigAIService {
    config: AIConfig,
}

impl RigAIService {
    /// The configuration that is live.
    pub closed spec fn config(&self) -> AIConfig {
        self.config
    }

    /// How the service `after` and the answer follow from putting `config` in
    /// place: the answer is `Ok` and `config` is live.
    pub open spec fn updates_to(
        &self,
        config: AIConfig,
        after: &Self,
        answer: Result<(), AppError>,
    ) -> bool {
        answer is Ok && after.config() == config
    }

    /// A service with `config` live.
    pub fn new(config: AIConfig) -> (service: RigAIService)
        ensures
            service.config() == config,
    {
        RigAIService { config }
    }

    /// Puts `config` in place of the live configuration, as a whole.
    pub fn update_config(&mut self, config: AIConfig) -> (answer: Result<(), AppError>)
        ensures
            old(self).updates_to(config, final(self), answer),
    {
        self.config = config;
        Ok(())
    }

    /// The configuration that is live.
    pub fn get_config(&self) -> (config: &AIConfig)
        ensures
            *config == self.config(),
    {
        &self.config
    }

    /// Frees an answer of the model of its wrapping, so that what is left can
    /// be read as JSON.
    pub fn clean_json_response(raw: &str) -> (cleaned: String)
        ensures
            cleaned@ == cleaned_json(raw@),
    {
        let chars = to_chars(raw);
        let json_fence = to_chars("```json");
        let fence = to_chars("```");
        proof {
            assert(chars@.subrange(0, chars@.len() as int) =~= chars@);
        }
        let (mut a, mut b) = trimmed_span(&chars, 0, chars.len());
        a = skip_prefixes(&chars, a, b, &json_fence);
        a = skip_prefixes(&chars, a, b, &fence);
        b = skip_suffixes(&chars, a, b, &fence);
        from_chars(&chars, a, b)
    }

    /// Whether a provider's answer holds an embedding: `documents` is the
    /// number of documents it answers for, `vectors` the number of
    /// embeddings of the first of them.
    pub fn check_embedding_answer(documents: usize, vectors: usize) -> (answer: Result<
        (),
        AppError,
    >)
        ensures
            answer is Ok <==> documents > 0 && vectors > 0,
            documents == 0 ==> (answer matches Err(AppError::AIError(detail)) && detail@
                == "No embedding returned from provider"@),
            documents > 0 && vectors == 0 ==> (answer matches Err(AppError::AIError(detail))
                && detail@ == "Document generated no embeddings"@),
    {
        if documents == 0 {
            Err(AppError::AIError(String::from_str("No embedding returned from provider")))
        } else if vectors == 0 {
            Err(AppError::AIError(String::from_str("Document generated no embeddings")))
        } else {
            Ok(())
        }
    }
}

/// Moves `from` behind every `pattern` that `chars[from..to]` begins with.
fn skip_prefixes(chars: &Vec<char>, from: usize, to: usize, pattern: &Vec<char>) -> (start: usize)
    requires
        from <= to <= chars.len(),
    ensures
        from <= start <= to,
        chars@.subrange(start as int, to as int) == without_prefixes(
            chars@.subrange(from as int, to as int),
            pattern@,
        ),
{
    let n = pattern.len();
    let mut a: usize = from;
    if n == 0 {
        return a;
    }
    while span_starts_with(chars, a, to, pattern)
        invariant
            from <= a <= to <= chars.len(),
            n == pattern.len(),
            n > 0,
            without_prefixes(chars@.subrange(from as int, to as int), pattern@)
                == without_prefixes(chars@.subrange(a as int, to as int), pattern@),
        decreases to - a,
    {
        proof {
            assert(chars@.subrange(a as int, to as int).skip(n as int) =~= chars@.subrange(
                a + n,
                to as int,
            ));
        }
        a += n;
    }
    a
}

/// Moves `to` in front of every `pattern` that `chars[from..to]` ends with.
fn skip_suffixes(chars: &Vec<char>, from: usize, to: usize, pattern: &Vec<char>) -> (end: usize)
    requires
        from <= to <= chars.len(),
    ensures
        from <= end <= to,
        chars@.subrange(from as int, end as int) == without_suffixes(
            chars@.subrange(from as int, to as int),
            pattern@,
        ),
{
    let n = pattern.len();
    let mut b: usize = to;
    if n == 0 {
        return b;
    }
    while span_ends_with(chars, from, b, pattern)
        invariant
            from <= b <= to <= chars.len(),
            n == pattern.len(),
            n > 0,
            without_suffixes(chars@.subrange(from as int, to as int), pattern@)
                == without_suffixes(chars@.subrange(from as int, b as int), pattern@),
        decreases b - from,
    {
        proof {
            let s = chars@.subrange(from as int, b as int);
            assert(s.take(s.len() - n) =~= chars@.subrange(from as int, b - n));
        }
        b -= n;
    }
    b
}

impl AppError {
    /// The failure of a request for an embedding.
    pub fn embedding_failed(detail: &str) -> (error: AppError)
        ensures
            error matches AppError::AIError(text) && text@ == "Embedding failed: "@ + detail@,
    {
        AppError::AIError(String::from_str("Embedding failed: ").concat(detail))
    }

    /// The failure of a request to extract knowledge.
    pub fn extraction_failed(detail: &str) -> (error: AppError)
        ensures
            error matches AppError::AIError(text) && text@ == "Extraction failed: "@ + detail@,
    {
        AppError::AIError(String::from_str("Extraction failed: ").concat(detail))
    }

    /// The failure of a request to generate an answer.
    pub fn generation_failed(detail: &str) -> (error: AppError)
        ensures
            error matches AppError::AIError(text) && text@ == "Error generando respuesta LLM: "@
                + detail@,
    {
        AppError::AIError(String::from_str("Error generando respuesta LLM: ").concat(detail))
    }

    /// An answer of the model that could not be read as JSON: `cleaned` is
    /// the answer without its wrapping, `detail` what the reader made of it.
    pub fn unreadable_extraction(detail: &str, cleaned: &str) -> (error: AppError)
        ensures
            error matches AppError::ParseError(text) && text@
                == "Failed to parse JSON from LLM: "@ + detail@ + " - Raw: "@ + cleaned@,
    {
        AppError::ParseError(
            String::from_str("Failed to parse JSON from LLM: ").concat(detail).concat(
                " - Raw: ",
            ).concat(cleaned),
        )
    }
}

} // verus!
