//! The data that moves through the pipeline.

use vstd::prelude::*;
use secrecy::ExposeSecret;

verus! {

/// `serde_json::Value`, carried along as it came.
#[verifier::external_type_specification]
#[verifier::external_body]
pub struct ExJsonValue(serde_json::Value);

/// An API key. It wraps a `secrecy::SecretString`, which keeps the text out
/// of logs and wipes it when it is dropped; nothing but [`ApiKey::expose`]
/// reads it.
#[verifier::external_body]
#[derive(Debug)]
pub struct ApiKey {
    secret: secrecy::SecretString,
}

/// The text that an API key holds.
pub uninterp spec fn key_text(key: ApiKey) -> Seq<char>;

/// Calls `SecretString::from`, which boxes the given text.
#[verifier::external_body]
fn sealed(text: String) -> (key: ApiKey)
    ensures
        key_text(key) == text@,
{
    ApiKey { secret: secrecy::SecretString::from(text) }
}

/// Calls `ExposeSecret::expose_secret`, which hands out the text inside.
#[verifier::external_body]
fn unsealed(key: &ApiKey) -> (text: &str)
    ensures
        text@ == key_text(*key),
{
    key.secret.expose_secret()
}

/// Calls `Clone::clone` of the secret string, which copies the text.
#[verifier::external_body]
fn resealed(key: &ApiKey) -> (copy: ApiKey)
    ensures
        key_text(copy) == key_text(*key),
{
    ApiKey { secret: key.secret.clone() }
}

impl ApiKey {
    /// A key that holds `text`.
    pub fn new(text: String) -> (key: ApiKey)
        ensures
            key_text(key) == text@,
    {
        sealed(text)
    }

    /// The text of the key, for the one place that sends it.
    pub fn expose(&self) -> (text: &str)
        ensures
            text@ == key_text(*self),
    {
        unsealed(self)
    }
}

impl Clone for ApiKey {
    /// A key that holds the same text.
    fn clone(&self) -> (copy: ApiKey)
        ensures
            key_text(copy) == key_text(*self),
    {
        resealed(self)
    }
}

/// The services that can generate text and embeddings.
#[derive(Debug, Clone, Copy, PartialEq, Eq, Structural)]
pub enum AIProvider {
    OpenAI,
    Ollama,
    Groq,
}

/// The settings of the provider in use. One value is live at a time; it is
/// replaced as a whole, never edited in place.
#[derive(Debug, Clone)]
pub struct AIConfig {
    pub provider: AIProvider,
    pub model_name: String,
    pub embedding_model: String,
    pub api_key: ApiKey,
    pub embedding_dim: usize,
    pub base_url: Option<String>,
}

/// A named thing found in a text.
#[derive(Debug, Clone)]
pub struct GraphEntity {
    pub name: String,
    pub category: String,
}

/// A link between two entities, which it names.
#[derive(Debug, Clone)]
pub struct GraphRelation {
    pub source: String,
    pub target: String,
    pub relation_type: String,
}

/// What was extracted from one chunk.
#[derive(Debug, Clone)]
pub struct KnowledgeExtraction {
    pub entities: Vec<GraphEntity>,
    pub relations: Vec<GraphRelation>,
}

/// A request to ingest a text directly.
#[derive(Debug)]
pub struct IngestionRequest {
    pub content: String,
    pub metadata: serde_json::Value,
}

/// The answer to an ingestion request.
#[derive(Debug, Clone)]
pub struct IngestionResponse {
    pub id: String,
    pub status: String,
}

/// A node of the graph as it is drawn.
#[derive(Debug)]
pub struct VisNode {
    pub id: String,
    pub label: String,
    pub group: String,
}

/// An edge of the graph as it is drawn.
#[derive(Debug)]
pub struct VisEdge {
    pub from: String,
    pub to: String,
    pub label: String,
}

/// The whole graph as it is drawn.
#[derive(Debug)]
pub struct GraphDataResponse {
    pub nodes: Vec<VisNode>,
    pub edges: Vec<VisEdge>,
}

/// A question.
#[derive(Debug)]
pub struct ChatRequest {
    pub message: String,
}

/// One piece of evidence behind an answer, as shown beside it.
#[derive(Debug)]
pub struct SourceReference {
    /// The number by which the answer cites this source, counted from 1.
    pub index: usize,
    pub chunk_id: String,
    /// The start of the content, for display.
    pub short_content: String,
    /// How relevant the source is, in hundredths: 100 stands for 1.0.
    pub relevance_percent: u8,
    /// The entities of the graph that the chunk is connected to.
    pub concepts: Vec<String>,
}

/// An answer with its evidence.
#[derive(Debug)]
pub struct ChatResponse {
    pub response: String,
    pub sources: Vec<SourceReference>,
}

/// A chunk found for a question, with the entities connected to it.
#[derive(Debug, Clone)]
pub struct HybridContext {
    pub chunk_id: String,
    pub content: String,
    pub connected_entities: Vec<String>,
}

/// A relation that was inferred rather than read, with the reason given.
#[derive(Debug, Clone)]
pub struct InferredRelation {
    pub source: String,
    pub target: String,
    pub relation: String,
    pub reasoning: String,
}

/// The relations that an inference produced.
#[derive(Debug, Clone)]
pub struct InferenceResult {
    pub new_relations: Vec<InferredRelation>,
}

/// A request to replace the configuration.
#[derive(Debug)]
pub struct AdminConfigPayload {
    pub config: AIConfig,
    pub force_reset: bool,
}

/// The key of a configuration that names none: the empty text.
pub fn default_api_key() -> (key: ApiKey)
    ensures
        key_text(key) == Seq::<char>::empty(),
{
    ApiKey::new(String::new())
}

} // verus!
