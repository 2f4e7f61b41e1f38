//! The request and response types of the Gemini API (`google.ai.generativelanguage.v1`) that this library builds and reads.
use vstd::prelude::*;

use crate::value::Value;

pub mod part;

verus! {

/// Raw media bytes with their MIME type.
#[derive(Debug)]
pub struct Blob {
    pub mime_type: String,
    pub data: Vec<u8>,
}

/// One part of a message.
#[derive(Debug)]
pub struct Part {
    pub data: Option<part::Data>,
}

/// A message: a role and its parts.
#[derive(Debug)]
pub struct Content {
    /// `user` or `model`.
    pub role: String,
    pub parts: Vec<Part>,
}

/// How the model generates its answer.
#[derive(Debug)]
pub struct GenerationConfig {
    pub candidate_count: Option<i32>,
    pub stop_sequences: Vec<String>,
    pub max_output_tokens: Option<i32>,
    /// The JSON schema the response must follow, with its properties in the given order.
    pub response_json_schema_ordered: Option<Value>,
}

/// A request to generate content.
#[derive(Debug)]
pub struct GenerateContentRequest {
    /// The resource name of the model.
    pub model: String,
    pub contents: Vec<Content>,
    pub generation_config: Option<GenerationConfig>,
}

/// One answer of the model.
#[derive(Debug)]
pub struct Candidate {
    pub content: Option<Content>,
}

/// The answers to a request to generate content.
#[derive(Debug)]
pub struct GenerateContentResponse {
    pub candidates: Vec<Candidate>,
}

impl Default for Content {
    /// A message with no role and no parts.
    fn default() -> (r: Self)
        ensures
            r.role@ == Seq::<char>::empty(),
            r.parts@ == Seq::<Part>::empty(),
    {
        Content { role: String::new(), parts: Vec::new() }
    }
}

impl Default for GenerationConfig {
    /// A configuration that sets nothing.
    fn default() -> (r: Self)
        ensures
            r.candidate_count is None,
            r.stop_sequences@ == Seq::<String>::empty(),
            r.max_output_tokens is None,
            r.response_json_schema_ordered is None,
    {
        GenerationConfig {
            candidate_count: None,
            stop_sequences: Vec::new(),
            max_output_tokens: None,
            response_json_schema_ordered: None,
        }
    }
}

impl Default for GenerateContentRequest {
    /// A request with no model, no contents and no configuration.
    fn default() -> (r: Self)
        ensures
            r.model@ == Seq::<char>::empty(),
            r.contents@ == Seq::<Content>::empty(),
            r.generation_config is None,
    {
        GenerateContentRequest {
            model: String::new(),
            contents: Vec::new(),
            generation_config: None,
        }
    }
}

} // verus!
