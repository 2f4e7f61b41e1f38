//! The request and response types of the Vertex AI (`google.cloud.aiplatform.v1`) that this library builds and reads.
use vstd::prelude::*;

use crate::value::Value;

pub mod part;

verus! {

/// Raw media bytes with their MIME type.
#[derive(Debug)]
pub struct Blob {
    pub mime_type: String,
    pub data: Vec<u8>,
}

/// One part of a message.
#[derive(Debug)]
pub struct Part {
    pub data: Option<part::Data>,
    /// Whether the part is a thought of the model.
    pub thought: bool,
    /// An opaque signature of the thought, to hand back in later requests.
    pub thought_signature: Vec<u8>,
}

/// A message: a role and its parts.
#[derive(Debug)]
pub struct Content {
    /// `user` or `model`.
    pub role: String,
    pub parts: Vec<Part>,
}

/// An OpenAPI schema for structured output.
#[derive(Debug)]
pub struct Schema {
    /// The number of the `Type` (`STRING` 1, `NUMBER` 2, `INTEGER` 3, `BOOLEAN` 4, `ARRAY` 5,
    /// `OBJECT` 6).
    pub type_: i32,
    pub format: String,
    pub title: String,
    pub description: String,
    pub nullable: bool,
    pub enum_values: Vec<String>,
    pub required: Vec<String>,
}

/// How the model generates its answer.
#[derive(Debug)]
pub struct GenerationConfig {
    pub candidate_count: Option<i32>,
    pub stop_sequences: Vec<String>,
    pub max_output_tokens: Option<i32>,
    /// The MIME type of the response, such as `application/json`.
    pub response_mime_type: String,
    /// The JSON schema the response must follow.
    pub response_json_schema: Option<Value>,
    /// The OpenAPI schema the response must follow.
    pub response_schema: Option<Schema>,
}

/// A request to generate content.
#[derive(Debug)]
pub struct GenerateContentRequest {
    /// The resource name of the model.
    pub model: String,
    pub contents: Vec<Content>,
    /// Instructions for the model that stand apart from the conversation.
    pub system_instruction: Option<Content>,
    pub generation_config: Option<GenerationConfig>,
}

/// One answer of the model.
#[derive(Debug)]
pub struct Candidate {
    pub content: Option<Content>,
}

/// The answers to a request to generate content.
#[derive(Debug)]
pub struct GenerateContentResponse {
    pub candidates: Vec<Candidate>,
}

impl Default for Content {
    /// A message with no role and no parts.
    fn default() -> (r: Self)
        ensures
            r.role@ == Seq::<char>::empty(),
            r.parts@ == Seq::<Part>::empty(),
    {
        Content { role: String::new(), parts: Vec::new() }
    }
}

impl Default for GenerationConfig {
    /// A configuration that sets nothing.
    fn default() -> (r: Self)
        ensures
            r.candidate_count is None,
            r.stop_sequences@ == Seq::<String>::empty(),
            r.max_output_tokens is None,
            r.response_mime_type@ == Seq::<char>::empty(),
            r.response_json_schema is None,
            r.response_schema is None,
    {
        GenerationConfig {
            candidate_count: None,
            stop_sequences: Vec::new(),
            max_output_tokens: None,
            response_mime_type: String::new(),
            response_json_schema: None,
            response_schema: None,
        }
    }
}

impl Default for GenerateContentRequest {
    /// A request with no model, no contents and no configuration.
    fn default() -> (r: Self)
        ensures
            r.model@ == Seq::<char>::empty(),
            r.contents@ == Seq::<Content>::empty(),
            r.system_instruction is None,
            r.generation_config is None,
    {
        GenerateContentRequest {
            model: String::new(),
            contents: Vec::new(),
            system_instruction: None,
            generation_config: None,
        }
    }
}

} // verus!
