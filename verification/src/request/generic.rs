//! The shape that the request builders of both APIs share.
use vstd::prelude::*;

use crate::client::vertex::ModelString;
use crate::value::Value;

verus! {

/// Builds a request to generate content.
pub trait GenerateContentBuilder {
    type SelfType;
    type Content: ContentBuilder;
    type GenerationConfig: GenerationConfigBuilder;

    fn model_string(self, ms: ModelString) -> Self::SelfType;

    fn model(self, project_id: &str, location: &str, model_name: &str) -> Self::SelfType;

    fn generation_config(self, gen_cfg: Self::GenerationConfig) -> Self::SelfType;

    fn with_content(self, contents: Self::Content) -> Self::SelfType;
}

/// Builds a message.
pub trait ContentBuilder {
    type SelfType;
}

/// Builds a generation configuration.
pub trait GenerationConfigBuilder {
    type SelfType;

    fn with_json_schema(self, schema: Value) -> Self::SelfType;
}

/// Builds the data of a part.
pub trait DataBuilder {
    type SelfType;
}

/// Builds the parts of a message.
pub trait PartBuilder {
    type SelfType;
    type Data: DataBuilder;
    type Blob;

    fn new(parts: Vec<Self::SelfType>) -> Self::SelfType;

    ///user role
    fn user() -> Self::SelfType;

    ///model role
    fn model() -> Self::SelfType;

    fn with_part(self, data: Self::Data) -> Self::SelfType;

    fn with_data(self, blob: Self::Blob) -> Self::SelfType;

    fn with_image(self, data: Vec<u8>, mime_type: String) -> Self::SelfType;
}

} // verus!
