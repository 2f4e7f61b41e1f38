//! Naming Vertex AI models.
use vstd::prelude::*;
use vstd::string::StringExecFns;

verus! {

/// The full resource name of a model.
#[derive(Debug)]
pub struct ModelString(pub String);

/// The resource name of a Google publisher model in a project and location.
pub open spec fn model_path(project_id: Seq<char>, location: Seq<char>, model: Seq<char>) -> Seq<
    char,
> {
    "projects/"@ + project_id + "/locations/"@ + location + "/publishers/google/models/"@ + model
}

/// The resource name of a Google publisher model in a project and location.
pub fn model_path_string(project_id: &str, location: &str, model: &str) -> (r: String)
    ensures
        r@ == model_path(project_id@, location@, model@),
{
    let mut s = String::from_str("projects/");
    s.append(project_id);
    s.append("/locations/");
    s.append(location);
    s.append("/publishers/google/models/");
    s.append(model);
    s
}

impl ModelString {
    /// The name of `model`, published by Google, as a project reaches it in a location.
    pub fn for_model(project_id: &str, location: &str, model: &str) -> (r: ModelString)
        ensures
            r.0@ == model_path(project_id@, location@, model@),
    {
        ModelString(model_path_string(project_id, location, model))
    }
}

} // verus!
