//! The Vertex AI regions this library knows.
use vstd::prelude::*;

use crate::Region;

verus! {

/// `europe-west1`.
pub fn eu_west1() -> (r: Region)
    ensures
        r.0@ == "europe-west1"@,
        r.1@ == "https://europe-west1-aiplatform.googleapis.com:443"@,
{
    Region("europe-west1", "https://europe-west1-aiplatform.googleapis.com:443")
}

} // verus!
