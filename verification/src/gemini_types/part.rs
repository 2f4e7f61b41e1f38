//! The contents a part can hold.
use vstd::prelude::*;

use super::Blob;

verus! {

/// What a part holds.
#[derive(Debug)]
pub enum Data {
    Text(String),
    InlineData(Blob),
}

} // verus!
