//! Settings of the webhook that is told about each request served.
use vstd::prelude::*;
use std::collections::HashMap;

verus! {

/// Where the webhook is posted, with an optional body and headers.
pub struct NotifierConfig {
    pub url: String,
    pub body: Option<String>,
    pub headers: Option<HashMap<String, String>>,
}

} // verus!
