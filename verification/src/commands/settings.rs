//! Requests of the settings commands.

use vstd::prelude::*;

verus! {

pub struct SaveApiKeyInput {
    pub api_key: String,
}

} // verus!
