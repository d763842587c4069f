//! Requests of the export commands.

use vstd::prelude::*;

verus! {

pub struct ExportProcessVersionInput {
    pub version_id: String,
    pub target_path: String,
}

} // verus!
