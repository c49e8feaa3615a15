//! The state of one external tool.
use vstd::prelude::*;

verus! {

/// Whether a tool was found, where, and which version it reported.
#[derive(Debug, Clone)]
pub struct ToolStatus {
    pub name: String,
    pub binary: String,
    pub found: bool,
    pub version: Option<String>,
    pub path: Option<String>,
    pub required: bool,
}

} // verus!
