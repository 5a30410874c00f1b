//! Command-line arguments of the capture tool.
use vstd::prelude::*;

verus! {

/// Arguments of the capture tool: the name of the input device to capture.
#[derive(Debug, Clone)]
pub struct Cli {
    pub device_id: String,
}

} // verus!
