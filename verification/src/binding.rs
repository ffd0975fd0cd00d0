//! Decisions taken while acquiring a window: validation of the host
//! binding on document-embedded targets, and the logging default on
//! desktop targets.

use vstd::prelude::*;
use vstd::string::StringExecFns;
use crate::error::InitError;

verus! {

/// Validates the evidence gathered from a hosting document, in the order
/// the binding is resolved: window, document, element looked up by
/// `bind_id`, canvas cast, GPU presentation context. The first missing
/// piece decides the error; only a fully bound host passes.
pub fn check_host_binding(
    has_window: bool,
    has_document: bool,
    element_found: bool,
    is_canvas: bool,
    webgpu_available: bool,
    bind_id: &str,
) -> (r: Result<(), InitError>)
    ensures
        !has_window ==> r == Err::<(), InitError>(InitError::NoHostWindow),
        has_window && !has_document ==> r == Err::<(), InitError>(InitError::NoHostDocument),
        has_window && has_document && !element_found ==> (r matches Err(
            InitError::ElementNotFound(id),
        ) && id@ == bind_id@),
        has_window && has_document && element_found && !is_canvas ==> r == Err::<(), InitError>(
            InitError::NotACanvas,
        ),
        has_window && has_document && element_found && is_canvas && !webgpu_available ==> r
            == Err::<(), InitError>(InitError::WebgpuUnsupported),
        has_window && has_document && element_found && is_canvas && webgpu_available ==> r
            == Ok::<(), InitError>(()),
{
    if !has_window {
        Err(InitError::NoHostWindow)
    } else if !has_document {
        Err(InitError::NoHostDocument)
    } else if !element_found {
        Err(InitError::ElementNotFound(String::from_str(bind_id)))
    } else if !is_canvas {
        Err(InitError::NotACanvas)
    } else if !webgpu_available {
        Err(InitError::WebgpuUnsupported)
    } else {
        Ok(())
    }
}

/// The logging verbosity this bootstrap falls back to when the
/// conventional environment variable is unset.
pub fn default_log_filter() -> (r: String)
    ensures
        r@ == "info"@,
{
    String::from_str("info")
}

} // verus!
