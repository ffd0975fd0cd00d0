//! Flat error taxonomy of the bootstrap: every failure surfaces as one
//! descriptive string, produced by `message`.

use vstd::prelude::*;
use vstd::string::StringExecFns;

verus! {

/// Everything that can go wrong while bringing up the graphics context.
/// Variants that forward a lower-level description carry it as a `String`.
#[derive(Debug, Clone, PartialEq, Eq)]
pub enum InitError {
    /// The hosting environment offers no top-level window object.
    NoHostWindow,
    /// The hosting window has no document.
    NoHostDocument,
    /// No element with the given binding identifier exists in the document.
    ElementNotFound(String),
    /// The bound element is not a drawable canvas.
    NotACanvas,
    /// The host canvas does not expose a GPU presentation context.
    WebgpuUnsupported,
    /// Window construction failed; carries the underlying description.
    WindowCreation(String),
    /// Surface construction failed; carries the underlying description.
    SurfaceCreation(String),
    /// No adapter compatible with the surface was available.
    AdapterUnavailable,
    /// The driver rejected the device request; carries its description.
    DeviceRequest(String),
    /// The surface reported an empty list of supported formats.
    NoSupportedFormats,
}

/// The human-readable description of each error.
pub open spec fn message_spec(e: InitError) -> Seq<char> {
    match e {
        InitError::NoHostWindow => "window is None"@,
        InitError::NoHostDocument => "document is None"@,
        InitError::ElementNotFound(id) => "cannot find element "@ + id@,
        InitError::NotACanvas => "cannot cast to canvas"@,
        InitError::WebgpuUnsupported => "no webgpu"@,
        InitError::WindowCreation(d) => d@,
        InitError::SurfaceCreation(d) => d@,
        InitError::AdapterUnavailable => "unable to create adapter"@,
        InitError::DeviceRequest(d) => d@,
        InitError::NoSupportedFormats => "no supported formats"@,
    }
}

impl InitError {
    /// Renders the error as the one opaque string the caller sees.
    pub fn message(&self) -> (r: String)
        ensures
            r@ == message_spec(*self),
    {
        match self {
            InitError::NoHostWindow => String::from_str("window is None"),
            InitError::NoHostDocument => String::from_str("document is None"),
            InitError::ElementNotFound(id) => String::from_str("cannot find element ").concat(
                id.as_str(),
            ),
            InitError::NotACanvas => String::from_str("cannot cast to canvas"),
            InitError::WebgpuUnsupported => String::from_str("no webgpu"),
            InitError::WindowCreation(d) => d.clone(),
            InitError::SurfaceCreation(d) => d.clone(),
            InitError::AdapterUnavailable => String::from_str("unable to create adapter"),
            InitError::DeviceRequest(d) => d.clone(),
            InitError::NoSupportedFormats => String::from_str("no supported formats"),
        }
    }
}

} // verus!
