//! CEF engine shell: windowless paint-buffer composition.
use vstd::prelude::*;

use crate::render::{RenderedWebViewCapabilities, RenderedWebViewFrameTransport};

verus! {

/// Returns the planned CEF rendered-backend capabilities: CPU pixel frames
/// preferred, external textures supported.
pub fn planned_rendered_capabilities() -> (r: RenderedWebViewCapabilities)
    ensures
        r.preferred_transport == RenderedWebViewFrameTransport::CpuPixels,
        r.supports_cpu_pixels,
        r.supports_external_textures,
        r == RenderedWebViewCapabilities::spec_cef_offscreen(),
{
    RenderedWebViewCapabilities::cef_offscreen()
}

} // verus!
