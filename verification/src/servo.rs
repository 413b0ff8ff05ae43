//! Servo engine shell: Slint-owned texture composition.
use vstd::prelude::*;

use crate::render::{RenderedWebViewCapabilities, RenderedWebViewFrameTransport};

verus! {

/// Returns the planned Servo rendered-backend capabilities: external texture
/// frames preferred, CPU pixels supported as a fallback.
pub fn planned_rendered_capabilities() -> (r: RenderedWebViewCapabilities)
    ensures
        r.preferred_transport == RenderedWebViewFrameTransport::ExternalTexture,
        r.supports_cpu_pixels,
        r.supports_external_textures,
        r == RenderedWebViewCapabilities::spec_servo_texture(),
{
    RenderedWebViewCapabilities::servo_texture()
}

} // verus!
