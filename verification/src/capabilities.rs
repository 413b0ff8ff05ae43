//! Static backend capability descriptions.
use vstd::prelude::*;

verus! {

/// Composition strategy used by a backend.
#[derive(Debug, Clone, Copy, PartialEq, Eq, Structural)]
pub enum CompositionTier {
    /// No native webview backend is available.
    Unsupported,
    /// Native child view or child window hosted inside the parent window.
    NativeChildView,
    /// Platform compositor integration, where available.
    PlatformVisualHosting,
    /// Web content rendered into a Slint-owned texture.
    SlintOwnedTexture,
}

/// Operating system family the native backend is built for.
#[derive(Debug, Clone, Copy, PartialEq, Eq, Structural)]
pub enum NativePlatform {
    /// Windows (WebView2).
    Windows,
    /// macOS (WKWebView).
    MacOs,
    /// Linux (WebKitGTK).
    Linux,
    /// Any other target.
    Other,
}

/// Runtime and backend capabilities visible to application code.
#[derive(Debug, Clone, PartialEq, Eq)]
pub struct WebViewCapabilities {
    /// Backend implementation name.
    pub backend_name: &'static str,
    /// Platform engine name.
    pub engine_name: &'static str,
    /// Composition strategy.
    pub composition_tier: CompositionTier,
    /// Whether transparent webviews are supported.
    pub supports_transparency: bool,
    /// Whether the backend supports normal Slint clipping semantics.
    pub supports_clipping: bool,
    /// Whether Slint overlays can reliably appear above the webview.
    pub supports_overlays_above_webview: bool,
    /// Whether JavaScript evaluation is supported.
    pub supports_script_eval: bool,
    /// Whether web-to-host messaging is supported.
    pub supports_host_messaging: bool,
    /// Whether custom user agents are supported.
    pub supports_custom_user_agent: bool,
    /// Whether downloads can be intercepted.
    pub supports_download_interception: bool,
    /// Whether permission prompts can be intercepted.
    pub supports_permission_interception: bool,
    /// Whether the platform may require an external runtime package.
    pub requires_external_runtime: bool,
}

/// Name of the platform webview engine used on `platform`.
pub open spec fn engine_name_spec(platform: NativePlatform) -> Seq<char> {
    match platform {
        NativePlatform::Windows => "WebView2"@,
        NativePlatform::MacOs => "WKWebView"@,
        NativePlatform::Linux => "WebKitGTK"@,
        NativePlatform::Other => "native-webview"@,
    }
}

/// Name of the platform webview engine used on `platform`.
pub fn platform_engine_name(platform: NativePlatform) -> (r: &'static str)
    ensures
        r@ == engine_name_spec(platform),
{
    match platform {
        NativePlatform::Windows => "WebView2",
        NativePlatform::MacOs => "WKWebView",
        NativePlatform::Linux => "WebKitGTK",
        NativePlatform::Other => "native-webview",
    }
}

/// Whether the platform webview engine is shipped as a separately installed
/// runtime (WebView2 on Windows, WebKitGTK on Linux).
pub fn platform_requires_external_runtime(platform: NativePlatform) -> (r: bool)
    ensures
        r == (platform is Windows || platform is Linux),
{
    match platform {
        NativePlatform::Windows => true,
        NativePlatform::Linux => true,
        NativePlatform::MacOs => false,
        NativePlatform::Other => false,
    }
}

impl WebViewCapabilities {
    /// Capabilities for the Wry native-child backend on `platform`.
    pub fn wry_native(platform: NativePlatform) -> (r: Self)
        ensures
            r.backend_name@ == "wry"@,
            r.engine_name@ == engine_name_spec(platform),
            r.composition_tier == CompositionTier::NativeChildView,
            !r.supports_transparency,
            !r.supports_clipping,
            !r.supports_overlays_above_webview,
            r.supports_script_eval,
            r.supports_host_messaging,
            r.supports_custom_user_agent,
            r.supports_download_interception,
            !r.supports_permission_interception,
            r.requires_external_runtime == (platform is Windows || platform is Linux),
    {
        WebViewCapabilities {
            backend_name: "wry",
            engine_name: platform_engine_name(platform),
            composition_tier: CompositionTier::NativeChildView,
            supports_transparency: false,
            supports_clipping: false,
            supports_overlays_above_webview: false,
            supports_script_eval: true,
            supports_host_messaging: true,
            supports_custom_user_agent: true,
            supports_download_interception: true,
            supports_permission_interception: false,
            requires_external_runtime: platform_requires_external_runtime(platform),
        }
    }

    /// The capabilities of no backend: named "none", unsupported
    /// composition, and every capability off.
    pub open spec fn is_unsupported(self) -> bool {
        &&& self.backend_name@ == "none"@
        &&& self.engine_name@ == "none"@
        &&& self.composition_tier == CompositionTier::Unsupported
        &&& !self.supports_transparency
        &&& !self.supports_clipping
        &&& !self.supports_overlays_above_webview
        &&& !self.supports_script_eval
        &&& !self.supports_host_messaging
        &&& !self.supports_custom_user_agent
        &&& !self.supports_download_interception
        &&& !self.supports_permission_interception
        &&& !self.requires_external_runtime
    }

    /// Capabilities reported when no backend is compiled.
    pub fn unsupported() -> (r: Self)
        ensures
            r.is_unsupported(),
    {
        WebViewCapabilities {
            backend_name: "none",
            engine_name: "none",
            composition_tier: CompositionTier::Unsupported,
            supports_transparency: false,
            supports_clipping: false,
            supports_overlays_above_webview: false,
            supports_script_eval: false,
            supports_host_messaging: false,
            supports_custom_user_agent: false,
            supports_download_interception: false,
            supports_permission_interception: false,
            requires_external_runtime: false,
        }
    }
}

} // verus!
