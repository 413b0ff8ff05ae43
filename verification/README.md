# slint-webview

Embeds a platform webview (WebView2, WebKitGTK, WKWebView through Wry) in a
Slint window, as a native child surface or a Slint-owned rendered surface.

The crate under `src/` is the verified core, written in Verus: option, event
and navigation types, IPC body bounding, the shared backend controller and its
script request IDs, the placeholder-area policy (parking, overlay suppression,
keyboard focus), the native callbacks' decisions and keyboard focus gate, the
X11 window-tree decisions, the deterministic mock rendered backend, and the
regression harness's decisions. Floating-point coordinates are carried as
binary64 bit patterns. `src/laws.rs` states the properties that span
functions.

`app/` is the unverified shell around it: the Wry/GTK/X11 backend, the
controller facades that wrap it, and serializable or displayable copies of the
library's types.

`tests/` exercises the library through its public API.
