//! Plain-data API types: sources, options, navigation policy, events.
use vstd::prelude::*;
use vstd::utf8::encode_utf8;

use crate::bounds::{WebViewBounds, default_bounds};

verus! {

/// Content to load into a webview.
#[derive(Debug, Clone, PartialEq)]
pub enum WebViewSource {
    /// Start with an empty document.
    Blank,
    /// Load a URL through the platform webview.
    Url(String),
    /// Load an HTML string directly.
    Html(String),
}

impl Default for WebViewSource {
    fn default() -> (r: Self)
        ensures
            r is Blank,
    {
        WebViewSource::Blank
    }
}

/// A decision produced by a navigation policy.
#[derive(Debug, Clone, PartialEq, Eq, Structural)]
pub enum NavigationDecision {
    /// Let the webview navigate normally.
    Allow,
    /// Cancel the navigation.
    Block,
    /// Cancel the navigation and let the application open it externally.
    OpenExternal,
}

/// Navigation policy applied before a navigation is allowed to continue.
#[derive(Debug, Clone, PartialEq, Eq)]
pub enum NavigationPolicy {
    /// Allow all navigation.
    AllowAll,
    /// Block all navigation.
    BlockAll,
    /// Block URLs whose scheme matches one of the listed schemes.
    BlockSchemes(Vec<String>),
    /// Allow only URLs whose scheme matches one of the listed schemes.
    AllowSchemes(Vec<String>),
}

impl Default for NavigationPolicy {
    fn default() -> (r: Self)
        ensures
            r is AllowAll,
    {
        NavigationPolicy::AllowAll
    }
}

/// The byte `:` that ends a URL scheme.
pub open spec fn colon_byte() -> u8 {
    58u8
}

/// ASCII lower-casing of one byte; other bytes are unchanged.
pub open spec fn ascii_lower(b: u8) -> u8 {
    if 65 <= b && b <= 90 {
        (b + 32) as u8
    } else {
        b
    }
}

/// The two byte strings are equal ignoring ASCII case.
pub open spec fn ascii_case_insensitive_eq(a: Seq<u8>, b: Seq<u8>) -> bool {
    &&& a.len() == b.len()
    &&& forall|i: int| 0 <= i < a.len() ==> #[trigger] ascii_lower(a[i]) == ascii_lower(b[i])
}

/// `p` is the position of the first `:` byte in `bytes`.
pub open spec fn is_first_colon(bytes: Seq<u8>, p: int) -> bool {
    &&& 0 <= p < bytes.len()
    &&& bytes[p] == colon_byte()
    &&& forall|j: int| 0 <= j < p ==> #[trigger] bytes[j] != colon_byte()
}

/// The URL has a `:`, and the text before its first `:` equals `scheme`
/// ignoring ASCII case (both compared as UTF-8 bytes).
pub open spec fn url_has_scheme_spec(url: Seq<char>, scheme: Seq<char>) -> bool {
    exists|p: int|
        #[trigger] is_first_colon(encode_utf8(url), p) && ascii_case_insensitive_eq(
            encode_utf8(url).take(p),
            encode_utf8(scheme),
        )
}

/// Some scheme of the list matches the URL.
pub open spec fn any_scheme_matches(schemes: Seq<String>, url: Seq<char>) -> bool {
    exists|i: int| 0 <= i < schemes.len() && url_has_scheme_spec(url, #[trigger] schemes[i]@)
}

/// The decision of `policy` for `url`.
pub open spec fn decide_spec(policy: NavigationPolicy, url: Seq<char>) -> NavigationDecision {
    match policy {
        NavigationPolicy::AllowAll => NavigationDecision::Allow,
        NavigationPolicy::BlockAll => NavigationDecision::Block,
        NavigationPolicy::BlockSchemes(schemes) => if any_scheme_matches(schemes@, url) {
            NavigationDecision::Block
        } else {
            NavigationDecision::Allow
        },
        NavigationPolicy::AllowSchemes(schemes) => if any_scheme_matches(schemes@, url) {
            NavigationDecision::Allow
        } else {
            NavigationDecision::Block
        },
    }
}

fn lower_byte(b: u8) -> (r: u8)
    ensures
        r == ascii_lower(b),
{
    if 65 <= b && b <= 90 {
        b + 32
    } else {
        b
    }
}

/// Returns true when `url` has a scheme equal to `scheme`, ignoring ASCII case.
pub fn url_has_scheme(url: &str, scheme: &str) -> (r: bool)
    ensures
        r == url_has_scheme_spec(url@, scheme@),
{
    let u = url.as_bytes();
    let s = scheme.as_bytes();
    let ghost ub = encode_utf8(url@);
    let ghost sb = encode_utf8(scheme@);
    assert(u@ == ub);
    assert(s@ == sb);
    let mut p: usize = 0;
    while p < u.len()
        invariant
            u@ == ub,
            p <= u@.len(),
            forall|j: int| 0 <= j < p ==> #[trigger] ub[j] != colon_byte(),
        ensures
            p <= u@.len(),
            forall|j: int| 0 <= j < p ==> #[trigger] ub[j] != colon_byte(),
            p < u@.len() ==> ub[p as int] == colon_byte(),
        decreases u.len() - p,
    {
        if u[p] == 58u8 {
            break;
        }
        p = p + 1;
    }
    if p == u.len() {
        assert forall|q: int| !#[trigger] is_first_colon(ub, q) by {
            if is_first_colon(ub, q) {
                assert(ub[q] != colon_byte());
            }
        }
        return false;
    }
    assert(is_first_colon(ub, p as int));
    assert forall|q: int| #[trigger] is_first_colon(ub, q) implies q == p by {
        if q < p {
            assert(ub[q] != colon_byte());
        } else if q > p {
            assert(ub[p as int] != colon_byte());
        }
    }
    if p != s.len() {
        assert(!url_has_scheme_spec(url@, scheme@)) by {
            if url_has_scheme_spec(url@, scheme@) {
                let q = choose|q: int|
                    #[trigger] is_first_colon(ub, q) && ascii_case_insensitive_eq(ub.take(q), sb);
                assert(q == p);
                assert(ub.take(q).len() == q);
            }
        }
        return false;
    }
    let mut k: usize = 0;
    while k < p
        invariant
            u@ == ub,
            s@ == sb,
            ub == encode_utf8(url@),
            sb == encode_utf8(scheme@),
            is_first_colon(ub, p as int),
            forall|q: int| #[trigger] is_first_colon(ub, q) ==> q == p,
            p < u@.len(),
            p == s@.len(),
            k <= p,
            forall|i: int| 0 <= i < k ==> #[trigger] ascii_lower(ub[i]) == ascii_lower(sb[i]),
        decreases p - k,
    {
        if lower_byte(u[k]) != lower_byte(s[k]) {
            assert(!ascii_case_insensitive_eq(ub.take(p as int), sb)) by {
                assert(ub.take(p as int)[k as int] == ub[k as int]);
            }
            assert(!url_has_scheme_spec(url@, scheme@)) by {
                if url_has_scheme_spec(url@, scheme@) {
                    let q = choose|q: int|
                        #[trigger] is_first_colon(ub, q) && ascii_case_insensitive_eq(
                            ub.take(q),
                            sb,
                        );
                    assert(q == p);
                }
            }
            return false;
        }
        k = k + 1;
    }
    assert(ascii_case_insensitive_eq(ub.take(p as int), sb)) by {
        assert forall|i: int| 0 <= i < p implies #[trigger] ascii_lower(ub.take(p as int)[i])
            == ascii_lower(sb[i]) by {
            assert(ub.take(p as int)[i] == ub[i]);
        }
    }
    true
}

fn any_scheme_matches_exec(schemes: &Vec<String>, url: &str) -> (r: bool)
    ensures
        r == any_scheme_matches(schemes@, url@),
{
    let mut i: usize = 0;
    while i < schemes.len()
        invariant
            i <= schemes@.len(),
            forall|j: int| 0 <= j < i ==> !url_has_scheme_spec(url@, #[trigger] schemes@[j]@),
        decreases schemes.len() - i,
    {
        if url_has_scheme(url, schemes[i].as_str()) {
            return true;
        }
        i = i + 1;
    }
    false
}

impl NavigationPolicy {
    /// Applies this policy to a URL string.
    pub fn decide(&self, url: &str) -> (r: NavigationDecision)
        ensures
            r == decide_spec(*self, url@),
    {
        match self {
            NavigationPolicy::AllowAll => NavigationDecision::Allow,
            NavigationPolicy::BlockAll => NavigationDecision::Block,
            NavigationPolicy::BlockSchemes(schemes) => {
                if any_scheme_matches_exec(schemes, url) {
                    NavigationDecision::Block
                } else {
                    NavigationDecision::Allow
                }
            },
            NavigationPolicy::AllowSchemes(schemes) => {
                if any_scheme_matches_exec(schemes, url) {
                    NavigationDecision::Allow
                } else {
                    NavigationDecision::Block
                }
            },
        }
    }
}

/// Default maximum IPC message body length accepted from web content (1 MiB).
pub const DEFAULT_IPC_MESSAGE_LIMIT: usize = 1048576usize;

/// Options used when creating a webview.
#[derive(Debug, Clone, PartialEq)]
pub struct WebViewOptions {
    /// Initial content.
    pub source: WebViewSource,
    /// Initial rectangle in Slint logical window coordinates.
    pub bounds: WebViewBounds,
    /// Enables JavaScript execution.
    pub javascript_enabled: bool,
    /// Enables backend developer tools where the platform supports them.
    pub devtools: bool,
    /// Initial visibility.
    pub visible: bool,
    /// Whether the native webview should take keyboard focus when attached.
    pub focused: bool,
    /// Allows web content to create new windows.
    pub allow_popups: bool,
    /// Allows web content to start file downloads.
    pub downloads_enabled: bool,
    /// Allows the webview to access the platform clipboard.
    pub clipboard_enabled: bool,
    /// Runs the webview in an ephemeral/private profile where supported.
    pub incognito: bool,
    /// Optional user agent override.
    pub user_agent: Option<String>,
    /// JavaScript snippets injected before page scripts run.
    pub initialization_scripts: Vec<String>,
    /// Maximum IPC message body length accepted from web content.
    pub ipc_message_limit: usize,
    /// Navigation policy for top-level navigation requests.
    pub navigation_policy: NavigationPolicy,
}

impl WebViewOptions {
    /// The conservative defaults: blank source, default bounds, visible, and
    /// every privileged capability (JavaScript, devtools, focus, popups,
    /// downloads, clipboard, incognito) off, a 1 MiB IPC limit and an
    /// allow-all navigation policy.
    pub open spec fn is_conservative_default(self) -> bool {
        &&& self.source is Blank
        &&& self.bounds == default_bounds()
        &&& !self.javascript_enabled
        &&& !self.devtools
        &&& self.visible
        &&& !self.focused
        &&& !self.allow_popups
        &&& !self.downloads_enabled
        &&& !self.clipboard_enabled
        &&& !self.incognito
        &&& self.user_agent is None
        &&& self.initialization_scripts@.len() == 0
        &&& self.ipc_message_limit == DEFAULT_IPC_MESSAGE_LIMIT
        &&& self.navigation_policy is AllowAll
    }

    /// Returns options with a different initial source.
    pub fn with_source(self, source: WebViewSource) -> (r: Self)
        ensures
            r == (WebViewOptions { source, ..self }),
    {
        WebViewOptions { source, ..self }
    }

    /// Returns options with different initial bounds.
    pub fn with_bounds(self, bounds: WebViewBounds) -> (r: Self)
        ensures
            r == (WebViewOptions { bounds, ..self }),
    {
        WebViewOptions { bounds, ..self }
    }

    /// Returns options with JavaScript enabled or disabled.
    pub fn with_javascript_enabled(self, enabled: bool) -> (r: Self)
        ensures
            r == (WebViewOptions { javascript_enabled: enabled, ..self }),
    {
        WebViewOptions { javascript_enabled: enabled, ..self }
    }

    /// Returns options with developer tools enabled or disabled.
    pub fn with_devtools(self, enabled: bool) -> (r: Self)
        ensures
            r == (WebViewOptions { devtools: enabled, ..self }),
    {
        WebViewOptions { devtools: enabled, ..self }
    }

    /// Returns options with initial visibility set.
    pub fn with_visible(self, visible: bool) -> (r: Self)
        ensures
            r == (WebViewOptions { visible, ..self }),
    {
        WebViewOptions { visible, ..self }
    }

    /// Returns options with initial webview focus enabled or disabled.
    pub fn with_focused(self, focused: bool) -> (r: Self)
        ensures
            r == (WebViewOptions { focused, ..self }),
    {
        WebViewOptions { focused, ..self }
    }

    /// Returns options with popup window creation enabled or disabled.
    pub fn with_popups_enabled(self, enabled: bool) -> (r: Self)
        ensures
            r == (WebViewOptions { allow_popups: enabled, ..self }),
    {
        WebViewOptions { allow_popups: enabled, ..self }
    }

    /// Returns options with file downloads enabled or disabled.
    pub fn with_downloads_enabled(self, enabled: bool) -> (r: Self)
        ensures
            r == (WebViewOptions { downloads_enabled: enabled, ..self }),
    {
        WebViewOptions { downloads_enabled: enabled, ..self }
    }

    /// Returns options with clipboard access enabled or disabled.
    pub fn with_clipboard_enabled(self, enabled: bool) -> (r: Self)
        ensures
            r == (WebViewOptions { clipboard_enabled: enabled, ..self }),
    {
        WebViewOptions { clipboard_enabled: enabled, ..self }
    }

    /// Returns options with incognito/private profile mode enabled or disabled.
    pub fn with_incognito(self, enabled: bool) -> (r: Self)
        ensures
            r == (WebViewOptions { incognito: enabled, ..self }),
    {
        WebViewOptions { incognito: enabled, ..self }
    }

    /// Returns options with a user agent override.
    pub fn with_user_agent(self, user_agent: String) -> (r: Self)
        ensures
            r == (WebViewOptions { user_agent: Some(user_agent), ..self }),
    {
        WebViewOptions { user_agent: Some(user_agent), ..self }
    }

    /// Returns options with an additional initialization script, appended
    /// after the existing ones.
    pub fn with_initialization_script(self, script: String) -> (r: Self)
        ensures
            r.initialization_scripts@ == self.initialization_scripts@.push(script),
            r == (WebViewOptions { initialization_scripts: r.initialization_scripts, ..self }),
    {
        let mut options = self;
        options.initialization_scripts.push(script);
        options
    }

    /// Returns options with a different IPC message byte limit.
    pub fn with_ipc_message_limit(self, limit: usize) -> (r: Self)
        ensures
            r == (WebViewOptions { ipc_message_limit: limit, ..self }),
    {
        WebViewOptions { ipc_message_limit: limit, ..self }
    }

    /// Returns options with a different navigation policy.
    pub fn with_navigation_policy(self, policy: NavigationPolicy) -> (r: Self)
        ensures
            r == (WebViewOptions { navigation_policy: policy, ..self }),
    {
        WebViewOptions { navigation_policy: policy, ..self }
    }
}

impl Default for WebViewOptions {
    fn default() -> (r: Self)
        ensures
            r.is_conservative_default(),
    {
        WebViewOptions {
            source: WebViewSource::Blank,
            bounds: WebViewBounds::default(),
            javascript_enabled: false,
            devtools: false,
            visible: true,
            focused: false,
            allow_popups: false,
            downloads_enabled: false,
            clipboard_enabled: false,
            incognito: false,
            user_agent: None,
            initialization_scripts: Vec::new(),
            ipc_message_limit: DEFAULT_IPC_MESSAGE_LIMIT,
            navigation_policy: NavigationPolicy::AllowAll,
        }
    }
}

/// Identifier for an asynchronous script evaluation request.
#[derive(Debug, Clone, Copy, PartialEq, Eq, Hash, Structural)]
pub struct ScriptRequestId(pub u64);

/// Event emitted by a webview controller.
#[derive(Debug, Clone, PartialEq, Eq)]
pub enum WebViewEvent {
    /// Page load started.
    NavigationStarted {
        /// URL being loaded.
        url: String,
    },
    /// Page load finished.
    NavigationFinished {
        /// URL that finished loading.
        url: String,
    },
    /// Navigation was requested and a policy decision was made.
    NavigationRequested {
        /// Requested URL.
        url: String,
        /// Policy decision.
        decision: NavigationDecision,
    },
    /// Web content sent an IPC message to the host.
    IpcMessage {
        /// Current document URI reported by the backend.
        uri: String,
        /// Message body.
        body: String,
        /// True when the message body exceeded the configured limit.
        truncated: bool,
    },
    /// Document title changed.
    TitleChanged {
        /// New title.
        title: String,
    },
    /// The native webview received an input action that should be allowed to
    /// claim keyboard focus.
    FocusRequested,
    /// Native keyboard focus entered or left the webview.
    FocusChanged {
        /// True when the webview currently owns native keyboard focus.
        focused: bool,
    },
    /// Script evaluation finished.
    ScriptResult {
        /// Matching request ID.
        request_id: ScriptRequestId,
        /// Serialized script result.
        value: String,
    },
    /// New-window request was handled by policy.
    NewWindowRequested {
        /// Requested URL.
        url: String,
        /// True if the platform backend was allowed to create a window.
        allowed: bool,
    },
    /// File download was requested.
    DownloadRequested {
        /// Download URL.
        url: String,
        /// Backend-suggested destination path, when known.
        suggested_path: Option<String>,
        /// True if the download was allowed to continue.
        allowed: bool,
    },
    /// File download completed.
    DownloadFinished {
        /// Download URL.
        url: String,
        /// Final path reported by the backend, when known.
        path: Option<String>,
        /// True when the backend reported success.
        success: bool,
    },
}

} // verus!
