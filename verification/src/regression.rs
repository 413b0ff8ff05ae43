//! Decisions of the deterministic regression harness: when to show the
//! webview, when freshly attached content is ready to be revealed, and which
//! IPC messages report user activity inside the fixture page.
use vstd::prelude::*;
use vstd::utf8::encode_utf8;

use crate::api::{NavigationDecision, WebViewEvent};
use crate::fixture::FIXTURE_READY_TOKEN;

verus! {

/// `needle` occurs in `haystack` as a contiguous run of bytes.
pub open spec fn bytes_contain(haystack: Seq<u8>, needle: Seq<u8>) -> bool {
    exists|i: int|
        0 <= i && i + needle.len() <= haystack.len() && #[trigger] haystack.subrange(
            i,
            i + needle.len(),
        ) == needle
}

/// `needle` occurs in `haystack` (compared as UTF-8 bytes, as `str::contains`
/// does).
pub open spec fn text_contains_spec(haystack: Seq<char>, needle: Seq<char>) -> bool {
    bytes_contain(encode_utf8(haystack), encode_utf8(needle))
}

/// Returns true when `needle` occurs in `haystack`.
pub fn text_contains(haystack: &str, needle: &str) -> (r: bool)
    ensures
        r == text_contains_spec(haystack@, needle@),
{
    let h = haystack.as_bytes();
    let n = needle.as_bytes();
    let ghost hb = encode_utf8(haystack@);
    let ghost nb = encode_utf8(needle@);
    if n.len() > h.len() {
        return false;
    }
    let hlen = h.len();
    let last = hlen - n.len();
    let mut i: usize = 0;
    while i <= last
        invariant
            h@ == hb,
            n@ == nb,
            hb == encode_utf8(haystack@),
            nb == encode_utf8(needle@),
            nb.len() <= hb.len(),
            hlen == hb.len(),
            last == hb.len() - nb.len(),
            i <= last,
            forall|j: int| 0 <= j < i ==> #[trigger] hb.subrange(j, j + nb.len()) != nb,
        decreases last + 1 - i,
    {
        let mut k: usize = 0;
        let mut matched = true;
        while k < n.len()
            invariant
                h@ == hb,
                n@ == nb,
                nb.len() <= hb.len(),
                hlen == hb.len(),
                i <= last,
                last == hb.len() - nb.len(),
                k <= nb.len(),
                matched ==> forall|m: int| 0 <= m < k ==> hb[i + m] == nb[m],
                !matched ==> hb.subrange(i as int, i + nb.len()) != nb,
            decreases n.len() - k,
        {
            assert(i + k < h@.len());
            let position: usize = i + k;
            if h[position] != n[k] {
                assert(hb.subrange(i as int, i + nb.len())[k as int] == hb[i + k]);
                matched = false;
            }
            k = k + 1;
        }
        if matched {
            assert(hb.subrange(i as int, i + nb.len()) =~= nb);
            return true;
        }
        if i == last {
            return false;
        }
        i = i + 1;
    }
    false
}

/// The parsed JSON text `text` is an object whose top-level member `key`
/// is a string, and this is that string.
pub uninterp spec fn json_string_member(text: Seq<char>, key: Seq<char>) -> Option<Seq<char>>;

/// Parses `text` with `serde_json::from_str::<serde_json::Value>`, looks up
/// `key` with `Value::get` and keeps the member when `Value::as_str` finds a
/// string. The result is named by `json_string_member`: it depends on the
/// text and the key alone; what JSON parsing accepts is not restated here.
#[verifier::external_body]
fn parse_string_member(text: &str, key: &str) -> (r: Option<String>)
    ensures
        r matches Some(member) ==> json_string_member(text@, key@) == Some(member@),
        r is None ==> json_string_member(text@, key@) is None,
{
    let value: serde_json::Value = serde_json::from_str(text).ok()?;
    let member = value.get(key)?;
    member.as_str().map(str::to_owned)
}

/// The webview is shown when the application requests it and no modal is
/// open.
pub fn should_show_webview(requested_visible: bool, modal_open: bool) -> (r: bool)
    ensures
        r == (requested_visible && !modal_open),
{
    requested_visible && !modal_open
}

/// Freshly attached content may be revealed once a page load finished or the
/// title reports the fixture ready token.
pub open spec fn ready_to_reveal_spec(event: WebViewEvent) -> bool {
    match event {
        WebViewEvent::NavigationFinished { .. } => true,
        WebViewEvent::TitleChanged { title } => text_contains_spec(
            title@,
            FIXTURE_READY_TOKEN@,
        ),
        _ => false,
    }
}

/// Returns true when `event` shows that the initial content is ready.
pub fn initial_webview_ready_to_reveal(event: &WebViewEvent) -> (r: bool)
    ensures
        r == ready_to_reveal_spec(*event),
{
    match event {
        WebViewEvent::NavigationFinished { .. } => true,
        WebViewEvent::TitleChanged { title } => text_contains(title.as_str(), FIXTURE_READY_TOKEN),
        _ => false,
    }
}

/// An untruncated IPC message whose JSON body reports fixture activity:
/// `source` is `"fixture"`, `kind` is `"activity"`, and `token` is the
/// fixture ready token.
pub open spec fn activity_event_spec(event: WebViewEvent) -> bool {
    match event {
        WebViewEvent::IpcMessage { body, truncated, .. } => {
            &&& !truncated
            &&& json_string_member(body@, "source"@) == Some("fixture"@)
            &&& json_string_member(body@, "kind"@) == Some("activity"@)
            &&& json_string_member(body@, "token"@) == Some(FIXTURE_READY_TOKEN@)
        },
        _ => false,
    }
}

fn member_equals(text: &str, key: &str, expected: &str) -> (r: bool)
    ensures
        r == (json_string_member(text@, key@) == Some(expected@)),
{
    match parse_string_member(text, key) {
        Some(member) => member == expected.to_owned(),
        None => false,
    }
}

/// Returns true when `event` is an IPC activity report from the fixture page.
pub fn is_webview_activity_event(event: &WebViewEvent) -> (r: bool)
    ensures
        r == activity_event_spec(*event),
{
    match event {
        WebViewEvent::IpcMessage { body, truncated, .. } => {
            !*truncated && member_equals(body.as_str(), "source", "fixture") && member_equals(
                body.as_str(),
                "kind",
                "activity",
            ) && member_equals(body.as_str(), "token", FIXTURE_READY_TOKEN)
        },
        _ => false,
    }
}

/// How a boolean reads in a status line.
pub open spec fn flag_text(flag: bool) -> Seq<char> {
    if flag {
        "true"@
    } else {
        "false"@
    }
}

/// How a navigation decision reads in a status line: its variant's name.
pub open spec fn decision_text(decision: NavigationDecision) -> Seq<char> {
    match decision {
        NavigationDecision::Allow => "Allow"@,
        NavigationDecision::Block => "Block"@,
        NavigationDecision::OpenExternal => "OpenExternal"@,
    }
}

/// The status line the harness shows for `event`; in a smoke run a script
/// result is reported without its value.
pub open spec fn event_status_spec(event: WebViewEvent, smoke: bool) -> Seq<char> {
    match event {
        WebViewEvent::NavigationStarted { url } => "loading "@ + url@,
        WebViewEvent::NavigationFinished { url } => "loaded "@ + url@,
        WebViewEvent::NavigationRequested { url, decision } => "navigation requested "@ + url@
            + ": "@ + decision_text(decision),
        WebViewEvent::IpcMessage { body, .. } => "ipc "@ + body@,
        WebViewEvent::TitleChanged { title } => "title "@ + title@,
        WebViewEvent::FocusRequested => "webview focus requested by click"@,
        WebViewEvent::FocusChanged { focused } => "webview native focus: "@ + flag_text(focused),
        WebViewEvent::ScriptResult { value, .. } => if smoke {
            "smoke probe returned fixture state"@
        } else {
            "probe "@ + value@
        },
        WebViewEvent::NewWindowRequested { url, allowed } => "new window "@ + url@
            + ": allowed="@ + flag_text(allowed),
        WebViewEvent::DownloadRequested { url, allowed, .. } => "download "@ + url@
            + ": allowed="@ + flag_text(allowed),
        WebViewEvent::DownloadFinished { url, success, .. } => "download finished "@ + url@
            + ": success="@ + flag_text(success),
    }
}

fn append_flag(text: &mut String, flag: bool)
    ensures
        final(text)@ == old(text)@ + flag_text(flag),
{
    if flag {
        text.append("true");
    } else {
        text.append("false");
    }
}

fn append_decision(text: &mut String, decision: &NavigationDecision)
    ensures
        final(text)@ == old(text)@ + decision_text(*decision),
{
    match decision {
        NavigationDecision::Allow => text.append("Allow"),
        NavigationDecision::Block => text.append("Block"),
        NavigationDecision::OpenExternal => text.append("OpenExternal"),
    }
}

fn labelled(label: &str, value: &String) -> (r: String)
    ensures
        r@ == label@ + value@,
{
    let mut text = String::from_str(label);
    text.append(value.as_str());
    text
}

/// Returns the status line the harness shows for `event`.
pub fn event_status(event: &WebViewEvent, smoke: bool) -> (r: String)
    ensures
        r@ == event_status_spec(*event, smoke),
{
    match event {
        WebViewEvent::NavigationStarted { url } => labelled("loading ", url),
        WebViewEvent::NavigationFinished { url } => labelled("loaded ", url),
        WebViewEvent::NavigationRequested { url, decision } => {
            let mut text = labelled("navigation requested ", url);
            text.append(": ");
            append_decision(&mut text, decision);
            text
        },
        WebViewEvent::IpcMessage { body, .. } => labelled("ipc ", body),
        WebViewEvent::TitleChanged { title } => labelled("title ", title),
        WebViewEvent::FocusRequested => String::from_str("webview focus requested by click"),
        WebViewEvent::FocusChanged { focused } => {
            let mut text = String::from_str("webview native focus: ");
            append_flag(&mut text, *focused);
            text
        },
        WebViewEvent::ScriptResult { value, .. } => {
            if smoke {
                String::from_str("smoke probe returned fixture state")
            } else {
                labelled("probe ", value)
            }
        },
        WebViewEvent::NewWindowRequested { url, allowed } => {
            let mut text = labelled("new window ", url);
            text.append(": allowed=");
            append_flag(&mut text, *allowed);
            text
        },
        WebViewEvent::DownloadRequested { url, allowed, .. } => {
            let mut text = labelled("download ", url);
            text.append(": allowed=");
            append_flag(&mut text, *allowed);
            text
        },
        WebViewEvent::DownloadFinished { url, success, .. } => {
            let mut text = labelled("download finished ", url);
            text.append(": success=");
            append_flag(&mut text, *success);
            text
        },
    }
}

/// The status line after a visibility change for `reason` succeeded.
pub open spec fn visibility_status_spec(reason: Seq<char>, visible: bool, modal_open: bool) -> Seq<
    char,
> {
    if visible {
        reason + ": webview shown"@
    } else if modal_open {
        reason + ": webview parked for modal"@
    } else {
        reason + ": webview hidden"@
    }
}

/// Returns the status line after a visibility change for `reason` succeeded.
pub fn visibility_status(reason: &str, visible: bool, modal_open: bool) -> (r: String)
    ensures
        r@ == visibility_status_spec(reason@, visible, modal_open),
{
    let mut text = String::from_str(reason);
    if visible {
        text.append(": webview shown");
    } else if modal_open {
        text.append(": webview parked for modal");
    } else {
        text.append(": webview hidden");
    }
    text
}

/// How the regression harness reacts to one drained webview event.
#[derive(Debug, Clone, Copy, PartialEq, Eq, Structural)]
pub struct HarnessFocusReaction {
    /// Whether the webview owns keyboard input after the event.
    pub webview_claimed: bool,
    /// Take keyboard focus away from the Slint shell input.
    pub release_shell_focus: bool,
    /// Enable (`Some(true)`) or disable (`Some(false)`) webview keyboard
    /// focus.
    pub set_keyboard_focus: Option<bool>,
    /// Ask the native webview for keyboard focus.
    pub focus_webview: bool,
    /// Disable webview keyboard focus and hand focus back to the host.
    pub repair_native_focus: bool,
}

/// The harness's reaction to `event` while the webview has `claimed`
/// keyboard input and the shell input is focused or not: activity inside
/// the page and focus requests hand typing to the webview; the webview
/// gaining focus keeps it only when it owns typing, otherwise focus is
/// repaired; losing focus ends the claim and, while the shell input is
/// focused, disables webview focus.
pub open spec fn harness_focus_spec(
    claimed: bool,
    shell_input_focused: bool,
    event: WebViewEvent,
) -> HarnessFocusReaction {
    let activity = activity_event_spec(event);
    let base = HarnessFocusReaction {
        webview_claimed: claimed || activity,
        release_shell_focus: activity,
        set_keyboard_focus: None,
        focus_webview: false,
        repair_native_focus: false,
    };
    match event {
        WebViewEvent::FocusRequested => HarnessFocusReaction {
            webview_claimed: true,
            release_shell_focus: true,
            set_keyboard_focus: Some(true),
            focus_webview: true,
            ..base
        },
        WebViewEvent::FocusChanged { focused } => if focused {
            if base.webview_claimed {
                HarnessFocusReaction { set_keyboard_focus: Some(true), ..base }
            } else {
                HarnessFocusReaction { repair_native_focus: true, ..base }
            }
        } else {
            HarnessFocusReaction {
                webview_claimed: false,
                set_keyboard_focus: if shell_input_focused {
                    Some(false)
                } else {
                    None
                },
                ..base
            }
        },
        _ => base,
    }
}

/// Returns how the harness reacts to `event`.
pub fn harness_focus_step(claimed: bool, shell_input_focused: bool, event: &WebViewEvent) -> (r:
    HarnessFocusReaction)
    ensures
        r == harness_focus_spec(claimed, shell_input_focused, *event),
{
    let activity = is_webview_activity_event(event);
    let claimed = claimed || activity;
    match event {
        WebViewEvent::FocusRequested => HarnessFocusReaction {
            webview_claimed: true,
            release_shell_focus: true,
            set_keyboard_focus: Some(true),
            focus_webview: true,
            repair_native_focus: false,
        },
        WebViewEvent::FocusChanged { focused } => {
            if *focused {
                HarnessFocusReaction {
                    webview_claimed: claimed,
                    release_shell_focus: activity,
                    set_keyboard_focus: if claimed {
                        Some(true)
                    } else {
                        None
                    },
                    focus_webview: false,
                    repair_native_focus: !claimed,
                }
            } else {
                HarnessFocusReaction {
                    webview_claimed: false,
                    release_shell_focus: activity,
                    set_keyboard_focus: if shell_input_focused {
                        Some(false)
                    } else {
                        None
                    },
                    focus_webview: false,
                    repair_native_focus: false,
                }
            }
        },
        _ => HarnessFocusReaction {
            webview_claimed: claimed,
            release_shell_focus: activity,
            set_keyboard_focus: None,
            focus_webview: false,
            repair_native_focus: false,
        },
    }
}

/// A smoke run succeeds on a script result that reports the fixture ready
/// token.
pub open spec fn smoke_probe_succeeded_spec(event: WebViewEvent) -> bool {
    match event {
        WebViewEvent::ScriptResult { value, .. } => text_contains_spec(
            value@,
            FIXTURE_READY_TOKEN@,
        ),
        _ => false,
    }
}

/// Returns true when `event` is a script result carrying the fixture ready
/// token.
pub fn smoke_probe_succeeded(event: &WebViewEvent) -> (r: bool)
    ensures
        r == smoke_probe_succeeded_spec(*event),
{
    match event {
        WebViewEvent::ScriptResult { value, .. } => text_contains(value.as_str(), FIXTURE_READY_TOKEN),
        _ => false,
    }
}

} // verus!
