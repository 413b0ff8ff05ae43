//! Properties of the library that span functions and inputs.
use vstd::prelude::*;
use vstd::utf8::*;

use crate::api::{
    NavigationDecision, NavigationPolicy, WebViewEvent, ascii_case_insensitive_eq, ascii_lower,
    decide_spec, is_first_colon, url_has_scheme_spec,
};
use crate::area::{
    ControllerCall, WebViewAreaPolicy, WebViewAreaState, WebViewAreaStatus, event_calls,
    event_status, events_status, may_focus_webview, release_calls, sync_calls, synced_status,
};
use crate::bounds::float_eq;
use crate::mock::input_focus_event;
use crate::render::{
    RenderedWebViewInputEvent, RenderedWebViewInputState, RenderedWebViewModifiers,
    RenderedWebViewPointerButton,
};
use crate::backend::next_request_id_after;
use crate::ipc::last_boundary_at_most;
use crate::mock::mock_frame_bytes;
use crate::native::{FocusGateSignal, focus_gate_spec};

verus! {

/// Whatever the policy and the Slint-side state, the bounds a placement hands
/// to the backend are valid: invalid bounds never reach the backend.
pub proof fn placement_bounds_are_always_valid(policy: WebViewAreaPolicy, state: WebViewAreaState)
    ensures
        policy.spec_resolve(state).bounds.spec_is_valid(),
{
}

/// An effectively visible area with valid bounds is placed exactly at those
/// bounds; while `hide_until_bounds_valid` is set, an effectively visible area
/// always has valid bounds.
pub proof fn visible_area_keeps_its_bounds(policy: WebViewAreaPolicy, state: WebViewAreaState)
    ensures
        policy.spec_resolve(state).effective_visible && state.bounds.spec_is_valid()
            ==> policy.spec_resolve(state).bounds == state.bounds,
        policy.hide_until_bounds_valid && policy.spec_resolve(state).effective_visible
            ==> state.bounds.spec_is_valid(),
{
}

/// A hidden area never leaves the webview natively visible at its real
/// bounds: it is parked at the fallback bounds or natively hidden. `Park`
/// keeps native visibility on, `Hide` turns it off without parking, and
/// `HideAndPark` does both.
pub proof fn hidden_area_is_parked_or_hidden(policy: WebViewAreaPolicy, state: WebViewAreaState)
    ensures
        ({
            let placement = policy.spec_resolve(state);
            &&& !placement.effective_visible ==> placement.parked || !placement.native_visible
            &&& placement.parked ==> placement.bounds == policy.fallback_bounds()
            &&& !placement.effective_visible && policy.hidden_strategy is Park ==> placement.parked
                && placement.native_visible
            &&& !placement.effective_visible && policy.hidden_strategy is Hide ==> !placement.parked
                && !placement.native_visible
            &&& !placement.effective_visible && policy.hidden_strategy is HideAndPark
                ==> placement.parked && !placement.native_visible
            &&& placement.effective_visible ==> placement.native_visible && !placement.parked
        }),
{
}

/// While overlay hiding is on, an active Slint overlay always suppresses the
/// webview.
pub proof fn active_overlay_suppresses_webview(policy: WebViewAreaPolicy, state: WebViewAreaState)
    requires
        policy.hide_when_overlay_active,
        state.overlay_active,
    ensures
        policy.spec_resolve(state).blocked_by_overlay,
        !policy.spec_resolve(state).effective_visible,
{
}

/// Synchronizing to the state the area was just synchronized to changes
/// nothing: no controller call is made and the status stays the same.
pub proof fn sync_is_idempotent(
    policy: WebViewAreaPolicy,
    status: WebViewAreaStatus,
    state: WebViewAreaState,
)
    ensures
        sync_calls(policy, synced_status(policy, status, state), state) == Seq::<
            ControllerCall,
        >::empty(),
        synced_status(policy, synced_status(policy, status, state), state) == synced_status(
            policy,
            status,
            state,
        ),
{
    let placement = policy.spec_resolve(state);
    assert(placement.bounds.same_as(placement.bounds));
    assert(sync_calls(policy, synced_status(policy, status, state), state) =~= Seq::<
        ControllerCall,
    >::empty());
}

/// With both focus-release rules on, keyboard focus survives a
/// synchronization only while the area is effectively visible and no shell
/// input owns typing.
pub proof fn sync_releases_focus_from_hidden_or_shell_focused_area(
    policy: WebViewAreaPolicy,
    status: WebViewAreaStatus,
    state: WebViewAreaState,
)
    requires
        policy.release_focus_when_hidden,
        policy.release_focus_when_shell_focused,
    ensures
        synced_status(policy, status, state).keyboard_focus_enabled ==> policy.spec_resolve(
            state,
        ).effective_visible && !state.shell_focus_active,
{
}

/// A webview focus request enables keyboard focus only when the area is
/// effectively visible and no shell input owns typing; otherwise it changes
/// nothing and makes no call. Losing native focus always disables webview
/// keyboard focus.
pub proof fn focus_events_follow_area_policy(status: WebViewAreaStatus)
    ensures
        may_focus_webview(status) ==> event_status(
            status,
            WebViewEvent::FocusRequested,
        ).keyboard_focus_enabled && event_calls(status, WebViewEvent::FocusRequested) == seq![
            ControllerCall::SetKeyboardFocusEnabled(true),
            ControllerCall::Focus,
        ],
        !may_focus_webview(status) ==> event_status(status, WebViewEvent::FocusRequested)
            == status && event_calls(status, WebViewEvent::FocusRequested) == Seq::<
            ControllerCall,
        >::empty(),
        !event_status(status, WebViewEvent::FocusChanged { focused: false }).keyboard_focus_enabled,
        event_calls(status, WebViewEvent::FocusChanged { focused: false }) == seq![
            ControllerCall::SetKeyboardFocusEnabled(false),
        ],
{
}

/// Script request IDs handed out by a well-formed controller are never 0 and
/// grow by one with each evaluation until they saturate at `u64::MAX`.
pub proof fn script_request_ids_increase(id: u64)
    requires
        id >= 1,
    ensures
        next_request_id_after(id) >= 1,
        id < u64::MAX ==> next_request_id_after(id) == id + 1,
        id == u64::MAX ==> next_request_id_after(id) == id,
{
}

/// Scheme allow-lists and block-lists over the same schemes are exact
/// opposites, and no policy decides `OpenExternal` by itself.
pub proof fn allow_and_block_lists_are_complementary(schemes: Vec<String>, url: Seq<char>)
    ensures
        (decide_spec(NavigationPolicy::AllowSchemes(schemes), url) == NavigationDecision::Allow)
            <==> (decide_spec(NavigationPolicy::BlockSchemes(schemes), url)
            == NavigationDecision::Block),
        decide_spec(NavigationPolicy::AllowSchemes(schemes), url) != NavigationDecision::OpenExternal,
        decide_spec(NavigationPolicy::BlockSchemes(schemes), url) != NavigationDecision::OpenExternal,
        decide_spec(NavigationPolicy::AllowAll, url) == NavigationDecision::Allow,
        decide_spec(NavigationPolicy::BlockAll, url) == NavigationDecision::Block,
{
}

/// Scheme matching ignores ASCII case: two schemes that differ only in ASCII
/// case match exactly the same URLs.
pub proof fn scheme_matching_ignores_ascii_case(url: Seq<char>, first: Seq<char>, second: Seq<char>)
    requires
        ascii_case_insensitive_eq(encode_utf8(first), encode_utf8(second)),
    ensures
        url_has_scheme_spec(url, first) == url_has_scheme_spec(url, second),
{
    let bytes = encode_utf8(url);
    let a = encode_utf8(first);
    let b = encode_utf8(second);
    if url_has_scheme_spec(url, first) {
        let p = choose|p: int|
            #[trigger] is_first_colon(bytes, p) && ascii_case_insensitive_eq(bytes.take(p), a);
        assert(ascii_case_insensitive_eq(bytes.take(p), b)) by {
            assert forall|i: int| 0 <= i < bytes.take(p).len() implies #[trigger] ascii_lower(
                bytes.take(p)[i],
            ) == ascii_lower(b[i]) by {
                assert(ascii_lower(bytes.take(p)[i]) == ascii_lower(a[i]));
                assert(ascii_lower(a[i]) == ascii_lower(b[i]));
            }
        }
    }
    if url_has_scheme_spec(url, second) {
        let p = choose|p: int|
            #[trigger] is_first_colon(bytes, p) && ascii_case_insensitive_eq(bytes.take(p), b);
        assert(ascii_case_insensitive_eq(bytes.take(p), a)) by {
            assert forall|i: int| 0 <= i < bytes.take(p).len() implies #[trigger] ascii_lower(
                bytes.take(p)[i],
            ) == ascii_lower(a[i]) by {
                assert(ascii_lower(bytes.take(p)[i]) == ascii_lower(b[i]));
                assert(ascii_lower(a[i]) == ascii_lower(b[i]));
            }
        }
    }
}

proof fn last_boundary_is_a_boundary(bytes: Seq<u8>, limit: int)
    requires
        valid_utf8(bytes),
        0 <= limit <= bytes.len(),
    ensures
        0 <= last_boundary_at_most(bytes, limit) <= limit,
        is_char_boundary(bytes, last_boundary_at_most(bytes, limit)),
    decreases limit,
{
    if limit <= 0 || is_char_boundary(bytes, limit) {
        is_char_boundary_start_end_of_seq(bytes);
    } else {
        last_boundary_is_a_boundary(bytes, limit - 1);
    }
}

/// A truncated IPC body is at most `limit` bytes long and is a prefix of the
/// original text: truncation never splits or alters a character.
pub proof fn ipc_truncation_keeps_a_character_prefix(body: Seq<char>, limit: usize)
    requires
        encode_utf8(body).len() > limit,
    ensures
        ({
            let bytes = encode_utf8(body);
            let cut = last_boundary_at_most(bytes, limit as int);
            let kept = decode_utf8(bytes.take(cut));
            &&& cut <= limit
            &&& encode_utf8(kept) == bytes.take(cut)
            &&& kept.len() <= body.len()
            &&& body.take(kept.len() as int) == kept
        }),
{
    let bytes = encode_utf8(body);
    encode_utf8_valid_utf8(body);
    let cut = last_boundary_at_most(bytes, limit as int);
    last_boundary_is_a_boundary(bytes, limit as int);
    valid_utf8_split(bytes, cut);
    decode_utf8_split(bytes, cut);
    encode_utf8_decode_utf8(body);
    decode_utf8_encode_utf8(bytes.take(cut));
    assert(bytes.subrange(0, cut) == bytes.take(cut));
    let kept = decode_utf8(bytes.take(cut));
    let rest = decode_utf8(bytes.subrange(cut, bytes.len() as int));
    assert(body == kept + rest);
    assert(body.take(kept.len() as int) =~= kept);
}

/// A mock frame of `count` pixels is tightly packed: four bytes per pixel.
pub proof fn mock_frames_are_tightly_packed(id: u64, width: u32, count: nat)
    ensures
        mock_frame_bytes(id, width, count as int).len() == 4 * count,
    decreases count,
{
    if count > 0 {
        mock_frames_are_tightly_packed(id, width, (count - 1) as nat);
    }
}

/// Hover never means keyboard ownership: from a gate without focus
/// permission, only an explicit click (a button press) grants it.
pub proof fn only_a_click_grants_keyboard_focus(signal: FocusGateSignal)
    ensures
        focus_gate_spec(false, signal).keyboard_focus_enabled ==> signal is ButtonPress,
        focus_gate_spec(false, signal).grant_focus ==> signal is ButtonPress,
{
}

/// Without focus permission a key press never reaches the web content: it is
/// swallowed, focus is handed back to the host, and lost focus is reported.
/// Losing focus always withdraws the permission.
pub proof fn typing_without_permission_is_swallowed(enabled: bool)
    ensures
        !enabled ==> focus_gate_spec(enabled, FocusGateSignal::KeyPress).stop_propagation
            && focus_gate_spec(enabled, FocusGateSignal::KeyPress).deny_focus
            && !focus_gate_spec(enabled, FocusGateSignal::KeyPress).keyboard_focus_enabled
            && focus_gate_spec(enabled, FocusGateSignal::KeyPress).event == Some(
            WebViewEvent::FocusChanged { focused: false },
        ),
        !focus_gate_spec(enabled, FocusGateSignal::FocusOut).keyboard_focus_enabled,
{
}

/// A synchronization hands the controller the new placement's bounds, as its
/// first call, whenever they differ from the last synchronized bounds in any
/// coordinate (position or size, compared as binary64 values); when all four
/// coordinates are equal it sends no bounds at all.
pub proof fn sync_sends_bounds_exactly_when_a_coordinate_changed(
    policy: WebViewAreaPolicy,
    status: WebViewAreaStatus,
    state: WebViewAreaState,
)
    ensures
        ({
            let new = policy.spec_resolve(state).bounds;
            let old = status.placement.bounds;
            let unchanged = float_eq(old.x_bits, new.x_bits) && float_eq(old.y_bits, new.y_bits)
                && float_eq(old.width_bits, new.width_bits) && float_eq(
                old.height_bits,
                new.height_bits,
            );
            let calls = sync_calls(policy, status, state);
            &&& !unchanged ==> calls.len() >= 1 && calls[0] == ControllerCall::SetBounds(new)
            &&& unchanged ==> forall|i: int| 0 <= i < calls.len() ==> !(#[trigger] calls[i] is SetBounds)
        }),
{
    let placement = policy.spec_resolve(state);
    let new = placement.bounds;
    let old = status.placement.bounds;
    let visible_part: Seq<ControllerCall> = if status.placement.native_visible
        != placement.native_visible {
        seq![ControllerCall::SetVisible(placement.native_visible)]
    } else {
        Seq::empty()
    };
    let focus_part: Seq<ControllerCall> = if crate::area::should_release_focus(
        policy,
        placement,
        state,
    ) && status.keyboard_focus_enabled {
        release_calls()
    } else {
        Seq::empty()
    };
    let calls = sync_calls(policy, status, state);
    if !old.same_as(new) {
        assert(calls == seq![ControllerCall::SetBounds(new)] + visible_part + focus_part);
        assert(calls[0] == ControllerCall::SetBounds(new));
    } else {
        assert(calls =~= visible_part + focus_part);
        assert forall|i: int| 0 <= i < calls.len() implies !(#[trigger] calls[i] is SetBounds) by {
            if i < visible_part.len() {
                assert(calls[i] == visible_part[i]);
            } else {
                assert(calls[i] == focus_part[i - visible_part.len()]);
            }
        }
    }
}

/// A native focus change, gained or lost, sets the area's keyboard focus
/// flag to the new focus and leaves its state and placement alone, also when
/// it arrives through a drain.
pub proof fn focus_change_events_set_keyboard_focus(status: WebViewAreaStatus, focused: bool)
    ensures
        event_status(status, WebViewEvent::FocusChanged { focused }).keyboard_focus_enabled
            == focused,
        event_status(status, WebViewEvent::FocusChanged { focused }).state == status.state,
        event_status(status, WebViewEvent::FocusChanged { focused }).placement
            == status.placement,
        events_status(status, seq![WebViewEvent::FocusChanged { focused }]).keyboard_focus_enabled
            == focused,
{
    let events = seq![WebViewEvent::FocusChanged { focused }];
    assert(events.drop_last() =~= Seq::<WebViewEvent>::empty());
    assert(events.last() == WebViewEvent::FocusChanged { focused });
}

/// A placement that is not parked keeps valid area bounds exactly, whatever
/// the strategy, overlay or visibility; only parking or invalid bounds move
/// the webview to the fallback rectangle.
pub proof fn unparked_area_keeps_valid_bounds(policy: WebViewAreaPolicy, state: WebViewAreaState)
    ensures
        !policy.spec_resolve(state).parked && state.bounds.spec_is_valid()
            ==> policy.spec_resolve(state).bounds == state.bounds,
        policy.spec_resolve(state).parked || !state.bounds.spec_is_valid()
            ==> policy.spec_resolve(state).bounds == policy.fallback_bounds(),
{
}

/// The mock echoes every host focus change, gained or lost, as the same
/// focus change; a pressed pointer button requests focus, and a released
/// one reports nothing.
pub proof fn mock_input_reports_focus(
    focused: bool,
    x_bits: u64,
    y_bits: u64,
    button: RenderedWebViewPointerButton,
    click_count: u8,
    modifiers: RenderedWebViewModifiers,
)
    ensures
        input_focus_event(RenderedWebViewInputEvent::FocusChanged { focused }) == Some(
            WebViewEvent::FocusChanged { focused },
        ),
        input_focus_event(
            RenderedWebViewInputEvent::PointerButton {
                x_bits,
                y_bits,
                button,
                state: RenderedWebViewInputState::Pressed,
                click_count,
                modifiers,
            },
        ) == Some(WebViewEvent::FocusRequested),
        input_focus_event(
            RenderedWebViewInputEvent::PointerButton {
                x_bits,
                y_bits,
                button,
                state: RenderedWebViewInputState::Released,
                click_count,
                modifiers,
            },
        ) is None,
{
}

} // verus!
