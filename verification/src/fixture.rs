//! Deterministic fixture content for smoke and regression runs.
use vstd::prelude::*;

verus! {

/// Token present in the fixture document title and DOM state.
pub const FIXTURE_READY_TOKEN: &'static str = "slint-webview-fixture-ready";

/// The deterministic fixture document used by smoke and regression tests.
///
/// The page sets its title to the ready token, exposes
/// `window.__slintWebViewTest.state()` for DOM probes, and reports pointer and
/// keyboard activity to the host as IPC messages of the form
/// `{"source":"fixture","kind":"activity","token":<ready token>}`.
pub const FIXTURE_HTML: &'static str = "<!doctype html>
<html>
<head>
<meta charset='utf-8'>
<title>slint-webview-fixture-ready</title>
<style>
html, body { margin: 0; height: 100%; background: #29c4b6; color: #102a3a; font: 16px sans-serif; }
main { padding: 24px; }
#sentinel { width: 96px; height: 96px; background: #ff00ff; }
input { margin-top: 16px; font-size: 16px; }
</style>
</head>
<body>
<main>
<h1 id='heading'>slint-webview fixture</h1>
<div id='sentinel'></div>
<input id='web-input' placeholder='type inside the webview'>
<p id='status'>slint-webview-fixture-ready</p>
</main>
<script>
(function () {
  var token = 'slint-webview-fixture-ready';
  var clicks = 0;
  var keys = 0;
  function post(kind) {
    if (window.ipc && window.ipc.postMessage) {
      window.ipc.postMessage(JSON.stringify({ source: 'fixture', kind: kind, token: token }));
    }
  }
  document.addEventListener('pointerdown', function () { clicks += 1; post('activity'); });
  document.addEventListener('keydown', function () { keys += 1; post('activity'); });
  window.__slintWebViewTest = {
    state: function () {
      var input = document.getElementById('web-input');
      return {
        token: token,
        title: document.title,
        ready: document.readyState,
        clicks: clicks,
        keys: keys,
        inputValue: input ? input.value : null,
        focused: document.activeElement ? document.activeElement.id : null
      };
    }
  };
  document.title = token;
  post('ready');
})();
</script>
</body>
</html>
";

/// JavaScript that serializes the fixture's DOM state as JSON.
pub const FIXTURE_STATE_SCRIPT: &'static str = "JSON.stringify(window.__slintWebViewTest.state())";

/// Returns the deterministic fixture HTML used by smoke and regression tests:
/// [`FIXTURE_HTML`].
pub fn fixture_html() -> (r: &'static str)
    ensures
        r == FIXTURE_HTML,
{
    FIXTURE_HTML
}

/// Returns JavaScript that serializes fixture state as JSON:
/// [`FIXTURE_STATE_SCRIPT`].
pub fn fixture_state_script() -> (r: &'static str)
    ensures
        r == FIXTURE_STATE_SCRIPT,
{
    FIXTURE_STATE_SCRIPT
}

} // verus!
