//! The fixed texts of a run: the harness page, the probe script, the paths
//! and addresses, and the settings built from them.

use vstd::prelude::*;

verus! {

/// The page that the browser is sent to. Its first script wraps the console
/// functions so that every message is also pushed onto `window.TEST_LOGS`;
/// its second loads the loader script, which runs the artifact.
pub const HARNESS_PAGE: &'static str = "<doctype !HTML>
<html>
  <head>
    <script>
      var kinds = ['error', 'info', 'debug', 'warn', 'log'];
      window.TEST_LOGS = [];
      kinds.forEach(function (kind) {
        var old = console[kind];
        console[kind] = function() {
          var args = Array.prototype.slice.call(arguments);
          old.apply(this, args);
          window.TEST_LOGS.push(args.join(' '));
        }
      });
    </script>
    <script src='/load.js'></script>
  </head>
  <body>
  </body>
</html>";

/// The script executed in the page on every poll. It answers with the exit
/// flag, the exit status and the buffered console lines, and empties the
/// buffer.
pub const PROBE_SCRIPT: &'static str =
    "var res = [window.runtimeExited, window.EXITSTATUS, window.TEST_LOGS]; window.TEST_LOGS=[]; return res;";

/// The request path of the harness page.
pub const ROOT_PATH: &'static str = "/";

/// The request path of the loader script.
pub const LOADER_PATH: &'static str = "/load.js";

/// What stands between a directory and a file name in a path.
pub const PATH_SEPARATOR: &'static str = "/";

/// What a file name ends with when it is a script.
pub const SCRIPT_SUFFIX: &'static str = ".js";

/// The body sent in place of a file that cannot be had.
pub const NOT_FOUND: &'static str = "file not found";

/// Where the build leaves the artifact and the files beside it.
pub const BUILD_DIR: &'static str = "./target/wasm32-unknown-emscripten/debug/deps";

/// The address that the asset server listens on.
pub const SERVER_ADDRESS: &'static str = "0.0.0.0:7777";

/// The address of the harness page as the browser reaches it.
pub const HARNESS_URL: &'static str = "http://localhost:7777/";

/// The automation endpoint used when none is configured.
pub const DEFAULT_ENDPOINT: &'static str = "http://localhost:4444";

/// The environment variable that configures the automation endpoint.
pub const ENDPOINT_VARIABLE: &'static str = "CARGO_WASM_WEBCLIENT_URL";

/// How long the server and its starter sleep when there is nothing to do.
pub const IDLE_SLEEP_MILLIS: u64 = 10;

/// The exit code of a run whose result was never learned.
pub const FAILURE_CODE: i32 = 1;

/// The addresses and directories of one run.
#[derive(Debug, Clone, PartialEq, Eq)]
pub struct Settings {
    /// The address that the asset server binds.
    pub server_address: String,
    /// The address that the browser is sent to.
    pub harness_url: String,
    /// The directory that assets are served from.
    pub build_dir: String,
    /// The automation endpoint.
    pub endpoint: String,
}

impl Settings {
    /// The standard settings, with the automation endpoint `configured`
    /// where there is one and [`DEFAULT_ENDPOINT`] otherwise.
    pub fn standard(configured: Option<String>) -> (settings: Settings)
        ensures
            settings.server_address@ == SERVER_ADDRESS@,
            settings.harness_url@ == HARNESS_URL@,
            settings.build_dir@ == BUILD_DIR@,
            settings.endpoint@ == match configured {
                Some(endpoint) => endpoint@,
                None => DEFAULT_ENDPOINT@,
            },
    {
        let endpoint = match configured {
            Some(endpoint) => endpoint,
            None => DEFAULT_ENDPOINT.to_owned(),
        };
        Settings {
            server_address: SERVER_ADDRESS.to_owned(),
            harness_url: HARNESS_URL.to_owned(),
            build_dir: BUILD_DIR.to_owned(),
            endpoint,
        }
    }
}

} // verus!
