//! Construction of the native-driver invocation.
//!
//! The supervisor owns the one native-driver child process.  Everything
//! about its invocation is decided here and returned as plain data: the
//! program, the automation-mode environment contract, the port and host
//! flags, and whether child windows must be suppressed.  Spawning, and the
//! process-group enrolment that guarantees no child outlives the
//! intermediary, are platform work done outside the library on exactly this
//! description.

use vstd::prelude::*;
use crate::digits::{dec_rep, u16_to_string};
use crate::text::append_str;

verus! {

/// The platform variance that matters to the supervisor, selected once at
/// startup: which well-known driver binary to look for, and whether spawned
/// children would pop up console windows unless suppressed.
#[derive(Clone, Copy, Debug, PartialEq, Eq, Structural)]
pub enum Platform {
    Linux,
    Windows,
}

/// The well-known native-driver binary name on each platform.
pub open spec fn spec_driver_binary(p: Platform) -> Seq<char> {
    match p {
        Platform::Linux => "WebKitWebDriver"@,
        Platform::Windows => "msedgedriver.exe"@,
    }
}

/// The binary name searched for on the system path.
pub fn driver_binary_name(p: Platform) -> (r: &'static str)
    ensures
        r@ == spec_driver_binary(p),
{
    match p {
        Platform::Linux => "WebKitWebDriver",
        Platform::Windows => "msedgedriver.exe",
    }
}

/// The immutable configuration of the native-driver child process: the
/// resolved executable and where it must listen.
pub struct NativeDriverConfig {
    pub executable: String,
    pub port: u16,
    pub host: String,
}

/// A complete description of one process invocation, as plain data.
pub struct CommandSpec {
    pub program: String,
    pub env: Vec<(String, String)>,
    pub args: Vec<String>,
    pub suppress_window: bool,
}

/// Builds the native-driver invocation: the resolved executable, both
/// automation-mode environment variables (one per supported major version
/// of the plugin compatibility contract), the `--port` and `--host` flags,
/// and window suppression on the platform that would otherwise show console
/// windows for the child and its descendants.
pub fn build_native_command(config: NativeDriverConfig, platform: Platform) -> (c: CommandSpec)
    ensures
        c.program@ == config.executable@,
        c.env@.len() == 2,
        c.env@[0].0@ == "TAURI_AUTOMATION"@ && c.env@[0].1@ == "true"@,
        c.env@[1].0@ == "TAURI_WEBVIEW_AUTOMATION"@ && c.env@[1].1@ == "true"@,
        c.args@.len() == 2,
        c.args@[0]@ == "--port="@ + dec_rep(config.port as nat),
        c.args@[1]@ == "--host="@ + config.host@,
        c.suppress_window == (platform == Platform::Windows),
{
    let mut port_arg = "--port=".to_owned();
    let port_text = u16_to_string(config.port);
    append_str(&mut port_arg, port_text.as_str());
    let mut host_arg = "--host=".to_owned();
    append_str(&mut host_arg, config.host.as_str());
    let mut env: Vec<(String, String)> = Vec::new();
    env.push(("TAURI_AUTOMATION".to_owned(), "true".to_owned()));
    env.push(("TAURI_WEBVIEW_AUTOMATION".to_owned(), "true".to_owned()));
    let mut args: Vec<String> = Vec::new();
    args.push(port_arg);
    args.push(host_arg);
    let suppress_window = match platform {
        Platform::Windows => true,
        Platform::Linux => false,
    };
    CommandSpec { program: config.executable, env, args, suppress_window }
}

} // verus!
