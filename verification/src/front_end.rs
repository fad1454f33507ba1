//! The three front ends: the settings each one starts with and the lines
//! each one prints at start. Printing, and serving requests, is left to
//! the caller.

use vstd::prelude::*;
use crate::config::{AppConfig, LogLevel};
use crate::network::NetworkConfig;

verus! {

/// The views of the strings of `lines`, in order.
pub open spec fn line_texts(lines: Seq<String>) -> Seq<Seq<char>> {
    Seq::new(lines.len(), |i: int| lines[i]@)
}

/// The lines of the application's report.
pub open spec fn app_report_text(
    app: AppConfig,
    network: NetworkConfig,
    id: Seq<char>,
) -> Seq<Seq<char>> {
    seq![
        "App Configuration: "@ + app.spec_debug_text(),
        "Network Config: "@ + network.spec_connection_string(),
        "Unique Session ID: "@ + id,
    ]
}

/// The lines of the command-line tool's report.
pub open spec fn cli_report_text(network: NetworkConfig, id: Seq<char>) -> Seq<Seq<char>> {
    seq![
        "CLI Application"@,
        "Network Config: "@ + network.spec_connection_string(),
        "Session ID: "@ + id,
    ]
}

/// The lines of the web server's banner.
pub open spec fn web_banner_text(network: NetworkConfig, id: Seq<char>) -> Seq<Seq<char>> {
    seq!["Web Server starting on "@ + network.spec_connection_string(), "Session ID: "@ + id]
}

/// `prefix` followed by `rest`, as one line.
fn line(prefix: &str, rest: &str) -> (text: String)
    ensures
        text@ == prefix@ + rest@,
{
    let mut text = String::from_str(prefix);
    text.append(rest);
    text
}

/// The settings the application runs with: debugging on, at level `Debug`.
pub fn app_settings() -> (app: AppConfig)
    ensures
        app.debug_mode,
        app.log_level == LogLevel::Debug,
{
    AppConfig { debug_mode: true, log_level: LogLevel::Debug }
}

/// The endpoint of the application: `localhost`, port 8080.
pub fn app_endpoint() -> (network: NetworkConfig)
    ensures
        network.host@ == "localhost"@,
        network.port == 8080,
{
    NetworkConfig::new("localhost", 8080)
}

/// The endpoint of the command-line tool: `127.0.0.1`, port 9090.
pub fn cli_endpoint() -> (network: NetworkConfig)
    ensures
        network.host@ == "127.0.0.1"@,
        network.port == 9090,
{
    NetworkConfig::new("127.0.0.1", 9090)
}

/// The endpoint that the web server binds: every interface, port 3000.
pub fn web_endpoint() -> (network: NetworkConfig)
    ensures
        network.host@ == "0.0.0.0"@,
        network.port == 3000,
{
    NetworkConfig::new("0.0.0.0", 3000)
}

/// What the application prints: its settings, its endpoint and the
/// session identifier, one line each.
pub fn app_report(
    app: &AppConfig,
    network: &NetworkConfig,
    session_id: &str,
) -> (lines: Vec<String>)
    ensures
        line_texts(lines@) == app_report_text(*app, *network, session_id@),
{
    let settings = app.debug_text();
    let address = network.connection_string();
    let mut lines: Vec<String> = Vec::new();
    lines.push(line("App Configuration: ", settings.as_str()));
    lines.push(line("Network Config: ", address.as_str()));
    lines.push(line("Unique Session ID: ", session_id));
    lines
}

/// What the command-line tool prints: its title, its endpoint and the
/// session identifier, one line each.
pub fn cli_report(network: &NetworkConfig, session_id: &str) -> (lines: Vec<String>)
    ensures
        line_texts(lines@) == cli_report_text(*network, session_id@),
{
    let address = network.connection_string();
    let mut lines: Vec<String> = Vec::new();
    lines.push(String::from_str("CLI Application"));
    lines.push(line("Network Config: ", address.as_str()));
    lines.push(line("Session ID: ", session_id));
    lines
}

/// What the web server prints before it binds its endpoint: where it
/// starts, and the session identifier.
pub fn web_banner(network: &NetworkConfig, session_id: &str) -> (lines: Vec<String>)
    ensures
        line_texts(lines@) == web_banner_text(*network, session_id@),
{
    let address = network.connection_string();
    let mut lines: Vec<String> = Vec::new();
    lines.push(line("Web Server starting on ", address.as_str()));
    lines.push(line("Session ID: ", session_id));
    lines
}

/// The body of the web server's answer to a request for its root path:
/// the same greeting for every request.
pub fn web_root_body() -> (body: &'static str)
    ensures
        body@ == "Hello, World!"@,
{
    "Hello, World!"
}

} // verus!
