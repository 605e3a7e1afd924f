//! The server's configuration, from texts that the environment gives.

use crate::text::{decimal, decimal_text, optional_text, parse_u16, u16_value};
use vstd::prelude::*;

verus! {

/// The port when none is configured.
pub const DEFAULT_PORT: u16 = 8081;

/// The host when none is configured.
pub const DEFAULT_HOST: &'static str = "0.0.0.0";

/// Where the server listens.
#[derive(Debug)]
pub struct Config {
    pub port: u16,
    pub host: String,
}

/// The port that a text gives; the default where there is no text or the text is no port.
pub open spec fn configured_port(text: Option<Seq<char>>) -> u16 {
    match text {
        Some(text) => match u16_value(text) {
            Some(port) => port,
            None => DEFAULT_PORT,
        },
        None => DEFAULT_PORT,
    }
}

/// Reads the configuration out of the texts of `PORT` and `HOST`.
pub fn load_config(port: Option<&str>, host: Option<String>) -> (config: Config)
    ensures
        config.port == configured_port(optional_text(port)),
        match host {
            Some(host) => config.host@ == host@,
            None => config.host@ == DEFAULT_HOST@ && config.host@ == "0.0.0.0"@,
        },
{
    let port: u16 = match port {
        Some(text) => match parse_u16(text) {
            Some(port) => port,
            None => DEFAULT_PORT,
        },
        None => DEFAULT_PORT,
    };
    let host: String = match host {
        Some(host) => host,
        None => DEFAULT_HOST.to_string(),
    };
    Config { port, host }
}

/// Host and port, with a colon between them.
pub open spec fn address_text(host: Seq<char>, port: u16) -> Seq<char> {
    host + ":"@ + decimal(port as nat)
}

/// A row of equals signs, seventy of them.
pub open spec fn separator_text() -> Seq<char> {
    Seq::new(70, |i: int| '=')
}

/// What the server prints when it starts.
pub open spec fn banner_text(port: u16) -> Seq<char> {
    "\n"@ + separator_text() + "\n  Backend API running at http://localhost:"@ + decimal(port as nat)
        + "\n  GET  /api/session\n  POST /api/transcription (auth required)\n"@
        + "  GET  /api/metadata\n  GET  /health\n"@ + separator_text() + "\n\n"@
}

/// A row of equals signs, seventy of them.
fn separator() -> (row: String)
    ensures
        row@ == separator_text(),
{
    proof {
        reveal_strlit("=");
    }
    let mut row: String = String::new();
    let mut i: usize = 0;
    while i < 70
        invariant
            i <= 70,
            row@ == Seq::new(i as nat, |i: int| '='),
            "="@ == seq!['='],
        decreases 70 - i,
    {
        row.append("=");
        i += 1;
        assert(row@ =~= Seq::new(i as nat, |i: int| '='));
    }
    row
}

impl Config {
    /// The address to listen on.
    pub fn address(&self) -> (address: String)
        ensures
            address@ == address_text(self.host@, self.port),
    {
        let mut address: String = self.host.clone();
        address.append(":");
        address.append(decimal_text(self.port).as_str());
        address
    }

    /// What the server prints when it starts.
    pub fn banner(&self) -> (banner: String)
        ensures
            banner@ == banner_text(self.port),
    {
        let row: String = separator();
        let mut banner: String = "\n".to_string();
        banner.append(row.as_str());
        banner.append("\n  Backend API running at http://localhost:");
        banner.append(decimal_text(self.port).as_str());
        banner.append("\n  GET  /api/session\n  POST /api/transcription (auth required)\n");
        banner.append("  GET  /api/metadata\n  GET  /health\n");
        banner.append(row.as_str());
        banner.append("\n\n");
        banner
    }
}

/// What is printed where no API key is configured.
pub const API_KEY_HELP: &'static str =
    "\n  ERROR: Deepgram API key not found!\n\nPlease set your API key using one of these methods:\n\n1. Create a .env file (recommended):\n   DEEPGRAM_API_KEY=your_api_key_here\n\n2. Environment variable:\n   export DEEPGRAM_API_KEY=your_api_key_here\n\nGet your API key at: https://console.deepgram.com\n\n";

/// The API key, where one is configured that is not empty.
pub fn load_api_key(configured: Option<String>) -> (key: Option<String>)
    ensures
        match configured {
            Some(text) if text@.len() > 0 => key matches Some(key) && key@ == text@,
            _ => key is None,
        },
{
    match configured {
        Some(key) => if key.as_str().is_empty() {
            None
        } else {
            Some(key)
        },
        None => None,
    }
}

/// An address ends with its port, which reads back from what follows the host and the colon.
pub proof fn address_keeps_port(host: Seq<char>, port: u16)
    ensures
        u16_value(address_text(host, port).skip(host.len() + 1int)) == Some(port),
{
    reveal_strlit(":");
    assert(address_text(host, port).skip(host.len() + 1int) =~= decimal(port as nat));
    crate::text::decimal_reads_back(port);
}

/// A configured port counts when it is written in decimal.
pub proof fn configured_port_counts(port: u16)
    ensures
        configured_port(Some(decimal(port as nat))) == port,
{
    crate::text::decimal_reads_back(port);
}

/// Every text that is a 16-bit number is the port, and 8081 is the port where there is no text or
/// the text is no such number.
pub proof fn port_is_the_number_given(text: Seq<char>)
    ensures
        u16_value(text) matches Some(port) ==> configured_port(Some(text)) == port,
        u16_value(text) is None ==> configured_port(Some(text)) == 8081,
        configured_port(None) == 8081,
{
}

/// An address is the host as it was given, a colon, and the port in decimal.
pub proof fn address_names_host_and_port(host: Seq<char>, port: u16)
    ensures
        address_text(host, port).len() == host.len() + 1 + decimal(port as nat).len(),
        address_text(host, port).take(host.len() as int) == host,
        address_text(host, port)[host.len() as int] == ':',
        address_text(host, port).skip(host.len() + 1int) == decimal(port as nat),
{
    reveal_strlit(":");
    assert(":"@.len() == 1 && ":"@[0] == ':');
    assert(address_text(host, port).take(host.len() as int) =~= host);
    assert(address_text(host, port).skip(host.len() + 1int) =~= decimal(port as nat));
}

/// The banner is the same for every port but for the port, which stands in it in decimal.
pub proof fn banner_names_the_port(port: u16)
    ensures
        ({
            let row = Seq::new(70, |i: int| '=');
            let head = "\n"@ + row + "\n  Backend API running at http://localhost:"@;
            let tail = "\n  GET  /api/session\n  POST /api/transcription (auth required)\n"@
                + "  GET  /api/metadata\n  GET  /health\n"@ + row + "\n\n"@;
            banner_text(port) == head + decimal(port as nat) + tail
        }),
{
    let row = Seq::new(70, |i: int| '=');
    assert(separator_text() =~= row);
    let head = "\n"@ + row + "\n  Backend API running at http://localhost:"@;
    let tail = "\n  GET  /api/session\n  POST /api/transcription (auth required)\n"@
        + "  GET  /api/metadata\n  GET  /health\n"@ + row + "\n\n"@;
    assert(banner_text(port) =~= head + decimal(port as nat) + tail);
}

} // verus!
