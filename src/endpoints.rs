use vstd::prelude::*;

use crate::text::{contains, has_prefix, text_contains, text_occurs_at};

verus! {

/// The RPC URL that a cluster moniker stands for; any other text is taken
/// as a URL already.
pub open spec fn moniker_url(s: Seq<char>) -> Seq<char> {
    if s == "m"@ || s == "mainnet-beta"@ {
        "https://api.mainnet-beta.solana.com"@
    } else if s == "t"@ || s == "testnet"@ {
        "https://api.testnet.solana.com"@
    } else if s == "d"@ || s == "devnet"@ {
        "https://api.devnet.solana.com"@
    } else if s == "l"@ || s == "localhost"@ {
        "http://localhost:8899"@
    } else {
        s
    }
}

/// The WebSocket URL that goes with an RPC URL.
pub uninterp spec fn websocket_url_of(json_rpc_url: Seq<char>) -> Seq<char>;

/// Tab, line feed and carriage return, which the URL parser drops wherever
/// they stand, even between the digits of a port.
pub open spec fn skipped_by_url_parser(c: char) -> bool {
    c == '\t' || c == '\n' || c == '\r'
}

/// An RPC URL from which the WebSocket URL is derived without a panic: an
/// http or https URL, with no `65535` in it (the port after 65535 does not
/// exist), and with no character that the parser drops, so that a port of
/// 65535 cannot be written in pieces.
pub open spec fn websocket_derivable(url: Seq<char>) -> bool {
    &&& has_prefix(url, "http://"@) || has_prefix(url, "https://"@)
    &&& !contains(url, "65535"@)
    &&& forall|i: int| 0 <= i < url.len() ==> !skipped_by_url_parser(#[trigger] url[i])
}

/// Relies on solana_clap_v3_utils::input_validators::normalize_to_url_if_moniker,
/// which maps the four cluster monikers to their URLs and returns any other
/// text as it is.
#[verifier::external_body]
fn normalize_url(url_or_moniker: &str) -> (r: String)
    ensures
        r@ == moniker_url(url_or_moniker@),
{
    solana_clap_v3_utils::input_validators::normalize_to_url_if_moniker(url_or_moniker)
}

/// Relies on solana_cli_config::Config::compute_websocket_url, whose result
/// depends on the RPC URL alone. It panics when the scheme cannot become
/// `ws`/`wss` or the port is 65535, which `websocket_derivable` rules out.
#[verifier::external_body]
fn websocket_url(json_rpc_url: &str) -> (r: String)
    requires
        websocket_derivable(json_rpc_url@),
    ensures
        r@ == websocket_url_of(json_rpc_url@),
{
    solana_cli_config::Config::compute_websocket_url(json_rpc_url)
}

/// Whether some character of `s` is one that the URL parser drops.
fn has_skipped_char(s: &str) -> (r: bool)
    ensures
        r == exists|i: int| 0 <= i < s@.len() && skipped_by_url_parser(#[trigger] s@[i]),
{
    let n = s.unicode_len();
    let mut i: usize = 0;
    while i < n
        invariant
            n == s@.len(),
            i <= n,
            forall|k: int| 0 <= k < i ==> !skipped_by_url_parser(#[trigger] s@[k]),
        decreases n - i,
    {
        let c = s.get_char(i);
        if c == '\t' || c == '\n' || c == '\r' {
            return true;
        }
        i = i + 1;
    }
    false
}

/// Whether the WebSocket URL can be derived from `url`.
pub fn is_websocket_derivable(url: &str) -> (r: bool)
    ensures
        r == websocket_derivable(url@),
{
    (text_occurs_at(url, "http://", 0) || text_occurs_at(url, "https://", 0)) && !text_contains(
        url,
        "65535",
    ) && !has_skipped_char(url)
}

/// The two endpoints of a cluster.
#[derive(Debug, PartialEq, Eq)]
pub struct Endpoints {
    pub json_rpc_url: String,
    pub websocket_url: String,
}

/// The URL for a cluster given as a URL or a moniker.
pub fn normalize_to_url_if_moniker(url_or_moniker: &str) -> (r: String)
    ensures
        r@ == moniker_url(url_or_moniker@),
{
    normalize_url(url_or_moniker)
}

/// The endpoints to use: the URL or moniker given on the command line, else
/// the configured one, as a URL; and the WebSocket URL computed from it. A
/// URL from which no WebSocket URL can be derived is a configuration error.
pub fn resolve_endpoints(given: Option<String>, configured: String) -> (r: Result<
    Endpoints,
    String,
>)
    ensures
        ({
            let url = moniker_url(
                match given {
                    Some(u) => u@,
                    None => configured@,
                },
            );
            match r {
                Ok(e) => websocket_derivable(url) && e.json_rpc_url@ == url
                    && e.websocket_url@ == websocket_url_of(url),
                Err(message) => !websocket_derivable(url) && message@ == "unsupported RPC URL: "@
                    + url,
            }
        }),
{
    let chosen = match given {
        Some(u) => u,
        None => configured,
    };
    let json_rpc_url = normalize_url(chosen.as_str());
    if !is_websocket_derivable(json_rpc_url.as_str()) {
        let mut message = String::from_str("unsupported RPC URL: ");
        message.append(json_rpc_url.as_str());
        return Err(message);
    }
    let websocket_url = websocket_url(json_rpc_url.as_str());
    Ok(Endpoints { json_rpc_url, websocket_url })
}

impl Endpoints {
    /// The lines printed in verbose mode.
    pub fn verbose_lines(&self) -> (r: Vec<String>)
        ensures
            r@.len() == 2,
            r@[0]@ == "JSON RPC URL: "@ + self.json_rpc_url@,
            r@[1]@ == "Websocket URL: "@ + self.websocket_url@,
    {
        let mut rpc = String::from_str("JSON RPC URL: ");
        rpc.append(self.json_rpc_url.as_str());
        let mut ws = String::from_str("Websocket URL: ");
        ws.append(self.websocket_url.as_str());
        let mut out: Vec<String> = Vec::new();
        out.push(rpc);
        out.push(ws);
        out
    }
}

} // verus!
