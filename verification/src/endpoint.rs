//! The address under which the front end reaches the API backend.

use crate::text::{
    contains, contains_text, decimal, ends_with, format_decimal, is_digit,
    lemma_decimal_holds_digits, occurs_at, starts_with,
};
use vstd::prelude::*;
use vstd::string::*;

verus! {

/// An IPv4 address, by its four octets.
#[derive(Clone, Copy, Debug, PartialEq, Eq, Structural)]
pub struct Ipv4Host {
    pub a: u8,
    pub b: u8,
    pub c: u8,
    pub d: u8,
}

/// The address that stands in where no address of the local network is known.
pub open spec fn fallback_host() -> Ipv4Host {
    Ipv4Host { a: 127, b: 0, c: 0, d: 1 }
}

/// The host that LAN access goes through: the address found, or the fallback.
pub open spec fn lan_host_or_fallback(found: Option<Ipv4Host>) -> Ipv4Host {
    match found {
        Some(host) => host,
        None => fallback_host(),
    }
}

/// An address in dotted decimal notation.
pub open spec fn host_text(host: Ipv4Host) -> Seq<char> {
    decimal(host.a as nat) + "."@ + decimal(host.b as nat) + "."@ + decimal(host.c as nat) + "."@
        + decimal(host.d as nat)
}

/// The base URL of an API backend on this machine.
pub open spec fn loopback_url_text(port: u16) -> Seq<char> {
    "http://localhost:"@ + decimal(port as nat) + "/v1/"@
}

/// The base URL of an API backend reached through `host`.
pub open spec fn lan_url_text(host: Ipv4Host, port: u16) -> Seq<char> {
    "http://"@ + host_text(host) + ":"@ + decimal(port as nat) + "/v1/"@
}

impl Ipv4Host {
    /// The address `a.b.c.d`.
    pub fn new(a: u8, b: u8, c: u8, d: u8) -> (host: Self)
        ensures
            host == (Ipv4Host { a, b, c, d }),
    {
        Ipv4Host { a, b, c, d }
    }

    /// Writes the address in dotted decimal notation.
    pub fn to_text(&self) -> (text: String)
        ensures
            text@ == host_text(*self),
    {
        let mut text = format_decimal(self.a as u16);
        text.append(".");
        text.append(format_decimal(self.b as u16).as_str());
        text.append(".");
        text.append(format_decimal(self.c as u16).as_str());
        text.append(".");
        text.append(format_decimal(self.d as u16).as_str());
        text
    }
}

/// Takes the address found for LAN access, or `127.0.0.1` where none was.
pub fn lan_host(found: Option<Ipv4Host>) -> (host: Ipv4Host)
    ensures
        host == lan_host_or_fallback(found),
{
    match found {
        Some(host) => host,
        None => Ipv4Host::new(127, 0, 0, 1),
    }
}

/// Writes the base URL of an API backend on this machine.
pub fn loopback_url(port: u16) -> (url: String)
    ensures
        url@ == loopback_url_text(port),
{
    let mut url = String::from_str("http://localhost:");
    url.append(format_decimal(port).as_str());
    url.append("/v1/");
    url
}

/// Writes the base URL of an API backend reached through `host`.
pub fn lan_url(host: Ipv4Host, port: u16) -> (url: String)
    ensures
        url@ == lan_url_text(host, port),
{
    let mut url = String::from_str("http://");
    url.append(host.to_text().as_str());
    url.append(":");
    url.append(format_decimal(port).as_str());
    url.append("/v1/");
    url
}

/// How the endpoint is to be determined at startup.
#[derive(Clone, Debug, PartialEq, Eq)]
pub enum SelectMode {
    /// The caller supplies the complete server URL.
    Fixed { url: String },
    /// An operator picks between LAN and local access to the given API port.
    Interactive { port: u16 },
}

/// The endpoint that the front end is told to use.
#[derive(Clone, Debug, PartialEq, Eq)]
pub enum EndpointChoice {
    /// A server URL that the caller supplied, used as it is.
    Fixed { url: String },
    /// The API backend on this machine, reached through `localhost`.
    Loopback { port: u16 },
    /// The API backend reached through an address of the local network.
    LanVisible { host_ip: Ipv4Host, port: u16 },
}

impl EndpointChoice {
    /// The base URL that the choice stands for.
    pub open spec fn url(&self) -> Seq<char> {
        match self {
            EndpointChoice::Fixed { url } => url@,
            EndpointChoice::Loopback { port } => loopback_url_text(*port),
            EndpointChoice::LanVisible { host_ip, port } => lan_url_text(*host_ip, *port),
        }
    }

    /// Whether the endpoint can be reached from this machine only.
    pub open spec fn local_only(&self) -> bool {
        self is Loopback
    }

    /// Writes the base URL that the choice stands for.
    pub fn base_url(&self) -> (url: String)
        ensures
            url@ == self.url(),
    {
        match self {
            EndpointChoice::Fixed { url } => url.clone(),
            EndpointChoice::Loopback { port } => loopback_url(*port),
            EndpointChoice::LanVisible { host_ip, port } => lan_url(*host_ip, *port),
        }
    }

    /// Tells whether the endpoint can be reached from this machine only.
    pub fn is_local_only(&self) -> (local: bool)
        ensures
            local == self.local_only(),
    {
        match self {
            EndpointChoice::Loopback { .. } => true,
            _ => false,
        }
    }
}

/// Derives the mode from the startup parameters: an API port asks for the
/// interactive selection and takes precedence, a server URL alone is used as
/// it is, and with neither there is no mode.
pub fn select_mode(api_port: Option<u16>, server_url: Option<String>) -> (mode: Option<SelectMode>)
    ensures
        mode == match (api_port, server_url) {
            (Some(port), _) => Some(SelectMode::Interactive { port }),
            (None, Some(url)) => Some(SelectMode::Fixed { url }),
            (None, None) => None,
        },
{
    match api_port {
        Some(port) => Some(SelectMode::Interactive { port }),
        None => match server_url {
            Some(url) => Some(SelectMode::Fixed { url }),
            None => None,
        },
    }
}

/// The words by which an answer names LAN access.
pub open spec fn lan_marker() -> Seq<char> {
    "LAN Access"@
}

/// The label of the LAN choice for the given URL.
pub open spec fn lan_label(url: Seq<char>) -> Seq<char> {
    "LAN Access this API server   → "@ + url
}

/// The label of the local choice for the given URL.
pub open spec fn local_label(url: Seq<char>) -> Seq<char> {
    "Local Access this API server → "@ + url
}

/// The two choices put before the operator, LAN access first.
pub fn selection_options(port: u16, found: Option<Ipv4Host>) -> (options: Vec<String>)
    ensures
        options@.len() == 2,
        options@[0]@ == lan_label(lan_url_text(lan_host_or_fallback(found), port)),
        options@[1]@ == local_label(loopback_url_text(port)),
{
    let mut lan = String::from_str("LAN Access this API server   → ");
    lan.append(lan_url(lan_host(found), port).as_str());
    let mut local = String::from_str("Local Access this API server → ");
    local.append(loopback_url(port).as_str());
    let mut options: Vec<String> = Vec::new();
    options.push(lan);
    options.push(local);
    options
}

/// What the operator's answer means: LAN access where no answer could be had
/// or the answer names it, local access for any other answer.
pub open spec fn answer_means_lan(answer: Option<Seq<char>>) -> bool {
    match answer {
        Some(text) => contains_text(text, lan_marker()),
        None => true,
    }
}

/// The endpoint that the interactive selection settles on.
pub open spec fn interactive_choice(
    port: u16,
    found: Option<Ipv4Host>,
    answer: Option<Seq<char>>,
) -> EndpointChoice {
    if answer_means_lan(answer) {
        EndpointChoice::LanVisible { host_ip: lan_host_or_fallback(found), port }
    } else {
        EndpointChoice::Loopback { port }
    }
}

/// The characters of an answer, where there is one.
pub open spec fn answer_text(answer: Option<&str>) -> Option<Seq<char>> {
    match answer {
        Some(text) => Some(text@),
        None => None,
    }
}

/// Settles the endpoint for a mode. A fixed URL is taken as it is. For the
/// interactive mode, `found` is the LAN address that discovery came up with
/// and `answer` the label that the operator picked, `None` where no operator
/// could be asked.
pub fn select(mode: SelectMode, found: Option<Ipv4Host>, answer: Option<&str>) -> (choice:
    EndpointChoice)
    ensures
        choice == match mode {
            SelectMode::Fixed { url } => EndpointChoice::Fixed { url },
            SelectMode::Interactive { port } => interactive_choice(port, found, answer_text(answer)),
        },
{
    match mode {
        SelectMode::Fixed { url } => EndpointChoice::Fixed { url },
        SelectMode::Interactive { port } => {
            let lan = match answer {
                Some(text) => contains(text, "LAN Access"),
                None => true,
            };
            if lan {
                EndpointChoice::LanVisible { host_ip: lan_host(found), port }
            } else {
                EndpointChoice::Loopback { port }
            }
        },
    }
}

/// Settles the interactive selection for an API port and gives the base URL
/// chosen together with the flag that tells whether it is local only.
pub fn choose_url(port: u16, found: Option<Ipv4Host>, answer: Option<&str>) -> (chosen: (
    String,
    bool,
))
    ensures
        chosen.0@ == interactive_choice(port, found, answer_text(answer)).url(),
        chosen.1 == interactive_choice(port, found, answer_text(answer)).local_only(),
{
    let choice = select(SelectMode::Interactive { port }, found, answer);
    (choice.base_url(), choice.is_local_only())
}

/// The base URL of an endpoint that the selection made by itself begins with
/// the `http` scheme and ends with the API path `/v1/`.
pub proof fn law_selected_urls_end_in_the_api_path(choice: EndpointChoice)
    requires
        !(choice is Fixed),
    ensures
        starts_with(choice.url(), "http://"@),
        ends_with(choice.url(), "/v1/"@),
{
    reveal_strlit("http://");
    reveal_strlit("http://localhost:");
    reveal_strlit("/v1/");
    let url = choice.url();
    assert(url.subrange(0, 7) =~= "http://"@);
    assert(url.subrange(url.len() - 4, url.len() as int) =~= "/v1/"@);
}

/// Picking one of the two labels that [`selection_options`] offers settles
/// on the endpoint that the label names, for every port and every address.
pub proof fn law_labels_name_their_endpoint(port: u16, found: Option<Ipv4Host>)
    ensures
        interactive_choice(
            port,
            found,
            Some(lan_label(lan_url_text(lan_host_or_fallback(found), port))),
        ) == (EndpointChoice::LanVisible { host_ip: lan_host_or_fallback(found), port }),
        interactive_choice(port, found, Some(local_label(loopback_url_text(port))))
            == (EndpointChoice::Loopback { port }),
{
    reveal_strlit("LAN Access");
    reveal_strlit("LAN Access this API server   → ");
    reveal_strlit("Local Access this API server → ");
    reveal_strlit("http://localhost:");
    reveal_strlit("/v1/");

    let lan = lan_label(lan_url_text(lan_host_or_fallback(found), port));
    assert(lan.subrange(0, 10) =~= lan_marker());
    assert(occurs_at(lan, lan_marker(), 0));

    let local = local_label(loopback_url_text(port));
    let digits = decimal(port as nat);
    lemma_decimal_holds_digits(port as nat);
    assert forall|at: int| !occurs_at(local, lan_marker(), at) by {
        if occurs_at(local, lan_marker(), at) {
            let hit = local.subrange(at, at + 10);
            assert(hit[0] == 'L' && hit[1] == 'A');
            assert(local[at] == 'L' && local[at + 1] == 'A');
            if 48 <= at < 48 + digits.len() {
                assert(local[at] == digits[at - 48]);
                assert(is_digit(digits[at - 48]));
            }
        }
    }
}

} // verus!
