//! The front door: what is set up before the listener opens, and the
//! response that each request path gets.

use crate::assets::{resolution, AssetBundle, Resolved};
use crate::config::{build_config, key_or_empty, AppConfig};
use crate::endpoint::{
    host_text, lan_host, lan_host_or_fallback, EndpointChoice, Ipv4Host,
};
use crate::text::{decimal, format_decimal, same_text};
use vstd::prelude::*;
use vstd::string::*;

verus! {

/// The path under which the configuration is served.
pub open spec fn config_path() -> Seq<char> {
    "/app-config.json"@
}

/// The socket address to listen on: every interface, the given port.
pub open spec fn bind_address_text(ui_port: u16) -> Seq<char> {
    "0.0.0.0:"@ + decimal(ui_port as nat)
}

/// The URL under which the startup line announces the server: `localhost`
/// where the endpoint is local only, else the LAN address or its fallback.
pub open spec fn announced_url_text(local_only: bool, found: Option<Ipv4Host>, ui_port: u16) -> Seq<
    char,
> {
    if local_only {
        "http://localhost:"@ + decimal(ui_port as nat)
    } else {
        "http://"@ + host_text(lan_host_or_fallback(found)) + ":"@ + decimal(ui_port as nat)
    }
}

/// Which cross-origin requests the server lets through.
#[derive(Clone, Copy, Debug, PartialEq, Eq, Structural)]
pub struct CorsPolicy {
    /// Pages of any origin may read the responses.
    pub any_origin: bool,
    /// Any request method is let through.
    pub any_method: bool,
    /// Any request header is let through.
    pub any_header: bool,
}

/// The policy of this server: no allow-list of any kind.
pub open spec fn permissive() -> CorsPolicy {
    CorsPolicy { any_origin: true, any_method: true, any_header: true }
}

/// What is settled once, before the listener opens.
#[derive(Clone, Debug, PartialEq, Eq)]
pub struct Startup {
    /// The socket address to bind.
    pub bind_address: String,
    /// The URL that the startup line announces.
    pub announced_url: String,
    /// Whether the API endpoint is reachable from this machine only.
    pub local_only: bool,
    /// The configuration served for the lifetime of the server.
    pub config: AppConfig,
    /// The cross-origin policy laid over every route.
    pub cors: CorsPolicy,
}

/// Settles the startup values for a UI port, the endpoint chosen, the API key
/// supplied and the LAN address that discovery came up with.
pub fn plan_startup(
    ui_port: u16,
    choice: &EndpointChoice,
    api_key: Option<String>,
    found: Option<Ipv4Host>,
) -> (startup: Startup)
    ensures
        startup.bind_address@ == bind_address_text(ui_port),
        startup.local_only == choice.local_only(),
        startup.announced_url@ == announced_url_text(choice.local_only(), found, ui_port),
        startup.config.server_url@ == choice.url(),
        startup.config.api_key@ == key_or_empty(api_key),
        startup.cors == permissive(),
{
    let port = format_decimal(ui_port);
    let mut bind_address = String::from_str("0.0.0.0:");
    bind_address.append(port.as_str());
    let local_only = choice.is_local_only();
    let mut announced_url = if local_only {
        String::from_str("http://localhost:")
    } else {
        let mut url = String::from_str("http://");
        url.append(lan_host(found).to_text().as_str());
        url.append(":");
        url
    };
    announced_url.append(port.as_str());
    Startup {
        bind_address,
        announced_url,
        local_only,
        config: build_config(choice, api_key),
        cors: CorsPolicy { any_origin: true, any_method: true, any_header: true },
    }
}

/// What a response carries as its body.
#[derive(Debug)]
pub enum Body<'a> {
    /// The configuration, to be sent as a JSON document.
    Config(&'a AppConfig),
    /// The bytes of an asset, as stored.
    Asset(&'a [u8]),
    /// A plain text.
    Text(String),
}

/// A response, as far as this server decides it.
#[derive(Debug)]
pub struct Response<'a> {
    /// The HTTP status code.
    pub status: u16,
    /// The value of the `Content-Type` header.
    pub content_type: String,
    /// The value of the `Access-Control-Allow-Origin` header.
    pub allow_origin: String,
    /// The body.
    pub body: Body<'a>,
}

impl<'a> Response<'a> {
    /// Whether this is the response that serves `config`.
    pub open spec fn serves_config(&self, config: &AppConfig) -> bool {
        &&& self.status == 200
        &&& self.content_type@ == "application/json"@
        &&& self.body == Body::Config(config)
    }

    /// Whether this is the response that serves an asset with the given bytes
    /// and media type.
    pub open spec fn serves_asset(&self, bytes: Seq<u8>, media_type: Seq<char>) -> bool {
        &&& self.status == 200
        &&& self.content_type@ == media_type
        &&& self.body matches Body::Asset(payload) && payload@ == bytes
    }

    /// Whether this is the response for a path that nothing answers.
    pub open spec fn is_not_found(&self) -> bool {
        &&& self.status == 404
        &&& self.content_type@ == "text/plain; charset=utf-8"@
        &&& self.body matches Body::Text(text) && text@ == "Not Found"@
    }

    /// The response that serves the configuration.
    pub fn for_config(config: &'a AppConfig) -> (response: Self)
        ensures
            response.serves_config(config),
            response.allows_any_origin(),
    {
        Response {
            status: 200,
            content_type: String::from_str("application/json"),
            allow_origin: String::from_str("*"),
            body: Body::Config(config),
        }
    }

    /// The response for what a path resolved to: the asset with its media
    /// type, or the not-found response.
    pub fn for_asset(resolved: Resolved<'a>) -> (response: Self)
        ensures
            match resolved@ {
                Some((bytes, media_type)) => response.serves_asset(bytes, media_type),
                None => response.is_not_found(),
            },
            response.allows_any_origin(),
    {
        match resolved {
            Resolved::Found { payload, content_type } => Response {
                status: 200,
                content_type,
                allow_origin: String::from_str("*"),
                body: Body::Asset(payload),
            },
            Resolved::NotFound => Response {
                status: 404,
                content_type: String::from_str("text/plain; charset=utf-8"),
                allow_origin: String::from_str("*"),
                body: Body::Text(String::from_str("Not Found")),
            },
        }
    }

    /// Whether the response lets pages of any origin read it.
    pub open spec fn allows_any_origin(&self) -> bool {
        self.allow_origin@ == "*"@
    }

    /// Whether this is the response that `path` gets from a server with the
    /// given configuration and bundle entries: the configuration under the
    /// configuration path, whatever the bundle holds there; else what the
    /// path resolves to in the bundle, or the not-found response.
    pub open spec fn answers(
        &self,
        config: &AppConfig,
        entries: Map<Seq<char>, Seq<u8>>,
        path: Seq<char>,
    ) -> bool {
        if path == config_path() {
            self.serves_config(config)
        } else {
            match resolution(entries, path) {
                Some((bytes, media_type)) => self.serves_asset(bytes, media_type),
                None => self.is_not_found(),
            }
        }
    }
}

/// The serving state: the configuration and the bundle, both read-only.
pub struct FrontDoor<'a> {
    pub config: AppConfig,
    pub bundle: AssetBundle<'a>,
}

impl<'a> FrontDoor<'a> {
    /// Puts a configuration and a bundle behind the front door.
    pub fn new(config: AppConfig, bundle: AssetBundle<'a>) -> (door: Self)
        ensures
            door.config == config,
            door.bundle == bundle,
    {
        FrontDoor { config, bundle }
    }

    /// Answers one request path. The configuration path is matched first;
    /// every other path goes to the bundle. Each response allows any origin.
    pub fn respond<'s>(&'s self, path: &str) -> (response: Response<'s>)
        ensures
            response.answers(&self.config, self.bundle@, path@),
            response.allows_any_origin(),
    {
        if same_text(path, "/app-config.json") {
            Response::for_config(&self.config)
        } else {
            Response::for_asset(self.bundle.resolve(path))
        }
    }
}

/// The configuration path is answered with the configuration, whatever the
/// bundle holds, even a file under that very path.
pub proof fn law_config_route_comes_first(
    response: Response<'_>,
    config: &AppConfig,
    entries: Map<Seq<char>, Seq<u8>>,
)
    requires
        response.answers(config, entries, config_path()),
    ensures
        response.serves_config(config),
        !(response.body is Asset),
{
}

} // verus!
