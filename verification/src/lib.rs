//! Rules of a small web server that hands a bundled single-page application to
//! browsers and tells it, through one JSON document, where its API backend is.
//!
//! The crate holds the decisions only: which bundle entry answers a request
//! path, which base URL the front end is told to use, what each response
//! carries. Sockets, the terminal and the JSON encoder belong to the program
//! built on top of it.

pub mod assets;
pub mod config;
pub mod endpoint;
pub mod front_door;
pub mod text;

pub use assets::{asset_key, exact_entry, AssetBundle, Resolved};
pub use config::{build_config, AppConfig};
pub use endpoint::{
    choose_url, lan_host, lan_url, loopback_url, select, select_mode, selection_options,
    EndpointChoice, Ipv4Host, SelectMode,
};
pub use front_door::{plan_startup, Body, CorsPolicy, FrontDoor, Response, Startup};
