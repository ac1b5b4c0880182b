//! Request handling of a small web server: which handler answers a request,
//! what the page, greeting and not-found replies hold, and how the listening
//! port is read from its configuration text.
pub mod reply;
pub mod routing;
pub mod serving;
pub mod startup;
mod text;

pub use reply::{ContentType, Reply, ReplyView};
pub use routing::{route, Method, Page, Route, RouteView};
pub use startup::{assets_root, parse_port, port_setting, StartupError};
