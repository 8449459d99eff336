//! Authentication against the Minecraft services through Microsoft, Xbox Live
//! and XSTS, with the decisions of every step stated and proved.
//!
//! A flow is a state machine (`auth::AuthFlow`): it is handed what happened
//! outside, and says what is to be done next. What it is made of stands in
//! modules of its own: the parser of the redirect (`query`), the loopback
//! listener (`capture`), the device code grant (`device`), the requests and
//! replies of the four hops (`exchange`) and their order (`pipeline`).

pub mod async_trait_alias;
pub mod auth;
pub mod capture;
pub mod device;
pub mod errors;
pub mod exchange;
pub mod hashes;
pub mod launch;
pub mod modrinth;
pub mod pipeline;
pub mod pkce;
pub mod query;
pub mod structs;
pub mod text;

pub use auth::{AuthFlow, AuthInfo, AuthType, AuthenticationBuilder, DeviceCode, Oauth};
pub use exchange::{CustomAuthData, SCOPE};
pub use launch::{LaunchArgs, LaunchBuilder, LauncherDirs};
pub use modrinth::{GithubModrinth, Modrinth};
