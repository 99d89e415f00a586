//! Composable authentication middleware: per-request state, a capability
//! trait for authentication strategies, and injectors that attach state and
//! strategies to a request's context before the inner handler runs.

pub mod auth;
pub mod codec;
pub mod config;
pub mod context;
pub mod hashing;
pub mod injector;
pub mod paseto;
pub mod state;
pub mod statics;
pub mod text;

pub use auth::Authentication;
pub use auth::Failure;
pub use auth::Success;
pub use codec::decode;
pub use codec::encode;
pub use codec::Encoding;
pub use codec::Error;
pub use codec::Standard;
pub use codec::StandardNopad;
pub use codec::UrlSafe;
pub use codec::UrlSafeNopad;
pub use codec::B64;
pub use config::get_env;
pub use config::get_env_parse;
pub use context::Context;
pub use context::Store;
pub use hashing::hash;
pub use hashing::verify_hash;
pub use hashing::Encryption;
pub use hashing::Hashing;
pub use injector::AuthenticationLayer;
pub use injector::AuthenticationService;
pub use paseto::header;
pub use paseto::Header;
pub use state::State;
pub use statics::AddStatic;
pub use statics::AddStaticExtensions;
pub use statics::Rejection;
pub use statics::Static;
pub use statics::StaticExtensionsLayer;
pub use statics::StaticLayer;
