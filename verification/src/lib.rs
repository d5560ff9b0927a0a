//! Sans-I/O core of an OAuth2 client for the DRACOON API.
//!
//! The client decides what to send and what a response means; a transport
//! outside this crate carries the requests and reads the clock. The logic is
//! verified; two small wrappers, around the base64 and chrono crates, are
//! trusted.

pub mod client;
pub mod connection;
pub mod encoding;
pub mod error;
pub mod flows;
pub mod http;
pub mod laws;
pub mod model;
pub mod response;
pub mod time;

pub use client::DRACOONClient;
pub use connection::DRACOONConnection;
pub use error::DRACOONClientError;
pub use flows::{
    OAuth2AuthCodeFlow, OAuth2ConnectionType, OAuth2PasswordFlow, OAuth2RefreshTokenFlow,
    OAuth2TokenRevoke,
};
pub use http::{FormBody, HttpMethod, HttpRequest};
pub use response::{
    BodyKind, DRACOONErrorResponse, LoginResponse, OAuth2TokenResponse, ResponseBody,
};
pub use time::Timestamp;
