//! A typed client core for the Numista catalogue API.
//!
//! The crate models the request/response pipeline of the service client:
//! validated connection settings ([`ClientBuilder`], [`Client`]), composition
//! of headers and query parameters for each request, classification of
//! responses into typed successes or a fixed taxonomy of failures
//! ([`Error`], [`KnownApiError`]), and a pull-driven pagination engine
//! ([`PageStream`]) that turns page-numbered list endpoints into a single
//! sequence of items. The surrounding I/O (the HTTP transport, decoding of
//! response bodies) is driven by the caller, which feeds plain values into
//! the verified core and carries its decisions out.
pub mod client;
pub mod endpoints;
pub mod error;
pub mod image;
pub mod models;
pub mod numfmt;
pub mod pagination;
pub mod request;
pub mod summary;

pub use client::Client;
pub use client::ClientBuilder;
pub use error::ApiError;
pub use error::BodyDecode;
pub use error::Error;
pub use error::classify_response;
pub use error::KnownApiError;
pub use error::parse_api_error;
pub use error::status_is_success;
pub use image::Base64Image;
pub use pagination::PageStream;
pub use pagination::PullOutcome;
pub use pagination::TypeStream;
pub use request::AddCollectedItemParams;
pub use request::EditCollectedItemParams;
pub use request::GetCollectedItemsParams;
pub use request::GradingDetailsParams;
pub use request::ItemPriceParams;
pub use request::Method;
pub use request::OAuthTokenParams;
pub use request::RequestSpec;
pub use request::SearchByImageParams;
pub use request::SearchTypesParams;
