//! Remote asset fetching over HTTP.
//!
//! A logical asset path is resolved against an optional base origin into a
//! request URL; the response status is classified into a small, closed error
//! taxonomy; a successful body is handed back as a fully buffered byte
//! stream. Directory-style operations are deliberate stubs: an HTTP origin is
//! a flat namespace, so listing always yields nothing and nothing is a
//! directory.

mod decimal;
mod error;
mod listing;
mod reader;
mod status;
mod stream;
mod urls;

pub use decimal::decimal;
pub use decimal::u16_decimal;
pub use error::bad_status_error;
pub use error::bad_status_message;
pub use error::body_error;
pub use error::body_error_message;
pub use error::transport_error;
pub use error::transport_error_message;
pub use error::FetchError;
pub use listing::EmptyListing;
pub use reader::lemma_meta_fetch_is_sidecar_fetch;
pub use reader::meta_path;
pub use reader::on_status;
pub use reader::spec_meta_path;
pub use reader::spec_meta_request_url;
pub use reader::spec_request_url;
pub use reader::HttpAssetReader;
pub use reader::StatusDecision;
pub use reader::REQUEST_TIMEOUT_SECS;
pub use status::classify_status;
pub use status::spec_classify_status;
pub use status::StatusClass;
pub use stream::ByteStream;
pub use urls::joined_url;
pub use urls::parsed_url;
