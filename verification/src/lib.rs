//! Construction of one outbound HTTP GET request for a paginated
//! "list models" API call: validated pagination parameters, their
//! query-string encoding, and assembly of the final request URL.

pub mod base;
pub mod params;
pub mod request;

pub use base::BaseUrl;
pub use params::QueryParams;
pub use params::QueryParamsError;
pub use params::MAX_PAGE_SIZE;
pub use request::HttpMethod;
pub use request::IntoRequestError;
pub use request::OutgoingHttpRequest;
pub use request::Request;
