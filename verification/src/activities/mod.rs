//! The activities, and the steps that they share.
pub mod exchange;
pub mod execute_http;
pub mod execute_multipart;
pub mod http_response;
pub mod privilege;
pub mod replay;
pub mod request;
