//! A small file-hosting core: upload bookkeeping with a size ceiling, naming of
//! stored files, content-type classification and the replies of the HTTP surface.

pub mod config;
pub mod content_type;
pub mod identifier;
pub mod reply;
pub mod retrieval;
pub mod store;
pub mod text;
pub mod upload;
