pub mod api_integration;
pub mod convert_query;
pub mod error;
pub mod lazy_queued;
pub mod metadata;
pub mod scrapers;
pub mod stream_media_source;
pub mod text;
pub mod utils;
