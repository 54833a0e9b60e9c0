pub mod channel;
pub mod entry;
pub mod error;
pub mod feed;
pub mod types;
pub mod util;
