//! A single-root file transfer engine: path containment, HTTP byte ranges,
//! download planning, chunked and multipart upload planning, and deletion rules.
//! The filesystem and network work is done by the caller; every decision that
//! work depends on is made and proved here.

pub mod decimal;
pub mod range;
pub mod resolve;
pub mod urlpath;
pub mod download;
pub mod upload;
pub mod staging;
pub mod delete;
pub mod dispatch;
pub mod listing;
pub mod assets;
