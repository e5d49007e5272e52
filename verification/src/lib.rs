//! Clipboard image acquisition: choosing among the clipboard's image
//! representations, rebuilding a bitmap file from a bare bitmap block,
//! transcoding it to PNG and planning a content-addressed store entry.

pub mod dib;
pub mod error;
pub mod focus;
pub mod pipeline;
pub mod png;
pub mod store;
pub mod transcode;
