//! A signed-extension framework for blockchain transactions, with a
//! metadata-integrity extension whose wire encoding depends on its mode.
pub mod builder;
pub mod chain;
pub mod extension;
pub mod mode;
mod text;

pub use builder::custom;
pub use chain::{DeclaredExtension, Extension, ExtensionChain, ExtensionParams};
pub use extension::{CheckMetadataHash, CheckMetadataHashParams, ConstructionError, Digest};
pub use mode::CheckMetadataHashMode;
