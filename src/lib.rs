//! A verified core for bridging an editor protocol to a single-threaded
//! script analyzer: coordinate translation, specifier normalization, the
//! asset registry, request scheduling and response translation.

pub mod strings;
pub mod specifier;
pub mod host;
pub mod line_index;
pub mod kinds;
pub mod navigation;
pub mod assets;
pub mod patterns;
pub mod docs;
pub mod completion;
pub mod refactor;
pub mod folding;
pub mod tokens;
pub mod preferences;
pub mod responses;
pub mod call_hierarchy;
pub mod imports;
pub mod details;
pub mod ops;
pub mod request;
