//! Verified core of the MDEx native bindings: the document tree Elixir
//! sends and its walks, the HTML of links and images with attributes, the
//! post-processing of rendered HTML, the Comrak options Elixir sets, and the
//! decorator policy and event plumbing of highlighted code fences.

pub mod text;
pub mod document;
pub mod tree;
pub mod html;
pub mod safe;
pub mod elixir_types;
pub mod bridge;
pub mod fence;
pub mod adapter;
pub mod options;
pub mod sanitize;
