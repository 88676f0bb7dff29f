//! Rendering a `FrontendIntegration` into an extension manifest.
pub mod naming;
pub mod pages;
pub mod resolve;
pub mod render;
pub mod binding;
