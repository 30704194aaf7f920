//! Extracts a package's top-level documentation and re-emits it as a
//! standalone markdown document: untyped fences get a language hint and
//! hidden doctest lines are removed from code blocks.
pub mod artifact;
pub mod doctest;
pub mod event;
pub mod markdown;
pub mod pipeline;
