//! Attaches formal specification documentation to program declarations.
//!
//! A directive names a specification, states a mandatory ("shall") or
//! conditional behaviour, and may carry certification statements that are
//! rendered as a formatted example. The library parses the directive,
//! models the decorated declaration, and synthesizes the documentation
//! entries that a host build step prepends to the declaration.

pub mod declaration;
pub mod directive;
pub mod example;
pub mod synthesis;
pub mod text;
