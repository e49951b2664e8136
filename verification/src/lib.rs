//! Builds descriptions of query expressions: columns, literals, calls of
//! scalar, aggregate and window functions, sort keys and aliases.
//!
//! A tree is built bottom-up from owned nodes ([`expr`], [`constructors`],
//! [`aggregate`]). The optional clauses of a call are attached in one fixed
//! order ([`modifiers`]). A window call names its function, and the name is
//! resolved against the engine and the session at hand ([`resolver`],
//! [`window`]); the calls into the engine are gathered in [`engine`]. Nothing
//! here evaluates an expression.

pub mod aggregate;
pub mod constructors;
pub mod engine;
pub mod expr;
pub mod modifiers;
pub mod resolver;
pub mod window;
