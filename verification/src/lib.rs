//! The core of a toolkit that rewrites programs of a Lua-family language: the syntax
//! tree with the tokens it was read from, the traversal that hands every node of a
//! tree to a pass, and the rules that run as passes.
//!
//! - [`nodes`] holds the tree: blocks, statements, expressions and types, each with
//!   its tokens. A tree is a plain value; contracts compare trees with `==`.
//! - [`process`] holds the traversal: what a pass does at a node is a
//!   [`NodeProcessor`](process::NodeProcessor), the traversal that drives it is a
//!   [`NodeVisitor`](process::NodeVisitor), and what a traversal leaves is given by
//!   the functions of [`process::walk`].
//! - [`rules`] holds the rules and their options, with the rule that removes
//!   comments.

pub mod nodes;
pub mod process;
pub mod rules;
