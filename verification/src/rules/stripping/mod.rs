//! What comment removal does, stated without the traversal: a traversal with a
//! [`RemoveCommentProcessor`](crate::rules::RemoveCommentProcessor) leaves the tree
//! with the comments taken out of every token, and nothing else changed.
pub mod expressions;
pub mod lists;
pub mod statements;
pub mod types;
