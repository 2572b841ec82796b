pub mod counting;
pub mod node_counter;
pub mod order;
pub mod processor;
pub mod tally;
pub mod visitors;
pub mod walk;

pub use node_counter::NodeCounter;
pub use processor::NodeProcessor;
pub use visitors::{DefaultVisitor, NodeVisitor};
