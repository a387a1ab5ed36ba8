pub mod laws;
pub mod node;
pub mod protocol;
