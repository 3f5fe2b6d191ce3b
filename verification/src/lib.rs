pub mod decoder;
pub mod semantics;
