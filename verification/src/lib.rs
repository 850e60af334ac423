//! Tree-walking evaluator for a small expression/statement language.
//!
//! A parsed program is a tree of [`node::Node`] values. The evaluator walks
//! the tree depth-first and either produces a runtime [`value::Value`]
//! (a number, a text, or a boolean) or fails with a classified
//! [`error::AsaErrorKind`]. Variables live in a stack of frames owned by an
//! [`interpreter::Interpreter`]; lookup and definition touch only the top
//! frame.
//!
//! The meaning of every node is given once, as the mathematical function
//! [`semantics::eval_node`] over views of the tree and the frame stack, and
//! [`interpreter::Interpreter::exec`] is proved to return exactly what that
//! function says.

pub mod error;
pub mod frame;
pub mod interpreter;
pub mod laws;
pub mod node;
pub mod semantics;
pub mod value;

pub use error::AsaErrorKind;
pub use interpreter::Interpreter;
pub use node::Node;
pub use value::Value;
