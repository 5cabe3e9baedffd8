//! Model discovery: binary probing of weight files and the rules that turn
//! what was found into capabilities and tasks.
pub mod onnx;
pub mod probe;
pub mod capabilities;
pub mod rules;
pub mod fallback;
pub mod resolver;
