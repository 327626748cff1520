//! A multi-layer perceptron whose tensor layout, data flow and training
//! schedule are verified, generic over the scalar type.

pub mod functions;
pub mod network;
pub mod math;
pub mod model;
pub mod perceptron;
pub mod random;
pub mod laws;
