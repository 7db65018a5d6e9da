pub mod laws;
pub mod scalar;
pub mod vector;
