//! Core of a Groth16 prover and key generator over BLS12-381: linear
//! combinations over wires, constraint assembly, densities, evaluation of the
//! QAP columns at the trapdoor point and assembly of the final proof.
pub mod assembly;
pub mod builder;
pub mod context;
pub mod density;
pub mod domain;
pub mod error;
pub mod eval;
pub mod group;
pub mod linear;
pub mod multiexp;
pub mod scalar;
