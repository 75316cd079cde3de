//! A constant-product automated market maker for two tokens.
//!
//! The library holds the pool's decision logic: the arithmetic of the
//! curve and of liquidity shares, and, for each instruction, which checks
//! it makes and which token movements it asks for. Executing those token
//! movements (the token program calls) is left to the program around it.

pub mod constants;
pub mod error;
pub mod instructions;
pub mod laws;
pub mod math;
pub mod seeds;
pub mod state;
