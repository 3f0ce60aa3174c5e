//! Command bindings for an interface block.
//!
//! An interface block is a set of methods on a state object. For each method
//! that carries the exposure marker, the generator writes a free-standing
//! wrapper function that reaches the method through the shared application
//! state, so that a command dispatch table can call it.
//!
//! A run goes through these steps:
//!
//! - [`config`] reads the argument list written beside the block and
//!   resolves it to a configuration: the name of the state parameter, the
//!   path to the call target, the access strategy;
//! - [`descriptor`] describes each exposed method of the [`interface`]: its
//!   name, whether it needs the state, the parameters that the wrapper takes
//!   over;
//! - [`classify`] tells the shapes of return types apart;
//! - [`binding`] decides what the wrapper returns and how its body reaches
//!   the method, and writes the wrapper into a token stream;
//! - [`generator`] runs the steps over a whole block;
//! - [`diagnostic`] turns each failure into a message and a place.
//!
//! [`laws`] states what holds of every wrapper and of every run. [`tokens`]
//! holds the operations on token streams whose contracts are taken on trust;
//! [`ident`] and [`text`] are the names and strings that the rest works
//! with. [`data`] and [`game`] are what the application keeps and shows; the
//! pattern match in [`game`] is the one other contract taken on trust.

pub mod binding;
pub mod classify;
pub mod config;
pub mod data;
pub mod descriptor;
pub mod diagnostic;
pub mod game;
pub mod generator;
pub mod ident;
pub mod interface;
pub mod laws;
pub mod text;
pub mod tokens;
