//! A module-composition compiler: resolves an ordered list of pallet
//! declarations to unique small-integer indices and emits the cross-cutting
//! artifacts that stitch the pallets into one aggregate runtime description.

pub mod aggregate;
pub mod compose;
pub mod decl;
pub mod lookup;
pub mod error;
pub mod resolve;
pub mod runtime;
