//! Bindings to the universal-function table that NumPy exports through a
//! capsule: resolving the table, and locating each of its entries.

pub mod layout;
pub mod python;
pub mod resolver;
pub mod ufunc;
