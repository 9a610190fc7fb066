//! Datatype descriptions, dimensions, errors and handles of HDF5, with their layout rules
//! and the decisions that surround the calls into the HDF5 C library.

pub mod datatype;
pub mod dim;
pub mod error;
pub mod h5type;
pub mod handle;
pub mod layout;
pub mod text;
