//! Non-empty counterparts of the contiguous containers: a slice view held through any
//! ownership mode (`IdealSlice`), a growable vector (`IdealVec`) and a fixed-length array
//! (`IdealArray`). Each holds at least one element for as long as it exists.
pub mod array;
pub mod pointer_class;
pub mod slice;
pub mod vec;
