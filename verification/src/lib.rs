//! A type-keyed store of singleton components.
//!
//! Every component lives in a cell that carries a strong and a weak reference
//! count, a reader/writer lock word and a few flags. The cells are kept in a
//! [`component::ComponentHeap`], the store maps a type's identity to its cell,
//! and handles and guards are the capabilities through which a component is
//! reached. Each operation is one step of the protocol on explicit state, so
//! that every rule of the protocol is stated and proved.
use vstd::prelude::*;

pub mod component;
pub mod graphics;
pub mod shared;

verus! {

} // verus!
