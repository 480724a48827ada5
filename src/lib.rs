//! Identifiers tagged at the type level with the entity they belong to.
//!
//! `Id<T, U>` holds a raw value of type `U` (an integer or a string) and
//! names, through `T`, the kind of entity it identifies. The tag costs
//! nothing at run time, yet an `Id<User, i64>` cannot stand where an
//! `Id<Order, i64>` is expected.
use vstd::prelude::*;

pub mod id;
pub mod generate;
pub mod json;
pub mod text;

pub use generate::FakeRepr;
pub use id::Id;
pub use json::JsonRepr;

verus! {

} // verus!
