//! What the operations are for, stated over what goes in and what comes out.
//!
//! The contracts of the operations are stated over specification functions.
//! The laws here say of those, in numbers, literal texts and the fields of
//! values, what must hold of every result. Those in [`calls`], [`links`] and
//! [`parts`] are stated of the operations themselves: of whatever a call may
//! return.

pub mod accounts;
pub mod calls;
pub mod links;
pub mod numerals;
pub mod parts;
pub mod paths;
pub mod ports;
pub mod sessions;
pub mod signatures;
pub mod values;
pub mod versions;
