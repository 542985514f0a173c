//! The expression layer of a compiler that lowers arithmetic on unsigned
//! integers of fixed width onto circuits over a prime field.
//!
//! An integer of `n` bits wraps at `2^n`; a field element does not. So every
//! expression carries its declared width and, once a later pass has computed
//! it, an upper bound on the value it can take in the field. That pass
//! compares the bits of the bound with the declared width to decide where a
//! reduction has to be inserted. This crate holds the trees, the bound and
//! its bit count, and the constructors that keep the widths of operands in
//! agreement.

pub mod field;
pub mod mpc;
pub mod zir;
