//! Boolean combinators built from a minimal gate basis.
//!
//! A bit is a `u8` restricted to the two values 0 (false) and 1 (true).
//! The `gates` module supplies the primitive operators `and`, `or` and `not`;
//! the `if_logic` module composes them into a conditional (`a AND NOT b`),
//! a logical implication (`a -> b`) and a conditional select
//! (`IF a THEN b ELSE c`), each verified against its truth table.

pub mod gates;
pub mod if_logic;
