use vstd::prelude::*;

verus! {

/// Errors raised by the account helpers.
#[derive(Debug, Clone, Copy, PartialEq, Eq, Structural)]
pub enum ZetaError {
    /// A non-perpetual product was asked for its strike before one was set.
    ProductStrikeUninitialized,
}

} // verus!
