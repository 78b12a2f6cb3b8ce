//! A small symbolic-equation core built from three pieces that share one
//! numeric-domain contract:
//!
//! * [`traits::RealSubset`] — associates a numeric representation with its
//!   signed, unsigned, non-zero-signed and non-zero-unsigned shapes;
//! * [`numbers::Rational`] — a tagged rational value whose fraction parts are
//!   non-zero by construction, with a canonical representation of zero;
//! * [`variables::Variables`] — a binding environment whose contracts prove,
//!   before the program runs, that no variable is read unless it was bound;
//! * [`expressions::Expression`] — evaluable nodes that demand, as a static
//!   precondition, an environment binding every variable they reference.
use vstd::prelude::*;

pub mod expressions;
pub mod numbers;
pub mod traits;
pub mod variables;

verus! {

/// Two expressions related as the left- and right-hand sides of an equation.
pub struct Equation<LHS, RHS> {
    pub lhs: LHS,
    pub rhs: RHS,
}

} // verus!
