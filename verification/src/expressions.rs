//! Evaluable expression nodes. An expression states, at the specification
//! level, exactly which variable tags it references; its evaluator demands,
//! as a static precondition, an environment whose known bindings are a
//! superset of that requirement, so a missing variable is rejected before
//! the program runs rather than failing at runtime.
use crate::variables::{VariableTag, Variables};
use vstd::prelude::*;

verus! {

/// The numeric representation expression evaluation works over: the signed
/// shape of the machine-integer domain.
pub type Real = i64;

/// An evaluable node. `required_tags` is the set of variable tags the node
/// references; `evaluate` may only be called with an environment binding
/// every one of them (the superset precondition), and returns exactly the
/// node's mathematical value under those bindings.
pub trait Expression {
    /// The tags of every variable this expression references.
    spec fn required_tags(&self) -> Set<u64>;

    /// The mathematical value of this expression under the given bindings.
    spec fn value_in(&self, bindings: Map<u64, Real>) -> int;

    /// Evaluates the expression against an environment. The environment
    /// must be known to bind every referenced tag, and the value must fit
    /// the numeric representation; both are static preconditions, so
    /// evaluation itself cannot fail.
    fn evaluate(&self, variables: Variables<Real>) -> (r: Real)
        requires
            self.required_tags().subset_of(variables.bindings().dom()),
            i64::MIN <= self.value_in(variables.bindings()) <= i64::MAX,
        ensures
            r as int == self.value_in(variables.bindings()),
    ;
}

/// The sum of two operands, each either a literal [`Real`] or a
/// [`VariableTag`]. Each operand-shape combination carries its own
/// evaluation rule, so the required-tag set is known per combination.
pub struct BinaryAddition<LHS, RHS> {
    pub lhs: LHS,
    pub rhs: RHS,
}

impl<LHS, RHS> BinaryAddition<LHS, RHS> {
    /// Builds the node holding both operands exactly as supplied.
    pub fn new(lhs: LHS, rhs: RHS) -> (r: Self)
        ensures
            r.lhs == lhs,
            r.rhs == rhs,
    {
        BinaryAddition { lhs, rhs }
    }
}

impl Expression for BinaryAddition<Real, Real> {
    /// A literal sum references no variables.
    open spec fn required_tags(&self) -> Set<u64> {
        Set::empty()
    }

    open spec fn value_in(&self, bindings: Map<u64, Real>) -> int {
        self.lhs + self.rhs
    }

    fn evaluate(&self, variables: Variables<Real>) -> Real {
        self.lhs + self.rhs
    }
}

impl Expression for BinaryAddition<VariableTag, Real> {
    /// The left operand's tag must be bound.
    open spec fn required_tags(&self) -> Set<u64> {
        set![self.lhs.id]
    }

    open spec fn value_in(&self, bindings: Map<u64, Real>) -> int {
        bindings[self.lhs.id] + self.rhs
    }

    fn evaluate(&self, variables: Variables<Real>) -> Real {
        proof {
            assert(self.required_tags().contains(self.lhs.id));
        }
        let l = variables.get(self.lhs);
        l + self.rhs
    }
}

impl Expression for BinaryAddition<Real, VariableTag> {
    /// The right operand's tag must be bound.
    open spec fn required_tags(&self) -> Set<u64> {
        set![self.rhs.id]
    }

    open spec fn value_in(&self, bindings: Map<u64, Real>) -> int {
        self.lhs + bindings[self.rhs.id]
    }

    fn evaluate(&self, variables: Variables<Real>) -> Real {
        proof {
            assert(self.required_tags().contains(self.rhs.id));
        }
        let r = variables.get(self.rhs);
        self.lhs + r
    }
}

impl Expression for BinaryAddition<VariableTag, VariableTag> {
    /// Both operands' tags must be bound.
    open spec fn required_tags(&self) -> Set<u64> {
        set![self.lhs.id, self.rhs.id]
    }

    open spec fn value_in(&self, bindings: Map<u64, Real>) -> int {
        bindings[self.lhs.id] + bindings[self.rhs.id]
    }

    fn evaluate(&self, variables: Variables<Real>) -> Real {
        proof {
            assert(self.required_tags().contains(self.lhs.id));
            assert(self.required_tags().contains(self.rhs.id));
        }
        let l = variables.get(self.lhs);
        let r = variables.get(self.rhs);
        l + r
    }
}

} // verus!
