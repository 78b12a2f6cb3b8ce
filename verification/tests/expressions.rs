use typed_equations::expressions::{BinaryAddition, Expression, Real};
use typed_equations::variables::{VariableTag, Variables};
use typed_equations::Equation;

#[test]
fn new_keeps_operands() {
    let e = BinaryAddition::new(2i64, 3i64);
    assert_eq!(e.lhs, 2);
    assert_eq!(e.rhs, 3);
}

#[test]
fn literal_addition() {
    // The numeric representation is the machine-integer domain, so the
    // literal scenario 2 + 3 = 5 is exact.
    let e = BinaryAddition::new(2 as Real, 3 as Real);
    assert_eq!(e.evaluate(Variables::empty()), 5);
}

#[test]
fn one_bound_variable_left() {
    let x = VariableTag { id: 1 };
    let env = Variables::<Real>::empty().insert(x, 4);
    let e = BinaryAddition::new(x, 1 as Real);
    assert_eq!(e.evaluate(env), 5);
}

#[test]
fn one_bound_variable_right() {
    let x = VariableTag { id: 1 };
    let env = Variables::<Real>::empty().insert(x, 4);
    let e = BinaryAddition::new(1 as Real, x);
    assert_eq!(e.evaluate(env), 5);
}

#[test]
fn two_bound_variables() {
    let x = VariableTag { id: 1 };
    let y = VariableTag { id: 2 };
    let env = Variables::<Real>::empty().insert(x, 2).insert(y, 3);
    let e = BinaryAddition::new(x, y);
    assert_eq!(e.evaluate(env), 5);
}

#[test]
fn extra_bindings_are_harmless() {
    // The environment may bind more tags than the expression references:
    // the superset precondition only demands inclusion.
    let x = VariableTag { id: 1 };
    let unused = VariableTag { id: 99 };
    let env = Variables::<Real>::empty().insert(unused, 7).insert(x, -5);
    let e = BinaryAddition::new(x, 5 as Real);
    assert_eq!(e.evaluate(env), 0);
}

#[test]
fn equation_holds_both_sides() {
    let eq = Equation { lhs: BinaryAddition::new(2 as Real, 3 as Real), rhs: 5 as Real };
    assert_eq!(eq.lhs.evaluate(Variables::empty()), eq.rhs);
}
