use typed_equations::variables::{Variable, VariableTag, Variables};

#[test]
fn bind_then_read() {
    let t = VariableTag { id: 1 };
    let env = Variables::<f64>::empty().insert(t, 4.25);
    assert_eq!(env.get(t), 4.25);

    let env = Variables::<i64>::empty().insert(t, -9);
    assert_eq!(env.get(t), -9);
}

#[test]
fn rebind_overwrites() {
    let t = VariableTag { id: 3 };
    let env = Variables::<f64>::empty().insert(t, 1.0).insert(t, 2.5);
    assert_eq!(env.get(t), 2.5);
}

#[test]
fn bind_order_independent_for_distinct_tags() {
    let a = VariableTag { id: 10 };
    let b = VariableTag { id: 11 };

    let one_way = Variables::<f64>::empty().insert(a, 1.5).insert(b, -2.0);
    assert_eq!(one_way.get(a), 1.5);
    assert_eq!(one_way.get(b), -2.0);

    let other_way = Variables::<f64>::empty().insert(b, -2.0).insert(a, 1.5);
    assert_eq!(other_way.get(a), 1.5);
    assert_eq!(other_way.get(b), -2.0);
}

#[test]
fn labels_are_informational() {
    let t = VariableTag { id: 1 };
    assert_eq!(t.label(), "not implemented");
    assert_eq!(().label(), "()");
}
