use trait_vec::{tvec, AlgebraTrait, Expr, Vector};

fn items(v: &mut Vector<i64>) -> Vec<i64> {
    let mut out = Vec::new();
    while let Some(x) = v.pop() {
        out.push(x);
    }
    out.reverse();
    out
}

#[test]
fn pushed_values_are_read_back_in_order() {
    let mut c = Vector::new();
    let vals = [7i64, -3, 0, 42];
    for &v in vals.iter() {
        c.push(v);
    }
    assert_eq!(Expr::len(&c), 4);
    assert_eq!(c.len(), 4);
    for (i, &v) in vals.iter().enumerate() {
        assert_eq!(c.eval(i), v);
    }
}

#[test]
fn tvec_matches_pushes() {
    let a = tvec(&[1i64, 2, 3]);
    let mut b = Vector::new();
    b.push(1i64);
    b.push(2);
    b.push(3);
    assert_eq!(a.len(), 3);
    for i in 0..3 {
        assert_eq!(a.eval(i), b.eval(i));
    }
}

#[test]
fn tvec_empty() {
    let a = tvec::<i64>(&[]);
    assert_eq!(a.len(), 0);
}

#[test]
fn leaf_round_trip() {
    let c = tvec(&[9i64, 8, 7, 6]);
    let mut m = c.to_vec();
    assert_eq!(Expr::len(&m), Expr::len(&c));
    for i in 0..4 {
        assert_eq!(m.eval(i), c.eval(i));
    }
    assert_eq!(items(&mut m), vec![9, 8, 7, 6]);
}

#[test]
fn add_then_materialize() {
    let a = tvec(&[1i64, 2, 3]);
    let b = tvec(&[4i64, 5, 6]);
    let mut d = a.add(b).to_vec();
    assert_eq!(items(&mut d), vec![5, 7, 9]);
}

#[test]
fn sub_then_materialize() {
    let a = tvec(&[10i64, 0, -5]);
    let b = tvec(&[3i64, 4, -5]);
    let mut d = a.sub(b).to_vec();
    assert_eq!(items(&mut d), vec![7, -4, 0]);
}

#[test]
fn add_then_sub_chain() {
    let a = tvec(&[1i64, 2, 3]);
    let b = tvec(&[4i64, 5, 6]);
    let c = tvec(&[4i64, 5, 6]);
    let e = a.add(b).sub(c);
    assert_eq!(e.len(), 3);
    assert_eq!(e.eval(2), 3);
    let mut d = e.to_vec();
    assert_eq!(items(&mut d), vec![1, 2, 3]);
}

#[test]
fn chain_with_distinct_operands() {
    let a = tvec(&[1i64, 1, 1]);
    let b = tvec(&[2i64, 3, 4]);
    let c = tvec(&[10i64, 0, 5]);
    let mut d = a.add(b).sub(c).to_vec();
    assert_eq!(items(&mut d), vec![-7, 4, 0]);
}

#[test]
fn nested_right_operand() {
    let a = tvec(&[100i64, 200]);
    let b = tvec(&[1i64, 2]);
    let c = tvec(&[10i64, 20]);
    let mut d = a.sub(b.add(c)).to_vec();
    assert_eq!(items(&mut d), vec![89, 178]);
}

#[test]
fn empty_operands_give_empty_result() {
    let a = tvec::<i64>(&[]);
    let b = tvec::<i64>(&[]);
    let d = a.add(b).to_vec();
    assert_eq!(d.len(), 0);
}

#[test]
fn extreme_values_without_overflow() {
    let a = tvec(&[i64::MAX, i64::MIN]);
    let b = tvec(&[i64::MIN, i64::MAX]);
    let mut d = a.add(b).to_vec();
    assert_eq!(items(&mut d), vec![-1, -1]);
}

#[test]
fn pop_on_empty_is_none() {
    let mut v: Vector<i64> = Vector::new();
    assert_eq!(v.pop(), None);
    assert_eq!(v.len(), 0);
}

#[test]
fn pop_returns_last_first() {
    let mut v = Vector::new();
    v.push(1i64);
    v.push(2);
    assert_eq!(v.pop(), Some(2));
    assert_eq!(v.pop(), Some(1));
    assert_eq!(v.pop(), None);
}

#[test]
fn materialize_does_not_change_source() {
    let a = tvec(&[1i64, 2]);
    let b = tvec(&[3i64, 4]);
    let e = a.add(b);
    let mut first = e.to_vec();
    let mut second = e.to_vec();
    assert_eq!(items(&mut first), items(&mut second));
}

#[test]
fn get_reads_element() {
    let a = tvec(&[5i64, 6]);
    assert_eq!(a.get(1), 6);
}

#[test]
fn len_of_node_that_would_overflow() {
    let a = tvec(&[i64::MAX]);
    let b = tvec(&[-1i64]);
    let e = a.sub(b);
    assert_eq!(e.len(), 1);
}

#[test]
fn eval_fitting_index_beside_overflowing_one() {
    let a = tvec(&[i64::MAX, 1]);
    let b = tvec(&[1i64, 2]);
    let e = a.add(b);
    assert_eq!(e.len(), 2);
    assert_eq!(e.eval(1), 3);
}
