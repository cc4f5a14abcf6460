use coord::Coord;

#[test]
fn componentwise_operators() {
    let p = Coord::new(17i64, -8);
    let q = Coord::new(5i64, 3);
    assert_eq!(p + q, Coord::new(22, -5));
    assert_eq!(p - q, Coord::new(12, -11));
    assert_eq!(p * q, Coord::new(85, -24));
    assert_eq!(p / q, Coord::new(3, -2));
    assert_eq!(p % q, Coord::new(2, -2));
}

#[test]
fn named_operations_match_operators() {
    let p = Coord::new(40u32, 9);
    let q = Coord::new(7u32, 4);
    assert_eq!(p.add_coord(q), p + q);
    assert_eq!(p.sub_coord(q), p - q);
    assert_eq!(p.mul_coord(q), p * q);
    assert_eq!(p.div_coord(q), p / q);
    assert_eq!(p.rem_coord(q), p % q);
    assert_eq!(p.rem_coord(q), Coord::new(5, 1));
}

#[test]
fn assign_forms_match_operators() {
    let p = Coord::new(-21i32, 14);
    let q = Coord::new(4i32, -5);
    let mut t = p;
    t += q;
    assert_eq!(t, p + q);
    let mut t = p;
    t -= q;
    assert_eq!(t, p - q);
    let mut t = p;
    t *= q;
    assert_eq!(t, p * q);
    let mut t = p;
    t /= q;
    assert_eq!(t, Coord::new(-5, -2));
    assert_eq!(t, p / q);
    let mut t = p;
    t %= q;
    assert_eq!(t, Coord::new(-1, 4));
    assert_eq!(t, p % q);
}

#[test]
fn scalar_operand_fills_both_components() {
    let p = Coord::new(30i32, -7);
    assert_eq!(p + 5, p + Coord::new(5, 5));
    assert_eq!(p + 5, Coord::new(35, -2));
    assert_eq!(p - 5, p - Coord::new(5, 5));
    assert_eq!(p * 10, Coord::new(300, -70));
    assert_eq!(p * 10, p * Coord::new(10, 10));
    assert_eq!(p / 4, Coord::new(7, -1));
    assert_eq!(p / 4, p / Coord::new(4, 4));
    assert_eq!(p % 4, Coord::new(2, -3));
    assert_eq!(p % 4, p % Coord::new(4, 4));
}

#[test]
fn pair_and_array_operands() {
    let p = Coord::new(3u8, 4);
    assert_eq!(p + (1, 2), Coord::new(4, 6));
    assert_eq!(p + [1, 2], Coord::new(4, 6));
    assert_eq!(p + &(1, 2), Coord::new(4, 6));
    assert_eq!(p + &[1, 2], Coord::new(4, 6));
    let mut t = p;
    t *= (2, 3);
    assert_eq!(t, Coord::new(6, 12));
}

#[test]
fn pair_and_array_conversions_agree() {
    let from_pair: Coord<i16> = Coord::from((7, -9));
    let from_array: Coord<i16> = Coord::from([7, -9]);
    let from_pair_ref: Coord<i16> = Coord::from(&(7, -9));
    let from_array_ref: Coord<i16> = Coord::from(&[7, -9]);
    assert_eq!(from_pair, Coord::new(7, -9));
    assert_eq!(from_array, Coord::new(7, -9));
    assert_eq!(from_pair_ref, Coord::new(7, -9));
    assert_eq!(from_array_ref, Coord::new(7, -9));
    assert_eq!(from_pair.x, 7);
    assert_eq!(from_pair.y, -9);
}

#[test]
fn scalar_conversion_broadcasts() {
    let c: Coord<u64> = Coord::from(42);
    assert_eq!(c, Coord::new(42, 42));
}

#[test]
fn vec_of_two_converts() {
    let c: Result<Coord<i32>, ()> = Coord::try_from(vec![-4, 11]);
    assert_eq!(c, Ok(Coord::new(-4, 11)));
}

#[test]
fn vec_of_other_length_is_refused() {
    let empty: Result<Coord<i32>, ()> = Coord::try_from(Vec::new());
    assert_eq!(empty, Err(()));
    let one: Result<Coord<i32>, ()> = Coord::try_from(vec![1]);
    assert_eq!(one, Err(()));
    let three: Result<Coord<i32>, ()> = Coord::try_from(vec![1, 2, 3]);
    assert_eq!(three, Err(()));
}

#[test]
fn element_type_conversion() {
    assert_eq!(Coord::new(0i16, 1i16).into::<f32>(), Coord::new(0.0f32, 1.0f32));
    assert_eq!(Coord::new(200u8, 7u8).into::<u32>(), Coord::new(200u32, 7u32));
    assert_eq!(Coord::new(-3i32, 9i32).into::<i64>(), Coord::new(-3i64, 9i64));
}

#[test]
fn remainder_and_division_follow_integer_semantics() {
    assert_eq!(Coord::new(10, -3) % Coord::new(-2, -3), Coord::new(0, 0));
    assert_eq!(Coord::new(-7, 7) / Coord::new(2, -2), Coord::new(-3, -3));
    assert_eq!(Coord::new(-7, 7) % Coord::new(2, -2), Coord::new(-1, 1));
}

#[test]
fn largest_values() {
    let p = Coord::new(u8::MAX - 1, 0u8);
    assert_eq!(p + Coord::new(1, u8::MAX), Coord::new(u8::MAX, u8::MAX));
    let q = Coord::new(i64::MIN, i64::MAX);
    assert_eq!(q / Coord::new(1, -1), Coord::new(i64::MIN, -i64::MAX));
}

#[test]
fn float_division_by_zero_is_not_an_error() {
    let r = Coord::new(1.0f64, -1.0) / Coord::new(0.0, 0.0);
    assert_eq!(r, Coord::new(f64::INFINITY, f64::NEG_INFINITY));
}
