use space_war::game::world::vector::{isqrt, Vector};

#[test]
fn should_create_vectors_around() {
    let center = Vector::new(5, 5);
    let expected = vec![
        Vector::new(5, 4),
        Vector::new(6, 4),
        Vector::new(6, 5),
        Vector::new(6, 6),
        Vector::new(5, 6),
        Vector::new(4, 6),
        Vector::new(4, 5),
        Vector::new(4, 4),
    ];
    let result = center.all_around();

    assert_eq!(result, expected);
}

#[test]
fn all_around_negative_centre() {
    let around = Vector::new(-1, 0).all_around();
    assert_eq!(around.len(), 8);
    assert_eq!(around[0], Vector::new(-1, -1));
    assert_eq!(around[7], Vector::new(-2, -1));
    assert!(!around.contains(&Vector::new(-1, 0)));
}

#[test]
fn distance_of_a_three_four_five_triangle() {
    let a = Vector::new(1, 2);
    let b = Vector::new(4, 6);
    assert_eq!(a.distance_to(&b), 5);
    assert_eq!(b.distance_to(&a), 5);
}

#[test]
fn distance_is_rounded_down() {
    assert_eq!(Vector::new(0, 0).distance_to(&Vector::new(1, 1)), 1);
    assert_eq!(Vector::new(0, 0).distance_to(&Vector::new(2, 2)), 2);
    assert_eq!(Vector::new(0, 0).distance_to(&Vector::new(3, 3)), 4);
}

#[test]
fn distance_to_itself_is_zero() {
    let a = Vector::new(-7, 13);
    assert_eq!(a.distance_to(&a), 0);
}

#[test]
fn integer_square_roots() {
    assert_eq!(isqrt(0), 0);
    assert_eq!(isqrt(1), 1);
    assert_eq!(isqrt(3), 1);
    assert_eq!(isqrt(4), 2);
    assert_eq!(isqrt(15), 3);
    assert_eq!(isqrt(16), 4);
    assert_eq!(isqrt(17), 4);
    assert_eq!(isqrt(i32::MAX), 46340);
}

#[test]
fn difference_of_two_points() {
    let a = Vector::new(3, -2);
    let b = Vector::new(1, 5);
    assert_eq!(&a - &b, Vector::new(2, -7));
    assert_eq!(&b - &a, Vector::new(-2, 7));
}

#[test]
fn local_position_cuts_to_sixteen_bits() {
    assert_eq!(Vector::new(3, 4).to_local_pos(), (3, 4));
    assert_eq!(Vector::new(-1, 65536).to_local_pos(), (65535, 0));
}

#[test]
fn default_vector_is_origin() {
    assert_eq!(Vector::default(), Vector::new(0, 0));
}
