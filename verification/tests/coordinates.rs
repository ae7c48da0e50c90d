use grid2d::Coordinate;

#[test]
fn as_index_is_row_major() {
    assert_eq!(Coordinate::new(0, 0).as_index(4), Some(0));
    assert_eq!(Coordinate::new(3, 0).as_index(4), Some(3));
    assert_eq!(Coordinate::new(0, 1).as_index(4), Some(4));
    assert_eq!(Coordinate::new(2, 3).as_index(4), Some(14));
}

#[test]
fn as_index_rejects_column_beyond_width() {
    assert_eq!(Coordinate::new(4, 0).as_index(4), None);
    assert_eq!(Coordinate::new(5, 1).as_index(4), None);
    assert_eq!(Coordinate::new(0, 0).as_index(0), None);
}

#[test]
fn as_index_rejects_overflow() {
    assert_eq!(Coordinate::new(0, usize::MAX).as_index(2), None);
    assert_eq!(Coordinate::new(1, usize::MAX).as_index(2), None);
    assert_eq!(Coordinate::new(0, usize::MAX).as_index(1), Some(usize::MAX));
    assert_eq!(Coordinate::new(1, usize::MAX / 2).as_index(2), Some(usize::MAX));
    assert_eq!(Coordinate::new(2, usize::MAX / 2).as_index(3), None);
}

#[test]
fn from_width_and_index_splits_the_index() {
    assert_eq!(Coordinate::from_width_and_index(4, 0), Coordinate::new(0, 0));
    assert_eq!(Coordinate::from_width_and_index(4, 14), Coordinate::new(2, 3));
    assert_eq!(Coordinate::from_width_and_index(1, 7), Coordinate::new(0, 7));
    assert_eq!(
        Coordinate::from_width_and_index(usize::MAX, usize::MAX),
        Coordinate::new(0, 1)
    );
}

#[test]
fn index_round_trip() {
    for width in 1..9 {
        for index in 0..100 {
            let coordinate = Coordinate::from_width_and_index(width, index);
            assert!(coordinate.x() < width);
            assert_eq!(coordinate.as_index(width), Some(index));
        }
    }
    let coordinate = Coordinate::from_width_and_index(7, usize::MAX);
    assert_eq!(coordinate.as_index(7), Some(usize::MAX));
}

#[test]
fn neighbors_in_scan_order() {
    assert_eq!(
        Coordinate::new(5, 7).neighbors(),
        vec![
            Coordinate::new(4, 6),
            Coordinate::new(5, 6),
            Coordinate::new(6, 6),
            Coordinate::new(4, 7),
            Coordinate::new(6, 7),
            Coordinate::new(4, 8),
            Coordinate::new(5, 8),
            Coordinate::new(6, 8),
        ]
    );
}

#[test]
fn neighbors_near_zero_drop_what_would_be_negative() {
    assert_eq!(
        Coordinate::new(0, 0).neighbors(),
        vec![Coordinate::new(1, 0), Coordinate::new(0, 1), Coordinate::new(1, 1)]
    );
    assert_eq!(
        Coordinate::new(0, 1).neighbors(),
        vec![
            Coordinate::new(0, 0),
            Coordinate::new(1, 0),
            Coordinate::new(1, 1),
            Coordinate::new(0, 2),
            Coordinate::new(1, 2),
        ]
    );
}

#[test]
fn neighbors_near_the_maximum_drop_what_would_overflow() {
    let max = usize::MAX;
    assert_eq!(
        Coordinate::new(max, max).neighbors(),
        vec![
            Coordinate::new(max - 1, max - 1),
            Coordinate::new(max, max - 1),
            Coordinate::new(max - 1, max),
        ]
    );
}

#[test]
fn neighbors_are_repeatable() {
    let coordinate = Coordinate::new(3, 0);
    assert_eq!(coordinate.neighbors(), coordinate.neighbors());
    assert_eq!(coordinate.neighbors().len(), 5);
}

#[test]
fn offset_by_checks_both_components() {
    let coordinate = Coordinate::new(1, 0);
    assert_eq!(coordinate.offset_by(-1, 0), Some(Coordinate::new(0, 0)));
    assert_eq!(coordinate.offset_by(-2, 0), None);
    assert_eq!(coordinate.offset_by(0, -1), None);
    assert_eq!(coordinate.offset_by(3, 4), Some(Coordinate::new(4, 4)));
    assert_eq!(Coordinate::new(usize::MAX, 0).offset_by(1, 0), None);
    assert_eq!(Coordinate::new(0, usize::MAX).offset_by(0, 1), None);
}

#[test]
fn accessors_give_the_components() {
    let coordinate = Coordinate::new(32, 1337);
    assert_eq!(coordinate.x(), 32);
    assert_eq!(coordinate.y(), 1337);
}

#[test]
fn conversions_from_and_into_arrays() {
    let coordinate: Coordinate = [32, 1337].into();
    assert_eq!(coordinate, Coordinate::new(32, 1337));
    let coordinate: Coordinate = (&[32, 1337]).into();
    assert_eq!(coordinate, Coordinate::new(32, 1337));
    let coordinate: Coordinate = (&Coordinate::new(32, 1337)).into();
    assert_eq!(coordinate, Coordinate::new(32, 1337));
    let [x, y]: [usize; 2] = Coordinate::new(32, 1337).into();
    assert_eq!((x, y), (32, 1337));
    let [x, y]: [usize; 2] = (&Coordinate::new(32, 1337)).into();
    assert_eq!((x, y), (32, 1337));
}

#[test]
fn render_joins_the_components() {
    assert_eq!(Coordinate::new(42, 1337).render(), "42x1337");
    assert_eq!(Coordinate::new(0, 0).render(), "0x0");
}
