use linalgo::square_matrix;
use linalgo::SquareMatrix;
use std::cell::Cell;
use std::rc::Rc;

/// A value that counts how often it has been cloned.
#[derive(Debug)]
struct Tallied {
    label: u32,
    clones: Rc<Cell<usize>>,
}

impl Clone for Tallied {
    fn clone(&self) -> Self {
        self.clones.set(self.clones.get() + 1);
        Tallied { label: self.label, clones: Rc::clone(&self.clones) }
    }
}

#[test]
fn matrix_new_has_the_requested_size() {
    for size in [1usize, 2, 3, 10, 50] {
        let matrix: SquareMatrix<i32> = SquareMatrix::new(size);
        assert_eq!(matrix.size(), size);
    }
}

#[test]
fn matrix_is_reachable_through_its_module() {
    let matrix: square_matrix::SquareMatrix<i32> = square_matrix::SquareMatrix::new(10);
    assert_eq!(matrix.size(), 10);
    assert_eq!(matrix.get(0, 0), None);
}

#[test]
fn matrix_new_is_empty_at_every_pair() {
    let matrix: SquareMatrix<i32> = SquareMatrix::new(10);
    for row in 0..matrix.size() {
        for column in 0..matrix.size() {
            assert_eq!(matrix.get(row, column), None);
        }
    }
}

#[test]
fn matrix_of_one_slot() {
    let mut matrix: SquareMatrix<u8> = SquareMatrix::new(1);
    assert_eq!(matrix.size(), 1);
    assert_eq!(matrix.get(0, 0), None);
    matrix.set(0, 1, 4);
    matrix.set(1, 0, 4);
    assert_eq!(matrix.get(0, 0), None);
    matrix.set(0, 0, 200);
    assert_eq!(matrix.get(0, 0), Some(&200));
    assert_eq!(matrix.get(0, 1), None);
    assert_eq!(matrix.get(1, 0), None);
    matrix.set_all_to(&3);
    assert_eq!(matrix.get(0, 0), Some(&3));
    assert_eq!(matrix.size(), 1);
}

#[test]
fn matrix_get_after_set_returns_the_value() {
    let mut matrix: SquareMatrix<i32> = SquareMatrix::new(10);
    matrix.set(5, 5, 10);
    assert_eq!(matrix.get(5, 5), Some(10).as_ref());
}

#[test]
fn matrix_set_touches_one_slot_only() {
    let mut matrix: SquareMatrix<i32> = SquareMatrix::new(10);

    matrix.set(0, 0, 5);
    matrix.set(5, 5, 0);

    assert_eq!(matrix.get(0, 0), Some(5).as_ref());
    assert_eq!(matrix.get(5, 5), Some(0).as_ref());
    assert_eq!(matrix.get(2, 2), None);
    for row in 0..10 {
        for column in 0..10 {
            if (row, column) != (0, 0) && (row, column) != (5, 5) {
                assert_eq!(matrix.get(row, column), None);
            }
        }
    }
    assert_eq!(matrix.size(), 10);
}

#[test]
fn matrix_rows_and_columns_are_not_mixed_up() {
    let mut matrix: SquareMatrix<i32> = SquareMatrix::new(3);
    matrix.set(0, 2, 7);
    assert_eq!(matrix.get(0, 2), Some(&7));
    assert_eq!(matrix.get(2, 0), None);
    matrix.set(2, 0, 8);
    assert_eq!(matrix.get(0, 2), Some(&7));
    assert_eq!(matrix.get(2, 0), Some(&8));
}

#[test]
fn matrix_set_at_every_pair() {
    let mut matrix: SquareMatrix<usize> = SquareMatrix::new(4);
    for row in 0..4 {
        for column in 0..4 {
            matrix.set(row, column, row * 4 + column);
        }
    }
    for row in 0..4 {
        for column in 0..4 {
            assert_eq!(matrix.get(row, column), Some(&(row * 4 + column)));
        }
    }
}

#[test]
fn matrix_set_overwrites_the_previous_value() {
    let mut matrix: SquareMatrix<i32> = SquareMatrix::new(2);
    matrix.set(1, 0, 4);
    matrix.set(1, 0, -9);
    assert_eq!(matrix.get(1, 0), Some(&-9));
    assert_eq!(matrix.get(0, 0), None);
    assert_eq!(matrix.get(0, 1), None);
    assert_eq!(matrix.get(1, 1), None);
}

#[test]
fn matrix_set_out_of_range_changes_nothing() {
    let mut matrix: SquareMatrix<i32> = SquareMatrix::new(3);
    matrix.set(0, 0, 1);
    matrix.set(2, 2, 2);

    matrix.set(3, 0, 99);
    matrix.set(0, 3, 99);
    matrix.set(3, 3, 99);
    matrix.set(usize::MAX, 1, 99);
    matrix.set(1, usize::MAX, 99);

    assert_eq!(matrix.size(), 3);
    for row in 0..3 {
        for column in 0..3 {
            let expected = match (row, column) {
                (0, 0) => Some(&1),
                (2, 2) => Some(&2),
                _ => None,
            };
            assert_eq!(matrix.get(row, column), expected);
        }
    }
}

#[test]
fn matrix_get_out_of_range_is_absent_like_an_empty_slot() {
    let mut matrix: SquareMatrix<i32> = SquareMatrix::new(3);
    matrix.set(1, 1, 8);
    let empty_inside = matrix.get(0, 0);
    assert_eq!(matrix.get(3, 0), empty_inside);
    assert_eq!(matrix.get(0, 3), empty_inside);
    assert_eq!(matrix.get(3, 3), empty_inside);
    assert_eq!(matrix.get(1, usize::MAX), empty_inside);
    assert_eq!(matrix.get(usize::MAX, 1), empty_inside);
    assert_eq!(empty_inside, None);
}

#[test]
fn matrix_set_all_to_fills_every_slot() {
    let mut matrix: SquareMatrix<i32> = SquareMatrix::new(10);
    matrix.set_all_to(&2);

    assert_eq!(matrix.get(0, 0), Some(2).as_ref());
    assert_eq!(matrix.get(1, 1), Some(2).as_ref());
    assert_eq!(matrix.get(2, 2), Some(2).as_ref());
    assert_eq!(matrix.get(9, 9), Some(2).as_ref());
    for row in 0..10 {
        for column in 0..10 {
            assert_eq!(matrix.get(row, column), Some(&2));
        }
    }
    assert_eq!(matrix.get(10, 0), None);
    assert_eq!(matrix.get(0, 10), None);
    assert_eq!(matrix.size(), 10);
}

#[test]
fn matrix_set_all_to_overwrites_earlier_values() {
    let mut matrix: SquareMatrix<i32> = SquareMatrix::new(3);
    matrix.set(0, 1, 11);
    matrix.set(2, 2, 33);
    matrix.set_all_to(&-1);
    for row in 0..3 {
        for column in 0..3 {
            assert_eq!(matrix.get(row, column), Some(&-1));
        }
    }
    matrix.set(1, 2, 5);
    assert_eq!(matrix.get(1, 1), Some(&-1));
    assert_eq!(matrix.get(1, 2), Some(&5));
    assert_eq!(matrix.get(2, 1), Some(&-1));
}

#[test]
fn matrix_with_one_value_in_the_middle() {
    let mut matrix: SquareMatrix<i32> = SquareMatrix::new(3);
    matrix.set(1, 1, 7);
    assert_eq!(matrix.get(1, 1), Some(&7));
    assert_eq!(matrix.get(0, 0), None);
    assert_eq!(matrix.get(3, 0), None);
}

#[test]
fn matrix_slots_do_not_follow_the_shared_value() {
    let mut shared = String::from("first");
    let mut matrix: SquareMatrix<String> = SquareMatrix::new(2);
    matrix.set_all_to(&shared);

    shared.push_str(" and more");
    assert_eq!(shared, "first and more");
    for row in 0..2 {
        for column in 0..2 {
            assert_eq!(matrix.get(row, column), Some(&String::from("first")));
        }
    }

    drop(shared);
    assert_eq!(matrix.get(1, 1).map(|s| s.as_str()), Some("first"));
}

#[test]
fn matrix_slots_are_independent_of_each_other() {
    let mut matrix: SquareMatrix<Vec<u8>> = SquareMatrix::new(2);
    matrix.set_all_to(&vec![1, 2]);
    matrix.set(0, 1, vec![9]);
    assert_eq!(matrix.get(0, 0), Some(&vec![1, 2]));
    assert_eq!(matrix.get(0, 1), Some(&vec![9]));
    assert_eq!(matrix.get(1, 0), Some(&vec![1, 2]));
    assert_eq!(matrix.get(1, 1), Some(&vec![1, 2]));
}

#[test]
fn matrix_set_all_to_clones_once_for_each_slot() {
    let clones = Rc::new(Cell::new(0));
    let shared = Tallied { label: 7, clones: Rc::clone(&clones) };
    let mut matrix: SquareMatrix<Tallied> = SquareMatrix::new(4);
    matrix.set_all_to(&shared);

    assert_eq!(clones.get(), 16);
    assert_eq!(shared.label, 7);
    for row in 0..4 {
        for column in 0..4 {
            assert_eq!(matrix.get(row, column).map(|c| c.label), Some(7));
        }
    }
}
