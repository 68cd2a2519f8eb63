use std::cmp::Ordering;
use strided_matrix::view::{View, ViewMut};
use strided_matrix::Accessor;

#[test]
fn view_test_accessor_new() {
    let stride_row: usize = 2;
    let stride_col: usize = 3;

    let accessor = Accessor::new(stride_row, stride_col);
    assert_eq!(accessor.stride_row(), stride_row);
    assert_eq!(accessor.stride_col(), stride_col);
    assert_eq!(accessor.offset(), 0);
}

#[test]
fn view_test_accessor_new_with_offset() {
    let stride_row: usize = 2;
    let stride_col: usize = 3;
    let offset_row: usize = 1;
    let offset_col: usize = 1;

    let accessor = Accessor::new_with_offset(stride_row, stride_col, offset_row, offset_col);
    assert_eq!(accessor.stride_row(), stride_row);
    assert_eq!(accessor.stride_col(), stride_col);

    let offset_ref: usize = stride_row * offset_row + stride_col * offset_col;
    assert_eq!(accessor.offset(), offset_ref);
}

#[test]
fn view_test_accessor_index() {
    let stride_row: usize = 3;
    let stride_col: usize = 3;

    let mut accessor = Accessor::new(stride_row, 1);
    assert_eq!(accessor.index(1, 2), stride_row + 2);

    accessor = Accessor::new(1, stride_col);
    assert_eq!(accessor.index(2, 1), 2 + stride_col);
}

#[test]
fn view_test_accessor_index_with_offset() {
    let stride_row: usize = 4;
    let stride_col: usize = 4;
    let offset_row: usize = 1;
    let offset_col: usize = 1;

    let mut accessor = Accessor::new_with_offset(stride_row, 1, offset_row, offset_col);
    assert_eq!(accessor.index(1, 2), stride_row + 7);

    accessor = Accessor::new_with_offset(1, stride_col, offset_row, offset_col);
    assert_eq!(accessor.index(2, 1), 7 + stride_col);
}

#[test]
fn test_view_new() {
    let nb_rows: usize = 3;
    let nb_cols: usize = 3;
    let data: Vec<i32> = vec![1, 2, 3, 4, 5, 6, 7, 8, 9];

    let view: View<i32> =
        View::new(nb_rows, nb_cols, Accessor::new(nb_cols, 1), data.as_slice());

    assert_eq!(view.nb_rows, nb_rows);
    assert_eq!(view.nb_cols, nb_cols);

    match view.data.partial_cmp(data.as_slice()) {
        Some(result) => assert_eq!(result, Ordering::Equal),
        None => assert!(false),
    }
}

#[test]
fn test_view_dimensions_access() {
    let nb_rows: usize = 3;
    let nb_cols: usize = 3;
    let data: Vec<i32> = vec![1, 2, 3, 4, 5, 6, 7, 8, 9];

    let view: View<i32> =
        View::new(nb_rows, nb_cols, Accessor::new(nb_cols, 1), data.as_slice());

    assert_eq!(view.nb_rows(), nb_rows);
    assert_eq!(view.nb_cols(), nb_cols);
}

#[test]
fn test_view_data_access() {
    let nb_rows: usize = 3;
    let nb_cols: usize = 3;
    let data: Vec<i32> = vec![1, 2, 3, 4, 5, 6, 7, 8, 9];

    let view: View<i32> =
        View::new(nb_rows, nb_cols, Accessor::new(1, nb_rows), data.as_slice());

    assert_eq!(view[(0, 0)], data[0]);
    assert_eq!(view[(1, 0)], data[1]);
    assert_eq!(view[(2, 0)], data[2]);
    assert_eq!(view[(0, 1)], data[3]);
    assert_eq!(view[(1, 1)], data[4]);
    assert_eq!(view[(2, 1)], data[5]);
    assert_eq!(view[(0, 2)], data[6]);
    assert_eq!(view[(1, 2)], data[7]);
    assert_eq!(view[(2, 2)], data[8]);
}

#[test]
fn test_view_data_access_with_offset() {
    let nb_rows: usize = 3;
    let nb_cols: usize = 3;
    let data: Vec<i32> = vec![1, 2, 3, 4, 5, 6, 7, 8, 9];

    let view: View<i32> = View::new(
        nb_rows - 1,
        nb_cols - 1,
        Accessor::new_with_offset(1, nb_rows, 1, 1),
        data.as_slice(),
    );

    assert_eq!(view[(0, 0)], data[4]);
    assert_eq!(view[(1, 0)], data[5]);
    assert_eq!(view[(0, 1)], data[7]);
    assert_eq!(view[(1, 1)], data[8]);
}

#[test]
fn test_mutable_view_data_access() {
    let nb_rows: usize = 3;
    let nb_cols: usize = 3;
    let mut data: Vec<i32> = vec![1, 2, 3, 4, 5, 6, 7, 8, 9];
    let data_clone: Vec<i32> = data.clone();

    let mut view: ViewMut<i32> = ViewMut::new(
        nb_rows,
        nb_cols,
        Accessor::new(nb_cols, 1),
        data.as_mut_slice(),
    );

    assert_eq!(view[(0, 0)], data_clone[0]);
    assert_eq!(view[(0, 1)], data_clone[1]);
    assert_eq!(view[(0, 2)], data_clone[2]);
    assert_eq!(view[(1, 0)], data_clone[3]);
    assert_eq!(view[(1, 1)], data_clone[4]);
    assert_eq!(view[(1, 2)], data_clone[5]);
    assert_eq!(view[(2, 0)], data_clone[6]);
    assert_eq!(view[(2, 1)], data_clone[7]);
    assert_eq!(view[(2, 2)], data_clone[8]);

    let new_value: i32 = 17;
    view[(1, 2)] = new_value;
    assert_eq!(view[(1, 2)], new_value);
    assert_eq!(data[5], new_value);
}

#[test]
fn test_mutable_view_data_access_with_offset() {
    let nb_rows: usize = 3;
    let nb_cols: usize = 3;
    let mut data: Vec<i32> = vec![1, 2, 3, 4, 5, 6, 7, 8, 9];
    let data_clone: Vec<i32> = data.clone();

    let mut view: ViewMut<i32> = ViewMut::new(
        nb_rows - 1,
        nb_cols - 1,
        Accessor::new_with_offset(nb_cols, 1, 1, 1),
        data.as_mut_slice(),
    );

    assert_eq!(view[(0, 0)], data_clone[4]);
    assert_eq!(view[(0, 1)], data_clone[5]);
    assert_eq!(view[(1, 0)], data_clone[7]);
    assert_eq!(view[(1, 1)], data_clone[8]);

    let new_value: i32 = 17;
    view[(1, 0)] = new_value;
    assert_eq!(view[(1, 0)], new_value);
    assert_eq!(data[7], new_value);
}
