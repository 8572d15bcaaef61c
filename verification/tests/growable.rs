use friedrich::extendable_matrix::{EMatrix, EVector};

fn matrix_rows(m: &EMatrix<f64>) -> Vec<Vec<f64>> {
    m.view_rows().iter().map(|r| r.clone()).collect()
}

#[test]
fn matrix_appends_concatenate() {
    // The logical view after a series of appends is the ordered
    // concatenation of the appended blocks, across reallocations.
    let mut m = EMatrix::new(vec![vec![1.0, 2.0]], 2, f64::NAN);
    let blocks: Vec<Vec<Vec<f64>>> = vec![
        vec![vec![3.0, 4.0], vec![5.0, 6.0]],
        vec![],
        vec![vec![7.0, 8.0], vec![9.0, 10.0], vec![11.0, 12.0]],
        vec![vec![13.0, 14.0]],
    ];
    let mut expected: Vec<Vec<f64>> = vec![vec![1.0, 2.0]];
    for block in &blocks {
        m.add_rows(block);
        expected.extend(block.iter().cloned());
    }
    assert_eq!(matrix_rows(&m), expected);
    assert_eq!(m.len(), 7);
}

#[test]
fn vector_appends_concatenate() {
    let mut v = EVector::new(vec![1.0f64], f64::NAN);
    let blocks: Vec<Vec<f64>> = vec![vec![2.0, 3.0], vec![4.0], vec![], vec![5.0, 6.0, 7.0]];
    let mut expected: Vec<f64> = vec![1.0];
    for block in &blocks {
        v.add_rows(block);
        expected.extend(block.iter().cloned());
    }
    assert_eq!(v.view_rows().to_vec(), expected);
}

#[test]
fn capacity_grows_by_half_or_to_required() {
    // Growing append: capacity becomes max(required, old + old / 2).
    let mut v = EVector::new(vec![0.0f64; 10], f64::NAN);
    assert_eq!(v.capacity(), 10);
    v.add_rows(&vec![1.0]);
    // required 11 < 15 = 10 + 10 / 2
    assert_eq!(v.capacity(), 15);
    let old_cap = v.capacity();
    v.add_rows(&vec![2.0; 20]);
    // required 31 > 22 = 15 + 15 / 2
    assert_eq!(v.capacity(), 31);
    assert!(v.capacity() >= old_cap);

    let mut m = EMatrix::new(vec![vec![0.0f64]; 4], 1, f64::NAN);
    m.add_rows(&vec![vec![1.0], vec![2.0]]);
    // required 6 == max(6, 4 + 4 / 2)
    assert_eq!(m.capacity(), 6);
}

#[test]
fn capacity_is_monotone_and_stays_put_without_growth() {
    let mut v = EVector::new(vec![0.0f64; 8], f64::NAN);
    let mut last_cap = v.capacity();
    // Shrink logical size is impossible; do several small appends and watch
    // the capacity never decrease.
    for k in 0..6 {
        v.add_rows(&vec![k as f64; 3]);
        assert!(v.capacity() >= last_cap);
        last_cap = v.capacity();
    }
    // A fresh vector with spare capacity keeps it on a non-growing append.
    let mut w = EVector::new(vec![0.0f64; 2], f64::NAN);
    w.add_rows(&vec![]);
    assert_eq!(w.capacity(), 2);
}

#[test]
fn view_excludes_sentinel_rows() {
    let mut v = EVector::new(vec![1.0f64; 10], f64::NAN);
    v.add_rows(&vec![3.0]);
    // Capacity outgrew the logical size, but no sentinel shows in the view.
    assert!(v.capacity() > v.len());
    assert_eq!(v.len(), 11);
    assert!(v.view_rows().iter().all(|x| !x.is_nan()));

    let mut m = EMatrix::new(vec![vec![1.0f64, 2.0]; 10], 2, f64::NAN);
    m.add_rows(&vec![vec![3.0, 4.0]]);
    assert!(m.capacity() > m.len());
    assert!(m.view_rows().iter().all(|row| row.iter().all(|x| !x.is_nan())));
}

#[test]
fn assign_with_wrong_length_fails_and_changes_nothing() {
    let mut v = EVector::new(vec![1.0f64, 2.0, 3.0], f64::NAN);
    let err = v.assign(&vec![9.0, 9.0]).unwrap_err();
    assert_eq!(err.expected, 3);
    assert_eq!(err.found, 2);
    assert_eq!(v.view_rows().to_vec(), vec![1.0, 2.0, 3.0]);
    assert!(v.assign(&vec![9.0; 4]).is_err());
    assert_eq!(v.view_rows().to_vec(), vec![1.0, 2.0, 3.0]);
}

#[test]
fn assign_with_correct_length_replaces_content() {
    let mut v = EVector::new(vec![1.0f64, 2.0, 3.0], f64::NAN);
    v.add_rows(&vec![4.0]);
    let cap = v.capacity();
    assert!(v.assign(&vec![9.0, 8.0, 7.0, 6.0]).is_ok());
    assert_eq!(v.view_rows().to_vec(), vec![9.0, 8.0, 7.0, 6.0]);
    assert_eq!(v.capacity(), cap);
}

#[test]
fn containers_take_any_copy_element() {
    // The growth bookkeeping is independent of the element type.
    let mut v: EVector<u64> = EVector::new(vec![1, 2], u64::MAX);
    v.add_rows(&vec![3, 4, 5]);
    assert_eq!(v.view_rows().to_vec(), vec![1, 2, 3, 4, 5]);
    assert_eq!(v.capacity(), 5);
    let mut m: EMatrix<i32> = EMatrix::new(vec![vec![-1, -2]], 2, 0);
    m.add_rows(&vec![vec![3, 4]]);
    assert_eq!(m.view_rows(), &[vec![-1, -2], vec![3, 4]]);
}
