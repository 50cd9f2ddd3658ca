use testapp::dataset::{Booster, DataError, Dataset, Field, MatBuf, Parameters};
use testapp::demo::{train_features, train_labels};

use std::sync::Arc;

#[test]
fn demo_pipeline_succeeds() {
    let p = Parameters::new();
    let mat = MatBuf::from_rows(train_features());
    let mut train = Dataset::from_mat(mat, &p).unwrap();
    train.set_field(Field::Label, train_labels()).unwrap();
    let booster = Booster::new(Arc::new(train), &p).unwrap();
    assert_eq!(booster.num_rows(), 128);
}

#[test]
fn train_features_values() {
    let feats = train_features();
    assert_eq!(feats.len(), 128);
    for (x, row) in feats.iter().enumerate() {
        assert_eq!(row.len(), 1);
        assert_eq!(row[0], (x % 3) as i64);
    }
    assert_eq!(feats[0], vec![0]);
    assert_eq!(feats[1], vec![1]);
    assert_eq!(feats[2], vec![2]);
    assert_eq!(feats[3], vec![0]);
    assert_eq!(feats[127], vec![1]);
}

#[test]
fn train_labels_values() {
    let labels = train_labels();
    assert_eq!(labels.len(), 128);
    for (x, v) in labels.iter().enumerate() {
        assert_eq!(*v, (x % 3) as i64);
    }
    assert_eq!(labels[0], 0);
    assert_eq!(labels[126], 0);
    assert_eq!(labels[127], 1);
}

#[test]
fn mismatched_labels_rejected() {
    let p = Parameters::new();
    let mat = MatBuf::from_rows(train_features());
    let mut train = Dataset::from_mat(mat, &p).unwrap();

    let mut short = train_labels();
    short.pop();
    assert_eq!(short.len(), 127);
    assert_eq!(
        train.set_field(Field::Label, short),
        Err(DataError::FieldLengthMismatch)
    );
    assert!(!train.has_field(Field::Label));

    assert_eq!(train.set_field(Field::Label, train_labels()), Ok(()));
    assert!(train.has_field(Field::Label));
}

#[test]
fn empty_matrix_rejected() {
    let p = Parameters::new();
    let mat = MatBuf::from_rows(Vec::new());
    let r = Dataset::from_mat(mat, &p);
    assert!(matches!(r, Err(DataError::EmptyMatrix)));
}

#[test]
fn ragged_rows_rejected() {
    let p = Parameters::new();
    let mat = MatBuf::from_rows(vec![vec![1, 2], vec![3]]);
    let r = Dataset::from_mat(mat, &p);
    assert!(matches!(r, Err(DataError::RaggedRows)));
}

#[test]
fn matbuf_shape() {
    let m = MatBuf::from_rows(vec![vec![1, 2], vec![3, 4], vec![5, 6]]);
    assert_eq!(m.num_rows(), 3);
    assert!(m.is_rectangular());

    let ragged = MatBuf::from_rows(vec![vec![1, 2], vec![3]]);
    assert!(!ragged.is_rectangular());

    let empty = MatBuf::from_rows(Vec::new());
    assert_eq!(empty.num_rows(), 0);
    assert!(empty.is_rectangular());
}

#[test]
fn booster_requires_label() {
    let p = Parameters::new();
    let mat = MatBuf::from_rows(train_features());
    let mut train = Dataset::from_mat(mat, &p).unwrap();

    let mut weights: Vec<i64> = Vec::new();
    for _ in 0..128 {
        weights.push(1);
    }
    train.set_field(Field::Weight, weights).unwrap();
    assert!(train.has_field(Field::Weight));
    assert!(!train.has_field(Field::Label));

    let r = Booster::new(Arc::new(train), &p);
    assert!(matches!(r, Err(DataError::MissingLabel)));
}

#[test]
fn fresh_dataset_has_no_fields() {
    let p = Parameters::new();
    let mat = MatBuf::from_rows(vec![vec![7], vec![8]]);
    let train = Dataset::from_mat(mat, &p).unwrap();
    assert_eq!(train.num_rows(), 2);
    assert!(!train.has_field(Field::Label));
    assert!(!train.has_field(Field::Weight));
}

#[test]
fn weight_field_checks_length_too() {
    let p = Parameters::new();
    let mat = MatBuf::from_rows(vec![vec![1], vec![2], vec![3]]);
    let mut train = Dataset::from_mat(mat, &p).unwrap();
    assert_eq!(
        train.set_field(Field::Weight, vec![1, 1]),
        Err(DataError::FieldLengthMismatch)
    );
    assert!(!train.has_field(Field::Weight));
    assert_eq!(train.set_field(Field::Weight, vec![1, 1, 1]), Ok(()));
    assert!(train.has_field(Field::Weight));
}
