use tensor_store::errors::TensorError;
use tensor_store::tensor::TensorImpl;

#[test]
fn tensor_parse_shape_1d() {
    let shape = None;
    let data = vec![1, 2, 3, 4, 5, 6, 7, 8, 9, 10];

    let result = TensorImpl::parse_shape(shape, &data).unwrap();

    assert_eq!(result, vec![data.len() as i64]);
}

#[test]
fn tensor_parse_shape_dynamic_dim_negative_one() {
    let shape = Some(vec![4, -1]);
    let data = vec![1, 2, 3, 4, 5, 6, 7, 8, 9, 10, 11, 12];

    let result = TensorImpl::parse_shape(shape, &data).unwrap();

    assert_eq!(result, vec![4, 3]);
}

#[test]
fn tensor_parse_shape_no_dynamic_dim_match_data() {
    let shape = Some(vec![3, 4]);
    let data = vec![1, 2, 3, 4, 5, 6, 7, 8, 9, 10, 11, 12];

    let result = TensorImpl::parse_shape(shape, &data).unwrap();

    assert_eq!(result, vec![3, 4]);
}

#[test]
fn tensor_parse_shape_dynamic_dim_negative_one_4d() {
    let shape = Some(vec![1, 2, -1, 2]);
    let data = vec![1, 2, 3, 4, 5, 6, 7, 8, 9, 10, 11, 12];

    let result = TensorImpl::parse_shape(shape, &data).unwrap();

    assert_eq!(result, vec![1, 2, 3, 2]);
}

#[test]
fn tensor_parse_shape_no_dynamic_dim_mismatch_data() {
    let shape = Some(vec![3, 3]);
    let data = vec![1, 2, 3, 4, 5, 6, 7, 8, 9, 10, 11, 12];

    let result = TensorImpl::parse_shape(shape, &data);

    assert!(result.is_err());
    assert_eq!(
        result.unwrap_err().message(),
        "Product of shape dimensions (9) does not match data length (12)"
    );
}

#[test]
fn tensor_parse_shape_dynamic_dim_not_divisible() {
    let shape = Some(vec![3, -1]);
    let data = vec![1, 2, 3, 4, 5, 6, 7, 8, 9, 10]; // 10 is not divisible by 3

    let result = TensorImpl::parse_shape(shape, &data);

    assert!(result.is_err());
    assert_eq!(
        result.unwrap_err().message(),
        "Data length (10) is not divisible by the product of known dimensions (3)"
    );
}

#[test]
fn tensor_parse_shape_two_wildcards() {
    let data = vec![1, 2, 3, 4, 5, 6];
    let result = TensorImpl::parse_shape(Some(vec![-1, -1]), &data);
    assert_eq!(result.unwrap_err(), TensorError::MultipleWildcards);

    let result = TensorImpl::parse_shape(Some(vec![2, -1, 3, -1]), &data);
    assert_eq!(result.unwrap_err(), TensorError::MultipleWildcards);
    assert_eq!(
        TensorImpl::parse_shape(Some(vec![-1, -1]), &data)
            .unwrap_err()
            .message(),
        "Only one dynamic dimension (-1 or 0) is allowed in the shape"
    );
}

#[test]
fn tensor_parse_shape_invalid_dimension() {
    let data = vec![1, 2, 3, 4, 5, 6];
    let result = TensorImpl::parse_shape(Some(vec![2, -3]), &data);
    assert_eq!(result, Err(TensorError::InvalidDimension(-3)));
    assert_eq!(
        result.unwrap_err().message(),
        "Invalid dimension in shape: -3"
    );
}

#[test]
fn tensor_parse_shape_invalid_dimension_before_second_wildcard() {
    // the scan reports the first offence: the invalid entry stands before
    // the second wildcard
    let data = vec![1, 2, 3, 4];
    let result = TensorImpl::parse_shape(Some(vec![-2, -1, -1]), &data);
    assert_eq!(result, Err(TensorError::InvalidDimension(-2)));
}

#[test]
fn tensor_parse_shape_empty_shape() {
    // an empty shape has product 1, which only one-element data matches
    let data: Vec<i32> = vec![];
    let result = TensorImpl::parse_shape(Some(vec![]), &data);
    assert_eq!(
        result.unwrap_err().message(),
        "Product of shape dimensions (1) does not match data length (0)"
    );

    let data = vec![7];
    let result = TensorImpl::parse_shape(Some(vec![]), &data).unwrap();
    assert_eq!(result, Vec::<i64>::new());
}
