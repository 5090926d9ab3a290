use tensor_store::element::{Scalar, TensorData, TensorElementType};
use tensor_store::errors::TensorError;
use tensor_store::tensor::TensorImpl;

fn bits(values: &[f32]) -> Vec<u32> {
    values.iter().map(|v| v.to_bits()).collect()
}

#[test]
fn test_from_array_f32() {
    let vec = bits(&[1., 2., 3.]);
    let tensor = TensorImpl::from_array_f32(None, vec).unwrap();

    assert_eq!(tensor.dtype(), TensorElementType::Float32);
}

#[test]
fn tensor_from_array_with_zero_dim() {
    let shape = Some(vec![1, 3, 0, 64]);
    let data: Vec<u32> = vec![];
    let tensor = TensorImpl::from_array_f32(shape, data).unwrap();

    assert_eq!(tensor.shape(), vec![1, 3, 0, 64]);
    assert_eq!(tensor.dtype(), TensorElementType::Float32);
    assert!(tensor.is_mutable());
}

#[test]
fn tensor_from_array_flat_shape() {
    let mut tensor = TensorImpl::from_array_f32(None, bits(&[1., 2., 3.])).unwrap();
    assert_eq!(tensor.shape(), vec![3]);
    assert_eq!(tensor.dtype(), TensorElementType::Float32);
    assert!(tensor.is_mutable());
    assert_eq!(tensor.get_data_f32().unwrap(), bits(&[1., 2., 3.]));
}

#[test]
fn tensor_from_array_wildcard_resolved() {
    let data = bits(&[1., 2., 3., 4., 5., 6., 7., 8., 9., 10., 11., 12.]);
    let tensor = TensorImpl::from_array_f32(Some(vec![4, -1]), data).unwrap();
    assert_eq!(tensor.shape(), vec![4, 3]);
}

#[test]
fn tensor_from_array_product_mismatch() {
    let data = bits(&[1., 2., 3., 4., 5., 6., 7., 8., 9., 10., 11., 12.]);
    let err = TensorImpl::from_array_f32(Some(vec![3, 3]), data).unwrap_err();
    assert_eq!(
        err.message(),
        "Product of shape dimensions (9) does not match data length (12)"
    );
}

#[test]
fn tensor_from_array_not_divisible() {
    let data = bits(&[1., 2., 3., 4., 5., 6., 7., 8., 9., 10.]);
    let err = TensorImpl::from_array_f32(Some(vec![3, -1]), data).unwrap_err();
    assert_eq!(
        err.message(),
        "Data length (10) is not divisible by the product of known dimensions (3)"
    );
}

#[test]
fn tensor_zero_dim_rejects_data() {
    let err = TensorImpl::from_array_f32(Some(vec![0, 3]), bits(&[1.])).unwrap_err();
    assert_eq!(err, TensorError::ShapeDataMismatch(0, 1));

    let tensor = TensorImpl::from_array_i64(Some(vec![2, 0]), vec![]).unwrap();
    assert_eq!(tensor.shape(), vec![2, 0]);
    assert!(tensor.is_mutable());
}

#[test]
fn tensor_per_kind_construction() {
    assert_eq!(
        TensorImpl::from_array_f64(None, vec![1u64]).unwrap().dtype(),
        TensorElementType::Float64
    );
    assert_eq!(
        TensorImpl::from_array_i8(None, vec![-1i8]).unwrap().dtype(),
        TensorElementType::Int8
    );
    assert_eq!(
        TensorImpl::from_array_u8(None, vec![1u8]).unwrap().dtype(),
        TensorElementType::Uint8
    );
    assert_eq!(
        TensorImpl::from_array_i16(None, vec![-1i16]).unwrap().dtype(),
        TensorElementType::Int16
    );
    assert_eq!(
        TensorImpl::from_array_u16(None, vec![1u16]).unwrap().dtype(),
        TensorElementType::Uint16
    );
    assert_eq!(
        TensorImpl::from_array_i32(None, vec![-1i32]).unwrap().dtype(),
        TensorElementType::Int32
    );
    assert_eq!(
        TensorImpl::from_array_u32(None, vec![1u32]).unwrap().dtype(),
        TensorElementType::Uint32
    );
    assert_eq!(
        TensorImpl::from_array_i64(None, vec![-1i64]).unwrap().dtype(),
        TensorElementType::Int64
    );
    assert_eq!(
        TensorImpl::from_array_u64(None, vec![1u64]).unwrap().dtype(),
        TensorElementType::Uint64
    );
    assert_eq!(
        TensorImpl::from_array_bool(None, vec![true]).unwrap().dtype(),
        TensorElementType::Bool
    );
}

#[test]
fn tensor_string_kind_immutable() {
    let data = vec!["alpha".to_string(), "beta".to_string()];
    let mut tensor = TensorImpl::from_array_string(None, data).unwrap();

    assert_eq!(tensor.dtype(), TensorElementType::Utf8String);
    assert!(!tensor.is_mutable());
    assert_eq!(tensor.get_index_string(1).unwrap(), "beta");
    assert_eq!(
        tensor.get_data_string().unwrap(),
        vec!["alpha".to_string(), "beta".to_string()]
    );

    // every write is refused, whatever the index
    for index in 0..3 {
        let err = tensor
            .set_index(index, Scalar::Utf8String("gamma".to_string()))
            .unwrap_err();
        assert_eq!(err, TensorError::NotMutable);
    }
}

#[test]
fn tensor_type_checked_access() {
    let mut tensor = TensorImpl::from_array_i64(None, vec![5, 6, 7]).unwrap();

    let err = tensor.get_data_f32().unwrap_err();
    assert_eq!(err, TensorError::TypeError);
    assert_eq!(
        err.message(),
        "Tensor element type does not match the requested type"
    );
    assert_eq!(tensor.get_data_mut_f32().unwrap_err(), TensorError::TypeError);
    assert_eq!(tensor.get_index_f32(0).unwrap_err(), TensorError::TypeError);
    assert_eq!(tensor.get_data_string().unwrap_err(), TensorError::TypeError);
    assert_eq!(tensor.get_index_string(0).unwrap_err(), TensorError::TypeError);
    assert_eq!(
        tensor.set_index(0, Scalar::Int32(1)).unwrap_err(),
        TensorError::TypeError
    );

    // the value itself is never reinterpreted
    assert_eq!(tensor.get_index(2).unwrap(), Scalar::Int64(7));
}

#[test]
fn tensor_index_errors() {
    let mut tensor = TensorImpl::from_array_f32(None, bits(&[1., 2., 3.])).unwrap();

    let err = tensor.get_index(5).unwrap_err();
    assert_eq!(err, TensorError::IndexError(5));
    assert_eq!(err.message(), "Index (5) is out of bounds");
    assert_eq!(tensor.get_index_f32(3).unwrap_err(), TensorError::IndexError(3));
    assert_eq!(
        tensor.set_index_f32(3, 0).unwrap_err(),
        TensorError::IndexError(3)
    );
}

#[test]
fn tensor_set_index_writes_in_place() {
    let mut tensor = TensorImpl::from_array_f32(None, bits(&[1., 2., 3.])).unwrap();

    tensor.set_index_f32(1, 9.5f32.to_bits()).unwrap();
    assert_eq!(tensor.get_index_f32(1).unwrap(), 9.5f32.to_bits());
    assert_eq!(tensor.get_data_f32().unwrap(), bits(&[1., 9.5, 3.]));

    let mut ints = TensorImpl::from_array_i32(Some(vec![2, 2]), vec![1, 2, 3, 4]).unwrap();
    ints.set_index(3, Scalar::Int32(-4)).unwrap();
    assert_eq!(ints.get_index(3).unwrap(), Scalar::Int32(-4));
}

#[test]
fn tensor_per_kind_element_access() {
    let mut ints = TensorImpl::from_array_i64(Some(vec![2, 2]), vec![10, 20, 30, 40]).unwrap();
    assert_eq!(ints.get_data_i64().unwrap(), vec![10, 20, 30, 40]);
    assert_eq!(ints.get_data_mut_i64().unwrap(), vec![10, 20, 30, 40]);
    assert_eq!(ints.get_index_i64(2).unwrap(), 30);
    ints.set_index_i64(2, -5).unwrap();
    assert_eq!(ints.get_index_i64(2).unwrap(), -5);
    assert_eq!(ints.get_index_u64(0).unwrap_err(), TensorError::TypeError);

    let mut flags = TensorImpl::from_array_bool(None, vec![true, false]).unwrap();
    assert_eq!(flags.get_index_bool(1).unwrap(), false);
    flags.set_index_bool(1, true).unwrap();
    assert_eq!(flags.get_data_bool().unwrap(), vec![true, true]);

    let mut bytes = TensorImpl::from_array_u8(None, vec![9]).unwrap();
    assert_eq!(
        bytes.set_index_u8(1, 0).unwrap_err(),
        TensorError::IndexError(1)
    );
    assert_eq!(bytes.get_index_u8(0).unwrap(), 9);
}

#[test]
fn tensor_clone_is_storage_independent() {
    let mut original = TensorImpl::from_array_f32(None, bits(&[1., 2., 3.])).unwrap();
    let mut copy = original.clone();

    assert_eq!(copy.shape(), original.shape());
    assert_eq!(copy.dtype(), original.dtype());
    assert_eq!(copy.is_mutable(), original.is_mutable());
    assert_eq!(
        copy.get_data_f32().unwrap(),
        original.get_data_f32().unwrap()
    );

    // a write through the copy never reaches the original, and conversely
    copy.set_index_f32(0, 8.25f32.to_bits()).unwrap();
    assert_eq!(original.get_index_f32(0).unwrap(), 1.0f32.to_bits());
    original.set_index_f32(2, 7.5f32.to_bits()).unwrap();
    assert_eq!(copy.get_index_f32(2).unwrap(), 3.0f32.to_bits());
}

#[test]
fn tensor_from_computed_is_immutable() {
    let mut tensor = TensorImpl::from_computed(vec![2, 2], TensorData::Int64(vec![1, 2, 3, 4]));

    assert_eq!(tensor.dtype(), TensorElementType::Int64);
    assert_eq!(tensor.shape(), vec![2, 2]);
    assert!(!tensor.is_mutable());
    assert_eq!(
        tensor.set_index(0, Scalar::Int64(9)).unwrap_err(),
        TensorError::NotMutable
    );
    assert_eq!(
        tensor.set_index(0, Scalar::Int64(9)).unwrap_err().message(),
        "Tensor is not mutable"
    );
}

#[test]
fn tensor_get_data_copies_buffer() {
    let tensor = TensorImpl::from_array_u8(None, vec![1, 2, 3]).unwrap();
    match tensor.get_data() {
        TensorData::Uint8(v) => assert_eq!(v, vec![1, 2, 3]),
        _ => panic!("wrong kind"),
    }
}

#[test]
fn tensor_export_f32_pointer() {
    let mut tensor = TensorImpl::from_array_f32(Some(vec![2, 2]), bits(&[1., 2., 3., 4.])).unwrap();

    let lease = tensor.get_data_f32_pointer().unwrap();
    assert_eq!(lease.length, 4);
    assert_ne!(lease.data, 0);

    // the tensor itself stays intact after the export
    assert_eq!(tensor.get_data_f32().unwrap(), bits(&[1., 2., 3., 4.]));

    let mut ints = TensorImpl::from_array_i32(None, vec![1]).unwrap();
    assert_eq!(
        ints.get_data_f32_pointer().unwrap_err(),
        TensorError::TypeError
    );
}
