use gpu_tensor::error::TensorError;

#[test]
fn every_error_has_its_own_message() {
    let all = vec![
        TensorError::DeviceAcquisitionFailure,
        TensorError::ShapeMismatch,
        TensorError::IncompatibleShape,
        TensorError::MappingFailure,
        TensorError::UnsupportedRank,
        TensorError::TileMisaligned,
        TensorError::TooLarge,
        TensorError::DeviceRejected,
        TensorError::BindingMismatch,
    ];
    for (i, a) in all.iter().enumerate() {
        assert!(!a.message().is_empty());
        for b in all.iter().skip(i + 1) {
            assert_ne!(a.message(), b.message());
        }
    }
}

#[test]
fn messages_read_as_written() {
    assert_eq!(TensorError::IncompatibleShape.message(), "incompatible matrix size");
    assert_eq!(TensorError::MappingFailure.message(), "failed to run compute on device");
    assert_eq!(TensorError::ShapeMismatch.message(), "shape mismatch");
    assert_eq!(
        TensorError::DeviceAcquisitionFailure.message(),
        "no compute device could be acquired"
    );
    assert_eq!(
        TensorError::UnsupportedRank.message(),
        "only two-dimensional shapes are supported"
    );
    assert_eq!(
        TensorError::TileMisaligned.message(),
        "dimension is not a multiple of the tile edge"
    );
    assert_eq!(TensorError::TooLarge.message(), "tensor is too large");
    assert_eq!(TensorError::DeviceRejected.message(), "the device rejected the request");
    assert_eq!(
        TensorError::BindingMismatch.message(),
        "the kernel declares another number of buffers"
    );
}
