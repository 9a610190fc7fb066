use hdf5::dim::{Dimension, Ix};

#[test]
fn test_unit_ndim() {
    assert_eq!(().ndim(), 0);
}

#[test]
fn test_unit_dims() {
    assert_eq!(().dims(), vec![]);
}

#[test]
fn test_unit_size() {
    assert_eq!(().size(), 1);
}

#[test]
fn test_scalar_ndim() {
    assert_eq!(5usize.ndim(), 1);
}

#[test]
fn test_scalar_dims() {
    assert_eq!(42usize.dims(), vec![42]);
}

#[test]
fn test_scalar_size() {
    assert_eq!(5usize.size(), 5);
    assert_eq!(1usize.size(), 1);
}

#[test]
fn test_slice_ndim() {
    assert_eq!([1, 2, 3].ndim(), 3);
    assert_eq!([42].ndim(), 1);
    assert_eq!([].ndim(), 0);
}

#[test]
fn test_slice_dims() {
    assert_eq!([1, 2, 3].dims(), vec![1, 2, 3]);
    assert_eq!([42].dims(), vec![42]);
    assert_eq!([].dims(), vec![]);
}

#[test]
fn test_slice_size() {
    assert_eq!([2, 3, 4].size(), 24);
    assert_eq!([1].size(), 1);
    assert_eq!([].size(), 1);
}

#[test]
fn test_vec_ndim() {
    assert_eq!(vec![1, 2, 3].ndim(), 3);
    assert_eq!(vec![42].ndim(), 1);
    assert_eq!(Vec::<Ix>::new().ndim(), 0);
}

#[test]
fn test_vec_dims() {
    assert_eq!(vec![1, 2, 3].dims(), vec![1, 2, 3]);
    assert_eq!(vec![42].dims(), vec![42]);
    assert_eq!(Vec::<Ix>::new().dims(), vec![]);
}

#[test]
fn test_vec_size() {
    assert_eq!(vec![2, 3, 4].size(), 24);
    assert_eq!(vec![1].size(), 1);
    assert_eq!(Vec::<Ix>::new().size(), 1);
}

#[test]
fn test_tuple_1_ndim() {
    assert_eq!((5usize,).ndim(), 1);
}

#[test]
fn test_tuple_1_dims() {
    assert_eq!((5usize,).dims(), vec![5]);
}

#[test]
fn test_tuple_1_size() {
    assert_eq!((5usize,).size(), 5);
}

#[test]
fn test_tuple_2_ndim() {
    assert_eq!((2usize, 3usize).ndim(), 2);
}

#[test]
fn test_tuple_2_dims() {
    assert_eq!((2usize, 3usize).dims(), vec![2, 3]);
    assert_eq!((10usize, 20usize).dims(), vec![10, 20]);
}

#[test]
fn test_tuple_2_size() {
    assert_eq!((2usize, 3usize).size(), 6);
    assert_eq!((10usize, 20usize).size(), 200);
}

#[test]
fn test_tuple_3_ndim() {
    assert_eq!((2usize, 3usize, 4usize).ndim(), 3);
}

#[test]
fn test_tuple_3_dims() {
    assert_eq!((2usize, 3usize, 4usize).dims(), vec![2, 3, 4]);
}

#[test]
fn test_tuple_3_size() {
    assert_eq!((2usize, 3usize, 4usize).size(), 24);
}

#[test]
fn test_tuple_4_ndim() {
    assert_eq!((1usize, 2usize, 3usize, 4usize).ndim(), 4);
}

#[test]
fn test_tuple_4_size() {
    assert_eq!((1usize, 2usize, 3usize, 4usize).size(), 24);
}

#[test]
fn test_tuple_6_size() {
    assert_eq!((1usize, 2usize, 3usize, 4usize, 5usize, 6usize).size(), 720);
}

#[test]
fn test_tuple_12_ndim() {
    assert_eq!(
        (
            1usize, 2usize, 3usize, 4usize, 5usize, 6usize, 7usize, 8usize, 9usize, 10usize,
            11usize, 12usize,
        )
            .ndim(),
        12
    );
}

#[test]
fn test_tuple_12_size() {
    assert_eq!(
        (
            1usize, 1usize, 1usize, 1usize, 1usize, 1usize, 1usize, 1usize, 1usize, 1usize,
            1usize, 1usize
        )
            .size(),
        1
    );
}

#[test]
fn test_reference_ndim() {
    let arr = [1, 2, 3];
    assert_eq!((&arr).ndim(), 3);
    let scalar = 5usize;
    assert_eq!((&scalar).ndim(), 1);
}

#[test]
fn test_reference_dims() {
    let arr = [1, 2, 3];
    assert_eq!((&arr).dims(), vec![1, 2, 3]);
    let scalar = 5usize;
    assert_eq!((&scalar).dims(), vec![5]);
}

#[test]
fn test_reference_size() {
    let arr = [2, 3, 4];
    assert_eq!((&arr).size(), 24);
    let scalar = 5usize;
    assert_eq!((&scalar).size(), 5);
}

#[test]
fn test_size_large_dimensions() {
    assert_eq!([1000usize, 1000].size(), 1_000_000);
    assert_eq!([1024usize, 1024, 1024].size(), 1_073_741_824);
}

#[test]
fn test_size_empty_slice() {
    assert_eq!([].size(), 1);
}

#[test]
fn test_size_zero_element() {
    // Array with zero element
    assert_eq!([0usize, 10usize].size(), 0);
    assert_eq!([10usize, 0usize].size(), 0);
}

#[test]
fn test_size_mixed_with_zero() {
    // Arrays with zeros should result in zero size
    assert_eq!([2usize, 0usize, 5usize].size(), 0);
    assert_eq!([0usize, 0usize].size(), 0);
}

#[test]
fn test_array_3_ndim() {
    assert_eq!([1usize, 2usize, 3usize].ndim(), 3);
}

#[test]
fn test_array_3_dims() {
    assert_eq!([1usize, 2usize, 3usize].dims(), vec![1, 2, 3]);
}

#[test]
fn test_array_3_size() {
    assert_eq!([1usize, 2usize, 3usize].size(), 6);
}

#[test]
fn test_array_5_ndim() {
    assert_eq!([1usize, 2usize, 3usize, 4usize, 5usize].ndim(), 5);
}

#[test]
fn test_array_5_size() {
    assert_eq!([1usize, 2usize, 3usize, 4usize, 5usize].size(), 120);
}

#[test]
fn test_array_slice_consistency() {
    let arr = [1usize, 2usize, 3usize];
    let slice: &[Ix] = &arr;
    assert_eq!(arr.ndim(), slice.ndim());
    assert_eq!(arr.dims(), slice.dims());
    assert_eq!(arr.size(), slice.size());
}
