use delta_kernel_ffi::slices::{
    free_bool_slice, free_row_indexes, KernelBoolSlice, KernelRowIndexArray,
};
use delta_kernel_ffi::KernelStringSlice;

#[test]
fn string_slice() {
    let s = "foo";
    let _ = KernelStringSlice::new(s);
}

#[test]
fn bool_slice() {
    let bools = vec![true, false, true];
    let bool_slice = KernelBoolSlice::from(bools);
    free_bool_slice(bool_slice);
}

#[test]
fn bool_slice_gives_back_what_it_was_made_of() {
    let slice = KernelBoolSlice::from(vec![true, false, true]);
    assert_eq!(slice.as_ref(), &[true, false, true]);
    assert_eq!(slice.into_vec(), vec![true, false, true]);
}

#[test]
fn empty_slices_hold_nothing() {
    assert!(KernelBoolSlice::empty().as_ref().is_empty());
    assert!(KernelBoolSlice::empty().into_vec().is_empty());
    assert!(KernelBoolSlice::from(vec![]).into_vec().is_empty());
    assert!(KernelRowIndexArray::empty().into_vec().is_empty());
}

#[test]
fn row_indexes_give_back_what_they_were_made_of() {
    let indexes = KernelRowIndexArray::from(vec![3, 1, u64::MAX]);
    assert_eq!(indexes.into_vec(), vec![3, 1, u64::MAX]);
    free_row_indexes(KernelRowIndexArray::from(vec![7]));
}
