use render_core::GeometryBuffer;
use render_core::with_padding;

// The pentagon the renderer draws: five vertices, three triangles.
fn pentagon_indices() -> Vec<u16> {
    vec![0, 1, 4, 1, 2, 4, 2, 3, 4]
}

#[test]
fn pentagon_indices_pad_and_validate() {
    let padded = with_padding(pentagon_indices());
    assert_eq!(padded, vec![0, 1, 4, 1, 2, 4, 2, 3, 4, 0]);
    let geometry = GeometryBuffer::new(5, padded.clone()).expect("pentagon indices are in bounds");
    assert_eq!(geometry.index_count(), 10);
    assert_eq!(geometry.index_data(), &padded);
}

#[test]
fn padding_keeps_even_lists_unchanged() {
    assert_eq!(with_padding(vec![0, 1, 2, 3]), vec![0, 1, 2, 3]);
    assert_eq!(with_padding(Vec::new()), Vec::<u16>::new());
}

#[test]
fn out_of_range_index_is_rejected() {
    assert!(GeometryBuffer::new(5, vec![0, 5, 1]).is_none());
    assert!(GeometryBuffer::new(0, vec![0]).is_none());
}

#[test]
fn boundary_indices_are_accepted() {
    let geometry = GeometryBuffer::new(5, vec![4, 4, 4, 4]).expect("largest slot is in bounds");
    assert_eq!(geometry.index_count(), 4);
    assert!(GeometryBuffer::new(0, Vec::new()).is_some());
}
