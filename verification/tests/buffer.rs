use seqtext::buffer::{BufferError, SequenceBuffer};

fn filled(values: &[i32]) -> SequenceBuffer<i32> {
    let mut b: SequenceBuffer<i32> = SequenceBuffer::new();
    b.extend(values.to_vec());
    b
}

#[test]
fn new_buffer_is_empty() {
    let b: SequenceBuffer<i32> = SequenceBuffer::new();
    assert!(b.is_empty());
    assert_eq!(b.len(), 0);
    let c: SequenceBuffer<i32> = SequenceBuffer::with_capacity(16);
    assert!(c.is_empty());
}

#[test]
fn push_and_pop_work_at_the_end() {
    let mut b: SequenceBuffer<i32> = SequenceBuffer::new();
    b.push(1);
    b.push(2);
    assert_eq!(b.len(), 2);
    assert_eq!(b.pop(), Some(2));
    assert_eq!(b.pop(), Some(1));
    assert_eq!(b.pop(), None);
}

#[test]
fn get_is_bounds_checked() {
    let b = filled(&[7, 8]);
    assert_eq!(b.get(0), Some(&7));
    assert_eq!(b.get(1), Some(&8));
    assert_eq!(b.get(2), None);
}

#[test]
fn splice_replaces_middle_range() {
    let mut b = filled(&[1, 2, 3, 4, 5]);
    let removed = b.splice(1, 3, vec![9, 8, 7]).unwrap();
    assert_eq!(removed, vec![2, 3]);
    assert_eq!(b.as_slice(), &[1, 9, 8, 7, 4, 5][..]);
    // final length == length - (end - start) + replacement length
    assert_eq!(b.len(), 5 - (3 - 1) + 3);
}

#[test]
fn splice_length_formula_holds_at_the_tail() {
    let mut b = filled(&[1, 2, 3, 4]);
    let removed = b.splice(2, 4, vec![9]).unwrap();
    assert_eq!(removed, vec![3, 4]);
    assert_eq!(b.as_slice(), &[1, 2, 9][..]);
    assert_eq!(b.len(), 4 - (4 - 2) + 1);
}

#[test]
fn splice_with_empty_range_is_pure_insertion() {
    let mut b = filled(&[1, 4]);
    let removed = b.splice(1, 1, vec![2, 3]).unwrap();
    assert!(removed.is_empty());
    assert_eq!(b.as_slice(), &[1, 2, 3, 4][..]);

    let mut front = filled(&[3]);
    assert!(front.splice(0, 0, vec![1, 2]).unwrap().is_empty());
    assert_eq!(front.as_slice(), &[1, 2, 3][..]);

    let mut back = filled(&[1]);
    assert!(back.splice(1, 1, vec![2]).unwrap().is_empty());
    assert_eq!(back.as_slice(), &[1, 2][..]);
}

#[test]
fn splice_with_empty_replacement_is_pure_removal() {
    let mut b = filled(&[1, 2, 3]);
    let removed = b.splice(0, 2, vec![]).unwrap();
    assert_eq!(removed, vec![1, 2]);
    assert_eq!(b.as_slice(), &[3][..]);
}

#[test]
fn splice_round_trip_restores_original() {
    let mut b = filled(&[10, 20, 30, 40, 50]);
    let removed = b.splice(1, 4, vec![7, 8]).unwrap();
    assert_eq!(removed, vec![20, 30, 40]);
    assert_eq!(b.as_slice(), &[10, 7, 8, 50][..]);
    let back = b.splice(1, 1 + 2, removed).unwrap();
    assert_eq!(back, vec![7, 8]);
    assert_eq!(b.as_slice(), &[10, 20, 30, 40, 50][..]);
}

#[test]
fn splice_rejects_bad_ranges_without_touching_contents() {
    let mut b = filled(&[1, 2, 3]);
    assert_eq!(b.splice(2, 1, vec![9]), Err(BufferError::OutOfBounds));
    assert_eq!(b.splice(1, 4, vec![9]), Err(BufferError::OutOfBounds));
    assert_eq!(b.splice(4, 4, vec![9]), Err(BufferError::OutOfBounds));
    assert_eq!(b.as_slice(), &[1, 2, 3][..]);
}

#[test]
fn insert_matches_singleton_splice() {
    let mut by_insert = filled(&[1, 2, 4]);
    let mut by_splice = filled(&[1, 2, 4]);
    by_insert.insert(2, 3).unwrap();
    let removed = by_splice.splice(2, 2, vec![3]).unwrap();
    assert!(removed.is_empty());
    assert_eq!(by_insert.as_slice(), by_splice.as_slice());
}

#[test]
fn remove_matches_unit_range_splice() {
    let mut by_remove = filled(&[1, 2, 3]);
    let mut by_splice = filled(&[1, 2, 3]);
    let taken = by_remove.remove(1).unwrap();
    let removed = by_splice.splice(1, 2, vec![]).unwrap();
    assert_eq!(vec![taken], removed);
    assert_eq!(by_remove.as_slice(), by_splice.as_slice());
}

#[test]
fn insert_past_length_fails_and_leaves_buffer_unchanged() {
    let mut b = filled(&[1, 2]);
    assert_eq!(b.insert(3, 9), Err(BufferError::OutOfBounds));
    assert_eq!(b.len(), 2);
    assert_eq!(b.as_slice(), &[1, 2][..]);
    // inserting exactly at the length is still allowed
    b.insert(2, 3).unwrap();
    assert_eq!(b.as_slice(), &[1, 2, 3][..]);
}

#[test]
fn remove_past_length_fails_and_leaves_buffer_unchanged() {
    let mut b = filled(&[1, 2]);
    assert_eq!(b.remove(2), Err(BufferError::OutOfBounds));
    assert_eq!(b.as_slice(), &[1, 2][..]);
    assert_eq!(b.remove(0), Ok(1));
    assert_eq!(b.as_slice(), &[2][..]);
}

#[test]
fn set_overwrites_in_place() {
    let mut b = filled(&[1, 2, 3]);
    assert_eq!(b.set(1, 9), Ok(()));
    assert_eq!(b.as_slice(), &[1, 9, 3][..]);
    assert_eq!(b.set(3, 7), Err(BufferError::OutOfBounds));
    assert_eq!(b.as_slice(), &[1, 9, 3][..]);
}

#[test]
fn mutable_slice_allows_in_place_swaps_but_not_resizing() {
    let mut b = filled(&[1, 2, 3]);
    b.as_mut_slice().swap(0, 2);
    assert_eq!(b.as_slice(), &[3, 2, 1][..]);
    assert_eq!(b.len(), 3);
}

#[test]
fn extend_then_append_concatenates() {
    let mut b: SequenceBuffer<i32> = SequenceBuffer::new();
    b.extend(vec![3, 4]);
    let mut other: SequenceBuffer<i32> = SequenceBuffer::new();
    other.extend(vec![5, 6]);
    b.append(&mut other);
    assert_eq!(b.as_slice(), &[3, 4, 5, 6][..]);
    assert!(other.is_empty());
    assert_eq!(other.len(), 0);
}
