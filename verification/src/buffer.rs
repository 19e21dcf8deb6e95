//! An owned, contiguous, growable, zero-indexed sequence of elements.
//!
//! [`SequenceBuffer`] supports push/pop, positional insert and remove,
//! append and extend, and a generalized range splice: replacing an
//! arbitrary sub-range with an arbitrary-length replacement while the
//! remaining elements keep their relative order. Every operation that
//! takes an index or a range checks it against the current length and
//! reports [`BufferError::OutOfBounds`] without touching the contents
//! when it does not fit.

use vstd::prelude::*;

verus! {

/// An index or range argument lies outside the bounds that the
/// buffer's current length allows.
#[derive(Clone, Copy, Debug, PartialEq, Eq, Structural)]
pub enum BufferError {
    OutOfBounds,
}

/// A growable sequence of elements of type `T`, viewed in
/// specifications as the `Seq<T>` of its live elements in order.
pub struct SequenceBuffer<T> {
    data: Vec<T>,
}

impl<T> View for SequenceBuffer<T> {
    type V = Seq<T>;

    closed spec fn view(&self) -> Seq<T> {
        self.data@
    }
}

impl<T> SequenceBuffer<T> {
    /// Creates an empty buffer.
    pub fn new() -> (r: Self)
        ensures
            r@ == Seq::<T>::empty(),
    {
        SequenceBuffer { data: Vec::new() }
    }

    /// Creates an empty buffer with room for at least `capacity`
    /// elements before it has to grow.
    pub fn with_capacity(capacity: usize) -> (r: Self)
        ensures
            r@ == Seq::<T>::empty(),
    {
        SequenceBuffer { data: Vec::with_capacity(capacity) }
    }

    /// The count of live elements.
    pub fn len(&self) -> (r: usize)
        ensures
            r == self@.len(),
    {
        self.data.len()
    }

    /// True when the buffer holds no elements.
    pub fn is_empty(&self) -> (r: bool)
        ensures
            r <==> self@.len() == 0,
    {
        self.data.is_empty()
    }

    /// Appends `value` at the end.
    pub fn push(&mut self, value: T)
        ensures
            final(self)@ == old(self)@.push(value),
    {
        self.data.push(value);
    }

    /// Removes and returns the last element; `None` on an empty
    /// buffer (a normal absence, not an error).
    pub fn pop(&mut self) -> (r: Option<T>)
        ensures
            old(self)@.len() > 0 ==> r == Some(old(self)@.last()) && final(self)@
                == old(self)@.drop_last(),
            old(self)@.len() == 0 ==> r is None && final(self)@ == old(self)@,
    {
        self.data.pop()
    }

    /// Borrows the element at `index`; `None` when `index` is out of
    /// range (a normal absence, not an error).
    pub fn get(&self, index: usize) -> (r: Option<&T>)
        ensures
            index < self@.len() ==> (r matches Some(v) && *v == self@[index as int]),
            index >= self@.len() ==> r is None,
    {
        if index < self.data.len() {
            Some(&self.data[index])
        } else {
            None
        }
    }

    /// Borrows the live elements `[0, length)` as a slice.
    pub fn as_slice(&self) -> (r: &[T])
        ensures
            r@ == self@,
    {
        self.data.as_slice()
    }

    /// Borrows the live elements `[0, length)` as a mutable slice:
    /// elements can be overwritten in place, but the length cannot
    /// change through it.
    pub fn as_mut_slice(&mut self) -> (r: &mut [T])
        ensures
            r@ == old(self)@,
            final(r)@ == final(self)@,
    {
        self.data.as_mut_slice()
    }

    /// Overwrites the element at `index` with `value`, dropping the
    /// old element. Fails with `OutOfBounds`, leaving the buffer
    /// unchanged, when `index >= length`.
    pub fn set(&mut self, index: usize, value: T) -> (r: Result<(), BufferError>)
        ensures
            index < old(self)@.len() ==> r is Ok && final(self)@ == old(self)@.update(
                index as int,
                value,
            ),
            index >= old(self)@.len() ==> r == Err::<(), BufferError>(BufferError::OutOfBounds)
                && final(self)@ == old(self)@,
    {
        if index < self.data.len() {
            self.data[index] = value;
            Ok(())
        } else {
            Err(BufferError::OutOfBounds)
        }
    }

    /// Inserts `value` before `index`, shifting the elements at
    /// `[index, length)` one slot to the right. Fails with
    /// `OutOfBounds`, leaving the buffer unchanged, when
    /// `index > length`.
    pub fn insert(&mut self, index: usize, value: T) -> (r: Result<(), BufferError>)
        ensures
            index <= old(self)@.len() ==> r is Ok && final(self)@ == old(self)@.insert(
                index as int,
                value,
            ),
            index > old(self)@.len() ==> r == Err::<(), BufferError>(BufferError::OutOfBounds)
                && final(self)@ == old(self)@,
    {
        if index <= self.data.len() {
            self.data.insert(index, value);
            Ok(())
        } else {
            Err(BufferError::OutOfBounds)
        }
    }

    /// Removes and returns the element at `index`, shifting the
    /// elements at `[index + 1, length)` one slot to the left. Fails
    /// with `OutOfBounds`, leaving the buffer unchanged, when
    /// `index >= length`.
    pub fn remove(&mut self, index: usize) -> (r: Result<T, BufferError>)
        ensures
            index < old(self)@.len() ==> (r matches Ok(v) && v == old(self)@[index as int]
                && final(self)@ == old(self)@.remove(index as int)),
            index >= old(self)@.len() ==> r == Err::<T, BufferError>(BufferError::OutOfBounds)
                && final(self)@ == old(self)@,
    {
        if index < self.data.len() {
            Ok(self.data.remove(index))
        } else {
            Err(BufferError::OutOfBounds)
        }
    }

    /// Moves every element of `other` onto the end of `self`, leaving
    /// `other` empty.
    pub fn append(&mut self, other: &mut SequenceBuffer<T>)
        ensures
            final(self)@ == old(self)@ + old(other)@,
            final(other)@ == Seq::<T>::empty(),
    {
        self.data.append(&mut other.data);
    }

    /// Moves every element of the owned sequence `items` onto the end
    /// of `self`, consuming the source.
    pub fn extend(&mut self, items: Vec<T>)
        ensures
            final(self)@ == old(self)@ + items@,
    {
        let mut moved = items;
        self.data.append(&mut moved);
    }

    /// Replaces the sub-range `[start, end)` with `replacement` in one
    /// relocation pass and returns the removed elements in their
    /// original order. The elements after `end` come to stand
    /// immediately after the inserted replacement; the relative order
    /// of the untouched elements on both sides is preserved.
    /// `start == end` is a pure insertion; an empty `replacement` is a
    /// pure removal. Fails with `OutOfBounds`, leaving the buffer
    /// unchanged, when `start > end` or `end > length`.
    pub fn splice(&mut self, start: usize, end: usize, replacement: Vec<T>) -> (r: Result<
        Vec<T>,
        BufferError,
    >)
        ensures
            start <= end <= old(self)@.len() ==> (r matches Ok(removed) && removed@ == old(
                self,
            )@.subrange(start as int, end as int) && final(self)@ == old(self)@.subrange(
                0,
                start as int,
            ) + replacement@ + old(self)@.subrange(end as int, old(self)@.len() as int)),
            start <= end <= old(self)@.len() ==> final(self)@.len() == old(self)@.len() - (end
                - start) + replacement@.len(),
            !(start <= end <= old(self)@.len()) ==> r == Err::<Vec<T>, BufferError>(
                BufferError::OutOfBounds,
            ) && final(self)@ == old(self)@,
    {
        if start > end || end > self.data.len() {
            return Err(BufferError::OutOfBounds);
        }
        let mut moved = replacement;
        let mut tail = self.data.split_off(end);
        let removed = self.data.split_off(start);
        self.data.append(&mut moved);
        self.data.append(&mut tail);
        Ok(removed)
    }
}

/// Law: a splice leaves `length - (end - start) + replacement.len()`
/// elements, stated here over the sequences a buffer is viewed as.
pub proof fn lemma_splice_length<T>(s: Seq<T>, start: int, end: int, replacement: Seq<T>)
    requires
        0 <= start <= end <= s.len(),
    ensures
        (s.subrange(0, start) + replacement + s.subrange(end, s.len() as int)).len() == s.len() - (
        end - start) + replacement.len(),
{
}

/// Law: splicing `[start, end)` out for `replacement` and then
/// splicing the removed elements back over `[start, start +
/// replacement.len())` restores the original sequence, and the second
/// splice removes exactly `replacement`.
pub proof fn lemma_splice_round_trip<T>(s: Seq<T>, start: int, end: int, replacement: Seq<T>)
    requires
        0 <= start <= end <= s.len(),
    ensures
        ({
            let spliced = s.subrange(0, start) + replacement + s.subrange(end, s.len() as int);
            let removed = s.subrange(start, end);
            spliced.subrange(0, start) + removed + spliced.subrange(
                start + replacement.len(),
                spliced.len() as int,
            ) == s
        }),
        ({
            let spliced = s.subrange(0, start) + replacement + s.subrange(end, s.len() as int);
            spliced.subrange(start, start + replacement.len()) == replacement
        }),
{
    let spliced = s.subrange(0, start) + replacement + s.subrange(end, s.len() as int);
    let removed = s.subrange(start, end);
    assert(spliced.subrange(start, start + replacement.len()) =~= replacement);
    assert(spliced.subrange(0, start) + removed + spliced.subrange(
        start + replacement.len(),
        spliced.len() as int,
    ) =~= s);
}

/// Law: `insert(i, v)` is the splice of the empty range `[i, i)` for
/// the one-element replacement `[v]`.
pub proof fn lemma_insert_is_splice<T>(s: Seq<T>, i: int, v: T)
    requires
        0 <= i <= s.len(),
    ensures
        s.insert(i, v) == s.subrange(0, i) + seq![v] + s.subrange(i, s.len() as int),
{
    assert(s.insert(i, v) =~= s.subrange(0, i) + seq![v] + s.subrange(i, s.len() as int));
}

/// Law: `remove(i)` is the splice of the range `[i, i + 1)` for the
/// empty replacement, and the element it returns is the one-element
/// sequence that the splice removes.
pub proof fn lemma_remove_is_splice<T>(s: Seq<T>, i: int)
    requires
        0 <= i < s.len(),
    ensures
        s.remove(i) == s.subrange(0, i) + Seq::<T>::empty() + s.subrange(i + 1, s.len() as int),
        s.subrange(i, i + 1) == seq![s[i]],
{
    assert(s.remove(i) =~= s.subrange(0, i) + Seq::<T>::empty() + s.subrange(
        i + 1,
        s.len() as int,
    ));
    assert(s.subrange(i, i + 1) =~= seq![s[i]]);
}

} // verus!
