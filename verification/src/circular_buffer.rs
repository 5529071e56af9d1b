//! A fixed-capacity store that overwrites its oldest element once full and
//! hands out its contents oldest first.
//!
//! A buffer has no internal locking: every `add` and `clone_buffer` on one
//! instance must come from a single thread of control, or be serialised by
//! the caller.

use vstd::prelude::*;

verus! {

/// Why a buffer could not be made.
#[derive(Debug, Clone, Copy, PartialEq, Eq, Structural)]
pub enum BufferError {
    /// A buffer must be able to hold at least one element.
    InvalidCapacity,
}

/// The last `capacity` elements of `items`, in their order; all of them
/// where there are no more than `capacity`.
pub open spec fn keep_latest<T>(items: Seq<T>, capacity: nat) -> Seq<T> {
    if items.len() <= capacity {
        items
    } else {
        items.subrange(items.len() - capacity, items.len() as int)
    }
}

/// What a buffer of the given capacity holds after `items` were added to it
/// one by one, starting from empty.
pub open spec fn contents_after<T>(capacity: nat, items: Seq<T>) -> Seq<T>
    decreases items.len(),
{
    if items.len() == 0 {
        Seq::empty()
    } else {
        keep_latest(contents_after(capacity, items.drop_last()).push(items.last()), capacity)
    }
}

pub struct CircularBuffer<T> {
    capacity: usize,
    buffer: Vec<T>,
    position: usize,
    is_full: bool,
}

impl<T> View for CircularBuffer<T> {
    type V = Seq<T>;

    /// The elements held, oldest first.
    closed spec fn view(&self) -> Seq<T> {
        self.buffer@.subrange(self.position as int, self.buffer@.len() as int)
            + self.buffer@.subrange(0, self.position as int)
    }
}

impl<T> CircularBuffer<T> {
    /// The representation invariant: never more than `capacity` slots, the
    /// full flag set exactly when all of them are taken, and the write
    /// cursor at the oldest element.
    pub closed spec fn wf(&self) -> bool {
        &&& self.capacity > 0
        &&& self.buffer@.len() <= self.capacity
        &&& self.is_full == (self.buffer@.len() == self.capacity)
        &&& self.position < self.capacity
        &&& !self.is_full ==> self.position == 0
    }

    /// The number of elements the buffer was made for.
    pub closed spec fn spec_capacity(&self) -> nat {
        self.capacity as nat
    }

    /// Whether every slot is taken, so that the next `add` overwrites.
    pub closed spec fn spec_is_full(&self) -> bool {
        self.is_full
    }

    /// The index of the slot that the next overwrite goes to.
    pub closed spec fn spec_position(&self) -> nat {
        self.position as nat
    }

    /// The slots in storage order, which differs from `view` by a rotation.
    pub closed spec fn storage(&self) -> Seq<T> {
        self.buffer@
    }

    /// An empty buffer for `capacity` elements; `InvalidCapacity` for none.
    /// Storage is taken as elements arrive, so that a capacity beyond what
    /// memory holds fails no earlier than the elements themselves would.
    pub fn new(capacity: usize) -> (made: Result<Self, BufferError>)
        ensures
            made is Err <==> capacity == 0,
            made matches Err(e) ==> e == BufferError::InvalidCapacity,
            made matches Ok(b) ==> b.wf() && b@ == Seq::<T>::empty()
                && b.spec_capacity() == capacity && b.spec_capacity() > 0
                && b.spec_position() == 0 && !b.spec_is_full(),
    {
        if capacity == 0 {
            return Err(BufferError::InvalidCapacity);
        }
        let made = CircularBuffer {
            capacity,
            buffer: Vec::new(),
            position: 0,
            is_full: false,
        };
        assert(made@ =~= Seq::<T>::empty());
        Ok(made)
    }

    /// Appends `element`; once the buffer is full the oldest element makes
    /// room for it.
    pub fn add(&mut self, element: T)
        requires
            old(self).wf(),
        ensures
            final(self).wf(),
            final(self).spec_capacity() == old(self).spec_capacity(),
            final(self).spec_capacity() > 0,
            final(self)@.len() <= final(self).spec_capacity(),
            final(self)@ == keep_latest(old(self)@.push(element), old(self).spec_capacity()),
            old(self).spec_is_full() ==> final(self).spec_is_full(),
            old(self).spec_is_full() ==> final(self).storage() == old(self).storage().update(
                old(self).spec_position() as int,
                element,
            ) && final(self).spec_position() == (if old(self).spec_position() + 1 == old(
                self,
            ).spec_capacity() {
                0
            } else {
                old(self).spec_position() + 1
            }),
            !old(self).spec_is_full() ==> final(self).storage() == old(self).storage().push(
                element,
            ) && final(self).spec_position() == 0,
    {
        if self.is_full {
            self.buffer[self.position] = element;
            self.position = if self.position == self.capacity - 1 {
                0
            } else {
                self.position + 1
            };
        } else {
            self.buffer.push(element);
            if self.buffer.len() == self.capacity {
                self.is_full = true;
            }
        }
        assert(self@ =~= keep_latest(old(self)@.push(element), old(self).spec_capacity()));
    }

    /// The capacity the buffer was made with.
    pub fn capacity(&self) -> (n: usize)
        ensures
            n == self.spec_capacity(),
    {
        self.capacity
    }

    /// The number of elements held.
    pub fn len(&self) -> (n: usize)
        requires
            self.wf(),
        ensures
            n == self@.len(),
            n <= self.spec_capacity(),
    {
        self.buffer.len()
    }

    /// Whether the next `add` overwrites the oldest element.
    pub fn is_full(&self) -> (full: bool)
        requires
            self.wf(),
        ensures
            full == self.spec_is_full(),
            full == (self@.len() == self.spec_capacity()),
    {
        self.is_full
    }

    /// The index in storage of the oldest element once full, else 0.
    pub fn position(&self) -> (at: usize)
        ensures
            at == self.spec_position(),
    {
        self.position
    }
}

impl<T: Clone> CircularBuffer<T> {
    /// A newly allocated copy of the contents, oldest first. The buffer is
    /// left as it is.
    pub fn clone_buffer(&self) -> (snapshot: Vec<T>)
        requires
            self.wf(),
        ensures
            snapshot@.len() == self@.len(),
            forall|i: int| 0 <= i < self@.len() ==> cloned::<T>(#[trigger] self@[i], snapshot@[i]),
    {
        let buffer_len: usize = self.buffer.len();
        let mut snapshot: Vec<T> = Vec::with_capacity(buffer_len);
        let mut i: usize = self.position;
        while i < buffer_len
            invariant
                self.wf(),
                buffer_len == self.buffer@.len(),
                self.position <= i <= buffer_len,
                snapshot@.len() == i - self.position,
                forall|k: int| 0 <= k < snapshot@.len() ==> cloned::<T>(#[trigger] self@[k], snapshot@[k]),
            decreases buffer_len - i,
        {
            snapshot.push(self.buffer[i].clone());
            i += 1;
        }
        let mut j: usize = 0;
        while j < self.position
            invariant
                self.wf(),
                buffer_len == self.buffer@.len(),
                j <= self.position,
                snapshot@.len() == self@.len() - self.position + j,
                forall|k: int| 0 <= k < snapshot@.len() ==> cloned::<T>(#[trigger] self@[k], snapshot@[k]),
            decreases self.position - j,
        {
            snapshot.push(self.buffer[j].clone());
            j += 1;
        }
        snapshot
    }
}

/// A buffer has room for at least one element, never holds more than it
/// has room for, and is full exactly when it holds that many.
pub proof fn lemma_buffer_bounds<T>(buffer: &CircularBuffer<T>)
    requires
        buffer.wf(),
    ensures
        buffer.spec_capacity() > 0,
        buffer@.len() <= buffer.spec_capacity(),
        buffer.spec_is_full() == (buffer@.len() == buffer.spec_capacity()),
        buffer.spec_position() < buffer.spec_capacity(),
        !buffer.spec_is_full() ==> buffer.spec_position() == 0,
{
}

/// Adding to a full buffer drops exactly the oldest element: the others
/// move up by one and the new element comes last.
pub proof fn lemma_full_add_drops_oldest<T>(capacity: nat, held: Seq<T>, element: T)
    requires
        capacity > 0,
        held.len() == capacity,
    ensures
        keep_latest(held.push(element), capacity) == held.subrange(1, held.len() as int).push(
            element,
        ),
        keep_latest(held.push(element), capacity).len() == capacity,
{
    assert(keep_latest(held.push(element), capacity) =~= held.subrange(1, held.len() as int).push(
        element,
    ));
}

/// Adding to a buffer that is not full keeps every element and puts the new
/// one last.
pub proof fn lemma_add_with_room_appends<T>(capacity: nat, held: Seq<T>, element: T)
    requires
        held.len() < capacity,
    ensures
        keep_latest(held.push(element), capacity) == held.push(element),
{
}

/// Adding to a buffer that holds what `items` left behind gives what
/// `items` followed by `element` leaves behind.
pub proof fn lemma_add_extends_history<T>(capacity: nat, items: Seq<T>, element: T)
    ensures
        keep_latest(contents_after(capacity, items).push(element), capacity) == contents_after(
            capacity,
            items.push(element),
        ),
{
    assert(items.push(element).drop_last() =~= items);
    assert(items.push(element).last() == element);
}

/// However many elements were added, the buffer holds as many as were added
/// or as many as it has room for, whichever is less.
pub proof fn lemma_length_is_min_of_added_and_capacity<T>(capacity: nat, items: Seq<T>)
    ensures
        contents_after(capacity, items).len() == if items.len() <= capacity {
            items.len()
        } else {
            capacity
        },
    decreases items.len(),
{
    if items.len() > 0 {
        lemma_length_is_min_of_added_and_capacity(capacity, items.drop_last());
    }
}

/// The buffer holds exactly the last `capacity` elements added, oldest
/// first, wherever the write cursor stands.
pub proof fn lemma_contents_are_latest_added<T>(capacity: nat, items: Seq<T>)
    ensures
        contents_after(capacity, items) == keep_latest(items, capacity),
        items.len() >= capacity ==> contents_after(capacity, items) == items.subrange(
            items.len() - capacity,
            items.len() as int,
        ),
    decreases items.len(),
{
    if items.len() > 0 {
        lemma_contents_are_latest_added(capacity, items.drop_last());
        assert(items.drop_last().push(items.last()) =~= items);
        assert(keep_latest(keep_latest(items.drop_last(), capacity).push(items.last()), capacity)
            =~= keep_latest(items, capacity));
    } else {
        assert(keep_latest(items, capacity) =~= Seq::<T>::empty());
    }
    if items.len() >= capacity {
        assert(keep_latest(items, capacity) =~= items.subrange(
            items.len() - capacity,
            items.len() as int,
        ));
    }
}

/// The view is the storage rotated so that the slot under the write cursor
/// comes first.
pub proof fn lemma_view_is_rotation_of_storage<T>(buffer: &CircularBuffer<T>)
    requires
        buffer.wf(),
    ensures
        buffer@.len() == buffer.storage().len(),
        forall|i: int|
            0 <= i < buffer@.len() ==> #[trigger] buffer@[i] == buffer.storage()[(i
                + buffer.spec_position()) % buffer.storage().len() as int],
{
    let n = buffer.storage().len() as int;
    let p = buffer.spec_position() as int;
    assert forall|i: int| 0 <= i < buffer@.len() implies #[trigger] buffer@[i]
        == buffer.storage()[(i + p) % n] by {
        if i + p < n {
            assert((i + p) % n == i + p) by (nonlinear_arith)
                requires
                    0 <= i + p < n,
            ;
        } else {
            assert((i + p) % n == i + p - n) by (nonlinear_arith)
                requires
                    n <= i + p < 2 * n,
            ;
        }
    }
}

} // verus!
