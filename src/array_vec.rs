use vstd::prelude::*;

verus! {

broadcast use vstd::array::group_array_axioms;

/// A container with room for at most `N` items, stored inline and filled by
/// appending only. Slots at and past the length hold nothing.
pub struct ArrayVec<T: Copy, const N: usize> {
    length: usize,
    items: [Option<T>; N],
}

/// The contents after one push into a container of capacity `capacity`.
pub open spec fn after_push<T>(items: Seq<T>, value: T, capacity: nat) -> Seq<T> {
    if items.len() >= capacity {
        items
    } else {
        items.push(value)
    }
}

/// The contents after pushing `values` one after another.
pub open spec fn after_pushes<T>(items: Seq<T>, values: Seq<T>, capacity: nat) -> Seq<T>
    decreases values.len(),
{
    if values.len() == 0 {
        items
    } else {
        after_pushes(after_push(items, values[0], capacity), values.drop_first(), capacity)
    }
}

/// Any sequence of pushes keeps the length within the capacity: it grows by
/// one per push until the capacity is reached and stays there, and what was
/// stored before is kept in front.
pub proof fn lemma_pushes_stay_within_capacity<T>(items: Seq<T>, values: Seq<T>, capacity: nat)
    requires
        items.len() <= capacity,
    ensures
        after_pushes(items, values, capacity).len() <= capacity,
        after_pushes(items, values, capacity).len() == if items.len() + values.len() <= capacity {
            items.len() + values.len()
        } else {
            capacity
        },
        after_pushes(items, values, capacity).subrange(0, items.len() as int) == items,
    decreases values.len(),
{
    if values.len() > 0 {
        let next = after_push(items, values[0], capacity);
        lemma_pushes_stay_within_capacity(next, values.drop_first(), capacity);
        assert(next.subrange(0, items.len() as int) =~= items);
        let all = after_pushes(items, values, capacity);
        assert(all.subrange(0, items.len() as int) =~= next.subrange(0, next.len() as int).subrange(0, items.len() as int));
    } else {
        assert(items.subrange(0, items.len() as int) =~= items);
    }
}

impl<T: Copy, const N: usize> View for ArrayVec<T, N> {
    type V = Seq<T>;

    closed spec fn view(&self) -> Seq<T> {
        Seq::new(self.length as nat, |i: int| self.items@[i]->0)
    }
}

impl<T: Copy, const N: usize> ArrayVec<T, N> {
    /// The length never exceeds the capacity, and every slot below it is filled.
    pub closed spec fn wf(&self) -> bool {
        &&& self.length <= N
        &&& forall|i: int| 0 <= i < self.length ==> self.items@[i] is Some
    }

    pub fn new() -> (r: Self)
        ensures
            r.wf(),
            r@ == Seq::<T>::empty(),
    {
        let r = ArrayVec { length: 0, items: [None; N] };
        assert(r@ =~= Seq::<T>::empty());
        r
    }

    /// Establishes the empty state; the registry is valid only after this call.
    pub fn init(&mut self)
        ensures
            final(self).wf(),
            final(self)@ == Seq::<T>::empty(),
    {
        self.length = 0;
        assert(self@ =~= Seq::<T>::empty());
    }

    pub fn len(&self) -> (r: usize)
        ensures
            r == self@.len(),
    {
        self.length
    }

    pub fn capacity(&self) -> (r: usize)
        ensures
            r == N,
    {
        N
    }

    /// Appends `value` when there is room; hands it back untouched when full.
    pub fn try_push(&mut self, value: T) -> (r: Result<(), T>)
        requires
            old(self).wf(),
        ensures
            final(self).wf(),
            final(self)@.len() <= N,
            final(self)@ == after_push(old(self)@, value, N as nat),
            old(self)@.len() == N ==> r == Err::<(), T>(value) && final(self)@ == old(self)@,
            old(self)@.len() < N ==> r is Ok && final(self)@ == old(self)@.push(value),
    {
        if self.length == N {
            return Err(value);
        }
        let ghost before = self@;
        self.items[self.length] = Some(value);
        self.length += 1;
        assert(self@ =~= before.push(value));
        Ok(())
    }

    pub fn get(&self, index: usize) -> (r: &T)
        requires
            self.wf(),
            index < self@.len(),
        ensures
            *r == self@[index as int],
    {
        self.items[index].as_ref().unwrap()
    }

    pub fn get_mut(&mut self, index: usize) -> (r: &mut T)
        requires
            old(self).wf(),
            index < old(self)@.len(),
        ensures
            *r == old(self)@[index as int],
            final(self)@ == old(self)@.update(index as int, *final(r)),
            final(self)@.len() == old(self)@.len(),
            final(self).wf(),
    {
        self.items[index].as_mut().unwrap()
    }

    /// A cursor over the stored items, in insertion order.
    pub fn iter(&self) -> (r: ArrayVecIter<'_, T, N>)
        requires
            self.wf(),
        ensures
            r.valid(),
            r.items() == self@,
            r.position() == 0,
    {
        ArrayVecIter { array_vec: self, index: 0 }
    }

    /// A cursor handing out each stored item mutably, in insertion order.
    pub fn iter_mut(&mut self) -> (r: ArrayVecIterMut<'_, T, N>)
        requires
            old(self).wf(),
        ensures
            r.valid(),
            r.items() == old(self)@,
            r.position() == 0,
            *final(self) == *final(r.array_vec),
    {
        ArrayVecIterMut { array_vec: self, index: 0 }
    }
}

pub struct ArrayVecIter<'a, T: Copy, const N: usize> {
    array_vec: &'a ArrayVec<T, N>,
    index: usize,
}

impl<'a, T: Copy, const N: usize> ArrayVecIter<'a, T, N> {
    /// The container is well formed and the cursor has not passed its length.
    pub closed spec fn valid(&self) -> bool {
        self.array_vec.wf() && self.index <= self.array_vec.length
    }

    pub closed spec fn items(&self) -> Seq<T> {
        self.array_vec@
    }

    pub closed spec fn position(&self) -> nat {
        self.index as nat
    }

    /// The next stored item; `None` once all `length` items were handed out.
    pub fn next(&mut self) -> (r: Option<&'a T>)
        requires
            old(self).valid(),
        ensures
            final(self).valid(),
            final(self).items() == old(self).items(),
            final(self).position() <= final(self).items().len(),
            old(self).position() == old(self).items().len() ==> r is None && final(self).position()
                == old(self).position(),
            old(self).position() < old(self).items().len() ==> r == Some(
                &old(self).items()[old(self).position() as int],
            ) && final(self).position() == old(self).position() + 1,
    {
        if self.index == self.array_vec.length {
            None
        } else {
            let item = self.array_vec.get(self.index);
            self.index += 1;
            Some(item)
        }
    }
}

/// The fields are public so that `iter_mut`'s contract can tie the container's
/// final value to the one the cursor leaves behind.
pub struct ArrayVecIterMut<'a, T: Copy, const N: usize> {
    pub array_vec: &'a mut ArrayVec<T, N>,
    pub index: usize,
}

impl<'a, T: Copy, const N: usize> ArrayVecIterMut<'a, T, N> {
    /// The container is well formed and the cursor has not passed its length.
    pub closed spec fn valid(&self) -> bool {
        self.array_vec.wf() && self.index <= self.array_vec.length
    }

    pub closed spec fn items(&self) -> Seq<T> {
        (*self.array_vec)@
    }

    pub closed spec fn position(&self) -> nat {
        self.index as nat
    }

    /// The next stored item, mutably; `None` once all `length` items were handed out.
    pub fn next(&mut self) -> (r: Option<&mut T>)
        requires
            old(self).valid(),
        ensures
            final(self).valid(),
            final(self).position() <= final(self).items().len(),
            old(self).position() == old(self).items().len() ==> r is None && *final(self) == *old(
                self,
            ),
            old(self).position() < old(self).items().len() ==> r is Some && *r->0 == old(
                self,
            ).items()[old(self).position() as int] && final(self).position() == old(self).position()
                + 1 && final(self).items() == old(self).items().update(
                old(self).position() as int,
                *final(r->0),
            ),
    {
        if self.index == self.array_vec.length {
            None
        } else {
            let i = self.index;
            self.index += 1;
            Some(self.array_vec.get_mut(i))
        }
    }
}

} // verus!
