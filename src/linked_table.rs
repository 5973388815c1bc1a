use vstd::prelude::*;

verus! {

/// The ways in which an operation on the registry can fail.
#[derive(Debug, PartialEq, Eq)]
pub enum GenericsError {
    /// A parameter with this name already stands in the table it was pushed to.
    DuplicateName(String),
    /// No parameter with this name stands in the table that was searched.
    UnknownParameter(String),
    /// A parameter that needs an argument follows one that uses its declared
    /// default; the name is that of the later parameter.
    InvalidDefaultOrdering(String),
}

/// A table from names to values that remembers the order of insertion.
/// A name is stored at most once; entries are never removed or reordered.
pub struct LinkedTable<T> {
    names: Vec<String>,
    items: Vec<T>,
}

impl<T> LinkedTable<T> {
    /// The names, in insertion order.
    pub closed spec fn keys(&self) -> Seq<Seq<char>> {
        self.names@.map_values(|k: String| k@)
    }

    /// The values, in insertion order.
    pub closed spec fn values(&self) -> Seq<T> {
        self.items@
    }

    /// One value per name, and no name twice.
    pub open spec fn wf(&self) -> bool {
        &&& self.keys().len() == self.values().len()
        &&& self.keys().no_duplicates()
    }

    pub fn new() -> (r: Self)
        ensures
            r.wf(),
            r.keys() == Seq::<Seq<char>>::empty(),
            r.values() == Seq::<T>::empty(),
    {
        let r = LinkedTable { names: Vec::new(), items: Vec::new() };
        assert(r.keys() =~= Seq::<Seq<char>>::empty());
        r
    }

    /// The position of `key` in insertion order, if it is stored.
    pub fn position(&self, key: &String) -> (r: Option<usize>)
        requires
            self.wf(),
        ensures
            match r {
                Some(i) => i < self.keys().len() && self.keys()[i as int] == key@,
                None => !self.keys().contains(key@),
            },
    {
        let mut i: usize = 0;
        while i < self.names.len()
            invariant
                self.wf(),
                i <= self.names.len(),
                forall|k: int| 0 <= k < i ==> self.keys()[k] != key@,
            decreases self.names.len() - i,
        {
            if self.names[i] == *key {
                return Some(i);
            }
            i = i + 1;
        }
        None
    }

    /// Appends `item` under `key` as the new last entry, unless `key` is
    /// already stored; then the table is left as it was.
    pub fn push(&mut self, key: String, item: T) -> (r: Result<(), GenericsError>)
        requires
            old(self).wf(),
        ensures
            final(self).wf(),
            old(self).keys().contains(key@) ==> {
                &&& r == Err::<(), GenericsError>(GenericsError::DuplicateName(key))
                &&& final(self).keys() == old(self).keys()
                &&& final(self).values() == old(self).values()
            },
            !old(self).keys().contains(key@) ==> {
                &&& r is Ok
                &&& final(self).keys() == old(self).keys().push(key@)
                &&& final(self).values() == old(self).values().push(item)
            },
    {
        match self.position(&key) {
            Some(_) => Err(GenericsError::DuplicateName(key)),
            None => {
                proof {
                    assert(self.names@.push(key).map_values(|k: String| k@) =~= self.keys().push(key@));
                }
                self.names.push(key);
                self.items.push(item);
                Ok(())
            },
        }
    }

    /// A mutable reference to the value stored under `key`, if any.
    pub fn get_mut(&mut self, key: &String) -> (r: Option<&mut T>)
        requires
            old(self).wf(),
        ensures
            old(self).keys().contains(key@) <==> r is Some,
            r is None ==> *final(self) == *old(self),
            r matches Some(v) ==> exists|i: int|
                0 <= i < old(self).keys().len() && old(self).keys()[i] == key@
                && *v == old(self).values()[i]
                && final(self).keys() == old(self).keys()
                && final(self).values() == old(self).values().update(i, *final(v)),
    {
        match self.position(key) {
            Some(i) => Some(&mut self.items[i]),
            None => None,
        }
    }

    /// Walks the values in insertion order.
    pub fn iter(&self) -> (r: Iter<'_, T>)
        ensures
            r.table() == self,
            r.pos() == 0,
    {
        Iter { table: self, next: 0 }
    }

    pub fn is_empty(&self) -> (r: bool)
        requires
            self.wf(),
        ensures
            r == (self.values().len() == 0),
    {
        self.items.len() == 0
    }

    pub fn len(&self) -> (r: usize)
        requires
            self.wf(),
        ensures
            r == self.values().len(),
    {
        self.items.len()
    }

    /// The value at position `i` in insertion order.
    pub fn value_at(&self, i: usize) -> (r: &T)
        requires
            self.wf(),
            i < self.values().len(),
        ensures
            *r == self.values()[i as int],
    {
        &self.items[i]
    }
}

/// A walk over the values of a `LinkedTable` in insertion order.
pub struct Iter<'a, T> {
    table: &'a LinkedTable<T>,
    next: usize,
}

impl<'a, T> Iter<'a, T> {
    pub closed spec fn table(&self) -> &'a LinkedTable<T> {
        self.table
    }

    /// How many values have been handed out so far.
    pub closed spec fn pos(&self) -> nat {
        self.next as nat
    }

    /// The next value in insertion order, or `None` once all were handed out.
    pub fn next(&mut self) -> (r: Option<&'a T>)
        ensures
            final(self).table() == old(self).table(),
            old(self).pos() < old(self).table().values().len() ==> {
                &&& r == Some(&old(self).table().values()[old(self).pos() as int])
                &&& final(self).pos() == old(self).pos() + 1
            },
            old(self).pos() >= old(self).table().values().len() ==> {
                &&& r is None
                &&& final(self).pos() == old(self).pos()
            },
    {
        if self.next < self.table.items.len() {
            let v = &self.table.items[self.next];
            self.next = self.next + 1;
            Some(v)
        } else {
            None
        }
    }
}

} // verus!
