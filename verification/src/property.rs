//! A handle that mirrors one property of a UI global.

use vstd::prelude::*;

verus! {

/// A handle to a UI property.
///
/// `T` is a domain type (e.g. [`String`] or [`u32`]) and `U` is the UI type
/// (e.g. `slint::SharedString` or [`i32`]). The handle keeps the current
/// domain value; `set` stores a clone of a new value, maps the value to the UI type
/// with `mapper` and hands the result to `setter`.
///
/// The handle holds the current value as a field, so if the underlying UI
/// value is changed elsewhere, [`PropertyHandle::get()`] still returns the
/// value last set through the handle.
pub struct PropertyHandle<T, U, S, M> {
    value: T,
    setter: S,
    mapper: M,
    ui: core::marker::PhantomData<U>,
}

/// Returned from [`PropertyHandle::watch_step()`] when the input stream has ended.
#[derive(Debug)]
pub struct StreamTerminated(());

impl StreamTerminated {
    /// The error value.
    pub fn new() -> (r: StreamTerminated) {
        StreamTerminated(())
    }
}

impl<T, U, S, M> PropertyHandle<T, U, S, M> {
    /// The value last stored in the handle.
    pub closed spec fn current(&self) -> T {
        self.value
    }

    /// The closure that pushes a UI value to the property.
    pub closed spec fn setter_fn(&self) -> S {
        self.setter
    }

    /// The closure that maps a domain value to a UI value.
    pub closed spec fn mapper_fn(&self) -> M {
        self.mapper
    }

    /// Replaces the stored value and keeps the closures; neither closure is
    /// called. A handle shared behind a cell stores with this and calls its
    /// closures once the cell is released again.
    pub fn store(&mut self, val: T)
        ensures
            final(self).current() == val,
            final(self).setter_fn() == old(self).setter_fn(),
            final(self).mapper_fn() == old(self).mapper_fn(),
    {
        self.value = val;
    }
}

/// What `set(v)` leaves behind: the handle holds a clone of `v` and keeps its closures.
pub open spec fn stored<T: Clone, U, S, M>(before: PropertyHandle<T, U, S, M>, after: PropertyHandle<T, U, S, M>, v: T) -> bool {
    &&& cloned(v, after.current())
    &&& after.setter_fn() == before.setter_fn()
    &&& after.mapper_fn() == before.mapper_fn()
}

/// A read gives back the last write: after `set(a)` and then `set(b)`, the
/// handle holds a clone of `b` (what `get` and `get_ref` return) and still the
/// closures it was made with.
pub proof fn lemma_last_write_wins<T: Clone, U, S, M>(
    h0: PropertyHandle<T, U, S, M>,
    h1: PropertyHandle<T, U, S, M>,
    h2: PropertyHandle<T, U, S, M>,
    a: T,
    b: T,
)
    requires
        stored(h0, h1, a),
        stored(h1, h2, b),
    ensures
        cloned(b, h2.current()),
        h2.setter_fn() == h0.setter_fn(),
        h2.mapper_fn() == h0.mapper_fn(),
{
}

impl<T, U, S: Fn(U), M: Fn(T) -> U> PropertyHandle<T, U, S, M> {
    /// Both closures accept every argument.
    pub open spec fn callable(&self) -> bool {
        &&& forall|t: T| call_requires(self.mapper_fn(), (t,))
        &&& forall|u: U| call_requires(self.setter_fn(), (u,))
    }

    /// Creates new [`PropertyHandle`] with a mapper; the value starts as `T::default()`.
    pub fn new_mapped(setter: S, mapper: M) -> (h: Self)
        where
            T: Default,
        requires
            forall|t: T| call_requires(mapper, (t,)),
            forall|u: U| call_requires(setter, (u,)),
        ensures
            call_ensures(T::default, (), h.current()),
            h.setter_fn() == setter,
            h.mapper_fn() == mapper,
            h.callable(),
    {
        PropertyHandle { value: T::default(), setter, mapper, ui: core::marker::PhantomData }
    }

    /// Gets the current value.
    pub fn get(&self) -> (r: T)
        where
            T: Copy,
        ensures
            r == self.current(),
    {
        self.value
    }

    /// Gets a reference to the value.
    pub fn get_ref(&self) -> (r: &T)
        ensures
            *r == self.current(),
    {
        &self.value
    }

    /// Sets the value: stores a clone of `val`, maps `val` with the mapper and
    /// passes the mapped value to the setter.
    pub fn set(&mut self, val: T)
        where
            T: Clone,
        requires
            old(self).callable(),
        ensures
            stored(*old(self), *final(self), val),
            exists|m: U|
                #![trigger call_ensures(old(self).mapper_fn(), (val,), m)]
                call_ensures(old(self).mapper_fn(), (val,), m) && call_ensures(old(self).setter_fn(), (m,), ()),
    {
        let c = val.clone();
        proof {
            assert(call_requires(self.mapper_fn(), (val,)));
        }
        self.value = c;
        let ghost v = val;
        let mapped = (self.mapper)(val);
        proof {
            assert(call_requires(old(self).setter_fn(), (mapped,)));
            assert(self.setter == old(self).setter);
        }
        (self.setter)(mapped);
        assert(call_ensures(old(self).mapper_fn(), (v,), mapped));
    }

    /// One step of watching an input stream: a new item is set (see
    /// [`PropertyHandle::set()`]) and watching goes on; the end of the stream
    /// leaves the handle unchanged and ends watching with [`StreamTerminated`].
    pub fn watch_step(&mut self, next: Option<T>) -> (r: Result<(), StreamTerminated>)
        where
            T: Clone,
        requires
            old(self).callable(),
        ensures
            final(self).setter_fn() == old(self).setter_fn(),
            final(self).mapper_fn() == old(self).mapper_fn(),
            match next {
                Some(v) => {
                    &&& r is Ok
                    &&& stored(*old(self), *final(self), v)
                    &&& exists|m: U|
                        #![trigger call_ensures(old(self).mapper_fn(), (v,), m)]
                        call_ensures(old(self).mapper_fn(), (v,), m) && call_ensures(old(self).setter_fn(), (m,), ())
                },
                None => r is Err && final(self).current() == old(self).current(),
            },
    {
        match next {
            Some(v) => {
                self.set(v);
                Ok(())
            },
            None => Err(StreamTerminated::new()),
        }
    }
}

impl<T, S: Fn(T)> PropertyHandle<T, T, S, ()> {
    /// Creates new [`PropertyHandle`] where domain type (`T`) and UI type are
    /// the same: the mapper hands the value on unchanged.
    pub fn new(setter: S) -> (h: PropertyHandle<T, T, S, impl Fn(T) -> T>)
        where
            T: Default,
        requires
            forall|u: T| call_requires(setter, (u,)),
        ensures
            call_ensures(T::default, (), h.current()),
            h.setter_fn() == setter,
            h.callable(),
            forall|t: T, r: T| call_ensures(h.mapper_fn(), (t,), r) ==> r == t,
    {
        PropertyHandle::new_mapped(setter, |v: T| -> (r: T) ensures r == v { v })
    }
}

} // verus!
