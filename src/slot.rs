use vstd::prelude::*;

verus! {

/// Turns a flag and a candidate into `Some(candidate)` when the flag holds.
fn to_option<T>(b: bool, some: T) -> (r: Option<T>)
    ensures
        r == (if b { Some(some) } else { None::<T> }),
{
    match b {
        true => Some(some),
        false => None,
    }
}

/// A mutable reference into an `Option`'s contents, if there are any.
fn option_as_mut<T>(o: &mut Option<T>) -> (r: Option<&mut T>)
    ensures
        r is Some <==> *old(o) is Some,
        r is Some ==> *r->0 == old(o)->0 && *final(o) == Some(*final(r->0)),
        r is None ==> *final(o) == *old(o),
    no_unwind
{
    match o {
        Some(v) => Some(v),
        None => None,
    }
}

/// Why a slot could not be rebuilt from a value and a version.
#[derive(Debug, Clone, Copy, PartialEq, Eq, Structural)]
pub enum SlotError {
    /// The version's parity disagrees with whether a value is present.
    InconsistentOccupation,
}

/// Storage for at most one value, together with a version counter whose
/// parity records whether the slot is occupied (odd) or vacant (even).
pub struct Slot<T> {
    value: Option<T>,
    version: u32,
    /// Successor in a free list kept by the owning container; only
    /// meaningful while the slot is vacant.
    pub next_free: u32,
}

impl<T> Slot<T> {
    /// The value held by the slot, if any.
    pub closed spec fn spec_value(&self) -> Option<T> {
        self.value
    }

    /// The slot's current version.
    pub closed spec fn spec_version(&self) -> u32 {
        self.version
    }

    /// The slot's free-list successor.
    pub closed spec fn spec_next_free(&self) -> u32 {
        self.next_free
    }

    /// A value and a version agree when the value is present exactly when
    /// the version is odd.
    pub open spec fn consistent(value: Option<T>, version: u32) -> bool {
        value is Some <==> version % 2 == 1
    }

    /// A slot is well formed when it holds a value exactly when its version is odd.
    pub open spec fn wf(&self) -> bool {
        Self::consistent(self.spec_value(), self.spec_version())
    }

    /// Every slot is well formed.
    #[verifier::type_invariant]
    spec fn inv(&self) -> bool {
        self.wf()
    }

    /// Whether the version is odd, i.e. the slot is occupied.
    pub open spec fn is_occupied(&self) -> bool {
        self.spec_version() % 2 == 1
    }

    /// The version the slot has once it is occupied: odd versions stay,
    /// even versions move to the next odd number.
    pub open spec fn spec_occupied_version(&self) -> u32 {
        if self.is_occupied() {
            self.spec_version()
        } else {
            (self.spec_version() + 1) as u32
        }
    }

    /// What a lookup with version `v` finds: the value, when the slot is
    /// occupied and `v` is the current version.
    pub open spec fn versioned(&self, v: u32) -> Option<T> {
        if self.is_occupied() && self.spec_version() == v {
            self.spec_value()
        } else {
            None
        }
    }

    /// `post` is `pre` after `v` was stored into it.
    pub open spec fn store_step(pre: Self, post: Self, v: T) -> bool {
        &&& post.spec_version() == pre.spec_version() + 1
        &&& post.spec_value() == Some(v)
        &&& post.spec_next_free() == pre.spec_next_free()
    }

    /// `post` is `pre` after its value `v` was moved out; the version
    /// advances by one, wrapping at the top of the `u32` range.
    pub open spec fn remove_step(pre: Self, post: Self, v: T) -> bool {
        &&& pre.spec_value() == Some(v)
        &&& post.spec_version() == (if pre.spec_version() == u32::MAX {
            0
        } else {
            pre.spec_version() + 1
        })
        &&& post.spec_value() is None
        &&& post.spec_next_free() == pre.spec_next_free()
    }

    /// Creates a vacant slot at version 0.
    pub fn new() -> (r: Self)
        ensures
            r.wf(),
            r.spec_value() is None,
            r.spec_version() == 0,
            r.spec_next_free() == 0,
    {
        Slot { value: None, version: 0, next_free: 0 }
    }

    /// Is this slot occupied?
    pub fn occupied(&self) -> (r: bool)
        ensures
            r == self.is_occupied(),
    {
        self.version % 2 > 0
    }

    /// The current version.
    pub fn version(&self) -> (r: u32)
        ensures
            r == self.spec_version(),
    {
        self.version
    }

    /// The version this slot has while occupied: the current one if it is
    /// occupied, the one it will get from the next store otherwise.
    pub fn occupied_version(&self) -> (r: u32)
        ensures
            r == self.spec_occupied_version(),
            r == (self.spec_version() | 1),
            r % 2 == 1,
    {
        let v = self.version;
        assert(v % 2 == 1 ==> v | 1 == v) by (bit_vector);
        assert(v % 2 == 0 ==> v | 1 == v + 1) by (bit_vector);
        v | 1
    }

    /// Whether the slot is occupied at exactly `version`.
    pub fn has_version(&self, version: u32) -> (r: bool)
        ensures
            r == (self.is_occupied() && self.spec_version() == version),
    {
        self.version == version && self.version % 2 == 1
    }

    /// The free-list successor.
    pub fn next_free(&self) -> (r: u32)
        ensures
            r == self.spec_next_free(),
    {
        self.next_free
    }

    /// Sets the free-list successor; the value and the version stay.
    pub fn set_next_free(&mut self, next_free: u32)
        ensures
            final(self).spec_next_free() == next_free,
            final(self).spec_value() == old(self).spec_value(),
            final(self).spec_version() == old(self).spec_version(),
            final(self).wf(),
    {
        proof {
            use_type_invariant(&*self);
        }
        self.next_free = next_free;
    }

    /// The slot's value, if occupied.
    pub fn value(&self) -> (r: Option<&T>)
        ensures
            r is Some <==> self.is_occupied(),
            r is Some ==> *r->0 == self.spec_value()->0,
    {
        proof {
            use_type_invariant(self);
        }
        self.value.as_ref()
    }

    /// A mutable reference to the slot's value, if occupied.
    pub fn value_mut(&mut self) -> (r: Option<&mut T>)
        ensures
            r is Some <==> old(self).is_occupied(),
            r is Some ==> *r->0 == old(self).spec_value()->0,
            r is Some ==> final(self).spec_value() == Some(*final(r->0)),
            r is None ==> final(self).spec_value() == old(self).spec_value(),
            final(self).spec_version() == old(self).spec_version(),
            final(self).spec_next_free() == old(self).spec_next_free(),
            final(self).wf(),
    {
        proof {
            use_type_invariant(&*self);
        }
        option_as_mut(&mut self.value)
    }

    /// The slot's value, if it is occupied at exactly `version`.
    pub fn get_versioned(&self, version: u32) -> (r: Option<&T>)
        ensures
            r is Some <==> (self.is_occupied() && self.spec_version() == version),
            r is Some ==> *r->0 == self.spec_value()->0,
    {
        proof {
            use_type_invariant(self);
        }
        match &self.value {
            Some(v) => to_option(self.version == version, v),
            None => None,
        }
    }

    /// A mutable reference to the slot's value, if it is occupied at exactly
    /// `version`.
    pub fn get_versioned_mut(&mut self, version: u32) -> (r: Option<&mut T>)
        ensures
            r is Some <==> (old(self).is_occupied() && old(self).spec_version() == version),
            r is Some ==> *r->0 == old(self).spec_value()->0,
            r is Some ==> final(self).spec_value() == Some(*final(r->0)),
            r is None ==> final(self).spec_value() == old(self).spec_value(),
            final(self).spec_version() == old(self).spec_version(),
            final(self).spec_next_free() == old(self).spec_next_free(),
            final(self).wf(),
    {
        proof {
            use_type_invariant(&*self);
        }
        if self.version == version {
            option_as_mut(&mut self.value)
        } else {
            None
        }
    }

    /// The slot's value; the caller knows that the slot is occupied.
    pub fn get_unchecked(&self) -> (r: &T)
        requires
            self.is_occupied(),
        ensures
            *r == self.spec_value()->0,
    {
        proof {
            use_type_invariant(self);
        }
        self.value.as_ref().unwrap()
    }

    /// A mutable reference to the slot's value; the caller knows that the
    /// slot is occupied.
    pub fn get_unchecked_mut(&mut self) -> (r: &mut T)
        requires
            old(self).is_occupied(),
        ensures
            *r == old(self).spec_value()->0,
            final(self).spec_value() == Some(*final(r)),
            final(self).spec_version() == old(self).spec_version(),
            final(self).spec_next_free() == old(self).spec_next_free(),
            final(self).wf(),
    {
        proof {
            use_type_invariant(&*self);
        }
        option_as_mut(&mut self.value).unwrap()
    }

    /// Stores a value into a vacant slot, which moves to the next odd version.
    pub fn store_value(&mut self, value: T)
        requires
            !old(self).is_occupied(),
        ensures
            Self::store_step(*old(self), *final(self), value),
            final(self).wf(),
    {
        proof {
            use_type_invariant(&*self);
        }
        let v = self.version;
        assert(v % 2 == 0 ==> v | 1 == v + 1) by (bit_vector);
        *self = Slot { value: Some(value), version: v | 1, next_free: self.next_free };
    }

    /// Moves the value out of an occupied slot, which moves to the next even
    /// version.
    pub fn remove_value(&mut self) -> (r: T)
        requires
            old(self).is_occupied(),
        ensures
            Self::remove_step(*old(self), *final(self), r),
            final(self).wf(),
    {
        proof {
            use_type_invariant(&*self);
        }
        let mut removed = Slot {
            value: None,
            version: self.version.wrapping_add(1),
            next_free: self.next_free,
        };
        std::mem::swap(self, &mut removed);
        removed.value.unwrap()
    }

    /// Rebuilds a slot from a value and a version, as they are kept when a
    /// slot is persisted. The free-list successor starts at 0.
    pub fn from_parts(value: Option<T>, version: u32) -> (r: Result<Self, SlotError>)
        ensures
            r is Ok <==> Self::consistent(value, version),
            r is Err ==> r->Err_0 == SlotError::InconsistentOccupation,
            r is Ok ==> {
                &&& r->Ok_0.wf()
                &&& r->Ok_0.spec_value() == value
                &&& r->Ok_0.spec_version() == version
                &&& r->Ok_0.spec_next_free() == 0
            },
    {
        let occupied = version % 2 > 0;
        if occupied != value.is_some() {
            return Err(SlotError::InconsistentOccupation);
        }
        Ok(Slot { value, version, next_free: 0 })
    }
}

impl<T: Clone> Clone for Slot<T> {
    /// Copies the version and the free-list successor, and clones the value
    /// when there is one.
    fn clone(&self) -> (r: Self)
        ensures
            r.spec_version() == self.spec_version(),
            r.spec_next_free() == self.spec_next_free(),
            r.spec_value() is Some <==> self.spec_value() is Some,
            self.spec_value() is Some ==> cloned::<T>(self.spec_value()->0, r.spec_value()->0),
            r.wf(),
    {
        proof {
            use_type_invariant(self);
        }
        let value = match &self.value {
            Some(v) => Some(v.clone()),
            None => None,
        };
        Slot { value, version: self.version, next_free: self.next_free }
    }
}

} // verus!
