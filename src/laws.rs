use vstd::prelude::*;

use crate::slot::Slot;

verus! {

/// Storing into a vacant well-formed slot, or removing from an occupied one,
/// leaves a well-formed slot: it is occupied exactly when its version is odd.
pub proof fn lemma_parity_preserved<T>(pre: Slot<T>, post: Slot<T>, v: T)
    requires
        pre.wf(),
        (!pre.is_occupied() && Slot::store_step(pre, post, v)) || (pre.is_occupied()
            && Slot::remove_step(pre, post, v)),
    ensures
        post.wf(),
        post.spec_value() is Some <==> post.spec_version() % 2 == 1,
        post.is_occupied() <==> Slot::store_step(pre, post, v),
{
}

/// Each store, and each remove below the top of the `u32` range, strictly
/// increases the version.
pub proof fn lemma_version_increases<T>(pre: Slot<T>, post: Slot<T>, v: T)
    requires
        Slot::store_step(pre, post, v) || (Slot::remove_step(pre, post, v)
            && pre.spec_version() < u32::MAX),
    ensures
        post.spec_version() > pre.spec_version(),
{
}

/// After a store, a remove and another store, a lookup with the version of
/// the first store finds nothing.
pub proof fn lemma_stale_handle_rejected<T>(
    s0: Slot<T>,
    s1: Slot<T>,
    s2: Slot<T>,
    s3: Slot<T>,
    a: T,
    b: T,
)
    requires
        s0.wf(),
        !s0.is_occupied(),
        Slot::store_step(s0, s1, a),
        Slot::remove_step(s1, s2, a),
        Slot::store_step(s2, s3, b),
    ensures
        s3.spec_version() != s1.spec_version(),
        s3.versioned(s1.spec_version()) is None,
        s3.versioned(s3.spec_version()) == Some(b),
{
}

/// Removing the value of an occupied slot and storing it back gives the
/// same value and free-list successor, at a version two higher (modulo 2^32).
pub proof fn lemma_remove_store_round_trip<T>(s0: Slot<T>, s1: Slot<T>, s2: Slot<T>, x: T)
    requires
        s0.wf(),
        s0.is_occupied(),
        Slot::remove_step(s0, s1, x),
        Slot::store_step(s1, s2, x),
    ensures
        s2.wf(),
        s2.spec_value() == s0.spec_value(),
        s2.spec_next_free() == s0.spec_next_free(),
        s2.spec_version() == (s0.spec_version() + 2) % 0x1_0000_0000,
{
}

/// A well-formed slot's value and version are consistent, so
/// `Slot::from_parts` accepts them back.
pub proof fn lemma_parts_round_trip<T>(s: Slot<T>)
    requires
        s.wf(),
    ensures
        Slot::<T>::consistent(s.spec_value(), s.spec_version()),
{
}

} // verus!
