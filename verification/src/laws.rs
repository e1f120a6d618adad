//! The container's governing laws, stated over the same spec functions its
//! accessors' contracts use and proved once for every operation and value.

use crate::later::Later;
use crate::operation::Operation;
use vstd::prelude::*;

verus! {

/// Resolution is idempotent: however many resolving accesses a container
/// sees, every one of them reads the very same value, and only the first
/// can have changed the container at all — each later access finds it
/// resolved and leaves it untouched.
pub proof fn lemma_resolution_idempotent<T: Operation>(
    first: Later<T>,
    second: Later<T>,
    third: Later<T>,
    r1: T::Output,
    r2: T::Output,
)
    requires
        Later::resolves_to(first, second, r1),
        Later::resolves_to(second, third, r2),
    ensures
        r1 == r2,
        third == second,
{
}

/// Eager short-circuit: an operation that is ready at construction time is
/// resolved by the construction itself, so every subsequent access finds
/// the cached value, leaves the container untouched, and never blocks.
pub proof fn lemma_eager_short_circuit<T: Operation>(
    op: T,
    fresh: Later<T>,
    accessed: Later<T>,
    r: T::Output,
)
    requires
        op.ready(),
        fresh.fresh_from(op),
        Later::resolves_to(fresh, accessed, r),
    ensures
        fresh.is_resolved(),
        accessed == fresh,
        r == op.result(),
{
}

/// Extraction equals read: consuming a container yields the same value that
/// reading an equivalent container — one built from the same operation —
/// arrives at.
pub proof fn lemma_extraction_equals_read<T: Operation>(
    op: T,
    consumed: Later<T>,
    observed: Later<T>,
    after: Later<T>,
    extracted: T::Output,
    read: T::Output,
)
    requires
        consumed.fresh_from(op),
        observed.fresh_from(op),
        extracted == consumed.value_spec(),
        Later::resolves_to(observed, after, read),
    ensures
        extracted == read,
{
}

/// Duplication stability: two duplicating accesses hand out duplicates of
/// one and the same stored value, and the second finds the container
/// already resolved and leaves it untouched — the operation itself is gone
/// from a resolved container, so it cannot be queried again.
pub proof fn lemma_duplication_stable<T: Operation>(
    first: Later<T>,
    second: Later<T>,
    third: Later<T>,
    r1: T::Output,
    r2: T::Output,
)
    where T::Output: Clone
    requires
        Later::duplicates_to(first, second, r1),
        Later::duplicates_to(second, third, r2),
    ensures
        cloned(first.value_spec(), r1),
        cloned(first.value_spec(), r2),
        second.is_resolved(),
        third == second,
{
}

} // verus!
