//! Properties that relate the operations of `Vec` to one another.
use vstd::prelude::*;
use vstd::std_specs::cmp::PartialEqSpec;

use crate::error::StorageError;
use crate::index::{nat_max, nat_min, Grow, Index};
use crate::storage::allocator::{FixedAlloc, Global, RawAlloc, ZeroizingAlloc};
use crate::storage::fixed::{ByteStorage, Inline, SpillStorage};
use crate::storage::utils::{spec_min_non_zero_cap, Layout};

use super::config::{VecConfig, VecConfigNew, VecConfigSpawn, VecNewIn};
use super::{filter_keep, spec_dedup, spec_reserve_result, Vec};

verus! {

/// A successful reservation leaves room for the current items plus the
/// requested ones, never shrinks the buffer, and stays within the range of
/// the index type.
pub proof fn law_reserve_sufficient<T, C: VecConfig>(v: &Vec<T, C>, additional: nat)
    requires
        v.wf(),
    ensures
        v.reserve_result(additional) matches Ok(c) ==> (v@.len() + additional <= c
            && v.spec_capacity() <= c && c <= C::Index::max_usize()),
{
    super::lemma_reserve_covers::<C>(
        v.spec_allocator(),
        vstd::layout::size_of::<T>(),
        vstd::layout::align_of::<T>(),
        v@.len(),
        v.spec_capacity(),
        additional,
        spec_min_non_zero_cap::<T>(),
    );
}

/// A reservation that fits within the current capacity changes nothing,
/// exact or not.
pub proof fn law_reserve_within_capacity<T, C: VecConfig>(v: &Vec<T, C>, additional: nat)
    requires
        v.wf(),
        v@.len() + additional <= v.spec_capacity(),
    ensures
        v.reserve_result(additional) == Ok::<nat, StorageError>(v.spec_capacity()),
        v.reserve_exact_result(v@.len() + additional) == Ok::<nat, StorageError>(
            v.spec_capacity(),
        ),
{
    C::Index::lemma_max_bounds();
}

/// A successful exact reservation for `reserve` items yields the larger of
/// the current capacity and `reserve`: the buffer holds at least `reserve`
/// items, and a new allocation never exceeds `reserve`.
pub proof fn law_reserve_exact_capacity<T, C: VecConfig>(v: &Vec<T, C>, reserve: nat)
    requires
        v.wf(),
        reserve <= C::Index::max_usize(),
    ensures
        v.reserve_exact_result(reserve) matches Ok(c) ==> c == nat_max(v.spec_capacity(), reserve),
{
    super::lemma_reserve_exact_covers::<C>(
        v.spec_allocator(),
        vstd::layout::size_of::<T>(),
        vstd::layout::align_of::<T>(),
        v.spec_capacity(),
        reserve,
    );
}

/// With the global allocator, a full vector that must grow by one item at
/// least doubles its capacity (up to the largest `usize`), and an empty one
/// grows to at least the minimum non-zero capacity for its item type.
pub proof fn law_push_grows_geometrically<T>(v: &Vec<T, Global>)
    requires
        v.wf(),
        v@.len() == v.spec_capacity(),
    ensures
        v.reserve_result(1) matches Ok(c) ==> (c >= nat_min(
            2 * v.spec_capacity(),
            usize::MAX as nat,
        ) && (v.spec_capacity() == 0 ==> c >= spec_min_non_zero_cap::<T>())),
{
    if v@.len() + 1 <= usize::MAX {
        crate::index::law_doubling_growth(
            v.spec_capacity(),
            v@.len() + 1,
            spec_min_non_zero_cap::<T>(),
            usize::MAX as nat,
        );
    }
}

/// An inline vector never changes its capacity: every successful request
/// for storage, new or resizing the buffer of `N` items, yields its fixed
/// capacity `N`.
pub proof fn law_inline_capacity_fixed<const N: usize>(
    elem_size: nat,
    elem_align: nat,
    old_cap: nat,
    cap: nat,
    exact: bool,
)
    requires
        old_cap == N,
    ensures
        Inline::<N>::spec_resize(crate::storage::allocator::FixedAlloc, elem_size, elem_align, old_cap, cap, exact)
            matches Ok(c) ==> c == N,
        Inline::<N>::spec_try_new(elem_size, elem_align, cap, exact) matches Ok((_a, c)) ==> c
            == N,
{
}

/// Popping right after pushing an item returns that item and restores the
/// previous items.
pub proof fn law_push_then_pop<T>(items: Seq<T>, item: T)
    ensures
        items.push(item).len() > 0,
        items.push(item).last() == item,
        items.push(item).drop_last() == items,
{
    assert(items.push(item).drop_last() =~= items);
}

/// Removing the item just inserted at an index returns that item and
/// restores the previous items.
pub proof fn law_insert_then_remove<T>(items: Seq<T>, index: int, item: T)
    requires
        0 <= index <= items.len(),
    ensures
        items.insert(index, item)[index] == item,
        items.insert(index, item).remove(index) == items,
{
    assert(items.insert(index, item).remove(index) =~= items);
}

/// Splitting a vector at an index and appending the split-off part restores
/// the original items.
pub proof fn law_split_off_then_append<T>(items: Seq<T>, index: int)
    requires
        0 <= index <= items.len(),
    ensures
        items.subrange(0, index) + items.subrange(index, items.len() as int) == items,
{
    assert(items.subrange(0, index) + items.subrange(index, items.len() as int) =~= items);
}

/// Draining a range and splicing the drained items back in restores the
/// original items.
pub proof fn law_drain_then_splice_back<T>(items: Seq<T>, start: int, end: int)
    requires
        0 <= start <= end <= items.len(),
    ensures
        items.subrange(0, start) + items.subrange(start, end) + items.subrange(
            end,
            items.len() as int,
        ) == items,
{
    assert(items.subrange(0, start) + items.subrange(start, end) + items.subrange(
        end,
        items.len() as int,
    ) =~= items);
}

/// Retaining with a predicate that keeps everything changes nothing, and
/// one that keeps nothing leaves no items; the retained items never
/// outnumber the original ones.
pub proof fn law_retain_bounds<T>(items: Seq<T>, keep: Seq<bool>)
    requires
        keep.len() == items.len(),
    ensures
        filter_keep(items, keep).len() <= items.len(),
        (forall|i: int| 0 <= i < keep.len() ==> keep[i]) ==> filter_keep(items, keep) == items,
        (forall|i: int| 0 <= i < keep.len() ==> !keep[i]) ==> filter_keep(items, keep).len() == 0,
    decreases items.len(),
{
    if items.len() > 0 {
        law_retain_bounds(items.drop_last(), keep.drop_last());
        if forall|i: int| 0 <= i < keep.len() ==> keep[i] {
            assert(forall|i: int| 0 <= i < keep.drop_last().len() ==> keep.drop_last()[i]);
            assert(items.drop_last().push(items.last()) =~= items);
        }
        if forall|i: int| 0 <= i < keep.len() ==> !keep[i] {
            assert(forall|i: int| 0 <= i < keep.drop_last().len() ==> !keep.drop_last()[i]);
        }
    } else {
        assert(items =~= Seq::<T>::empty());
    }
}

/// After deduplication no item equals the item kept just before it, the
/// first item is kept, and no items are added.
pub proof fn law_dedup_no_adjacent_repeats<T: PartialEq>(items: Seq<T>)
    ensures
        spec_dedup(items).len() <= items.len(),
        items.len() > 0 ==> spec_dedup(items)[0] == items[0],
        forall|j: int|
            0 <= j < spec_dedup(items).len() - 1 ==> !(#[trigger] spec_dedup(items)[j + 1]).eq_spec(
                &spec_dedup(items)[j],
            ),
    decreases items.len(),
{
    if items.len() > 1 {
        law_dedup_no_adjacent_repeats(items.drop_last());
        super::lemma_dedup_nonempty(items.drop_last());
        let prev = spec_dedup(items.drop_last());
        let r = spec_dedup(items);
        if !items.last().eq_spec(&prev.last()) {
            assert forall|j: int| 0 <= j < r.len() - 1 implies !(#[trigger] r[j + 1]).eq_spec(
                &r[j],
            ) by {
                if j + 1 < prev.len() {
                    assert(r[j + 1] == prev[j + 1]);
                    assert(r[j] == prev[j]);
                } else {
                    assert(r[j + 1] == items.last());
                    assert(r[j] == prev.last());
                }
            }
        }
    }
}

/// A successful shrink keeps room for every item, never grows the buffer,
/// and keeps room for `min_capacity` items when the capacity allowed it.
pub proof fn law_shrink_bounds<T, C: VecConfig>(v: &Vec<T, C>, min_capacity: nat)
    requires
        v.wf(),
        min_capacity <= C::Index::max_usize(),
    ensures
        v.shrink_result(min_capacity) matches Ok(c) ==> (v@.len() <= c <= v.spec_capacity() && (
        v.spec_capacity() >= min_capacity ==> c >= min_capacity)),
{
    let target = crate::index::nat_max(v@.len(), min_capacity);
    C::lemma_config_covers(
        v.spec_allocator(),
        vstd::layout::size_of::<T>(),
        vstd::layout::align_of::<T>(),
        v.spec_capacity(),
        target,
        true,
    );
}

/// Filtering decides each item by its own flag alone: appending an item with
/// its flag appends the item to the filtered items exactly when the flag is
/// set, and filtering nothing gives nothing.
pub proof fn law_filter_keep_by_own_flag<T>(s: Seq<T>, keep: Seq<bool>, x: T, b: bool)
    requires
        keep.len() == s.len(),
    ensures
        filter_keep(Seq::<T>::empty(), Seq::<bool>::empty()) == Seq::<T>::empty(),
        filter_keep(s.push(x), keep.push(b)) == (if b {
            filter_keep(s, keep).push(x)
        } else {
            filter_keep(s, keep)
        }),
{
    assert(s.push(x).drop_last() =~= s);
    assert(keep.push(b).drop_last() =~= keep);
}

/// The number of flags set among `keep`.
pub open spec fn count_kept(keep: Seq<bool>) -> nat
    decreases keep.len(),
{
    if keep.len() == 0 {
        0
    } else {
        count_kept(keep.drop_last()) + if keep.last() {
            1nat
        } else {
            0nat
        }
    }
}

/// Filtering keeps exactly as many items as there are flags set.
pub proof fn law_filter_keep_counts_flags<T>(s: Seq<T>, keep: Seq<bool>)
    requires
        keep.len() == s.len(),
    ensures
        filter_keep(s, keep).len() == count_kept(keep),
    decreases s.len(),
{
    if s.len() > 0 {
        law_filter_keep_counts_flags(s.drop_last(), keep.drop_last());
    }
}

/// An inline buffer serves every non-exact request for at most `N` items,
/// new or spawned, with its full capacity `N`, and refuses more than `N`.
pub proof fn law_inline_serves_within_capacity<T, const N: usize>(
    elem_size: nat,
    elem_align: nat,
    cap: nat,
    exact: bool,
)
    ensures
        cap <= N ==> Inline::<N>::spec_spawn(FixedAlloc, elem_size, elem_align, cap, false)
            == Ok::<(FixedAlloc, nat), StorageError>((FixedAlloc, N as nat)),
        cap <= N ==> <Inline<N> as VecNewIn<T>>::spec_new_in(Inline::<N>, cap, false) == Ok::<
            (FixedAlloc, nat),
            StorageError,
        >((FixedAlloc, N as nat)),
        cap <= N ==> Inline::<N>::spec_try_new(elem_size, elem_align, cap, false) == Ok::<
            (FixedAlloc, nat),
            StorageError,
        >((FixedAlloc, N as nat)),
        cap > N ==> Inline::<N>::spec_spawn(FixedAlloc, elem_size, elem_align, cap, exact)
            == Err::<(FixedAlloc, nat), StorageError>(StorageError::CapacityLimit),
        cap > N ==> <Inline<N> as VecNewIn<T>>::spec_new_in(Inline::<N>, cap, exact) == Err::<
            (FixedAlloc, nat),
            StorageError,
        >(StorageError::CapacityLimit),
{
}

/// Pairing a byte buffer with an allocator changes nothing while the buffer
/// can serve the request: the spilling target then yields the same capacity
/// as the byte buffer alone.
pub proof fn law_spill_uses_byte_buffer_first<'a, T, U, A: RawAlloc, const N: usize>(
    storage: SpillStorage<&'a mut ByteStorage<U, N>, A>,
    cap: nat,
    exact: bool,
)
    ensures
        <&'a mut ByteStorage<U, N> as VecNewIn<T>>::spec_new_in(storage.buffer, cap, exact) matches Ok(
            (_f, c),
        ) ==> <SpillStorage<&'a mut ByteStorage<U, N>, A> as VecNewIn<T>>::spec_new_in(
            storage,
            cap,
            exact,
        ) matches Ok((_s, c2)) && c2 == c,
{
}

/// The zeroizing allocator grants what its inner allocator grants: a fresh
/// allocation as the inner one would, and a resize as a fresh allocation of
/// the new size from the inner one.
pub proof fn law_zeroizing_grants_as_inner<A: RawAlloc>(
    alloc: A,
    size: usize,
    old_layout: Layout,
    new_layout: Layout,
)
    ensures
        ZeroizingAlloc(alloc).spec_alloc(size) == alloc.spec_alloc(size),
        ZeroizingAlloc(alloc).spec_resize(old_layout, new_layout) == alloc.spec_alloc(
            new_layout.size,
        ),
        ZeroizingAlloc(Global).spec_resize(old_layout, new_layout) == Ok::<usize, StorageError>(
            new_layout.size,
        ),
{
}

/// A zeroizing vector over the global heap grows exactly as a vector on the
/// global heap with the same items and capacity does.
pub proof fn law_zeroizing_vec_grows_as_global<T>(
    v: &Vec<T, ZeroizingAlloc<Global>>,
    additional: nat,
)
    requires
        v.wf(),
    ensures
        v.reserve_result(additional) == spec_reserve_result::<Global>(
            Global,
            vstd::layout::size_of::<T>(),
            vstd::layout::align_of::<T>(),
            v@.len(),
            v.spec_capacity(),
            additional,
            spec_min_non_zero_cap::<T>(),
        ),
{
}

} // verus!
