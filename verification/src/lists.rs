use vstd::prelude::*;
use std::sync::Arc;
use smallvec::SmallVec;
use crate::physical::PhysicalDevice;

verus! {

/// A list of physical devices that keeps up to two inline.
#[derive(Debug)]
#[verifier::external_body]
pub struct PhysicalDeviceList {
    inner: SmallVec<[Arc<PhysicalDevice>; 2]>,
}

/// The physical devices that a `PhysicalDeviceList` holds, in order.
pub uninterp spec fn physical_device_list(v: PhysicalDeviceList) -> Seq<Arc<PhysicalDevice>>;

/// Builds the list with `SmallVec::from_vec`, which keeps the elements of `v` in their order.
#[verifier::external_body]
fn physical_device_list_from_vec(v: Vec<Arc<PhysicalDevice>>) -> (r: PhysicalDeviceList)
    ensures
        physical_device_list(r) == v@,
{
    PhysicalDeviceList { inner: SmallVec::from_vec(v) }
}

/// `SmallVec::as_slice`: the elements of the list as a slice, in order.
#[verifier::external_body]
fn physical_device_list_as_slice(v: &PhysicalDeviceList) -> (r: &[Arc<PhysicalDevice>])
    ensures
        r@ == physical_device_list(*v),
{
    v.inner.as_slice()
}

/// `SmallVec::clone`, which clones each element; cloning an `Arc` gives a pointer to the same
/// value.
#[verifier::external_body]
fn physical_device_list_clone(v: &PhysicalDeviceList) -> (r: PhysicalDeviceList)
    ensures
        physical_device_list(r) == physical_device_list(*v),
{
    PhysicalDeviceList { inner: v.inner.clone() }
}

impl PhysicalDeviceList {
    /// The list holding the elements of `v`, in order.
    pub fn from_vec(v: Vec<Arc<PhysicalDevice>>) -> (r: PhysicalDeviceList)
        ensures
            physical_device_list(r) == v@,
    {
        physical_device_list_from_vec(v)
    }

    /// The empty list.
    pub fn new() -> (r: PhysicalDeviceList)
        ensures
            physical_device_list(r) == Seq::<Arc<PhysicalDevice>>::empty(),
    {
        physical_device_list_from_vec(Vec::new())
    }

    /// The elements of the list, in order.
    pub fn as_slice(&self) -> (r: &[Arc<PhysicalDevice>])
        ensures
            r@ == physical_device_list(*self),
    {
        physical_device_list_as_slice(self)
    }

    /// The number of elements.
    pub fn len(&self) -> (r: usize)
        ensures
            r == physical_device_list(*self).len(),
    {
        self.as_slice().len()
    }

    /// Whether the list has no element.
    pub fn is_empty(&self) -> (r: bool)
        ensures
            r == (physical_device_list(*self).len() == 0),
    {
        self.len() == 0
    }
}

impl Clone for PhysicalDeviceList {
    /// A list with the same elements.
    fn clone(&self) -> (r: PhysicalDeviceList)
        ensures
            physical_device_list(r) == physical_device_list(*self),
    {
        physical_device_list_clone(self)
    }
}

/// A list of queue family indices that keeps up to two inline.
#[derive(Debug)]
#[verifier::external_body]
pub struct QueueFamilyIndexList {
    inner: SmallVec<[u32; 2]>,
}

/// The indices that a `QueueFamilyIndexList` holds, in order.
pub uninterp spec fn queue_family_index_list(v: QueueFamilyIndexList) -> Seq<u32>;

/// Whether `s` is in ascending order.
pub open spec fn sorted_ascending(s: Seq<u32>) -> bool {
    forall|i: int, j: int| 0 <= i < j < s.len() ==> s[i] <= s[j]
}

/// `s` with every run of equal neighbours cut down to its first element.
pub open spec fn dedup_consecutive(s: Seq<u32>) -> Seq<u32>
    decreases s.len(),
{
    if s.len() <= 1 {
        s
    } else {
        let prev = dedup_consecutive(s.drop_last());
        if s.last() == s[s.len() - 2] {
            prev
        } else {
            prev.push(s.last())
        }
    }
}

/// Builds the list with `SmallVec::from_vec`, which keeps the elements of `v` in their order.
#[verifier::external_body]
fn queue_family_index_list_from_vec(v: Vec<u32>) -> (r: QueueFamilyIndexList)
    ensures
        queue_family_index_list(r) == v@,
{
    QueueFamilyIndexList { inner: SmallVec::from_vec(v) }
}

/// `SmallVec::as_slice`: the elements of the list as a slice, in order.
#[verifier::external_body]
fn queue_family_index_list_as_slice(v: &QueueFamilyIndexList) -> (r: &[u32])
    ensures
        r@ == queue_family_index_list(*v),
{
    v.inner.as_slice()
}

/// `<[u32]>::sort_unstable` on the list's elements: the same elements, in ascending order.
#[verifier::external_body]
fn queue_family_index_list_sort_unstable(v: &mut QueueFamilyIndexList)
    ensures
        queue_family_index_list(*final(v)).to_multiset() == queue_family_index_list(*old(v)).to_multiset(),
        sorted_ascending(queue_family_index_list(*final(v))),
{
    v.inner.sort_unstable()
}

/// `SmallVec::dedup`: removes consecutive equal elements, keeping the first of each run.
#[verifier::external_body]
fn queue_family_index_list_dedup(v: &mut QueueFamilyIndexList)
    ensures
        queue_family_index_list(*final(v)) == dedup_consecutive(queue_family_index_list(*old(v))),
{
    v.inner.dedup()
}

impl QueueFamilyIndexList {
    /// The elements of the list, in order.
    pub fn as_slice(&self) -> (r: &[u32])
        ensures
            r@ == queue_family_index_list(*self),
    {
        queue_family_index_list_as_slice(self)
    }

    /// The list holding the elements of `v` in ascending order, each once.
    pub fn sorted_unique(v: Vec<u32>) -> (r: QueueFamilyIndexList)
        ensures
            forall|i: int, j: int| 0 <= i < j < queue_family_index_list(r).len() ==>
                queue_family_index_list(r)[i] < queue_family_index_list(r)[j],
            forall|x: u32| queue_family_index_list(r).contains(x) <==> v@.contains(x),
    {
        let ghost original = v@;
        let mut list = queue_family_index_list_from_vec(v);
        queue_family_index_list_sort_unstable(&mut list);
        let ghost sorted = queue_family_index_list(list);
        proof {
            assert forall|x: u32| sorted.contains(x) <==> original.contains(x) by {
                vstd::seq_lib::to_multiset_contains(sorted, x);
                vstd::seq_lib::to_multiset_contains(original, x);
            }
        }
        queue_family_index_list_dedup(&mut list);
        proof {
            lemma_dedup_sorted(sorted);
        }
        list
    }
}

/// Cutting the runs of a sorted sequence leaves a strictly ascending sequence with the same
/// elements.
proof fn lemma_dedup_sorted(s: Seq<u32>)
    requires
        sorted_ascending(s),
    ensures
        forall|i: int, j: int| 0 <= i < j < dedup_consecutive(s).len() ==>
            dedup_consecutive(s)[i] < dedup_consecutive(s)[j],
        forall|x: u32| dedup_consecutive(s).contains(x) <==> s.contains(x),
        s.len() > 0 ==> dedup_consecutive(s).len() > 0 && dedup_consecutive(s).last() == s.last(),
    decreases s.len(),
{
    broadcast use vstd::seq_lib::group_seq_properties;
    if s.len() > 1 {
        let init = s.drop_last();
        assert(s =~= init.push(s.last()));
        assert(sorted_ascending(init));
        lemma_dedup_sorted(init);
        let prev = dedup_consecutive(init);
        assert(init.last() == s[s.len() - 2]);
        assert(init.contains(init.last()));
        if s.last() == s[s.len() - 2] {
            assert(dedup_consecutive(s) == prev);
        } else {
            assert(dedup_consecutive(s) == prev.push(s.last()));
            assert(s[s.len() - 2] < s.last());
            assert forall|i: int, j: int| 0 <= i < j < dedup_consecutive(s).len() implies
                dedup_consecutive(s)[i] < dedup_consecutive(s)[j] by {
                if j == prev.len() {
                    assert(prev.contains(prev[i]));
                    assert(init.contains(prev[i]));
                    let k = choose|k: int| 0 <= k < init.len() && init[k] == prev[i];
                    assert(s[k] <= s[s.len() - 2]);
                }
            }
        }
    }
}

} // verus!
