//! Fundamental operations on a dynamically sized integer sequence:
//! random access, resizing, insertion, deletion, traversal, and linear
//! search, each with a contract stating exactly what it does.

use vstd::prelude::*;

verus! {

/// Returns a new sequence of length `nums.len() + enlarge`: the first
/// `nums.len()` slots copy the original elements in order, and the
/// remaining slots are zero-initialized. Does not mutate the input.
pub fn extend(nums: Vec<i32>, enlarge: usize) -> (res: Vec<i32>)
    requires
        nums@.len() + enlarge <= usize::MAX,
    ensures
        res@.len() == nums@.len() + enlarge,
        forall|j: int| 0 <= j < nums@.len() ==> res@[j] == nums@[j],
        forall|j: int| nums@.len() <= j < res@.len() ==> res@[j] == 0i32,
{
    let new_len = nums.len() + enlarge;
    let mut res: Vec<i32> = Vec::new();
    let mut i: usize = 0;
    while i < nums.len()
        invariant
            i <= nums@.len(),
            res@.len() == i,
            forall|j: int| 0 <= j < i ==> res@[j] == nums@[j],
        decreases nums@.len() - i,
    {
        res.push(nums[i]);
        i = i + 1;
    }
    while i < new_len
        invariant
            nums@.len() <= i <= new_len,
            new_len == nums@.len() + enlarge,
            res@.len() == i,
            forall|j: int| 0 <= j < nums@.len() ==> res@[j] == nums@[j],
            forall|j: int| nums@.len() <= j < i ==> res@[j] == 0i32,
        decreases new_len - i,
    {
        res.push(0);
        i = i + 1;
    }
    res
}

/// Relies on rand::random_range: a uniformly random usize in `0..bound`.
/// It panics only on an empty range, which `bound > 0` rules out; of the
/// value itself nothing is promised beyond its range.
#[verifier::external_body]
fn random_below(bound: usize) -> (r: usize)
    requires
        bound > 0,
    ensures
        r < bound,
{
    rand::random_range(0..bound)
}

/// Returns the element at an index picked uniformly at random in
/// `[0, nums.len())`. The result is always a value present in the
/// sequence at some valid index.
pub fn random_access(nums: &Vec<i32>) -> (r: i32)
    requires
        nums@.len() > 0,
    ensures
        exists|i: int| 0 <= i < nums@.len() && r == nums@[i],
{
    let random_index = random_below(nums.len());
    let random_num = nums[random_index];
    random_num
}

/// Inserts `num` at position `index`, shifting the elements at
/// `[index, len - 1)` one slot to the right. The container does not
/// grow: the former last element is dropped.
pub fn insert(nums: &mut Vec<i32>, num: i32, index: usize)
    requires
        index < old(nums)@.len(),
    ensures
        final(nums)@.len() == old(nums)@.len(),
        final(nums)@[index as int] == num,
        forall|j: int| 0 <= j < index ==> final(nums)@[j] == old(nums)@[j],
        forall|j: int| index < j < final(nums)@.len() ==> final(nums)@[j] == old(nums)@[j - 1],
{
    let mut i: usize = nums.len();
    while i > index + 1
        invariant
            index < i <= nums@.len(),
            nums@.len() == old(nums)@.len(),
            forall|j: int| 0 <= j < i ==> nums@[j] == old(nums)@[j],
            forall|j: int| i <= j < nums@.len() ==> nums@[j] == old(nums)@[j - 1],
        decreases i,
    {
        i = i - 1;
        let prev = nums[i - 1];
        nums.set(i, prev);
    }
    nums.set(index, num);
}

/// Removes the element at position `index` by shifting the elements at
/// `(index, len - 1]` one slot to the left. The container does not
/// shrink: the last slot retains a stale duplicate of the old last
/// element.
pub fn remove(nums: &mut Vec<i32>, index: usize)
    requires
        index < old(nums)@.len(),
    ensures
        final(nums)@.len() == old(nums)@.len(),
        forall|j: int| 0 <= j < index ==> final(nums)@[j] == old(nums)@[j],
        forall|j: int| index <= j < final(nums)@.len() - 1 ==> final(nums)@[j] == old(nums)@[j + 1],
        final(nums)@[final(nums)@.len() - 1] == old(nums)@[old(nums)@.len() - 1],
{
    let mut i: usize = index;
    while i < nums.len() - 1
        invariant
            index <= i < old(nums)@.len(),
            nums@.len() == old(nums)@.len(),
            forall|j: int| 0 <= j < index ==> nums@[j] == old(nums)@[j],
            forall|j: int| index <= j < i ==> nums@[j] == old(nums)@[j + 1],
            forall|j: int| i <= j < nums@.len() ==> nums@[j] == old(nums)@[j],
        decreases nums@.len() - i,
    {
        let next = nums[i + 1];
        nums.set(i, next);
        i = i + 1;
    }
}

/// Visits every element exactly once, in index order, and returns the
/// number of visits, which equals the length of the sequence.
pub fn traverse(nums: &Vec<i32>) -> (count: usize)
    ensures
        count == nums@.len(),
{
    let mut count: usize = 0;
    let mut i: usize = 0;
    while i < nums.len()
        invariant
            i <= nums@.len(),
            count == i,
        decreases nums@.len() - i,
    {
        count = count + 1;
        i = i + 1;
    }
    count
}

/// Linear scan from index 0 upward: returns the first (lowest) index
/// whose element equals `target`, or `None` if no element does.
pub fn find(nums: &Vec<i32>, target: i32) -> (res: Option<usize>)
    ensures
        match res {
            Some(j) => j < nums@.len() && nums@[j as int] == target
                && forall|k: int| 0 <= k < j ==> nums@[k] != target,
            None => forall|k: int| 0 <= k < nums@.len() ==> nums@[k] != target,
        },
{
    let mut i: usize = 0;
    while i < nums.len()
        invariant
            i <= nums@.len(),
            forall|k: int| 0 <= k < i ==> nums@[k] != target,
        decreases nums@.len() - i,
    {
        if nums[i] == target {
            return Some(i);
        }
        i = i + 1;
    }
    None
}

} // verus!
