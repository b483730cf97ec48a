//! Containers of `i32` that share one interface and differ only in which element
//! leaves next.
use vstd::prelude::*;

verus! {

/// Which element a container hands out next.
pub enum Policy {
    /// The most recently added element.
    Lifo,
    /// The earliest added element still present.
    Fifo,
    /// The largest element present.
    Priority,
    /// A deque that removes from its front: the earliest added element.
    DequeFront,
    /// A deque that removes from its back: the most recently added element.
    DequeBack,
}

/// The contents after adding `e` to a container of policy `p` holding `s`.
///
/// Contents are listed so that the last element is the next one to leave.
pub open spec fn added(p: Policy, s: Seq<i32>, e: i32) -> Seq<i32> {
    match p {
        Policy::Lifo | Policy::DequeBack => s.push(e),
        Policy::Fifo | Policy::DequeFront => seq![e] + s,
        Policy::Priority => {
            let k = insertion_point(s, e);
            s.take(k) + seq![e] + s.skip(k)
        },
    }
}

/// Where `e` goes in the ascending sequence `s`: after every element not above it.
pub open spec fn insertion_point(s: Seq<i32>, e: i32) -> int
    decreases s.len(),
{
    if s.len() == 0 {
        0
    } else if s.last() > e {
        insertion_point(s.drop_last(), e)
    } else {
        s.len() as int
    }
}

/// `s` is in ascending order.
pub open spec fn ascending(s: Seq<i32>) -> bool {
    forall|i: int, j: int| 0 <= i <= j < s.len() ==> s[i] <= s[j]
}

/// Contents after adding each element of `xs`, first to last, to `s`.
pub open spec fn added_all(p: Policy, s: Seq<i32>, xs: Seq<i32>) -> Seq<i32>
    decreases xs.len(),
{
    if xs.len() == 0 {
        s
    } else {
        added(p, added_all(p, s, xs.drop_last()), xs.last())
    }
}

/// The first `k` elements that leave a container holding `s`, in the order they leave.
pub open spec fn removal_order(s: Seq<i32>, k: int) -> Seq<i32> {
    s.skip(s.len() - k).reverse()
}

/// What `peek` returns on a container holding `s`: the next element to leave, or an
/// error when there is none.
pub open spec fn peek_result(s: Seq<i32>, r: Result<i32, String>) -> bool {
    if s.len() == 0 {
        r is Err
    } else {
        r == Ok::<i32, String>(s.last())
    }
}

/// What `remove` returns on a container holding `s`, and what it leaves behind.
pub open spec fn remove_result(s: Seq<i32>, r: Result<i32, String>, after: Seq<i32>) -> bool {
    if s.len() == 0 {
        r is Err && after == s
    } else {
        r == Ok::<i32, String>(s.last()) && after == s.drop_last()
    }
}

/// A container of `i32` values whose removal order is fixed by its policy.
pub trait DataStructure: Sized {
    /// The elements held, listed so that the last one is the next to leave.
    spec fn contents(&self) -> Seq<i32>;

    /// The removal policy; it never changes.
    spec fn policy(&self) -> Policy;

    /// Internal consistency of the representation.
    spec fn wf(&self) -> bool;

    /// Adds an element; always succeeds.
    fn add(&mut self, element: i32)
        requires
            old(self).wf(),
        ensures
            final(self).wf(),
            final(self).policy() == old(self).policy(),
            final(self).contents() == added(old(self).policy(), old(self).contents(), element),
    ;

    /// Removes and returns the next element, or fails when there is none.
    fn remove(&mut self) -> (r: Result<i32, String>)
        requires
            old(self).wf(),
        ensures
            final(self).wf(),
            final(self).policy() == old(self).policy(),
            remove_result(old(self).contents(), r, final(self).contents()),
    ;

    /// The element that `remove` would return next, or an error when there is none.
    fn peek(&self) -> (r: Result<i32, String>)
        requires
            self.wf(),
        ensures
            peek_result(self.contents(), r),
    ;

    /// The number of elements held.
    fn size(&self) -> (r: usize)
        requires
            self.wf(),
        ensures
            r == self.contents().len(),
    ;

    /// Whether no element is held.
    fn is_empty(&self) -> (r: bool)
        requires
            self.wf(),
        ensures
            r == (self.contents().len() == 0),
    {
        self.size() == 0
    }
}

/// Last in, first out.
#[derive(Debug, Clone)]
pub struct Stack {
    items: Vec<i32>,
}

impl Stack {
    pub fn new() -> (r: Self)
        ensures
            r.contents() == Seq::<i32>::empty(),
            r.wf(),
    {
        Stack { items: Vec::new() }
    }
}

impl DataStructure for Stack {
    closed spec fn contents(&self) -> Seq<i32> {
        self.items@
    }

    open spec fn policy(&self) -> Policy {
        Policy::Lifo
    }

    closed spec fn wf(&self) -> bool {
        true
    }

    fn add(&mut self, element: i32) {
        self.items.push(element);
    }

    fn remove(&mut self) -> (r: Result<i32, String>)
        ensures
            r is Err ==> r->Err_0@ == "Stack is empty"@,
    {
        match self.items.pop() {
            Some(x) => Ok(x),
            None => Err("Stack is empty".to_string()),
        }
    }

    fn peek(&self) -> (r: Result<i32, String>)
        ensures
            r is Err ==> r->Err_0@ == "Stack is empty"@,
    {
        match self.items.last() {
            Some(x) => Ok(*x),
            None => Err("Stack is empty".to_string()),
        }
    }

    fn size(&self) -> (r: usize) {
        self.items.len()
    }
}

/// First in, first out.
#[derive(Debug, Clone)]
pub struct Queue {
    items: Vec<i32>,
}

impl Queue {
    pub fn new() -> (r: Self)
        ensures
            r.contents() == Seq::<i32>::empty(),
            r.wf(),
    {
        Queue { items: Vec::new() }
    }
}

impl DataStructure for Queue {
    closed spec fn contents(&self) -> Seq<i32> {
        self.items@.reverse()
    }

    open spec fn policy(&self) -> Policy {
        Policy::Fifo
    }

    closed spec fn wf(&self) -> bool {
        true
    }

    fn add(&mut self, element: i32) {
        self.items.push(element);
        assert(self.items@.reverse() =~= seq![element] + old(self).items@.reverse());
    }

    fn remove(&mut self) -> (r: Result<i32, String>)
        ensures
            r is Err ==> r->Err_0@ == "Queue is empty"@,
    {
        if self.items.is_empty() {
            Err("Queue is empty".to_string())
        } else {
            let x = self.items.remove(0);
            assert(self.items@.reverse() =~= old(self).items@.reverse().drop_last());
            Ok(x)
        }
    }

    fn peek(&self) -> (r: Result<i32, String>)
        ensures
            r is Err ==> r->Err_0@ == "Queue is empty"@,
    {
        match self.items.first() {
            Some(x) => Ok(*x),
            None => Err("Queue is empty".to_string()),
        }
    }

    fn size(&self) -> (r: usize) {
        self.items.len()
    }
}

/// Largest value first. Elements are kept in ascending order and a new element goes
/// after the elements equal to it, so among equal values the latest added leaves first.
#[derive(Debug, Clone)]
pub struct PriorityQueue {
    items: Vec<i32>,
}

impl PriorityQueue {
    pub fn new() -> (r: Self)
        ensures
            r.contents() == Seq::<i32>::empty(),
            r.wf(),
    {
        PriorityQueue { items: Vec::new() }
    }
}

impl DataStructure for PriorityQueue {
    closed spec fn contents(&self) -> Seq<i32> {
        self.items@
    }

    open spec fn policy(&self) -> Policy {
        Policy::Priority
    }

    closed spec fn wf(&self) -> bool {
        ascending(self.items@)
    }

    fn add(&mut self, element: i32) {
        let ghost s = self.items@;
        let mut i: usize = self.items.len();
        assert(s.take(i as int) =~= s);
        while i > 0 && self.items[i - 1] > element
            invariant
                self.items@ == s,
                ascending(s),
                0 <= i <= s.len(),
                insertion_point(s, element) == insertion_point(s.take(i as int), element),
                forall|j: int| i <= j < s.len() ==> s[j] > element,
            decreases i,
        {
            assert(s.take(i as int).drop_last() =~= s.take(i - 1));
            i = i - 1;
        }
        assert(insertion_point(s.take(i as int), element) == i);
        self.items.insert(i, element);
        assert(self.items@ =~= s.take(i as int) + seq![element] + s.skip(i as int));
    }

    fn remove(&mut self) -> (r: Result<i32, String>)
        ensures
            r is Err ==> r->Err_0@ == "Priority queue is empty"@,
            r is Ok ==> forall|i: int|
                0 <= i < old(self).contents().len() ==> old(self).contents()[i] <= r->Ok_0,
    {
        match self.items.pop() {
            Some(x) => Ok(x),
            None => Err("Priority queue is empty".to_string()),
        }
    }

    fn peek(&self) -> (r: Result<i32, String>)
        ensures
            r is Err ==> r->Err_0@ == "Priority queue is empty"@,
            r is Ok ==> forall|i: int|
                0 <= i < self.contents().len() ==> self.contents()[i] <= r->Ok_0,
    {
        match self.items.last() {
            Some(x) => Ok(*x),
            None => Err("Priority queue is empty".to_string()),
        }
    }

    fn size(&self) -> (r: usize) {
        self.items.len()
    }
}

/// The end from which a `Deque` removes.
#[derive(Debug, Clone, Copy, PartialEq, Eq, Structural)]
pub enum DequeMode {
    /// Remove from the front: the earliest added element.
    Front,
    /// Remove from the back: the most recently added element.
    Back,
}

/// A double-ended queue that always adds at the back and removes from the end its
/// mode names.
#[derive(Debug, Clone)]
pub struct Deque {
    items: Vec<i32>,
    mode: DequeMode,
}

impl Deque {
    pub fn new(mode: DequeMode) -> (r: Self)
        ensures
            r.contents() == Seq::<i32>::empty(),
            r.policy() == (match mode {
                DequeMode::Front => Policy::DequeFront,
                DequeMode::Back => Policy::DequeBack,
            }),
            r.wf(),
    {
        Deque { items: Vec::new(), mode }
    }
}

impl DataStructure for Deque {
    closed spec fn contents(&self) -> Seq<i32> {
        match self.mode {
            DequeMode::Front => self.items@.reverse(),
            DequeMode::Back => self.items@,
        }
    }

    closed spec fn policy(&self) -> Policy {
        match self.mode {
            DequeMode::Front => Policy::DequeFront,
            DequeMode::Back => Policy::DequeBack,
        }
    }

    closed spec fn wf(&self) -> bool {
        true
    }

    fn add(&mut self, element: i32) {
        self.items.push(element);
        assert(self.items@.reverse() =~= seq![element] + old(self).items@.reverse());
    }

    fn remove(&mut self) -> (r: Result<i32, String>)
        ensures
            r is Err ==> r->Err_0@ == "Deque is empty"@,
    {
        if self.items.is_empty() {
            return Err("Deque is empty".to_string());
        }
        match self.mode {
            DequeMode::Front => {
                let x = self.items.remove(0);
                assert(self.items@.reverse() =~= old(self).items@.reverse().drop_last());
                Ok(x)
            },
            DequeMode::Back => match self.items.pop() {
                Some(x) => Ok(x),
                None => Err("Deque is empty".to_string()),
            },
        }
    }

    fn peek(&self) -> (r: Result<i32, String>)
        ensures
            r is Err ==> r->Err_0@ == "Deque is empty"@,
    {
        if self.items.is_empty() {
            return Err("Deque is empty".to_string());
        }
        match self.mode {
            DequeMode::Front => Ok(self.items[0]),
            DequeMode::Back => Ok(self.items[self.items.len() - 1]),
        }
    }

    fn size(&self) -> (r: usize) {
        self.items.len()
    }
}

/// How many elements a transfer of up to `count` moves out of `n`.
pub open spec fn moved_count(n: int, count: int) -> int {
    if count < n {
        count
    } else {
        n
    }
}

/// Moves up to `count` elements from `source` to `target`, one at a time in the order
/// `source` hands them out, stopping early when `source` runs out.
pub fn transfer_elements<S: DataStructure, T: DataStructure>(
    source: &mut S,
    target: &mut T,
    count: usize,
) -> (r: Result<(), String>)
    requires
        old(source).wf(),
        old(target).wf(),
    ensures
        r is Ok,
        final(source).wf(),
        final(target).wf(),
        final(source).policy() == old(source).policy(),
        final(target).policy() == old(target).policy(),
        ({
            let s = old(source).contents();
            let k = moved_count(s.len() as int, count as int);
            &&& final(source).contents() == s.take(s.len() - k)
            &&& final(target).contents() == added_all(
                old(target).policy(),
                old(target).contents(),
                removal_order(s, k),
            )
        }),
{
    let ghost s0 = source.contents();
    let ghost t0 = target.contents();
    let ghost p = target.policy();
    let ghost q = source.policy();
    let mut i: usize = 0;
    assert(removal_order(s0, 0) =~= Seq::<i32>::empty());
    assert(s0.take(s0.len() as int) =~= s0);
    while i < count
        invariant
            source.wf(),
            target.wf(),
            source.policy() == q,
            target.policy() == p,
            i <= count,
            i <= s0.len(),
            source.contents() == s0.take(s0.len() - i),
            target.contents() == added_all(p, t0, removal_order(s0, i as int)),
        ensures
            i == moved_count(s0.len() as int, count as int),
        decreases count - i,
    {
        if source.is_empty() {
            break;
        }
        match source.remove() {
            Ok(element) => {
                proof {
                    let len = s0.len() as int;
                    assert(s0.take(len - i).drop_last() =~= s0.take(len - i - 1));
                    assert(removal_order(s0, i + 1).drop_last() =~= removal_order(s0, i as int));
                    assert(removal_order(s0, i + 1).last() == element);
                }
                target.add(element);
            },
            Err(e) => {
                return Err(e);
            },
        }
        i = i + 1;
    }
    Ok(())
}

/// Empties `ds` and returns how many elements it held.
pub fn count_elements<D: DataStructure>(ds: &mut D) -> (r: usize)
    requires
        old(ds).wf(),
    ensures
        r == old(ds).contents().len(),
        final(ds).wf(),
        final(ds).contents().len() == 0,
        final(ds).policy() == old(ds).policy(),
{
    let n = ds.size();
    let ghost q = ds.policy();
    let mut count: usize = 0;
    while !ds.is_empty()
        invariant
            ds.wf(),
            ds.policy() == q,
            count + ds.contents().len() == n,
        ensures
            ds.contents().len() == 0,
        decreases ds.contents().len(),
    {
        if ds.remove().is_ok() {
            count = count + 1;
        } else {
            break;
        }
    }
    count
}

/// The sum of the elements of `s`.
pub open spec fn sum_of(s: Seq<i32>) -> int
    decreases s.len(),
{
    if s.len() == 0 {
        0
    } else {
        s[0] + sum_of(s.drop_first())
    }
}

/// Every running total met while summing `s` from its last element to its first
/// fits in an `i32`.
pub open spec fn running_sums_fit(s: Seq<i32>) -> bool {
    forall|k: int|
        0 <= k <= s.len() ==> i32::MIN <= #[trigger] sum_of(s.subrange(k, s.len() as int))
            <= i32::MAX
}

/// Empties `ds` and returns the sum of its elements.
pub fn sum_elements<D: DataStructure>(ds: &mut D) -> (r: i32)
    requires
        old(ds).wf(),
        running_sums_fit(old(ds).contents()),
    ensures
        r == sum_of(old(ds).contents()),
        final(ds).wf(),
        final(ds).contents().len() == 0,
        final(ds).policy() == old(ds).policy(),
{
    let ghost s0 = ds.contents();
    let ghost q = ds.policy();
    let mut total: i32 = 0;
    assert(s0.take(s0.len() as int) =~= s0);
    assert(s0.subrange(s0.len() as int, s0.len() as int) =~= Seq::<i32>::empty());
    while !ds.is_empty()
        invariant
            ds.wf(),
            ds.policy() == q,
            running_sums_fit(s0),
            ds.contents().len() <= s0.len(),
            ds.contents() == s0.take(ds.contents().len() as int),
            total == sum_of(s0.subrange(ds.contents().len() as int, s0.len() as int)),
        ensures
            ds.contents().len() == 0,
        decreases ds.contents().len(),
    {
        let ghost c = ds.contents().len() as int;
        match ds.remove() {
            Ok(element) => {
                proof {
                    assert(s0.take(c).drop_last() =~= s0.take(c - 1));
                    assert(s0.subrange(c - 1, s0.len() as int).drop_first() =~= s0.subrange(
                        c,
                        s0.len() as int,
                    ));
                    assert(sum_of(s0.subrange(c - 1, s0.len() as int)) == element + total);
                    assert(i32::MIN <= sum_of(s0.subrange(c - 1, s0.len() as int)) <= i32::MAX);
                }
                total = total + element;
            },
            Err(_) => {
                break;
            },
        }
    }
    assert(s0.subrange(0, s0.len() as int) =~= s0);
    total
}

} // verus!
