//! Containers that implement a common interface yet break what its callers expect:
//! the wrong removal end, removal order that depends on size, extra restrictions,
//! hidden side effects, and random results.
use vstd::prelude::*;
use vstd::string::*;
use crate::text::{decimal, decimal_string};
use crate::chance::draw_below;

verus! {

/// A container interface whose implementations promise only what every one of them
/// keeps.
pub trait DataStructure: Sized {
    /// The elements held, in storage order.
    spec fn contents(&self) -> Seq<i32>;

    /// Internal consistency of the representation.
    spec fn wf(&self) -> bool;

    /// Adds an element; on success the container grows and starts with what it held
    /// followed by `element`, on failure it is unchanged.
    fn add(&mut self, element: i32) -> (r: Result<(), String>)
        requires
            old(self).wf(),
        ensures
            final(self).wf(),
            r is Err ==> final(self).contents() == old(self).contents(),
            r is Ok ==> final(self).contents().len() > old(self).contents().len()
                && final(self).contents().take(old(self).contents().len() + 1int) == old(self).contents().push(element),
    ;

    /// Removes and returns an element; fails on an empty container, and a failure
    /// changes nothing.
    fn remove(&mut self) -> (r: Result<i32, String>)
        requires
            old(self).wf(),
        ensures
            final(self).wf(),
            old(self).contents().len() == 0 ==> r is Err,
            r is Err ==> final(self).contents() == old(self).contents(),
            r is Ok ==> final(self).contents().len() < old(self).contents().len(),
    ;

    /// Looks at an element without removing it; fails on an empty container.
    fn peek(&self) -> (r: Result<i32, String>)
        requires
            self.wf(),
        ensures
            self.contents().len() == 0 ==> r is Err,
    ;

    /// The number of elements the container reports.
    fn size(&self) -> (r: usize)
        requires
            self.wf(),
    ;

    /// Whether the container reports a size of zero.
    fn is_empty(&self) -> (r: bool)
        requires
            self.wf(),
    {
        self.size() == 0
    }
}

/// A plain stack: the one implementation here that keeps the last-in-first-out promise.
#[derive(Debug, Clone)]
pub struct CorrectStack {
    items: Vec<i32>,
}

impl CorrectStack {
    pub fn new() -> (r: Self)
        ensures
            r.contents() == Seq::<i32>::empty(),
            r.wf(),
    {
        CorrectStack { items: Vec::new() }
    }
}

impl DataStructure for CorrectStack {
    closed spec fn contents(&self) -> Seq<i32> {
        self.items@
    }

    closed spec fn wf(&self) -> bool {
        true
    }

    fn add(&mut self, element: i32) -> (r: Result<(), String>)
        ensures
            r is Ok,
            final(self).contents() == old(self).contents().push(element),
    {
        self.items.push(element);
        assert(self.items@.take(self.items@.len() as int) =~= self.items@);
        Ok(())
    }

    fn remove(&mut self) -> (r: Result<i32, String>)
        ensures
            old(self).contents().len() == 0 ==> r is Err && r->Err_0@ == "Stack is empty"@,
            old(self).contents().len() > 0 ==> r == Ok::<i32, String>(old(self).contents().last())
                && final(self).contents() == old(self).contents().drop_last(),
    {
        match self.items.pop() {
            Some(x) => Ok(x),
            None => Err("Stack is empty".to_string()),
        }
    }

    fn peek(&self) -> (r: Result<i32, String>)
        ensures
            self.contents().len() == 0 ==> r is Err && r->Err_0@ == "Stack is empty"@,
            self.contents().len() > 0 ==> r == Ok::<i32, String>(self.contents().last()),
    {
        match self.items.last() {
            Some(x) => Ok(*x),
            None => Err("Stack is empty".to_string()),
        }
    }

    fn size(&self) -> (r: usize)
        ensures
            r == self.contents().len(),
    {
        self.items.len()
    }
}

/// Presented as a stack, but removes and peeks at the front: first in, first out.
#[derive(Debug, Clone)]
pub struct MislabeledQueue {
    items: Vec<i32>,
}

impl MislabeledQueue {
    pub fn new() -> (r: Self)
        ensures
            r.contents() == Seq::<i32>::empty(),
            r.wf(),
    {
        MislabeledQueue { items: Vec::new() }
    }
}

impl DataStructure for MislabeledQueue {
    closed spec fn contents(&self) -> Seq<i32> {
        self.items@
    }

    closed spec fn wf(&self) -> bool {
        true
    }

    fn add(&mut self, element: i32) -> (r: Result<(), String>)
        ensures
            r is Ok,
            final(self).contents() == old(self).contents().push(element),
    {
        self.items.push(element);
        assert(self.items@.take(self.items@.len() as int) =~= self.items@);
        Ok(())
    }

    fn remove(&mut self) -> (r: Result<i32, String>)
        ensures
            old(self).contents().len() == 0 ==> r is Err && r->Err_0@ == "Queue is empty"@,
            old(self).contents().len() > 0 ==> r == Ok::<i32, String>(old(self).contents()[0])
                && final(self).contents() == old(self).contents().drop_first(),
    {
        if self.items.is_empty() {
            Err("Queue is empty".to_string())
        } else {
            let x = self.items.remove(0);
            assert(self.items@ =~= old(self).items@.drop_first());
            Ok(x)
        }
    }

    fn peek(&self) -> (r: Result<i32, String>)
        ensures
            self.contents().len() == 0 ==> r is Err && r->Err_0@ == "Queue is empty"@,
            self.contents().len() > 0 ==> r == Ok::<i32, String>(self.contents()[0]),
    {
        match self.items.first() {
            Some(x) => Ok(*x),
            None => Err("Queue is empty".to_string()),
        }
    }

    fn size(&self) -> (r: usize)
        ensures
            r == self.contents().len(),
    {
        self.items.len()
    }
}

/// Removes from the front while it holds at most two elements and from the back
/// otherwise.
#[derive(Debug, Clone)]
pub struct InconsistentStructure {
    items: Vec<i32>,
}

impl InconsistentStructure {
    pub fn new() -> (r: Self)
        ensures
            r.contents() == Seq::<i32>::empty(),
            r.wf(),
    {
        InconsistentStructure { items: Vec::new() }
    }
}

impl DataStructure for InconsistentStructure {
    closed spec fn contents(&self) -> Seq<i32> {
        self.items@
    }

    closed spec fn wf(&self) -> bool {
        true
    }

    fn add(&mut self, element: i32) -> (r: Result<(), String>)
        ensures
            r is Ok,
            final(self).contents() == old(self).contents().push(element),
    {
        self.items.push(element);
        assert(self.items@.take(self.items@.len() as int) =~= self.items@);
        Ok(())
    }

    fn remove(&mut self) -> (r: Result<i32, String>)
        ensures
            old(self).contents().len() == 0 ==> r is Err && r->Err_0@ == "Structure is empty"@,
            1 <= old(self).contents().len() <= 2 ==> r == Ok::<i32, String>(
                old(self).contents()[0],
            ) && final(self).contents() == old(self).contents().drop_first(),
            old(self).contents().len() > 2 ==> r == Ok::<i32, String>(old(self).contents().last())
                && final(self).contents() == old(self).contents().drop_last(),
    {
        if self.items.is_empty() {
            return Err("Structure is empty".to_string());
        }
        if self.items.len() <= 2 {
            let x = self.items.remove(0);
            assert(self.items@ =~= old(self).items@.drop_first());
            Ok(x)
        } else {
            match self.items.pop() {
                Some(x) => Ok(x),
                None => Err("Structure is empty".to_string()),
            }
        }
    }

    fn peek(&self) -> (r: Result<i32, String>)
        ensures
            self.contents().len() == 0 ==> r is Err && r->Err_0@ == "Structure is empty"@,
            1 <= self.contents().len() <= 2 ==> r == Ok::<i32, String>(self.contents()[0]),
            self.contents().len() > 2 ==> r == Ok::<i32, String>(self.contents().last()),
    {
        if self.items.is_empty() {
            return Err("Structure is empty".to_string());
        }
        if self.items.len() <= 2 {
            Ok(self.items[0])
        } else {
            Ok(self.items[self.items.len() - 1])
        }
    }

    fn size(&self) -> (r: usize)
        ensures
            r == self.contents().len(),
    {
        self.items.len()
    }
}

/// Accepts only values from 0 to 100, and refuses to remove or show its last element.
#[derive(Debug, Clone)]
pub struct RestrictiveStructure {
    items: Vec<i32>,
}

impl RestrictiveStructure {
    pub fn new() -> (r: Self)
        ensures
            r.contents() == Seq::<i32>::empty(),
            r.wf(),
    {
        RestrictiveStructure { items: Vec::new() }
    }
}

impl DataStructure for RestrictiveStructure {
    closed spec fn contents(&self) -> Seq<i32> {
        self.items@
    }

    closed spec fn wf(&self) -> bool {
        true
    }

    fn add(&mut self, element: i32) -> (r: Result<(), String>)
        ensures
            element < 0 ==> r is Err && r->Err_0@ == "Negative numbers not allowed!"@,
            element > 100 ==> r is Err && r->Err_0@ == "Numbers greater than 100 not allowed!"@,
            0 <= element <= 100 ==> r is Ok && final(self).contents() == old(self).contents().push(element),
    {
        if element < 0 {
            return Err("Negative numbers not allowed!".to_string());
        }
        if element > 100 {
            return Err("Numbers greater than 100 not allowed!".to_string());
        }
        self.items.push(element);
        assert(self.items@.take(self.items@.len() as int) =~= self.items@);
        Ok(())
    }

    fn remove(&mut self) -> (r: Result<i32, String>)
        ensures
            old(self).contents().len() == 0 ==> r is Err && r->Err_0@ == "Structure is empty"@,
            old(self).contents().len() == 1 ==> r is Err && r->Err_0@
                == "Cannot remove last element!"@,
            old(self).contents().len() > 1 ==> r == Ok::<i32, String>(old(self).contents().last())
                && final(self).contents() == old(self).contents().drop_last(),
    {
        if self.items.is_empty() {
            return Err("Structure is empty".to_string());
        }
        if self.items.len() == 1 {
            return Err("Cannot remove last element!".to_string());
        }
        match self.items.pop() {
            Some(x) => Ok(x),
            None => Err("Structure is empty".to_string()),
        }
    }

    fn peek(&self) -> (r: Result<i32, String>)
        ensures
            self.contents().len() == 0 ==> r is Err && r->Err_0@ == "Structure is empty"@,
            self.contents().len() == 1 ==> r is Err && r->Err_0@
                == "Cannot peek at last element!"@,
            self.contents().len() > 1 ==> r == Ok::<i32, String>(self.contents().last()),
    {
        if self.items.is_empty() {
            return Err("Structure is empty".to_string());
        }
        if self.items.len() == 1 {
            return Err("Cannot peek at last element!".to_string());
        }
        Ok(self.items[self.items.len() - 1])
    }

    fn size(&self) -> (r: usize)
        ensures
            r == self.contents().len(),
    {
        self.items.len()
    }
}

/// `after` is `before` with one more note, whose text is `note`.
pub open spec fn one_more_note(before: Seq<String>, after: Seq<String>, note: Seq<char>) -> bool {
    &&& after.len() == before.len() + 1
    &&& after.take(before.len() as int) == before
    &&& after.last()@ == note
}

/// The operation counter after one more operation; it wraps at the largest `usize`.
pub open spec fn next_count(c: usize) -> usize {
    if c == usize::MAX {
        0
    } else {
        (c + 1) as usize
    }
}

/// A stack that secretly counts its operations: every third add stores its element
/// twice, every fifth removal drops one more element, and both leave a note in a
/// hidden log.
#[derive(Debug, Clone)]
pub struct SideEffectStructure {
    items: Vec<i32>,
    operation_count: usize,
    hidden_log: Vec<String>,
}

impl SideEffectStructure {
    /// How many adds and successful removals have been made, wrapping at the largest
    /// `usize`.
    pub closed spec fn operations(&self) -> usize {
        self.operation_count
    }

    /// The notes left so far, oldest first.
    pub closed spec fn log(&self) -> Seq<String> {
        self.hidden_log@
    }

    pub fn new() -> (r: Self)
        ensures
            r.contents() == Seq::<i32>::empty(),
            r.operations() == 0,
            r.log() == Seq::<String>::empty(),
            r.wf(),
    {
        SideEffectStructure { items: Vec::new(), operation_count: 0, hidden_log: Vec::new() }
    }

    /// The notes left so far, oldest first.
    pub fn get_hidden_log(&self) -> (r: &[String])
        ensures
            r@ == self.log(),
    {
        self.hidden_log.as_slice()
    }
}

impl DataStructure for SideEffectStructure {
    closed spec fn contents(&self) -> Seq<i32> {
        self.items@
    }

    closed spec fn wf(&self) -> bool {
        true
    }

    fn add(&mut self, element: i32) -> (r: Result<(), String>)
        ensures
            r is Ok,
            final(self).operations() == next_count(old(self).operations()),
            final(self).operations() % 3 != 0 ==> {
                &&& final(self).contents() == old(self).contents().push(element)
                &&& final(self).log() == old(self).log()
            },
            final(self).operations() % 3 == 0 ==> {
                &&& final(self).contents() == old(self).contents().push(element).push(element)
                &&& one_more_note(
                    old(self).log(),
                    final(self).log(),
                    "Secret: Added "@ + decimal(element as int),
                )
            },
    {
        self.items.push(element);
        self.operation_count = if self.operation_count == usize::MAX {
            0
        } else {
            self.operation_count + 1
        };
        if self.operation_count % 3 == 0 {
            let mut note = String::from_str("Secret: Added ");
            let d = decimal_string(element);
            note.append(d.as_str());
            self.hidden_log.push(note);
            self.items.push(element);
            assert(self.hidden_log@.take(old(self).hidden_log@.len() as int) =~= old(self).hidden_log@);
        }
        assert(self.items@.take(old(self).items@.len() + 1int) =~= old(self).items@.push(element));
        Ok(())
    }

    fn remove(&mut self) -> (r: Result<i32, String>)
        ensures
            old(self).contents().len() == 0 ==> {
                &&& r is Err
                &&& r->Err_0@ == "Structure is empty"@
                &&& final(self).contents() == old(self).contents()
                &&& final(self).operations() == old(self).operations()
                &&& final(self).log() == old(self).log()
            },
            old(self).contents().len() > 0 ==> {
                &&& r == Ok::<i32, String>(old(self).contents().last())
                &&& final(self).operations() == next_count(old(self).operations())
            },
            old(self).contents().len() > 0 && final(self).operations() % 5 != 0 ==> {
                &&& final(self).contents() == old(self).contents().drop_last()
                &&& final(self).log() == old(self).log()
            },
            old(self).contents().len() > 0 && final(self).operations() % 5 == 0 ==> {
                &&& final(self).contents() == if old(self).contents().len() >= 2 {
                    old(self).contents().drop_last().drop_last()
                } else {
                    old(self).contents().drop_last()
                }
                &&& one_more_note(
                    old(self).log(),
                    final(self).log(),
                    "Secret: Removed "@ + decimal(old(self).contents().last() as int),
                )
            },
    {
        let element = match self.items.pop() {
            Some(x) => x,
            None => {
                return Err("Structure is empty".to_string());
            },
        };
        self.operation_count = if self.operation_count == usize::MAX {
            0
        } else {
            self.operation_count + 1
        };
        if self.operation_count % 5 == 0 {
            let mut note = String::from_str("Secret: Removed ");
            let d = decimal_string(element);
            note.append(d.as_str());
            self.hidden_log.push(note);
            assert(self.hidden_log@.take(old(self).hidden_log@.len() as int) =~= old(self).hidden_log@);
            if !self.items.is_empty() {
                self.items.pop();
            }
        }
        Ok(element)
    }

    fn peek(&self) -> (r: Result<i32, String>)
        ensures
            self.contents().len() == 0 ==> r is Err && r->Err_0@ == "Structure is empty"@,
            self.contents().len() > 0 ==> r == Ok::<i32, String>(self.contents().last()),
    {
        match self.items.last() {
            Some(x) => Ok(*x),
            None => Err("Structure is empty".to_string()),
        }
    }

    fn size(&self) -> (r: usize)
        ensures
            r == self.contents().len(),
    {
        self.items.len()
    }
}

/// One draw in ten corrupts a result of `WeakStructure`.
pub open spec fn corrupts(draw: u32) -> bool {
    draw % 10 == 0
}

/// Answers like a stack, except that one call in ten, chosen at random, returns a
/// wrong value: `-999` from `remove` (which still removes the top element) or `peek`,
/// and a size one too large from `size`.
#[derive(Debug, Clone)]
pub struct WeakStructure {
    items: Vec<i32>,
}

impl WeakStructure {
    pub fn new() -> (r: Self)
        ensures
            r.contents() == Seq::<i32>::empty(),
            r.wf(),
    {
        WeakStructure { items: Vec::new() }
    }

    /// `remove` for a given random draw.
    pub fn remove_drawn(&mut self, draw: u32) -> (r: Result<i32, String>)
        ensures
            old(self).contents().len() == 0 ==> {
                &&& r is Err
                &&& r->Err_0@ == "Structure is empty"@
                &&& final(self).contents() == old(self).contents()
            },
            old(self).contents().len() > 0 ==> {
                &&& final(self).contents() == old(self).contents().drop_last()
                &&& r == Ok::<i32, String>(
                    if corrupts(draw) {
                        -999i32
                    } else {
                        old(self).contents().last()
                    },
                )
            },
    {
        if self.items.is_empty() {
            return Err("Structure is empty".to_string());
        }
        if draw % 10 == 0 {
            self.items.pop();
            Ok(-999)
        } else {
            match self.items.pop() {
                Some(x) => Ok(x),
                None => Err("Structure is empty".to_string()),
            }
        }
    }

    /// `peek` for a given random draw.
    pub fn peek_drawn(&self, draw: u32) -> (r: Result<i32, String>)
        ensures
            self.contents().len() == 0 ==> r is Err && r->Err_0@ == "Structure is empty"@,
            self.contents().len() > 0 ==> r == Ok::<i32, String>(
                if corrupts(draw) {
                    -999i32
                } else {
                    self.contents().last()
                },
            ),
    {
        if self.items.is_empty() {
            return Err("Structure is empty".to_string());
        }
        if draw % 10 == 0 {
            Ok(-999)
        } else {
            Ok(self.items[self.items.len() - 1])
        }
    }

    /// `size` for a given random draw; the wrong answer saturates at the largest
    /// `usize`.
    pub fn size_drawn(&self, draw: u32) -> (r: usize)
        ensures
            r == if corrupts(draw) && self.contents().len() < usize::MAX {
                self.contents().len() + 1
            } else {
                self.contents().len()
            },
    {
        let real_size = self.items.len();
        if draw % 10 == 0 {
            real_size.saturating_add(1)
        } else {
            real_size
        }
    }
}

impl DataStructure for WeakStructure {
    closed spec fn contents(&self) -> Seq<i32> {
        self.items@
    }

    closed spec fn wf(&self) -> bool {
        true
    }

    fn add(&mut self, element: i32) -> (r: Result<(), String>)
        ensures
            r is Ok,
            final(self).contents() == old(self).contents().push(element),
    {
        self.items.push(element);
        assert(self.items@.take(self.items@.len() as int) =~= self.items@);
        Ok(())
    }

    fn remove(&mut self) -> (r: Result<i32, String>)
        ensures
            old(self).contents().len() == 0 ==> r is Err && r->Err_0@ == "Structure is empty"@,
            old(self).contents().len() > 0 ==> {
                &&& final(self).contents() == old(self).contents().drop_last()
                &&& (r == Ok::<i32, String>(old(self).contents().last()) || r == Ok::<i32, String>(
                    -999i32,
                ))
            },
    {
        let draw: u32 = rand::random();
        self.remove_drawn(draw)
    }

    fn peek(&self) -> (r: Result<i32, String>)
        ensures
            self.contents().len() == 0 ==> r is Err && r->Err_0@ == "Structure is empty"@,
            self.contents().len() > 0 ==> r == Ok::<i32, String>(self.contents().last()) || r
                == Ok::<i32, String>(-999i32),
    {
        let draw: u32 = rand::random();
        self.peek_drawn(draw)
    }

    fn size(&self) -> (r: usize)
        ensures
            r == self.contents().len() || r == self.contents().len() + 1,
    {
        let draw: u32 = rand::random();
        self.size_drawn(draw)
    }
}

/// Removes an element chosen at random; `peek` shows the front element, which need
/// not be the one `remove` takes next.
#[derive(Debug)]
pub struct RandomStructure {
    items: Vec<i32>,
    rng: rand::rngs::ThreadRng,
}

impl RandomStructure {
    pub fn new() -> (r: Self)
        ensures
            r.contents() == Seq::<i32>::empty(),
            r.wf(),
    {
        RandomStructure { items: Vec::new(), rng: rand::thread_rng() }
    }

    /// `remove` for a given drawn position.
    pub fn remove_drawn(&mut self, index: usize) -> (r: Result<i32, String>)
        requires
            old(self).contents().len() == 0 || index < old(self).contents().len(),
        ensures
            old(self).contents().len() == 0 ==> {
                &&& r is Err
                &&& r->Err_0@ == "Structure is empty"@
                &&& final(self).contents() == old(self).contents()
            },
            old(self).contents().len() > 0 ==> {
                &&& r == Ok::<i32, String>(old(self).contents()[index as int])
                &&& final(self).contents() == old(self).contents().remove(index as int)
            },
    {
        if self.items.is_empty() {
            return Err("Structure is empty".to_string());
        }
        Ok(self.items.remove(index))
    }
}

impl DataStructure for RandomStructure {
    closed spec fn contents(&self) -> Seq<i32> {
        self.items@
    }

    closed spec fn wf(&self) -> bool {
        true
    }

    fn add(&mut self, element: i32) -> (r: Result<(), String>)
        ensures
            r is Ok,
            final(self).contents() == old(self).contents().push(element),
    {
        self.items.push(element);
        assert(self.items@.take(self.items@.len() as int) =~= self.items@);
        Ok(())
    }

    fn remove(&mut self) -> (r: Result<i32, String>)
        ensures
            old(self).contents().len() == 0 ==> r is Err && r->Err_0@ == "Structure is empty"@,
            old(self).contents().len() > 0 ==> exists|i: int|
                0 <= i < old(self).contents().len() && r == Ok::<i32, String>(
                    old(self).contents()[i],
                ) && final(self).contents() == old(self).contents().remove(i),
    {
        if self.items.is_empty() {
            return Err("Structure is empty".to_string());
        }
        let index = draw_below(&mut self.rng, self.items.len());
        self.remove_drawn(index)
    }

    fn peek(&self) -> (r: Result<i32, String>)
        ensures
            self.contents().len() == 0 ==> r is Err && r->Err_0@ == "Structure is empty"@,
            self.contents().len() > 0 ==> r == Ok::<i32, String>(self.contents()[0]),
    {
        if self.items.is_empty() {
            return Err("Structure is empty".to_string());
        }
        let len = self.items.len();
        let index = len % if len > 1 {
            len
        } else {
            1
        };
        assert(index == 0) by (nonlinear_arith)
            requires
                index == len % len,
                len > 0,
        ;
        Ok(self.items[index])
    }

    fn size(&self) -> (r: usize)
        ensures
            r == self.contents().len(),
    {
        self.items.len()
    }
}

/// Takes every element out of `ds` until it reports itself empty or refuses a removal,
/// then adds them back in the order they came out, which reverses a last-in-first-out
/// container. Returns whether every element taken out went back in; it stops at the
/// first add that fails.
pub fn reverse_data_structure<D: DataStructure>(ds: &mut D) -> (r: bool)
    requires
        old(ds).wf(),
    ensures
        final(ds).wf(),
        old(ds).contents().len() == 0 ==> r && final(ds).contents() == old(ds).contents(),
{
    let ghost start = ds.contents();
    let mut temp: Vec<i32> = Vec::new();
    while !ds.is_empty()
        invariant
            ds.wf(),
            temp.len() + ds.contents().len() <= start.len(),
            temp.len() == 0 ==> ds.contents() == start,
            start == old(ds).contents(),
        decreases ds.contents().len(),
    {
        match ds.remove() {
            Ok(element) => temp.push(element),
            Err(_) => break,
        }
    }
    let mut i: usize = 0;
    while i < temp.len()
        invariant
            ds.wf(),
            i <= temp.len(),
            start.len() == 0 ==> temp.len() == 0,
            temp.len() == 0 ==> ds.contents() == start,
            start == old(ds).contents(),
        decreases temp.len() - i,
    {
        if ds.add(temp[i]).is_err() {
            return false;
        }
        i = i + 1;
    }
    true
}

} // verus!
