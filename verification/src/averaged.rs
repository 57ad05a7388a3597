//! A list of numbers that always knows its sum, so that its average can be
//! had without walking the list again.

use vstd::prelude::*;

verus! {

/// The sum of the numbers of `list`.
pub open spec fn sum(list: Seq<i32>) -> int
    decreases list.len(),
{
    if list.len() == 0 {
        0
    } else {
        sum(list.drop_last()) + list.last()
    }
}

/// The sum of a list lies within what each of its numbers can reach, times
/// their count.
pub proof fn lemma_sum_bounds(list: Seq<i32>)
    ensures
        list.len() * i32::MIN <= sum(list) <= list.len() * i32::MAX,
    decreases list.len(),
{
    if list.len() > 0 {
        lemma_sum_bounds(list.drop_last());
        assert((list.len() - 1) * i32::MIN + i32::MIN == list.len() * i32::MIN)
            by (nonlinear_arith);
        assert((list.len() - 1) * i32::MAX + i32::MAX == list.len() * i32::MAX)
            by (nonlinear_arith);
    }
}

/// The sum of a list that a vector can hold leaves room in `i128` for one
/// number more or less.
proof fn lemma_sum_fits(list: Seq<i32>, count: usize)
    requires
        list.len() == count,
    ensures
        i128::MIN - i32::MIN < sum(list) < i128::MAX - i32::MAX,
{
    lemma_sum_bounds(list);
    assert(count * i32::MAX <= usize::MAX * i32::MAX) by (nonlinear_arith)
        requires
            count <= usize::MAX,
    ;
    assert(count * i32::MIN >= usize::MAX * i32::MIN) by (nonlinear_arith)
        requires
            count <= usize::MAX,
    ;
}

/// A list of numbers with its sum. Numbers come and go at the end.
pub struct AveragedCollection {
    list: Vec<i32>,
    total: i128,
}

impl View for AveragedCollection {
    type V = Seq<i32>;

    closed spec fn view(&self) -> Seq<i32> {
        self.list@
    }
}

impl AveragedCollection {
    /// The sum that is kept is the sum of the list.
    pub closed spec fn wf(&self) -> bool {
        self.total == sum(self.list@)
    }

    /// An empty collection.
    pub fn new() -> (collection: AveragedCollection)
        ensures
            collection.wf(),
            collection@ == Seq::<i32>::empty(),
    {
        AveragedCollection { list: Vec::new(), total: 0 }
    }

    /// Puts `value` at the end of the list.
    pub fn add(&mut self, value: i32)
        requires
            old(self).wf(),
        ensures
            final(self).wf(),
            final(self)@ == old(self)@.push(value),
    {
        proof {
            lemma_sum_fits(self.list@, self.list.len());
            assert(self.list@.push(value).drop_last() =~= self.list@);
        }
        self.list.push(value);
        self.total = self.total + value as i128;
    }

    /// Takes the last number off the list, if there is one.
    pub fn remove(&mut self) -> (removed: Option<i32>)
        requires
            old(self).wf(),
        ensures
            final(self).wf(),
            removed == (if old(self)@.len() > 0 {
                Some(old(self)@.last())
            } else {
                None
            }),
            final(self)@ == (if old(self)@.len() > 0 {
                old(self)@.drop_last()
            } else {
                old(self)@
            }),
    {
        proof {
            lemma_sum_fits(self.list@, self.list.len());
        }
        let result = self.list.pop();
        match result {
            Some(value) => {
                assert(self.list@ =~= old(self).list@.drop_last());
                self.total = self.total - value as i128;
                Some(value)
            },
            None => None,
        }
    }

    /// The sum of the numbers in the list.
    pub fn total(&self) -> (total: i128)
        requires
            self.wf(),
        ensures
            total == sum(self@),
    {
        self.total
    }

    /// How many numbers the list holds.
    pub fn len(&self) -> (len: usize)
        ensures
            len == self@.len(),
    {
        self.list.len()
    }
}

} // verus!
