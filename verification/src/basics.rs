//! Scalar, tuple and loop demonstrations: building and reading a tuple,
//! branching inside a `let`, and the four loop shapes (a `loop` with a carried
//! break result, a countdown `while`, an indexed scan, and a range scan).

use vstd::prelude::*;

verus! {

/// Builds a fixed three-field record and reads it both ways: by
/// destructuring into named bindings and by positional index. The result
/// carries the record itself followed by the three destructured fields, and
/// the contract states that each destructured field equals the positionally
/// indexed one.
pub fn construct_and_destructure_tuple() -> (r: ((i32, u64, u8), i32, u64, u8))
    ensures
        r.1 == r.0.0,
        r.2 == r.0.1,
        r.3 == r.0.2,
        r.0 == ((500i32, 6u64, 1u8)),
{
    let tup: (i32, u64, u8) = (500, 6, 1);
    let (x, y, z) = tup;
    (tup, x, y, z)
}

/// Adds one to the given number.
pub fn plus_one(number: i32) -> (r: i32)
    requires
        number < i32::MAX,
    ensures
        r == number + 1,
{
    number + 1
}

/// Picks a number with an `if` expression on the right-hand side of a `let`.
pub fn if_in_let_statement(condition: bool) -> (r: i32)
    ensures
        condition ==> r == 5,
        !condition ==> r == 6,
{
    let number: i32 = if condition { 5 } else { 6 };
    number
}

/// Counts up from zero inside a bare `loop`, and on reaching the threshold
/// breaks out carrying twice the counter as the loop's result.
pub fn return_values_from_loops(threshold: u64) -> (r: u64)
    requires
        1 <= threshold,
        threshold <= u64::MAX / 2,
    ensures
        r == threshold * 2,
{
    let mut counter: u64 = 0;
    let mut result: u64 = 0;
    loop
        invariant_except_break
            counter < threshold,
            threshold <= u64::MAX / 2,
        ensures
            result == threshold * 2,
        decreases threshold - counter,
    {
        counter = counter + 1;

        if counter == threshold {
            result = counter * 2;
            break;
        }
    }
    result
}

/// Counts down from `start` with a `while` loop, recording each value before
/// it is decremented: the result runs `start, start - 1, ..., 1`.
pub fn condition_while_loop(start: u64) -> (r: Vec<u64>)
    ensures
        r@.len() == start,
        forall|i: int| 0 <= i < r@.len() ==> r@[i] == start - i,
{
    let mut number: u64 = start;
    let mut out: Vec<u64> = Vec::new();
    while number != 0
        invariant
            number <= start,
            out@.len() == start - number,
            forall|i: int| 0 <= i < out@.len() ==> out@[i] == start - i,
        decreases number,
    {
        out.push(number);
        number = number - 1;
    }
    out
}

/// Scans a sequence by index with a `while` loop, yielding every element in
/// its original order.
pub fn loop_collection(a: &Vec<i32>) -> (r: Vec<i32>)
    ensures
        r@ == a@,
{
    let mut out: Vec<i32> = Vec::new();
    let mut index: usize = 0;
    while index < a.len()
        invariant
            index <= a@.len(),
            out@.len() == index,
            forall|i: int| 0 <= i < out@.len() ==> out@[i] == a@[i],
        decreases a@.len() - index,
    {
        out.push(a[index]);
        index = index + 1;
    }
    proof {
        assert(out@ =~= a@);
    }
    out
}

/// Scans the same kind of sequence with a by-value `for` loop over its
/// iterator, yielding every element in its original order.
pub fn loop_collection_for(a: &Vec<i32>) -> (r: Vec<i32>)
    ensures
        r@ == a@,
{
    let mut out: Vec<i32> = Vec::new();
    for element in it: a.iter()
        invariant
            out@.len() == it.index(),
            forall|i: int| 0 <= i < out@.len() ==> out@[i] == *it.seq()[i],
    {
        out.push(*element);
    }
    proof {
        assert(out@ =~= a@);
    }
    out
}

/// Both sequence scans yield the elements of the backing sequence unchanged
/// and in order, so on the same backing sequence their outputs are one and
/// the same sequence.
pub proof fn lemma_scans_agree(scanned_by_index: Seq<i32>, scanned_by_value: Seq<i32>, a: Seq<i32>)
    requires
        scanned_by_index == a,
        scanned_by_value == a,
    ensures
        scanned_by_index == scanned_by_value,
{
}

/// Walks the half-open range `start..end` with a `for` loop, yielding each
/// number in turn: the end value is excluded, and an empty or reversed range
/// yields nothing.
pub fn loop_range(start: u64, end: u64) -> (r: Vec<u64>)
    ensures
        start <= end ==> r@.len() == end - start,
        end <= start ==> r@.len() == 0,
        forall|i: int| 0 <= i < r@.len() ==> r@[i] == start + i,
{
    let mut out: Vec<u64> = Vec::new();
    if end <= start {
        // A reversed or empty range takes no steps at all.
        return out;
    }
    for number in it: start..end
        invariant
            out@.len() == it.index(),
            forall|i: int| 0 <= i < out@.len() ==> out@[i] == it.seq()[i],
    {
        out.push(number);
    }
    out
}

} // verus!
