//! The demonstration routines themselves: each computes the values that one
//! demo makes observable, with a contract pinning the result exactly.

use vstd::prelude::*;

verus! {

/// Decides the branch of the comparison demo: whether `num` is below five.
pub fn if_exp(num: i64) -> (cond: bool)
    ensures
        cond == (num < 5),
{
    num < 5
}

/// The conditional-expression demo: five when the condition holds, six otherwise.
pub fn test_if_con(condition: bool) -> (number: i64)
    ensures
        number == if condition { 5i64 } else { 6i64 },
{
    if condition {
        5
    } else {
        6
    }
}

/// The counting loop demo: a counter is driven up to ten and the result is
/// twice its final value.
pub fn test_loop() -> (result: i64)
    ensures
        result == 20,
{
    let mut counter: i64 = 0;
    while counter < 10
        invariant
            0 <= counter <= 10,
        decreases 10 - counter,
    {
        counter = counter + 1;
    }
    let result: i64 = counter * 2;
    assert(result == 20);
    result
}

/// The shadowing demo: an inner scope binds three and yields its successor.
pub fn new_scope() -> (u: i64)
    ensures
        u == 4,
{
    let u: i64 = {
        let x: i64 = 3;
        x + 1
    };
    u
}

/// The values of the fixed array that the traversal demos walk.
pub open spec fn demo_values() -> Seq<i64> {
    seq![10i64, 20i64, 30i64, 40i64, 50i64]
}

/// The array traversal demo, by explicit indexing: the elements of the fixed
/// array, in order.
pub fn test_for() -> (out: Vec<i64>)
    ensures
        out@ == demo_values(),
{
    let a: [i64; 5] = [10, 20, 30, 40, 50];
    let mut out: Vec<i64> = Vec::new();
    let mut index: usize = 0;
    while index < 5
        invariant
            index <= 5,
            a@ == demo_values(),
            out@ == demo_values().take(index as int),
        decreases 5 - index,
    {
        out.push(a[index]);
        assert(out@ =~= demo_values().take(index as int + 1));
        index = index + 1;
    }
    assert(out@ =~= demo_values());
    out
}

/// The array traversal demo, by iteration: the same elements in the same
/// order as the indexed walk.
pub fn test_iter() -> (out: Vec<i64>)
    ensures
        out@ == demo_values(),
{
    let a: [i64; 5] = [10, 20, 30, 40, 50];
    let mut out: Vec<i64> = Vec::new();
    for index in 0..5
        invariant
            a@ == demo_values(),
            out@ == demo_values().take(index as int),
    {
        out.push(a[index]);
        assert(out@ =~= demo_values().take(index as int + 1));
    }
    assert(out@ =~= demo_values());
    out
}

/// The countdown demo: the numbers from `number` down to one, in order.
pub fn test_while(number: u32) -> (out: Vec<i64>)
    ensures
        out@.len() == number as int,
        forall|i: int| 0 <= i < number as int ==> out@[i] as int == number as int - i,
{
    let mut out: Vec<i64> = Vec::new();
    let mut current: u32 = number;
    while current != 0
        invariant
            current <= number,
            out@.len() == number as int - current as int,
            forall|i: int| 0 <= i < out@.len() ==> out@[i] as int == number as int - i,
        decreases current,
    {
        out.push(current as i64);
        current = current - 1;
    }
    out
}

/// The reversed-range demo: the numbers of `lo..hi` walked from the top
/// down, so `hi - 1` first and `lo` last; empty when the range is.
pub fn test_rev(lo: u32, hi: u32) -> (out: Vec<i64>)
    ensures
        out@.len() == (if lo <= hi { hi as int - lo as int } else { 0 }),
        forall|i: int| 0 <= i < out@.len() ==> out@[i] as int == hi as int - 1 - i,
{
    let mut out: Vec<i64> = Vec::new();
    if lo <= hi {
        let mut current: u32 = hi;
        while current > lo
            invariant
                lo <= current <= hi,
                out@.len() == hi as int - current as int,
                forall|i: int| 0 <= i < out@.len() ==> out@[i] as int == hi as int - 1 - i,
            decreases current,
        {
            out.push((current - 1) as i64);
            current = current - 1;
        }
    }
    out
}

/// The plain-arguments demo: hands both arguments back, in order.
pub fn another_function(x: i64, y: i64) -> (r: (i64, i64))
    ensures
        r.0 == x,
        r.1 == y,
{
    (x, y)
}

/// The indexing demo: reads the fixed array at `index`, and reports `None`
/// where the index lies outside it.
pub fn index_demo(index: usize) -> (r: Option<i64>)
    ensures
        index < 5 ==> r == Some(demo_values()[index as int]),
        index >= 5 ==> r is None,
{
    let a: [i64; 5] = [10, 20, 30, 40, 50];
    if index < 5 {
        Some(a[index])
    } else {
        None
    }
}

/// The move demo: a freshly built greeting is moved to a second binding,
/// which is handed back.
pub fn move_s1_s2() -> (s: String)
    ensures
        s@ == "hello"@,
{
    let s1: String = "hello".to_owned();
    let s2: String = s1;
    s2
}

/// The clone demo: a greeting and its clone, both alive and equal.
pub fn clone_s1_s2() -> (pair: (String, String))
    ensures
        pair.0@ == "hello"@,
        pair.1@ == "hello"@,
{
    let s1: String = "hello".to_owned();
    let s2: String = s1.clone();
    (s1, s2)
}

/// The append demo: a greeting grown in place to the full salutation.
pub fn greeting() -> (s: String)
    ensures
        s@ == "hello, world!"@,
{
    let mut s: String = "hello".to_owned();
    s.append(", world!");
    proof {
        reveal_strlit("hello");
        reveal_strlit(", world!");
        reveal_strlit("hello, world!");
        assert(s@ =~= "hello, world!"@);
    }
    s
}

/// Builds a greeting and hands its ownership to the caller.
pub fn gives_ownership() -> (some_string: String)
    ensures
        some_string@ == "hello"@,
{
    let some_string: String = "hello".to_owned();
    some_string
}

/// Takes ownership of a string and hands the same string back.
pub fn takes_and_gives_back(a_string: String) -> (r: String)
    ensures
        r == a_string,
{
    a_string
}

/// Returns the constant five.
pub fn five() -> (r: i32)
    ensures
        r == 5,
{
    5
}

/// Returns the successor of its argument.
pub fn plus_one(x: i32) -> (r: i32)
    requires
        x < i32::MAX,
    ensures
        r == x + 1,
{
    x + 1
}

/// Adds its two arguments.
pub fn add2(x: i32, y: i32) -> (r: i32)
    requires
        i32::MIN <= x + y <= i32::MAX,
    ensures
        r == x + y,
{
    x + y
}

} // verus!
