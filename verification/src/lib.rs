//! Two's-complement addition helpers and a small greeting type.

use vstd::prelude::*;

verus! {

/// The mathematical sum of `a` and `b`, wrapped into the range of `i32`
/// by two's-complement wraparound.
pub open spec fn wrapping_sum(a: i32, b: i32) -> i32 {
    if a + b > i32::MAX {
        (a + b - 0x1_0000_0000) as i32
    } else if a + b < i32::MIN {
        (a + b + 0x1_0000_0000) as i32
    } else {
        (a + b) as i32
    }
}

/// Adds two 32-bit signed integers with two's-complement wraparound.
pub fn add(a: i32, b: i32) -> (r: i32)
    ensures
        r == wrapping_sum(a, b),
        i32::MIN <= a + b <= i32::MAX ==> r == a + b,
{
    a.wrapping_add(b)
}

/// Returns the sum of 10 and 20; always 30.
pub fn uses_add() -> (r: i32)
    ensures
        r == 30,
{
    crate::add(10, 20)
}

/// Wrapped addition is commutative: the order of the operands never
/// changes the result.
pub proof fn lemma_add_commutative(a: i32, b: i32)
    ensures
        wrapping_sum(a, b) == wrapping_sum(b, a),
{
}

/// The greeting for `name`: the text `"hello "` followed by the name.
pub open spec fn greeting(name: Seq<char>) -> Seq<char> {
    "hello "@ + name
}

/// Holds a name to greet.
pub struct Greeter {
    pub name: String,
}

impl Greeter {
    /// Returns `"hello "` followed by the held name.
    pub fn greet(&self) -> (r: String)
        ensures
            r@ == greeting(self.name@),
    {
        let mut r = "hello ".to_owned();
        r.append(self.name.as_str());
        r
    }
}

/// Greeting is a function of the held name alone: any two results that
/// `greet`'s contract allows for the same `Greeter` are the same text,
/// so repeated calls always yield the same greeting.
pub proof fn lemma_greet_idempotent(g: &Greeter, r1: Seq<char>, r2: Seq<char>)
    requires
        r1 == greeting(g.name@),
        r2 == greeting(g.name@),
    ensures
        r1 == r2,
{
}

} // verus!
