//! Builtin operations for the interpreter of a small, dynamically typed
//! scripting language.
//!
//! The evaluator of the host language dispatches calls on builtin names to the
//! functions here, after it has already evaluated the arguments to plain
//! values. The operations fall into three pure families: arithmetic and
//! comparison over machine integers, strict logical connectives over booleans,
//! and access to sequence and associative containers. Environment-touching
//! builtins (standard I/O, timing) live outside this verified core.
//!
//! Every fallible operation reports its failure as an ordinary [`BuiltinError`]
//! result that the evaluator can catch and propagate; no builtin panics or
//! aborts the process. Integer arithmetic wraps on overflow (two's
//! complement); each arithmetic contract states that choice exactly.

use vstd::prelude::*;

verus! {

use vstd::hash_map::StringHashMap;
use vstd::math::abs;
use vstd::arithmetic::div_mod::{lemma_div_decreases, lemma_div_nonincreasing, lemma_div_pos_is_pos};

/// The failure kinds a builtin can signal to the evaluator.
#[derive(Debug, Clone, Copy, PartialEq, Eq, Structural)]
pub enum BuiltinError {
    /// Integer division with a zero divisor.
    DivisionByZero,
    /// Sequence subscript outside `0 .. length`.
    IndexOutOfBounds,
    /// Dictionary subscript with an absent key.
    KeyNotFound,
    /// A string that is not a valid numeric literal.
    ParseError,
    /// The environment's input or output stream failed.
    IOFailure,
}

// ------------------------------------------------------------------
// Arithmetic & comparison family
// ------------------------------------------------------------------

/// Structural equality of two integers.
pub fn integers_equal(a: isize, b: isize) -> (r: bool)
    ensures
        r == (a == b),
{
    a == b
}

/// Structural inequality of two integers.
pub fn integers_not_equal(a: isize, b: isize) -> (r: bool)
    ensures
        r == (a != b),
{
    a != b
}

/// Strict order comparison: `a > b`.
pub fn greater(a: isize, b: isize) -> (r: bool)
    ensures
        r == (a > b),
{
    a > b
}

/// Strict order comparison: `a < b`.
pub fn less(a: isize, b: isize) -> (r: bool)
    ensures
        r == (a < b),
{
    a < b
}

/// Non-strict order comparison: `a >= b`.
pub fn not_less(a: isize, b: isize) -> (r: bool)
    ensures
        r == (a >= b),
{
    a >= b
}

/// Non-strict order comparison: `a <= b`.
pub fn not_greater(a: isize, b: isize) -> (r: bool)
    ensures
        r == (a <= b),
{
    a <= b
}

/// Wrapping addition. When `a + b` fits in `isize` the result is exact; on
/// overflow it wraps around (two's complement).
pub fn add(a: isize, b: isize) -> (r: isize)
    ensures
        r == vstd::wrapping::isize_specs::wrapping_add(a, b),
        isize::MIN <= a + b <= isize::MAX ==> r == a + b,
{
    a.wrapping_add(b)
}

/// Wrapping subtraction. When `a - b` fits in `isize` the result is exact; on
/// overflow it wraps around (two's complement).
pub fn subtract(a: isize, b: isize) -> (r: isize)
    ensures
        r == vstd::wrapping::isize_specs::wrapping_sub(a, b),
        isize::MIN <= a - b <= isize::MAX ==> r == a - b,
{
    a.wrapping_sub(b)
}

/// Wrapping multiplication. When `a * b` fits in `isize` the result is exact;
/// on overflow it wraps around (two's complement).
pub fn multiply(a: isize, b: isize) -> (r: isize)
    ensures
        isize::MIN <= a * b <= isize::MAX ==> r == a * b,
        !(isize::MIN <= a * b <= isize::MAX) ==> r == vstd::wrapping::isize_specs::wrapping_mul(
            a,
            b,
        ),
{
    match a.checked_mul(b) {
        Some(p) => p,
        None => a.wrapping_mul(b),
    }
}

/// Mathematical division truncated toward zero: the quotient of the
/// magnitudes, negated when the operands' signs differ.
pub open spec fn trunc_div(a: int, b: int) -> int
    recommends
        b != 0,
{
    if (a >= 0) == (b > 0) {
        abs(a) as int / abs(b) as int
    } else {
        -(abs(a) as int / abs(b) as int)
    }
}

/// The value `divide` produces for a nonzero divisor: division truncated
/// toward zero, wrapping in the one overflowing case (`isize::MIN / -1`).
pub open spec fn divide_result(a: isize, b: isize) -> isize
    recommends
        b != 0,
{
    if a == isize::MIN && b == -1 {
        isize::MIN
    } else {
        trunc_div(a as int, b as int) as isize
    }
}

proof fn lemma_trunc_div_in_range(a: int, b: int)
    requires
        isize::MIN <= a <= isize::MAX,
        isize::MIN <= b <= isize::MAX,
        b != 0,
        !(a == isize::MIN && b == -1),
    ensures
        isize::MIN <= trunc_div(a, b) <= isize::MAX,
{
    let x = abs(a) as int;
    let d = abs(b) as int;
    lemma_div_pos_is_pos(x, d);
    lemma_div_nonincreasing(x, d);
    if d > 1 && x > 0 {
        lemma_div_decreases(x, d);
    }
}

/// Integer division truncated toward zero, as the quotient of the magnitudes
/// with the sign of the operands. Fails with [`BuiltinError::DivisionByZero`]
/// when `b == 0`, and wraps in the one overflowing case (`isize::MIN / -1`).
pub fn divide(a: isize, b: isize) -> (r: Result<isize, BuiltinError>)
    ensures
        b != 0 ==> r == Result::<isize, BuiltinError>::Ok(divide_result(a, b)),
        b == 0 ==> r == Result::<isize, BuiltinError>::Err(BuiltinError::DivisionByZero),
{
    if b == 0 {
        return Err(BuiltinError::DivisionByZero);
    }
    if a == isize::MIN && b == -1 {
        return Ok(isize::MIN);
    }
    proof {
        lemma_trunc_div_in_range(a as int, b as int);
    }
    match a.checked_div(b) {
        Some(q) => Ok(q),
        None => unreached(),
    }
}

// ------------------------------------------------------------------
// Logical family
// ------------------------------------------------------------------

/// Strict (non-short-circuiting) conjunction. Both operands were already
/// evaluated by the caller, so nothing is skipped.
pub fn and(a: bool, b: bool) -> (r: bool)
    ensures
        r == (a && b),
{
    a && b
}

/// Strict (non-short-circuiting) disjunction.
pub fn or(a: bool, b: bool) -> (r: bool)
    ensures
        r == (a || b),
{
    a || b
}

// ------------------------------------------------------------------
// Container family
// ------------------------------------------------------------------

/// Appends `item` at the end of `list`, mutating it in place, and returns a
/// handle to the same container so the caller may chain further mutation or
/// treat the call as an expression. Never fails.
pub fn append(list: &mut Vec<isize>, item: isize) -> (r: &mut Vec<isize>)
    ensures
        r@ == old(list)@.push(item),
        final(list)@ == final(r)@,
{
    list.push(item);
    list
}

/// The element count of a sequence container, as an integer.
pub fn length<T>(container: &Vec<T>) -> (r: isize)
    requires
        container@.len() <= isize::MAX,
    ensures
        r == container@.len(),
{
    container.len() as isize
}

/// Eagerly materializes the ascending sequence of all integers in
/// `[start, end)`; empty when `start >= end`. Never fails.
pub fn range(start: isize, end: isize) -> (r: Vec<isize>)
    ensures
        start < end ==> r@.len() == end - start,
        start >= end ==> r@.len() == 0,
        forall|k: int| 0 <= k < r@.len() ==> r@[k] == start + k,
{
    let mut items: Vec<isize> = Vec::new();
    let mut i: isize = start;
    while i < end
        invariant
            start < end ==> start <= i <= end,
            start >= end ==> i == start,
            items@.len() == i - start,
            forall|k: int| 0 <= k < items@.len() ==> items@[k] == start + k,
        decreases end - i,
    {
        items.push(i);
        i = i + 1;
    }
    items
}

/// The element of `list` at position `index`. Fails with
/// [`BuiltinError::IndexOutOfBounds`] when `index < 0` or
/// `index >= length(list)`.
pub fn list_get_subscript(list: &Vec<isize>, index: isize) -> (r: Result<isize, BuiltinError>)
    ensures
        0 <= index < list@.len() ==> r == Result::<isize, BuiltinError>::Ok(list@[index as int]),
        !(0 <= index < list@.len()) ==> r == Result::<isize, BuiltinError>::Err(
            BuiltinError::IndexOutOfBounds,
        ),
{
    if index < 0 || index as usize >= list.len() {
        Err(BuiltinError::IndexOutOfBounds)
    } else {
        Ok(list[index as usize])
    }
}

/// Creates an empty string-keyed, integer-valued dictionary.
pub fn dictionary_new() -> (d: StringHashMap<isize>)
    ensures
        d@ == Map::<Seq<char>, isize>::empty(),
{
    StringHashMap::new()
}

/// Binds `key` to `value` in `dict`, replacing any previous binding of the
/// same key.
pub fn dictionary_insert(dict: &mut StringHashMap<isize>, key: String, value: isize)
    ensures
        final(dict)@ == old(dict)@.insert(key@, value),
{
    dict.insert(key, value);
}

/// The value bound to `key` in `dict`. Fails with
/// [`BuiltinError::KeyNotFound`] when `key` is absent.
pub fn str_int_dictionary_get_subscript(dict: &StringHashMap<isize>, key: &str) -> (r: Result<
    isize,
    BuiltinError,
>)
    ensures
        dict@.contains_key(key@) ==> r == Result::<isize, BuiltinError>::Ok(dict@[key@]),
        !dict@.contains_key(key@) ==> r == Result::<isize, BuiltinError>::Err(
            BuiltinError::KeyNotFound,
        ),
{
    match dict.get(key) {
        Some(v) => Ok(*v),
        None => Err(BuiltinError::KeyNotFound),
    }
}

} // verus!
