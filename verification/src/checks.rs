//! The outcome of a validation and the checks that schema validators compose.
//!
//! A validator returns `Ok(())` or `Err(message)` for the first check that
//! fails, in the order the schema lists its fields. `Outcome` is that result
//! with the message taken as a sequence of characters; each check below comes
//! as a spec function stating its outcome and an executable function proved
//! to produce exactly that outcome.
use vstd::prelude::*;
use crate::text::{debug_list, debug_list_text, debug_text, decimal, i64_text, str_debug, usize_text};

verus! {

/// A validation result with its message as characters.
pub type Outcome = Result<(), Seq<char>>;

/// The `Outcome` that an executable validation result stands for.
pub open spec fn outcome(r: Result<(), String>) -> Outcome {
    match r {
        Ok(()) => Ok(()),
        Err(m) => Err(m@),
    }
}

/// The first failure of `a` then `b`.
pub open spec fn also(a: Outcome, b: Outcome) -> Outcome {
    match a {
        Err(m) => Err(m),
        Ok(()) => b,
    }
}

/// `a` with `prefix` put in front of its message.
pub open spec fn within(prefix: Seq<char>, a: Outcome) -> Outcome {
    match a {
        Err(m) => Err(prefix + m),
        Ok(()) => Ok(()),
    }
}

/// Fails with `msg` exactly when `bad` holds.
pub open spec fn reject(bad: bool, msg: Seq<char>) -> Outcome {
    if bad {
        Err(msg)
    } else {
        Ok(())
    }
}

/// The label of item `i` of list `field`: `field[i]`.
pub open spec fn index_label(field: Seq<char>, i: int) -> Seq<char> {
    field + seq!['['] + decimal(i) + seq![']']
}

/// What stands before the message of a failing item: `field[i]: `.
pub open spec fn item_prefix(field: Seq<char>, i: int) -> Seq<char> {
    index_label(field, i) + seq![':', ' ']
}

/// Builds `field[i]`.
pub fn index_label_text(field: &str, i: usize) -> (r: String)
    ensures
        r@ == index_label(field@, i as int),
{
    let digits = usize_text(i);
    let mut s = String::from_str(field);
    s.append("[");
    s.append(digits.as_str());
    s.append("]");
    proof {
        reveal_strlit("[");
        reveal_strlit("]");
    }
    s
}

/// Puts `prefix` in front of the message of a failed result.
pub fn prefixed(prefix: &str, r: Result<(), String>) -> (out: Result<(), String>)
    ensures
        outcome(out) == within(prefix@, outcome(r)),
{
    match r {
        Ok(()) => Ok(()),
        Err(e) => {
            let mut m = String::from_str(prefix);
            m.append(e.as_str());
            Err(m)
        },
    }
}

/// Puts `field[i]: ` in front of the message of a failed result.
pub fn prefixed_item(field: &str, i: usize, r: Result<(), String>) -> (out: Result<(), String>)
    ensures
        outcome(out) == within(item_prefix(field@, i as int), outcome(r)),
{
    match r {
        Ok(()) => Ok(()),
        Err(e) => {
            let mut m = index_label_text(field, i);
            m.append(": ");
            proof {
                reveal_strlit(": ");
            }
            m.append(e.as_str());
            assert(m@ =~= item_prefix(field@, i as int) + e@);
            Err(m)
        },
    }
}

// ---------------------------------------------------------------------------
// Schemas validated item by item inside lists
// ---------------------------------------------------------------------------

/// A schema whose validation has a stated outcome.
pub trait Checked {
    /// The outcome of validating this value.
    spec fn checks(&self) -> Outcome;

    /// Validates this value.
    fn run_checks(&self) -> (r: Result<(), String>)
        ensures
            outcome(r) == self.checks(),
    ;
}

/// The first failure among `items[i..]`, each message prefixed `field[k]: `.
pub open spec fn each_checked<T: Checked>(field: Seq<char>, items: Seq<T>, i: int) -> Outcome
    decreases items.len() - i,
{
    if 0 <= i < items.len() {
        also(within(item_prefix(field, i), items[i].checks()), each_checked(field, items, i + 1))
    } else {
        Ok(())
    }
}

/// Validates every item of `items` in order and reports the first failure as
/// `field[i]: message`.
pub fn validate_each<T: Checked>(field: &str, items: &Vec<T>) -> (r: Result<(), String>)
    ensures
        outcome(r) == each_checked(field@, items@, 0),
{
    let n = items.len();
    let mut i: usize = 0;
    while i < n
        invariant
            n == items@.len(),
            i <= n,
            each_checked(field@, items@, 0) == each_checked(field@, items@, i as int),
        decreases n - i,
    {
        let r = items[i].run_checks();
        if r.is_err() {
            return prefixed_item(field, i, r);
        }
        i = i + 1;
    }
    Ok(())
}

/// The outcome of an optional list of items: nothing to check when absent.
pub open spec fn opt_each_checked<T: Checked>(field: Seq<char>, items: Option<Vec<T>>) -> Outcome {
    match items {
        Some(v) => each_checked(field, v@, 0),
        None => Ok(()),
    }
}

/// Validates an optional list item by item.
pub fn validate_opt_each<T: Checked>(field: &str, items: &Option<Vec<T>>) -> (r: Result<(), String>)
    ensures
        outcome(r) == opt_each_checked(field@, *items),
{
    match items {
        Some(v) => validate_each(field, v),
        None => Ok(()),
    }
}

// ---------------------------------------------------------------------------
// Non-empty strings: `field: expected non-empty string, got "value"`
// ---------------------------------------------------------------------------

/// The message for an empty string in `field`.
pub open spec fn non_empty_msg(field: Seq<char>, value: Seq<char>) -> Seq<char> {
    field + ": expected non-empty string, got "@ + str_debug(value)
}

/// `value` must hold at least one character.
pub open spec fn non_empty(field: Seq<char>, value: Seq<char>) -> Outcome {
    reject(value.len() == 0, non_empty_msg(field, value))
}

/// An optional string must be non-empty when present.
pub open spec fn opt_non_empty(field: Seq<char>, value: Option<String>) -> Outcome {
    match value {
        Some(s) => non_empty(field, s@),
        None => Ok(()),
    }
}

/// Every item `i` of `values[i..]` must be non-empty, reported as `field[i]`.
pub open spec fn each_non_empty(field: Seq<char>, values: Seq<String>, i: int) -> Outcome
    decreases values.len() - i,
{
    if 0 <= i < values.len() {
        also(non_empty(index_label(field, i), values[i]@), each_non_empty(field, values, i + 1))
    } else {
        Ok(())
    }
}

/// An optional list whose items must all be non-empty.
pub open spec fn opt_each_non_empty(field: Seq<char>, values: Option<Vec<String>>) -> Outcome {
    match values {
        Some(v) => each_non_empty(field, v@, 0),
        None => Ok(()),
    }
}

/// Checks `non_empty`.
pub fn require_non_empty(field: &str, value: &str) -> (r: Result<(), String>)
    ensures
        outcome(r) == non_empty(field@, value@),
{
    if value.is_empty() {
        let shown = debug_text(value);
        let mut m = String::from_str(field);
        m.append(": expected non-empty string, got ");
        m.append(shown.as_str());
        Err(m)
    } else {
        Ok(())
    }
}

/// Checks `opt_non_empty`.
pub fn require_opt_non_empty(field: &str, value: &Option<String>) -> (r: Result<(), String>)
    ensures
        outcome(r) == opt_non_empty(field@, *value),
{
    match value {
        Some(s) => require_non_empty(field, s.as_str()),
        None => Ok(()),
    }
}

/// Checks `each_non_empty` from the first item.
pub fn require_each_non_empty(field: &str, values: &Vec<String>) -> (r: Result<(), String>)
    ensures
        outcome(r) == each_non_empty(field@, values@, 0),
{
    let n = values.len();
    let mut i: usize = 0;
    while i < n
        invariant
            n == values@.len(),
            i <= n,
            each_non_empty(field@, values@, 0) == each_non_empty(field@, values@, i as int),
        decreases n - i,
    {
        if values[i].as_str().is_empty() {
            let label = index_label_text(field, i);
            return require_non_empty(label.as_str(), values[i].as_str());
        }
        i = i + 1;
    }
    Ok(())
}

/// Checks `opt_each_non_empty`.
pub fn require_opt_each_non_empty(field: &str, values: &Option<Vec<String>>) -> (r: Result<(), String>)
    ensures
        outcome(r) == opt_each_non_empty(field@, *values),
{
    match values {
        Some(v) => require_each_non_empty(field, v),
        None => Ok(()),
    }
}

// ---------------------------------------------------------------------------
// Integer bounds
// ---------------------------------------------------------------------------

/// `field: <reason><n>`, the shape of every integer-bound message.
pub open spec fn int_msg(field: Seq<char>, reason: Seq<char>, n: int) -> Seq<char> {
    field + reason + decimal(n)
}

/// Builds `field<reason><n>`.
pub fn int_msg_text(field: &str, reason: &str, n: i64) -> (r: String)
    ensures
        r@ == int_msg(field@, reason@, n as int),
{
    let digits = i64_text(n);
    let mut m = String::from_str(field);
    m.append(reason);
    m.append(digits.as_str());
    m
}

/// `n` must be at least `min`; otherwise `field<reason><n>`.
pub open spec fn at_least(field: Seq<char>, reason: Seq<char>, n: int, min: int) -> Outcome {
    reject(n < min, int_msg(field, reason, n))
}

/// Checks `at_least`.
pub fn require_at_least(field: &str, reason: &str, n: i64, min: i64) -> (r: Result<(), String>)
    ensures
        outcome(r) == at_least(field@, reason@, n as int, min as int),
{
    if n < min {
        Err(int_msg_text(field, reason, n))
    } else {
        Ok(())
    }
}

/// An optional integer must be at least `min` when present.
pub open spec fn opt_at_least(field: Seq<char>, reason: Seq<char>, n: Option<i64>, min: int) -> Outcome {
    match n {
        Some(v) => at_least(field, reason, v as int, min),
        None => Ok(()),
    }
}

/// Checks `opt_at_least`.
pub fn require_opt_at_least(field: &str, reason: &str, n: Option<i64>, min: i64) -> (r: Result<(), String>)
    ensures
        outcome(r) == opt_at_least(field@, reason@, n, min as int),
{
    match n {
        Some(v) => require_at_least(field, reason, v, min),
        None => Ok(()),
    }
}

// ---------------------------------------------------------------------------
// `field: expected integer >= 0 / >= 1, got n`
// ---------------------------------------------------------------------------

/// `n >= 0`, reported as `field: expected integer >= 0, got n`.
pub open spec fn non_negative_integer(field: Seq<char>, n: int) -> Outcome {
    at_least(field, ": expected integer >= 0, got "@, n, 0)
}

/// An optional `non_negative_integer`.
pub open spec fn opt_non_negative_integer(field: Seq<char>, n: Option<i64>) -> Outcome {
    opt_at_least(field, ": expected integer >= 0, got "@, n, 0)
}

/// Checks `non_negative_integer`.
pub fn require_non_negative_integer(field: &str, n: i64) -> (r: Result<(), String>)
    ensures
        outcome(r) == non_negative_integer(field@, n as int),
{
    require_at_least(field, ": expected integer >= 0, got ", n, 0)
}

/// Checks `opt_non_negative_integer`.
pub fn require_opt_non_negative_integer(field: &str, n: Option<i64>) -> (r: Result<(), String>)
    ensures
        outcome(r) == opt_non_negative_integer(field@, n),
{
    require_opt_at_least(field, ": expected integer >= 0, got ", n, 0)
}

/// `n >= 1`, reported as `field: expected integer >= 1, got n`.
pub open spec fn positive_integer(field: Seq<char>, n: int) -> Outcome {
    at_least(field, ": expected integer >= 1, got "@, n, 1)
}

/// An optional `positive_integer`.
pub open spec fn opt_positive_integer(field: Seq<char>, n: Option<i64>) -> Outcome {
    opt_at_least(field, ": expected integer >= 1, got "@, n, 1)
}

/// Checks `positive_integer`.
pub fn require_positive_integer(field: &str, n: i64) -> (r: Result<(), String>)
    ensures
        outcome(r) == positive_integer(field@, n as int),
{
    require_at_least(field, ": expected integer >= 1, got ", n, 1)
}

/// Checks `opt_positive_integer`.
pub fn require_opt_positive_integer(field: &str, n: Option<i64>) -> (r: Result<(), String>)
    ensures
        outcome(r) == opt_positive_integer(field@, n),
{
    require_opt_at_least(field, ": expected integer >= 1, got ", n, 1)
}

// ---------------------------------------------------------------------------
// Messages that render their bounds
// ---------------------------------------------------------------------------

/// `field<lead><lo>, <hi><tail><got>`, e.g. `limit: expected [1, 200], got 0`.
pub open spec fn range_msg(field: Seq<char>, lead: Seq<char>, lo: int, hi: int, tail: Seq<char>, got: int) -> Seq<char> {
    field + lead + decimal(lo) + seq![',', ' '] + decimal(hi) + tail + decimal(got)
}

/// `field<lead><bound><tail><got>`, e.g. `offset: expected >= 0, got -1`.
pub open spec fn bound_msg(field: Seq<char>, lead: Seq<char>, bound: int, tail: Seq<char>, got: int) -> Seq<char> {
    field + lead + decimal(bound) + tail + decimal(got)
}

/// Builds `range_msg` for integers.
pub fn range_msg_text(field: &str, lead: &str, lo: i64, hi: i64, tail: &str, got: i64) -> (r: String)
    ensures
        r@ == range_msg(field@, lead@, lo as int, hi as int, tail@, got as int),
{
    let lo_text = i64_text(lo);
    let hi_text = i64_text(hi);
    let got_text = i64_text(got);
    let mut m = String::from_str(field);
    m.append(lead);
    m.append(lo_text.as_str());
    m.append(", ");
    m.append(hi_text.as_str());
    m.append(tail);
    m.append(got_text.as_str());
    proof {
        reveal_strlit(", ");
    }
    m
}

/// Builds `range_msg` for counts.
pub fn count_range_msg_text(field: &str, lead: &str, lo: usize, hi: usize, tail: &str, got: usize) -> (r: String)
    ensures
        r@ == range_msg(field@, lead@, lo as int, hi as int, tail@, got as int),
{
    let lo_text = usize_text(lo);
    let hi_text = usize_text(hi);
    let got_text = usize_text(got);
    let mut m = String::from_str(field);
    m.append(lead);
    m.append(lo_text.as_str());
    m.append(", ");
    m.append(hi_text.as_str());
    m.append(tail);
    m.append(got_text.as_str());
    proof {
        reveal_strlit(", ");
    }
    m
}

/// Builds `bound_msg` for integers.
pub fn bound_msg_text(field: &str, lead: &str, bound: i64, tail: &str, got: i64) -> (r: String)
    ensures
        r@ == bound_msg(field@, lead@, bound as int, tail@, got as int),
{
    let bound_text = i64_text(bound);
    let got_text = i64_text(got);
    let mut m = String::from_str(field);
    m.append(lead);
    m.append(bound_text.as_str());
    m.append(tail);
    m.append(got_text.as_str());
    m
}

/// Builds `bound_msg` for counts.
pub fn count_bound_msg_text(field: &str, lead: &str, bound: usize, tail: &str, got: usize) -> (r: String)
    ensures
        r@ == bound_msg(field@, lead@, bound as int, tail@, got as int),
{
    let bound_text = usize_text(bound);
    let got_text = usize_text(got);
    let mut m = String::from_str(field);
    m.append(lead);
    m.append(bound_text.as_str());
    m.append(tail);
    m.append(got_text.as_str());
    m
}

/// A count (a length in characters or a number of items) must lie in
/// `[lo, hi]`; otherwise `range_msg`.
pub open spec fn count_in(field: Seq<char>, lead: Seq<char>, n: int, lo: int, hi: int, tail: Seq<char>) -> Outcome {
    reject(n < lo || n > hi, range_msg(field, lead, lo, hi, tail, n))
}

/// Checks `count_in`.
pub fn require_count_in(field: &str, lead: &str, n: usize, lo: usize, hi: usize, tail: &str) -> (r: Result<(), String>)
    ensures
        outcome(r) == count_in(field@, lead@, n as int, lo as int, hi as int, tail@),
{
    if n < lo || n > hi {
        Err(count_range_msg_text(field, lead, lo, hi, tail, n))
    } else {
        Ok(())
    }
}

/// An integer must lie in `[lo, hi]`; otherwise `range_msg`.
pub open spec fn int_in(field: Seq<char>, lead: Seq<char>, n: int, lo: int, hi: int, tail: Seq<char>) -> Outcome {
    reject(n < lo || n > hi, range_msg(field, lead, lo, hi, tail, n))
}

/// Checks `int_in`.
pub fn require_int_in(field: &str, lead: &str, n: i64, lo: i64, hi: i64, tail: &str) -> (r: Result<(), String>)
    ensures
        outcome(r) == int_in(field@, lead@, n as int, lo as int, hi as int, tail@),
{
    if n < lo || n > hi {
        Err(range_msg_text(field, lead, lo, hi, tail, n))
    } else {
        Ok(())
    }
}

/// An optional integer must lie in `[lo, hi]` when present.
pub open spec fn opt_int_in(field: Seq<char>, lead: Seq<char>, n: Option<i64>, lo: int, hi: int, tail: Seq<char>) -> Outcome {
    match n {
        Some(v) => int_in(field, lead, v as int, lo, hi, tail),
        None => Ok(()),
    }
}

/// Checks `opt_int_in`.
pub fn require_opt_int_in(field: &str, lead: &str, n: Option<i64>, lo: i64, hi: i64, tail: &str) -> (r: Result<(), String>)
    ensures
        outcome(r) == opt_int_in(field@, lead@, n, lo as int, hi as int, tail@),
{
    match n {
        Some(v) => require_int_in(field, lead, v, lo, hi, tail),
        None => Ok(()),
    }
}

/// An integer must be at least `bound`; otherwise `bound_msg`.
pub open spec fn int_at_least(field: Seq<char>, lead: Seq<char>, n: int, bound: int, tail: Seq<char>) -> Outcome {
    reject(n < bound, bound_msg(field, lead, bound, tail, n))
}

/// An optional integer must be at least `bound` when present.
pub open spec fn opt_int_at_least(field: Seq<char>, lead: Seq<char>, n: Option<i64>, bound: int, tail: Seq<char>) -> Outcome {
    match n {
        Some(v) => int_at_least(field, lead, v as int, bound, tail),
        None => Ok(()),
    }
}

/// Checks `opt_int_at_least`.
pub fn require_opt_int_at_least(field: &str, lead: &str, n: Option<i64>, bound: i64, tail: &str) -> (r: Result<(), String>)
    ensures
        outcome(r) == opt_int_at_least(field@, lead@, n, bound as int, tail@),
{
    match n {
        Some(v) => {
            if v < bound {
                Err(bound_msg_text(field, lead, bound, tail, v))
            } else {
                Ok(())
            }
        },
        None => Ok(()),
    }
}

// ---------------------------------------------------------------------------
// Closed sets of strings
// ---------------------------------------------------------------------------

/// `field: expected one of ["a", "b"], got "value"`: the allowed values listed
/// as `{:?}` lists a slice of strings.
pub open spec fn one_of_msg(field: Seq<char>, allowed: Seq<Seq<char>>, value: Seq<char>) -> Seq<char> {
    field + ": expected one of "@ + debug_list(allowed) + ", got "@ + str_debug(value)
}

/// Builds `one_of_msg`.
pub fn one_of_msg_text(field: &str, allowed: &[&str], value: &str) -> (r: String)
    ensures
        r@ == one_of_msg(field@, allowed@.map_values(|s: &str| s@), value@),
{
    let list = debug_list_text(allowed);
    let shown = debug_text(value);
    let mut m = String::from_str(field);
    m.append(": expected one of ");
    m.append(list.as_str());
    m.append(", got ");
    m.append(shown.as_str());
    m
}

// ---------------------------------------------------------------------------
// `field: expected lo..=hi, got n`
// ---------------------------------------------------------------------------

/// `n` must lie in `lo..=hi`; otherwise `field: expected lo..=hi, got n`.
pub open spec fn in_inclusive(field: Seq<char>, n: int, lo: int, hi: int) -> Outcome {
    reject(
        n < lo || n > hi,
        field + ": expected "@ + decimal(lo) + "..="@ + decimal(hi) + ", got "@ + decimal(n),
    )
}

/// Checks `in_inclusive`.
pub fn require_in_inclusive(field: &str, n: i64, lo: i64, hi: i64) -> (r: Result<(), String>)
    ensures
        outcome(r) == in_inclusive(field@, n as int, lo as int, hi as int),
{
    if n < lo || n > hi {
        let lo_text = i64_text(lo);
        let hi_text = i64_text(hi);
        let got_text = i64_text(n);
        let mut m = String::from_str(field);
        m.append(": expected ");
        m.append(lo_text.as_str());
        m.append("..=");
        m.append(hi_text.as_str());
        m.append(", got ");
        m.append(got_text.as_str());
        Err(m)
    } else {
        Ok(())
    }
}

// ---------------------------------------------------------------------------
// Laws of list validation
// ---------------------------------------------------------------------------

/// A list passes exactly when every item from `i` on passes; when it fails,
/// the message is that of the first failing item, prefixed `field[k]: `.
pub proof fn each_checked_first_failure<T: Checked>(field: Seq<char>, items: Seq<T>, i: int)
    requires
        0 <= i <= items.len(),
    ensures
        each_checked(field, items, i) is Ok <==> forall|k: int| i <= k < items.len() ==> (#[trigger] items[k].checks()) is Ok,
        each_checked(field, items, i) is Err ==> exists|k: int|
            #![trigger items[k].checks()]
            i <= k < items.len() && items[k].checks() is Err
                && (forall|j: int| i <= j < k ==> (#[trigger] items[j].checks()) is Ok)
                && each_checked(field, items, i) == within(item_prefix(field, k), items[k].checks()),
    decreases items.len() - i,
{
    if i < items.len() {
        each_checked_first_failure(field, items, i + 1);
        if items[i].checks() is Err {
            assert(i <= i < items.len() && items[i].checks() is Err);
        }
    }
}

/// Every string of a list is non-empty exactly when the list check passes.
pub proof fn each_non_empty_all_pass(field: Seq<char>, values: Seq<String>, i: int)
    requires
        0 <= i <= values.len(),
    ensures
        each_non_empty(field, values, i) is Ok <==> forall|k: int| i <= k < values.len() ==> (#[trigger] values[k]@).len() > 0,
    decreases values.len() - i,
{
    if i < values.len() {
        each_non_empty_all_pass(field, values, i + 1);
    }
}

/// A list of strings fails at its first empty item: when the items from `i`
/// up to `k` are non-empty and item `k` is empty, the check reports `field[k]`.
pub proof fn each_non_empty_first_empty(field: Seq<char>, values: Seq<String>, i: int, k: int)
    requires
        0 <= i <= k < values.len(),
        values[k]@.len() == 0,
        forall|j: int| i <= j < k ==> (#[trigger] values[j]@).len() > 0,
    ensures
        each_non_empty(field, values, i) == Err::<(), Seq<char>>(non_empty_msg(index_label(field, k), Seq::empty())),
    decreases k - i,
{
    if i < k {
        each_non_empty_first_empty(field, values, i + 1, k);
    } else {
        assert(values[k]@ =~= Seq::<char>::empty());
    }
}

} // verus!
