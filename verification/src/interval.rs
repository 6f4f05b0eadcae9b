//! Closed intervals, and the check that reports a value outside one.
use vstd::prelude::*;
use vstd::std_specs::cmp::PartialOrdSpec;
use vstd::string::*;
use vstd::utf8::encode_utf8;

verus! {

/// A closed interval `[min_allowed, max_allowed]`.
pub struct Interval<T> {
    pub max_allowed: T,
    pub min_allowed: T,
}

/// `a` orders at or before `b`, as `a <= b` decides it.
pub open spec fn at_most<T: PartialOrd>(a: &T, b: &T) -> bool {
    match a.partial_cmp_spec(b) {
        Some(std::cmp::Ordering::Less) | Some(std::cmp::Ordering::Equal) => true,
        _ => false,
    }
}

/// `a` orders at or after `b`, as `a >= b` decides it.
pub open spec fn at_least<T: PartialOrd>(a: &T, b: &T) -> bool {
    match a.partial_cmp_spec(b) {
        Some(std::cmp::Ordering::Greater) | Some(std::cmp::Ordering::Equal) => true,
        _ => false,
    }
}

impl<T: Ord> Interval<T> {
    pub fn from_min_max(min_allowed: T, max_allowed: T) -> (r: Self)
        ensures
            r.min_allowed == min_allowed,
            r.max_allowed == max_allowed,
    {
        Interval { min_allowed, max_allowed }
    }

    /// Whether `value` lies in the interval, bounds included.
    pub fn contains(&self, value: &T) -> (r: bool)
        ensures
            T::obeys_partial_cmp_spec() ==> r == (at_most(&self.min_allowed, value) && at_least(
                &self.max_allowed,
                value,
            )),
    {
        self.min_allowed <= *value && self.max_allowed >= *value
    }
}

/// The number of bytes of the UTF-8 encoding of `s`, as `str::len` gives it.
pub open spec fn byte_len(s: Seq<char>) -> usize {
    encode_utf8(s).len() as usize
}

/// The decimal digit `d`, for `d < 10`.
pub open spec fn digit_char(d: nat) -> char {
    if d == 0 { '0' }
    else if d == 1 { '1' }
    else if d == 2 { '2' }
    else if d == 3 { '3' }
    else if d == 4 { '4' }
    else if d == 5 { '5' }
    else if d == 6 { '6' }
    else if d == 7 { '7' }
    else if d == 8 { '8' }
    else { '9' }
}

/// The decimal notation of `n`, without sign or leading zeros.
pub open spec fn decimal(n: nat) -> Seq<char>
    decreases n,
{
    if n < 10 {
        seq![digit_char(n)]
    } else {
        decimal(n / 10).push(digit_char(n % 10))
    }
}

fn digit_str(d: usize) -> (r: &'static str)
    requires
        d < 10,
    ensures
        r@ == seq![digit_char(d as nat)],
{
    if d == 0 {
        proof { reveal_strlit("0"); }
        "0"
    } else if d == 1 {
        proof { reveal_strlit("1"); }
        "1"
    } else if d == 2 {
        proof { reveal_strlit("2"); }
        "2"
    } else if d == 3 {
        proof { reveal_strlit("3"); }
        "3"
    } else if d == 4 {
        proof { reveal_strlit("4"); }
        "4"
    } else if d == 5 {
        proof { reveal_strlit("5"); }
        "5"
    } else if d == 6 {
        proof { reveal_strlit("6"); }
        "6"
    } else if d == 7 {
        proof { reveal_strlit("7"); }
        "7"
    } else if d == 8 {
        proof { reveal_strlit("8"); }
        "8"
    } else {
        proof { reveal_strlit("9"); }
        "9"
    }
}

/// Writes `n` in decimal.
pub fn decimal_string(n: usize) -> (r: String)
    ensures
        r@ == decimal(n as nat),
    decreases n,
{
    if n < 10 {
        String::from_str(digit_str(n))
    } else {
        let mut s = decimal_string(n / 10);
        s.append(digit_str(n % 10));
        s
    }
}

/// The message that reports `value` outside `[min, max]` for the field named `field`.
pub open spec fn interval_message(field: Seq<char>, value: nat, min: nat, max: nat) -> Seq<char> {
    field + " ("@ + decimal(value) + ") not in the ["@ + decimal(min) + ", "@ + decimal(max)
        + "] interval"@
}

/// What checking `value` against `[min, max]` gives: nothing, or the message that reports it.
pub open spec fn interval_outcome(min: nat, max: nat, value: nat, field: Seq<char>) -> Result<
    (),
    Seq<char>,
> {
    if min <= value <= max {
        Ok(())
    } else {
        Err(interval_message(field, value, min, max))
    }
}

/// A result with its error message taken by its view.
pub open spec fn outcome_view(r: Result<(), String>) -> Result<(), Seq<char>> {
    match r {
        Ok(()) => Ok(()),
        Err(s) => Err(s@),
    }
}

/// Checks that `value_to_test` lies in `interval`, and names `field_name` in the error.
pub fn interval_check(interval: &Interval<usize>, value_to_test: &usize, field_name: &str) -> (r:
    Result<(), String>)
    ensures
        outcome_view(r) == interval_outcome(
            interval.min_allowed as nat,
            interval.max_allowed as nat,
            *value_to_test as nat,
            field_name@,
        ),
{
    if !interval.contains(value_to_test) {
        let mut msg = String::from_str(field_name);
        msg.append(" (");
        msg.append(decimal_string(*value_to_test).as_str());
        msg.append(") not in the [");
        msg.append(decimal_string(interval.min_allowed).as_str());
        msg.append(", ");
        msg.append(decimal_string(interval.max_allowed).as_str());
        msg.append("] interval");
        return Err(msg);
    }
    Ok(())
}

} // verus!
