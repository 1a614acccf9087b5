//! The key under which the host keeps the state of a view.

use vstd::prelude::*;

verus! {

/// The namespace of the keys of terminal views.
pub const EGUI_TERM_WIDGET_ID_PREFIX: &'static str = "egui_term::instance::";

/// The character of one decimal digit.
pub open spec fn spec_digit(digit: nat) -> char {
    (48 + digit) as char
}

/// The decimal digits of a number, most significant first, without leading
/// zeros.
pub open spec fn spec_decimal(n: nat) -> Seq<char>
    decreases n,
{
    if n < 10 {
        seq![spec_digit(n)]
    } else {
        spec_decimal(n / 10).push(spec_digit(n % 10))
    }
}

/// The number that a run of decimal digits writes.
pub open spec fn spec_decimal_value(digits: Seq<char>) -> nat
    decreases digits.len(),
{
    if digits.len() == 0 {
        0
    } else {
        (spec_decimal_value(digits.drop_last()) * 10 + (digits.last() as nat - 48)) as nat
    }
}

/// The key of the view of a backend instance: the namespace, then the
/// instance's identity in decimal.
pub open spec fn spec_widget_key(backend_id: u64) -> Seq<char> {
    EGUI_TERM_WIDGET_ID_PREFIX@ + spec_decimal(backend_id as nat)
}

/// Calls `to_string` of `u64`. Trusted: the result is the number in decimal
/// digits, without sign, padding or leading zeros.
#[verifier::external_body]
fn decimal(n: u64) -> (digits: String)
    ensures
        digits@ == spec_decimal(n as nat),
{
    n.to_string()
}

/// The key of the view of a backend instance.
pub fn widget_key(backend_id: u64) -> (key: String)
    ensures
        key@ == spec_widget_key(backend_id),
{
    let mut key = String::from_str(EGUI_TERM_WIDGET_ID_PREFIX);
    let digits = decimal(backend_id);
    key.append(digits.as_str());
    key
}

/// The digits of a number write that number.
pub proof fn lemma_decimal_value(n: nat)
    ensures
        spec_decimal_value(spec_decimal(n)) == n,
    decreases n,
{
    if n < 10 {
        let digits = spec_decimal(n);
        assert(spec_decimal_value(digits.drop_last()) == 0);
    } else {
        lemma_decimal_value(n / 10);
        let digits = spec_decimal(n);
        assert(digits.drop_last() == spec_decimal(n / 10));
    }
}

/// Two views share a key only if they show the same backend instance, and
/// the views of one instance have one key.
pub proof fn lemma_one_key_one_backend(first: u64, second: u64)
    ensures
        spec_widget_key(first) == spec_widget_key(second) <==> first == second,
{
    if spec_widget_key(first) == spec_widget_key(second) {
        let prefix = EGUI_TERM_WIDGET_ID_PREFIX@;
        let a = spec_decimal(first as nat);
        let b = spec_decimal(second as nat);
        assert((prefix + a).subrange(prefix.len() as int, (prefix + a).len() as int) == a);
        assert((prefix + b).subrange(prefix.len() as int, (prefix + b).len() as int) == b);
        lemma_decimal_value(first as nat);
        lemma_decimal_value(second as nat);
    }
}

} // verus!
