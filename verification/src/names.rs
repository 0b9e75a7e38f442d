//! Deterministic derivation of every generated name from the interface name,
//! and rendering of argument counters.

use vstd::prelude::*;
use vstd::string::StringExecFns;

verus! {

/// Default name of the dispatch table type: the interface name followed by
/// `Vtable`.
pub open spec fn vtable_name_of(t: Seq<char>) -> Seq<char> {
    t + "Vtable"@
}

/// Default name of the boxed handle type: `Boxed` followed by the interface
/// name.
pub open spec fn boxed_name_of(t: Seq<char>) -> Seq<char> {
    "Boxed"@ + t
}

/// Name of the representation type for an interface.
pub open spec fn repr_name_of(t: Seq<char>) -> Seq<char> {
    "__ThinTraitObjectMacro_ReprFor"@ + t
}

/// Name of the capability trait synthesized for a possible super-interface.
pub open spec fn blanket_trait_name_of(t: Seq<char>) -> Seq<char> {
    "ThinTraitObject_Implements_"@ + t
}

/// Name of the capability trait's table accessor for an interface.
pub open spec fn vtable_method_name_of(t: Seq<char>) -> Seq<char> {
    "vtable_"@ + t
}

/// Name of the forwarding thunk synthesized for a method.
pub open spec fn thunk_name_of(m: Seq<char>) -> Seq<char> {
    "__thintraitobjectmacro_thunk_"@ + m
}

/// Derives the default table type name.
pub fn derive_vtable_name(t: &String) -> (r: String)
    ensures
        r@ == vtable_name_of(t@),
{
    t.clone().concat("Vtable")
}

/// Derives the default handle type name.
pub fn derive_boxed_name(t: &String) -> (r: String)
    ensures
        r@ == boxed_name_of(t@),
{
    let mut r = "Boxed".to_owned();
    r.append(t.as_str());
    r
}

/// Derives the capability trait name.
pub fn derive_blanket_trait_name(t: &String) -> (r: String)
    ensures
        r@ == blanket_trait_name_of(t@),
{
    let mut r = "ThinTraitObject_Implements_".to_owned();
    r.append(t.as_str());
    r
}

/// Derives the capability trait's table accessor name.
pub fn derive_vtable_method_name(t: &String) -> (r: String)
    ensures
        r@ == vtable_method_name_of(t@),
{
    let mut r = "vtable_".to_owned();
    r.append(t.as_str());
    r
}

/// Derives a thunk name from a method name.
pub fn derive_thunk_name(m: &String) -> (r: String)
    ensures
        r@ == thunk_name_of(m@),
{
    let mut r = "__thintraitobjectmacro_thunk_".to_owned();
    r.append(m.as_str());
    r
}

/// The character of a single decimal digit.
pub open spec fn decimal_digit(d: nat) -> char
    recommends
        d < 10,
{
    if d == 0 {
        '0'
    } else if d == 1 {
        '1'
    } else if d == 2 {
        '2'
    } else if d == 3 {
        '3'
    } else if d == 4 {
        '4'
    } else if d == 5 {
        '5'
    } else if d == 6 {
        '6'
    } else if d == 7 {
        '7'
    } else if d == 8 {
        '8'
    } else {
        '9'
    }
}

/// The decimal rendering of a number, most significant digit first.
pub open spec fn decimal_of(n: nat) -> Seq<char>
    decreases n,
{
    if n < 10 {
        seq![decimal_digit(n)]
    } else {
        decimal_of(n / 10).push(decimal_digit(n % 10))
    }
}

/// Returns the text of one decimal digit.
fn digit_str(d: usize) -> (r: &'static str)
    requires
        d < 10,
    ensures
        r@ == seq![decimal_digit(d as nat)],
{
    proof {
        reveal_strlit("0");
        reveal_strlit("1");
        reveal_strlit("2");
        reveal_strlit("3");
        reveal_strlit("4");
        reveal_strlit("5");
        reveal_strlit("6");
        reveal_strlit("7");
        reveal_strlit("8");
        reveal_strlit("9");
    }
    let r: &'static str = if d == 0 {
        "0"
    } else if d == 1 {
        "1"
    } else if d == 2 {
        "2"
    } else if d == 3 {
        "3"
    } else if d == 4 {
        "4"
    } else if d == 5 {
        "5"
    } else if d == 6 {
        "6"
    } else if d == 7 {
        "7"
    } else if d == 8 {
        "8"
    } else {
        "9"
    };
    assert(r@ =~= seq![decimal_digit(d as nat)]);
    r
}

/// Renders a counter in decimal.
pub fn usize_decimal(n: usize) -> (r: String)
    ensures
        r@ == decimal_of(n as nat),
    decreases n,
{
    if n < 10 {
        digit_str(n).to_owned()
    } else {
        let q = usize_decimal(n / 10);
        q.concat(digit_str(n % 10))
    }
}

/// Builds a numbered argument name: the prefix followed by the counter in
/// decimal.
pub fn numbered_arg_name(prefix: &str, n: usize) -> (r: String)
    ensures
        r@ == prefix@ + decimal_of(n as nat),
{
    let mut r = prefix.to_owned();
    let digits = usize_decimal(n);
    r.append(digits.as_str());
    r
}

/// What heck's snake-case conversion returns for a given text.
pub uninterp spec fn snake_case_of(s: Seq<char>) -> Seq<char>;

/// Relies on heck's `ToSnakeCase` implementation for `str`: the conversion
/// is a pure function of the characters, lowercasing words and joining them
/// with underscores.
#[verifier::external_body]
pub(crate) fn to_snake_case(s: &str) -> (r: String)
    ensures
        r@ == snake_case_of(s@),
{
    heck::ToSnakeCase::to_snake_case(s)
}

} // verus!
