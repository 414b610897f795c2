//! Identifiers that the transformation invents: the name of the inner
//! function and the synthetic names of parameters bound by a pattern.

use vstd::prelude::*;
use vstd::string::*;

verus! {

/// The ten decimal digits, in order.
pub open spec fn digit_chars() -> Seq<char> {
    seq!['0', '1', '2', '3', '4', '5', '6', '7', '8', '9']
}

/// Decimal representation of `n`, without leading zeros.
pub open spec fn decimal(n: nat) -> Seq<char>
    decreases n,
{
    if n < 10 {
        seq![digit_chars()[n as int]]
    } else {
        decimal(n / 10).push(digit_chars()[(n % 10) as int])
    }
}

/// Prefix shared by every identifier the transformation invents.
pub open spec fn reserved_prefix() -> Seq<char> {
    "__unsafe_fn_"@
}

/// Prefix of the synthetic parameter names.
pub open spec fn arg_prefix() -> Seq<char> {
    "__unsafe_fn_arg"@
}

/// The `k`-th synthetic parameter name of one transformation.
pub open spec fn synthetic_name(k: nat) -> Seq<char> {
    arg_prefix() + decimal(k)
}

/// An identifier without its raw prefix `r#`, if it has one.
pub open spec fn unraw(name: Seq<char>) -> Seq<char> {
    if name.len() >= 2 && name[0] == 'r' && name[1] == '#' {
        name.skip(2)
    } else {
        name
    }
}

/// Name of the inner function made from a declaration named `name`.
pub open spec fn inner_name(name: Seq<char>) -> Seq<char> {
    reserved_prefix() + unraw(name)
}

/// Whether `s` begins with `prefix`.
pub open spec fn starts_with(s: Seq<char>, prefix: Seq<char>) -> bool {
    prefix.len() <= s.len() && s.take(prefix.len() as int) == prefix
}

fn digit_str(d: usize) -> (r: &'static str)
    requires
        d < 10,
    ensures
        r@ == seq![digit_chars()[d as int]],
{
    let digits = "0123456789";
    proof {
        reveal_strlit("0123456789");
    }
    let r = digits.substring_char(d, d + 1);
    assert(r@ =~= seq![digit_chars()[d as int]]);
    r
}

/// Decimal representation of `n`.
pub fn decimal_string(n: usize) -> (r: String)
    ensures
        r@ == decimal(n as nat),
    decreases n,
{
    if n < 10 {
        String::from_str(digit_str(n))
    } else {
        let mut s = decimal_string(n / 10);
        s.append(digit_str(n % 10));
        s
    }
}

/// The `k`-th synthetic parameter name.
pub fn make_synthetic_name(k: usize) -> (r: String)
    ensures
        r@ == synthetic_name(k as nat),
{
    let mut s = String::from_str("__unsafe_fn_arg");
    let d = decimal_string(k);
    s.append(d.as_str());
    s
}

/// Name of the inner function for a declaration named `name`: the reserved
/// prefix followed by `name` without its raw prefix.
pub fn make_inner_name(name: &String) -> (r: String)
    ensures
        r@ == inner_name(name@),
{
    let s = name.as_str();
    let n = s.unicode_len();
    let bare = if n >= 2 && s.get_char(0) == 'r' && s.get_char(1) == '#' {
        s.substring_char(2, n)
    } else {
        s
    };
    assert(bare@ =~= unraw(name@));
    let mut r = String::from_str("__unsafe_fn_");
    r.append(bare);
    r
}

proof fn lemma_decimal_len(n: nat)
    ensures
        decimal(n).len() >= 1,
        n >= 10 ==> decimal(n).len() >= 2,
    decreases n,
{
    if n >= 10 {
        lemma_decimal_len(n / 10);
    }
}

/// Distinct numbers have distinct decimal representations.
pub proof fn lemma_decimal_injective(a: nat, b: nat)
    ensures
        decimal(a) == decimal(b) ==> a == b,
    decreases a,
{
    if decimal(a) == decimal(b) {
        lemma_decimal_len(a);
        lemma_decimal_len(b);
        if a < 10 && b < 10 {
            assert(decimal(a)[0] == decimal(b)[0]);
        } else if a >= 10 && b >= 10 {
            let da = decimal(a);
            let db = decimal(b);
            assert(da.last() == db.last());
            assert(decimal(a / 10) == da.drop_last());
            assert(decimal(b / 10) == db.drop_last());
            lemma_decimal_injective(a / 10, b / 10);
        }
    }
}

/// Two synthetic names of one transformation differ when their numbers do,
/// and each begins with the reserved prefix.
pub proof fn lemma_synthetic_names_distinct(j: nat, k: nat)
    ensures
        j != k ==> synthetic_name(j) != synthetic_name(k),
        starts_with(synthetic_name(k), arg_prefix()),
        starts_with(synthetic_name(k), reserved_prefix()),
{
    reveal_strlit("__unsafe_fn_arg");
    reveal_strlit("__unsafe_fn_");
    assert(synthetic_name(k).take(reserved_prefix().len() as int) =~= reserved_prefix());
    if synthetic_name(j) == synthetic_name(k) {
        assert(decimal(j) =~= synthetic_name(j).skip(arg_prefix().len() as int));
        assert(decimal(k) =~= synthetic_name(k).skip(arg_prefix().len() as int));
        lemma_decimal_injective(j, k);
    }
    assert(synthetic_name(k).take(arg_prefix().len() as int) =~= arg_prefix());
}

} // verus!
