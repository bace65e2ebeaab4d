use std::collections::hash_map::DefaultHasher;
use std::hash::Hasher;
use vstd::prelude::*;
use vstd::std_specs::hash::DefaultHasherAdditionalSpecFns;
use vstd::string::{StringExecFns, StringSliceAdditionalSpecFns};

verus! {

/// The character of a decimal digit.
pub open spec fn digit_char(d: nat) -> char {
    if d == 0 { '0' }
    else if d == 1 { '1' }
    else if d == 2 { '2' }
    else if d == 3 { '3' }
    else if d == 4 { '4' }
    else if d == 5 { '5' }
    else if d == 6 { '6' }
    else if d == 7 { '7' }
    else if d == 8 { '8' }
    else { '9' }
}

/// `n` written in decimal, without sign or leading zeros.
pub open spec fn decimal(n: nat) -> Seq<char>
    decreases n,
{
    if n < 10 {
        seq![digit_char(n)]
    } else {
        decimal(n / 10).push(digit_char(n % 10))
    }
}

/// The hash of SQL text with bytes `sql`: what `DefaultHasher` makes of the
/// text as `str` feeds a hasher, its bytes followed by the byte 0xff.
pub open spec fn fingerprint_value(sql: Seq<u8>) -> u64 {
    DefaultHasher::spec_finish(seq![sql, seq![0xffu8]])
}

/// The fingerprint of SQL text with bytes `sql`, as text.
pub open spec fn fingerprint_text(sql: Seq<u8>) -> Seq<char> {
    decimal(fingerprint_value(sql) as nat)
}

fn digit_str(d: u64) -> (r: &'static str)
    requires
        d < 10,
    ensures
        r@ == seq![digit_char(d as nat)],
{
    proof {
        reveal_strlit("0");
        reveal_strlit("1");
        reveal_strlit("2");
        reveal_strlit("3");
        reveal_strlit("4");
        reveal_strlit("5");
        reveal_strlit("6");
        reveal_strlit("7");
        reveal_strlit("8");
        reveal_strlit("9");
    }
    if d == 0 { "0" }
    else if d == 1 { "1" }
    else if d == 2 { "2" }
    else if d == 3 { "3" }
    else if d == 4 { "4" }
    else if d == 5 { "5" }
    else if d == 6 { "6" }
    else if d == 7 { "7" }
    else if d == 8 { "8" }
    else { "9" }
}

fn push_decimal(out: &mut String, n: u64)
    ensures
        final(out)@ == old(out)@ + decimal(n as nat),
    decreases n,
{
    if n >= 10 {
        push_decimal(out, n / 10);
    }
    out.append(digit_str(n % 10));
    assert(n < 10 ==> (n % 10) as nat == n as nat);
}

/// The decimal text of `n`.
pub fn decimal_text(n: u64) -> (r: String)
    ensures
        r@ == decimal(n as nat),
{
    let mut out = String::new();
    push_decimal(&mut out, n);
    assert(out@ =~= decimal(n as nat));
    out
}

/// A stable, non-cryptographic fingerprint of SQL text, used to correlate
/// diagnostics; equal texts have equal fingerprints.
pub fn sql_fingerprint(sql: &str) -> (r: String)
    ensures
        r@ == fingerprint_text(sql.spec_bytes()),
{
    let mut hasher = DefaultHasher::new();
    hasher.write(sql.as_bytes());
    let end: Vec<u8> = vec![0xffu8];
    assert(end@ =~= seq![0xffu8]);
    hasher.write(end.as_slice());
    assert(hasher@[1] =~= seq![0xffu8]);
    assert(hasher@ =~= seq![sql.spec_bytes(), seq![0xffu8]]);
    decimal_text(hasher.finish())
}

} // verus!
