//! The descriptor-handoff protocol between supervisor and service.
//!
//! A reserved environment variable carries the decimal string form of the
//! inherited listening-socket descriptor. The supervisor encodes the
//! descriptor number before exec; the service decodes it at startup, and on
//! absence or parse failure falls back to binding its own socket. Reading
//! and clearing the environment variable is I/O and happens outside this
//! crate; the encoding, the parse, and the fallback decision are verified
//! here, over the bytes of the variable's value.

use vstd::prelude::*;
use vstd::arithmetic::div_mod::lemma_fundamental_div_mod;

verus! {

use crate::Error;

/// Whether a byte is an ASCII decimal digit.
pub open spec fn is_digit(b: u8) -> bool {
    48 <= b <= 57
}

/// Whether every byte of `s` is an ASCII decimal digit.
pub open spec fn all_digits(s: Seq<u8>) -> bool {
    forall|i: int| 0 <= i < s.len() ==> is_digit(#[trigger] s[i])
}

/// The value of a sequence of ASCII decimal digits, most significant first.
pub open spec fn digits_val(s: Seq<u8>) -> int
    decreases s.len(),
{
    if s.len() == 0 {
        0
    } else {
        digits_val(s.drop_last()) * 10 + (s.last() - 48)
    }
}

/// The digits of a decimal form: everything after an optional leading sign.
pub open spec fn spec_digits_part(s: Seq<u8>) -> Seq<u8> {
    if s.len() > 0 && (s[0] == 43 || s[0] == 45) {
        s.subrange(1, s.len() as int)
    } else {
        s
    }
}

/// Whether a decimal form carries a leading minus sign.
pub open spec fn spec_negative(s: Seq<u8>) -> bool {
    s.len() > 0 && s[0] == 45
}

/// What a decimal form parses to as a 32-bit signed integer: an optional
/// sign followed by one or more digits, with the signed value in range;
/// anything else is unparseable.
pub open spec fn spec_parse_i32(s: Seq<u8>) -> Option<int> {
    let d = spec_digits_part(s);
    if d.len() == 0 || !all_digits(d) {
        None
    } else {
        let v = if spec_negative(s) {
            -digits_val(d)
        } else {
            digits_val(d)
        };
        if -2147483648 <= v <= 2147483647 {
            Some(v)
        } else {
            None
        }
    }
}

/// The decimal form of a nonnegative number: its digits, most significant
/// first, with no sign and no leading zero (except for zero itself).
pub open spec fn spec_dec(n: nat) -> Seq<u8>
    decreases n,
{
    if n < 10 {
        seq![(48 + n) as u8]
    } else {
        spec_dec(n / 10).push((48 + n % 10) as u8)
    }
}

/// The value of a digit sequence is nonnegative.
pub proof fn lemma_digits_val_nonneg(s: Seq<u8>)
    requires
        all_digits(s),
    ensures
        0 <= digits_val(s),
    decreases s.len(),
{
    if s.len() > 0 {
        assert(forall|i: int| 0 <= i < s.drop_last().len() ==> is_digit(#[trigger] s.drop_last()[i]));
        lemma_digits_val_nonneg(s.drop_last());
    }
}

/// Extending a digit prefix by one digit multiplies its value by ten and
/// adds the digit.
pub proof fn lemma_digits_val_step(s: Seq<u8>, i: int)
    requires
        0 <= i < s.len(),
    ensures
        digits_val(s.take(i + 1)) == digits_val(s.take(i)) * 10 + (s[i] - 48),
{
    assert(s.take(i + 1).drop_last() =~= s.take(i));
    assert(s.take(i + 1).last() == s[i]);
}

/// Decodes the decimal form of a descriptor number, exactly as the spec
/// parse defines it: `Ok(v)` if and only if the bytes parse to `v`.
pub fn decode_fd(bytes: &Vec<u8>) -> (r: Result<i32, Error>)
    ensures
        match r {
            Ok(v) => spec_parse_i32(bytes@) == Some(v as int),
            Err(_) => spec_parse_i32(bytes@) is None,
        },
{
    let n = bytes.len();
    if n == 0 {
        return Err(Error());
    }
    let b0 = bytes[0];
    let neg: bool = b0 == 45;
    let start: usize = if b0 == 45 || b0 == 43 {
        1
    } else {
        0
    };
    let ghost d = spec_digits_part(bytes@);
    proof {
        if start == 1 {
            assert(d =~= bytes@.subrange(1, n as int));
        } else {
            assert(d =~= bytes@);
        }
        assert(d.len() == n - start);
        assert(forall|k: int| 0 <= k < d.len() ==> d[k] == bytes@[k + start]);
    }
    if n == start {
        return Err(Error());
    }
    let mut acc: u64 = 0;
    let mut too_big: bool = false;
    let mut i: usize = start;
    while i < n
        invariant
            start <= i <= n,
            n == bytes@.len(),
            d == spec_digits_part(bytes@),
            d.len() == n - start,
            forall|k: int| 0 <= k < d.len() ==> d[k] == bytes@[k + start],
            forall|k: int| 0 <= k < i - start ==> is_digit(#[trigger] d[k]),
            !too_big ==> acc == digits_val(d.take(i - start)) && acc <= 2147483648,
            too_big ==> digits_val(d.take(i - start)) > 2147483648,
        decreases n - i,
    {
        let b = bytes[i];
        if b < 48 || b > 57 {
            proof {
                assert(d[i - start] == bytes@[i as int]);
                assert(!is_digit(d[i - start]));
            }
            return Err(Error());
        }
        proof {
            lemma_digits_val_step(d, i - start);
        }
        if too_big {
            proof {
                let prev = digits_val(d.take(i - start));
                assert(digits_val(d.take(i - start + 1)) == prev * 10 + (d[i - start] - 48));
                assert(prev * 10 + (d[i - start] - 48) > 2147483648) by (nonlinear_arith)
                    requires
                        prev > 2147483648,
                        d[i - start] >= 48,
                ;
            }
        } else {
            let digit: u64 = (b - 48) as u64;
            acc = acc * 10 + digit;
            if acc > 2147483648 {
                too_big = true;
            }
        }
        i = i + 1;
    }
    proof {
        assert(d.take(n - start) =~= d);
    }
    if too_big {
        return Err(Error());
    }
    if neg {
        let v: i64 = -(acc as i64);
        proof {
            lemma_digits_val_nonneg(d);
        }
        Ok(v as i32)
    } else {
        if acc > 2147483647 {
            return Err(Error());
        }
        Ok(acc as i32)
    }
}

/// Encodes a nonnegative number in decimal, most significant digit first.
fn encode_dec(n: u32) -> (r: Vec<u8>)
    ensures
        r@ == spec_dec(n as nat),
    decreases n,
{
    if n < 10 {
        let mut v: Vec<u8> = Vec::new();
        v.push(48 + n as u8);
        proof {
            assert(v@ =~= spec_dec(n as nat));
        }
        v
    } else {
        proof {
            assert(n / 10 < n) by (nonlinear_arith)
                requires
                    n >= 10,
            ;
        }
        let mut v = encode_dec(n / 10);
        v.push(48 + (n % 10) as u8);
        v
    }
}

/// Encodes a descriptor number as the decimal bytes the handoff variable
/// carries. A descriptor number is nonnegative.
pub fn encode_fd(fd: i32) -> (r: Vec<u8>)
    requires
        0 <= fd,
    ensures
        r@ == spec_dec(fd as nat),
{
    encode_dec(fd as u32)
}

/// The decimal form of a number consists of digits alone and evaluates back
/// to the number.
pub proof fn lemma_spec_dec_digits(n: nat)
    ensures
        spec_dec(n).len() >= 1,
        all_digits(spec_dec(n)),
        digits_val(spec_dec(n)) == n,
    decreases n,
{
    if n < 10 {
        assert(spec_dec(n).drop_last() =~= Seq::<u8>::empty());
        assert(digits_val(Seq::<u8>::empty()) == 0);
        assert(spec_dec(n).last() == (48 + n) as u8);
        assert(((48 + n) as u8) == 48 + n);
        assert(digits_val(spec_dec(n)) == 0 * 10 + (48 + n - 48));
    } else {
        assert(n / 10 < n) by (nonlinear_arith)
            requires
                n >= 10,
        ;
        lemma_spec_dec_digits(n / 10);
        assert(spec_dec(n).drop_last() =~= spec_dec(n / 10));
        assert(spec_dec(n).last() == (48 + n % 10) as u8);
        assert(0 <= n % 10 < 10);
        assert(((48 + n % 10) as u8) == 48 + n % 10);
        lemma_fundamental_div_mod(n as int, 10);
        assert(digits_val(spec_dec(n)) == digits_val(spec_dec(n / 10)) * 10 + n % 10);
    }
}

/// The round trip of the handoff protocol: the decimal form the supervisor
/// writes for a descriptor number parses back to exactly that number in the
/// child.
pub proof fn lemma_encode_decode_roundtrip(fd: i32)
    requires
        0 <= fd,
    ensures
        spec_parse_i32(spec_dec(fd as nat)) == Some(fd as int),
{
    lemma_spec_dec_digits(fd as nat);
    let s = spec_dec(fd as nat);
    assert(is_digit(s[0]));
    assert(spec_digits_part(s) == s);
    assert(!spec_negative(s));
}

/// The startup strategy a service resolves once at initialization: use the
/// inherited descriptor from the handoff variable, or fall back to binding
/// its own socket at its well-known path.
#[derive(Clone, Copy, Debug, PartialEq, Eq, Structural)]
pub enum ListenerMode {
    /// The handoff variable carried this descriptor number: the service
    /// treats it as an already-bound, already-listening socket.
    Inherited(i32),
    /// The handoff variable was absent or unparseable: the service binds
    /// its own socket.
    SelfBind,
}

/// Recovers the inherited descriptor number from the handoff variable's
/// value, if the variable was present and parseable: the computing half of
/// discovering the descriptor a supervisor passed.
pub fn fd_from_env(value: &Option<Vec<u8>>) -> (r: Result<i32, Error>)
    ensures
        match r {
            Ok(fd) => value matches Some(b) && spec_parse_i32(b@) == Some(fd as int),
            Err(_) => match value {
                Some(b) => spec_parse_i32(b@) is None,
                None => true,
            },
        },
{
    match value {
        Some(bytes) => decode_fd(bytes),
        None => Err(Error()),
    }
}

/// Resolves the dual-mode startup decision from the handoff variable's
/// value: inherit the descriptor exactly when the value parses, fall back
/// to self-binding otherwise.
pub fn listener_mode(value: &Option<Vec<u8>>) -> (r: ListenerMode)
    ensures
        match value {
            Some(b) => match spec_parse_i32(b@) {
                Some(v) => r == ListenerMode::Inherited(v as i32),
                None => r == ListenerMode::SelfBind,
            },
            None => r == ListenerMode::SelfBind,
        },
{
    match fd_from_env(value) {
        Ok(fd) => ListenerMode::Inherited(fd),
        Err(_) => ListenerMode::SelfBind,
    }
}

} // verus!
