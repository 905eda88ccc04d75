//! Fixed-width big-endian encoding of balances and decimal rendering of
//! integers. Balances are stored as exactly 16 big-endian bytes; query
//! responses and log entries carry integers as decimal strings.

use vstd::arithmetic::div_mod::{
    lemma_basic_div, lemma_fundamental_div_mod, lemma_small_mod,
};
use vstd::arithmetic::mul::lemma_mul_inequality;
use vstd::prelude::*;

use crate::errors::Error;

verus! {

/// 256 to the power `n`.
pub open spec fn pow256(n: nat) -> nat
    decreases n,
{
    if n == 0 {
        1
    } else {
        256 * pow256((n - 1) as nat)
    }
}

/// The unsigned integer value of a big-endian byte string.
pub open spec fn be_val(s: Seq<u8>) -> nat
    decreases s.len(),
{
    if s.len() == 0 {
        0
    } else {
        be_val(s.drop_last()) * 256 + s.last() as nat
    }
}

/// The `len`-byte big-endian encoding of `x % 256^len`.
pub open spec fn be_bytes(x: nat, len: nat) -> Seq<u8>
    decreases len,
{
    if len == 0 {
        Seq::empty()
    } else {
        be_bytes(x / 256, (len - 1) as nat).push((x % 256) as u8)
    }
}

pub proof fn lemma_pow256_pos(n: nat)
    ensures
        pow256(n) >= 1,
    decreases n,
{
    if n > 0 {
        lemma_pow256_pos((n - 1) as nat);
    }
}

pub proof fn lemma_pow256_increases(a: nat, b: nat)
    requires
        a <= b,
    ensures
        pow256(a) <= pow256(b),
    decreases b,
{
    if a < b {
        lemma_pow256_increases(a, (b - 1) as nat);
        lemma_pow256_pos((b - 1) as nat);
    }
}

pub proof fn lemma_pow256_16()
    ensures
        pow256(16) == 0x1_0000_0000_0000_0000_0000_0000_0000_0000,
{
    reveal_with_fuel(pow256, 17);
}

/// A big-endian byte string of length `n` denotes a value below `256^n`.
pub proof fn lemma_be_val_bound(s: Seq<u8>)
    ensures
        be_val(s) < pow256(s.len()),
    decreases s.len(),
{
    if s.len() == 0 {
    } else {
        lemma_be_val_bound(s.drop_last());
        lemma_mul_inequality(
            be_val(s.drop_last()) as int,
            pow256((s.len() - 1) as nat) - 1,
            256,
        );
    }
}

pub proof fn lemma_be_bytes_len(x: nat, len: nat)
    ensures
        be_bytes(x, len).len() == len,
    decreases len,
{
    if len > 0 {
        lemma_be_bytes_len(x / 256, (len - 1) as nat);
    }
}

/// Decoding inverts encoding for values that fit in `len` bytes.
pub proof fn lemma_be_val_of_be_bytes(x: nat, len: nat)
    requires
        x < pow256(len),
    ensures
        be_val(be_bytes(x, len)) == x,
    decreases len,
{
    if len == 0 {
    } else {
        let rest = be_bytes(x / 256, (len - 1) as nat);
        let whole = be_bytes(x, len);
        assert(whole == rest.push((x % 256) as u8));
        lemma_be_bytes_len(x / 256, (len - 1) as nat);
        assert(whole.drop_last() =~= rest);
        assert(x / 256 < pow256((len - 1) as nat)) by {
            lemma_pow256_pos((len - 1) as nat);
            assert(x < 256 * pow256((len - 1) as nat));
            if x / 256 >= pow256((len - 1) as nat) {
                lemma_mul_inequality(pow256((len - 1) as nat) as int, x as int / 256, 256);
                lemma_fundamental_div_mod(x as int, 256);
            }
        }
        lemma_be_val_of_be_bytes(x / 256, (len - 1) as nat);
        lemma_fundamental_div_mod(x as int, 256);
    }
}

/// Encodes `x` as exactly 16 big-endian bytes.
pub fn u128_to_be_bytes(x: u128) -> (r: Vec<u8>)
    ensures
        r@ == be_bytes(x as nat, 16),
        r@.len() == 16,
        be_val(r@) == x as nat,
{
    let mut rev: Vec<u8> = Vec::new();
    let mut y: u128 = x;
    let mut i: usize = 0;
    while i < 16
        invariant
            i <= 16,
            rev@.len() == i,
            be_bytes(x as nat, 16) == be_bytes(y as nat, (16 - i) as nat) + rev@.reverse(),
        decreases 16 - i,
    {
        let b: u8 = (y % 256) as u8;
        proof {
            let prev = rev@;
            let pushed = prev.push(b);
            assert(pushed.reverse() =~= seq![b] + prev.reverse());
            assert(be_bytes(y as nat, (16 - i) as nat)
                == be_bytes((y as nat) / 256, (15 - i) as nat).push(b));
            assert(be_bytes((y as nat) / 256, (15 - i) as nat) + pushed.reverse()
                =~= be_bytes(y as nat, (16 - i) as nat) + prev.reverse()) by {
                lemma_be_bytes_len((y as nat) / 256, (15 - i) as nat);
            }
        }
        rev.push(b);
        y = y / 256;
        i = i + 1;
    }
    assert(be_bytes(x as nat, 16) =~= rev@.reverse());
    let mut out: Vec<u8> = Vec::new();
    let mut k: usize = 0;
    while k < 16
        invariant
            k <= 16,
            rev@.len() == 16,
            out@ == rev@.reverse().take(k as int),
        decreases 16 - k,
    {
        let b = rev[15 - k];
        proof {
            assert(rev@.reverse().take(k + 1) =~= rev@.reverse().take(k as int).push(
                rev@[15 - k as int],
            ));
        }
        out.push(b);
        k = k + 1;
    }
    assert(out@ =~= rev@.reverse());
    proof {
        lemma_be_bytes_len(x as nat, 16);
        lemma_pow256_16();
        lemma_be_val_of_be_bytes(x as nat, 16);
    }
    out
}

/// Decodes a 16-byte big-endian value; anything of another length is
/// corrupted data.
pub fn bytes_to_u128(data: &[u8]) -> (r: Result<u128, Error>)
    ensures
        data@.len() == 16 ==> (r matches Ok(v) && v as nat == be_val(data@)),
        data@.len() != 16 ==> r == Err::<u128, Error>(Error::CorruptedData),
{
    if data.len() != 16 {
        return Err(Error::CorruptedData);
    }
    let mut acc: u128 = 0;
    let mut i: usize = 0;
    while i < 16
        invariant
            i <= 16,
            data@.len() == 16,
            acc as nat == be_val(data@.take(i as int)),
        decreases 16 - i,
    {
        proof {
            lemma_be_val_bound(data@.take(i as int));
            lemma_pow256_increases(i as nat, 15);
            lemma_pow256_16();
            lemma_mul_inequality(acc as int, pow256(15) as int - 1, 256);
            assert(data@.take(i + 1).drop_last() =~= data@.take(i as int));
            assert(data@.take(i + 1).last() == data@[i as int]);
        }
        acc = acc * 256 + data[i] as u128;
        i = i + 1;
    }
    assert(data@.take(16) =~= data@);
    Ok(acc)
}

/// The decimal digit character for `d < 10`.
pub open spec fn dec_digit(d: nat) -> char {
    if d == 0 {
        '0'
    } else if d == 1 {
        '1'
    } else if d == 2 {
        '2'
    } else if d == 3 {
        '3'
    } else if d == 4 {
        '4'
    } else if d == 5 {
        '5'
    } else if d == 6 {
        '6'
    } else if d == 7 {
        '7'
    } else if d == 8 {
        '8'
    } else {
        '9'
    }
}

/// The decimal rendering of a natural number, without leading zeros
/// (except for the single digit of zero itself).
pub open spec fn dec_rep(n: nat) -> Seq<char>
    decreases n,
{
    if n < 10 {
        seq![dec_digit(n)]
    } else {
        dec_rep(n / 10).push(dec_digit(n % 10))
    }
}

/// The decimal rendering of a signed value: a minus sign before the
/// rendering of the magnitude.
pub open spec fn dec_rep_signed(n: int) -> Seq<char> {
    if n < 0 {
        seq!['-'] + dec_rep((-n) as nat)
    } else {
        dec_rep(n as nat)
    }
}

/// The one-character string of a decimal digit.
fn digit_str(d: u8) -> (r: &'static str)
    requires
        d < 10,
    ensures
        r@ == seq![dec_digit(d as nat)],
{
    proof {
        reveal_strlit("0");
        reveal_strlit("1");
        reveal_strlit("2");
        reveal_strlit("3");
        reveal_strlit("4");
        reveal_strlit("5");
        reveal_strlit("6");
        reveal_strlit("7");
        reveal_strlit("8");
        reveal_strlit("9");
    }
    let r = match d {
        0 => "0",
        1 => "1",
        2 => "2",
        3 => "3",
        4 => "4",
        5 => "5",
        6 => "6",
        7 => "7",
        8 => "8",
        _ => "9",
    };
    proof {
        assert(r@ =~= seq![dec_digit(d as nat)]);
    }
    r
}

/// The characters of a digit sequence.
pub open spec fn digit_chars(ds: Seq<u8>) -> Seq<char> {
    ds.map_values(|d: u8| dec_digit(d as nat))
}

/// Appends the decimal rendering of `x` to `s`.
fn push_dec_u128(s: &mut String, x: u128)
    ensures
        final(s)@ == old(s)@ + dec_rep(x as nat),
{
    let mut ds: Vec<u8> = Vec::new();
    let mut y: u128 = x;
    let d0: u8 = (y % 10) as u8;
    proof {
        if x < 10 {
            lemma_basic_div(x as int, 10);
            lemma_small_mod(x as nat, 10);
        }
        assert(digit_chars(seq![d0]).reverse() =~= seq![dec_digit(d0 as nat)]);
        if x >= 10 {
            assert(dec_rep(x as nat) == dec_rep((x as nat) / 10).push(dec_digit((x as nat) % 10)));
            assert(dec_rep((x as nat) / 10) + digit_chars(seq![d0]).reverse()
                =~= dec_rep(x as nat));
        } else {
            assert(Seq::<char>::empty() + digit_chars(seq![d0]).reverse() =~= dec_rep(x as nat));
        }
    }
    ds.push(d0);
    y = y / 10;
    while y > 0
        invariant
            ds@.len() >= 1,
            dec_rep(x as nat) == (if y > 0 {
                dec_rep(y as nat)
            } else {
                Seq::<char>::empty()
            }) + digit_chars(ds@).reverse(),
            forall|k: int| 0 <= k < ds@.len() ==> ds@[k] < 10,
        decreases y,
    {
        let d: u8 = (y % 10) as u8;
        proof {
            let prev = ds@;
            let pushed = prev.push(d);
            assert(digit_chars(pushed).reverse() =~= seq![dec_digit(d as nat)]
                + digit_chars(prev).reverse());
            if y >= 10 {
                assert(dec_rep(y as nat) == dec_rep((y as nat) / 10).push(
                    dec_digit((y as nat) % 10),
                ));
                assert(dec_rep((y as nat) / 10) + digit_chars(pushed).reverse()
                    =~= dec_rep(y as nat) + digit_chars(prev).reverse());
            } else {
                lemma_basic_div(y as int, 10);
                lemma_small_mod(y as nat, 10);
                assert(Seq::<char>::empty() + digit_chars(pushed).reverse()
                    =~= dec_rep(y as nat) + digit_chars(prev).reverse());
            }
            assert((if y > 0 {
                dec_rep(y as nat)
            } else {
                Seq::<char>::empty()
            }) + digit_chars(prev).reverse() =~= dec_rep(x as nat));
        }
        ds.push(d);
        y = y / 10;
    }
    assert(dec_rep(x as nat) == Seq::<char>::empty() + digit_chars(ds@).reverse());
    assert(dec_rep(x as nat) =~= digit_chars(ds@).reverse());
    let ghost start = s@;
    let n = ds.len();
    let mut i: usize = n;
    while i > 0
        invariant
            i <= n,
            n == ds@.len(),
            forall|k: int| 0 <= k < ds@.len() ==> ds@[k] < 10,
            s@ == start + digit_chars(ds@).reverse().take((n - i) as int),
        decreases i,
    {
        i = i - 1;
        let c = digit_str(ds[i]);
        proof {
            let rev = digit_chars(ds@).reverse();
            assert(rev.take((n - i) as int) =~= rev.take((n - i - 1) as int).push(
                rev[(n - i - 1) as int],
            ));
            assert(rev[(n - i - 1) as int] == dec_digit(ds@[i as int] as nat));
            assert(start + rev.take((n - i - 1) as int) + seq![dec_digit(ds@[i as int] as nat)]
                =~= start + rev.take((n - i) as int));
        }
        s.append(c);
    }
    assert(digit_chars(ds@).reverse().take(n as int) =~= digit_chars(ds@).reverse());
}

/// Renders an unsigned 128-bit balance as a decimal string.
pub fn u128_to_dec(x: u128) -> (r: String)
    ensures
        r@ == dec_rep(x as nat),
{
    let mut s = String::new();
    push_dec_u128(&mut s, x);
    proof {
        assert(Seq::<char>::empty() + dec_rep(x as nat) =~= dec_rep(x as nat));
    }
    s
}

/// Renders a signed 64-bit value as a decimal string.
pub fn i64_to_dec(x: i64) -> (r: String)
    ensures
        r@ == dec_rep_signed(x as int),
{
    if x >= 0 {
        let mut s = String::new();
        push_dec_u128(&mut s, x as u128);
        proof {
            assert(Seq::<char>::empty() + dec_rep(x as nat) =~= dec_rep(x as nat));
        }
        s
    } else {
        let mag: u128 = (-(x as i128)) as u128;
        let mut s = String::from_str("-");
        proof {
            reveal_strlit("-");
            assert("-"@ =~= seq!['-']);
        }
        push_dec_u128(&mut s, mag);
        s
    }
}

} // verus!
