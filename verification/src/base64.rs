//! Base64: the text that bytes are written as on the wire.

use vstd::prelude::*;
use vstd::string::*;

verus! {

/// The digit that stands for a value of six bits.
pub open spec fn digit(v: int) -> char
    recommends
        0 <= v < 64,
{
    "ABCDEFGHIJKLMNOPQRSTUVWXYZabcdefghijklmnopqrstuvwxyz0123456789+/"@[v]
}

/// The four digits that three bytes are written as: their twenty-four bits,
/// six at a time.
pub open spec fn group(a: u8, b: u8, c: u8) -> Seq<char> {
    seq![
        digit(a as int / 4),
        digit((a as int % 4) * 16 + b as int / 16),
        digit((b as int % 16) * 4 + c as int / 64),
        digit(c as int % 64),
    ]
}

/// What the first `n` groups of three bytes are written as.
pub open spec fn groups(bytes: Seq<u8>, n: nat) -> Seq<char>
    recommends
        3 * n <= bytes.len(),
    decreases n,
{
    if n == 0 {
        Seq::empty()
    } else {
        groups(bytes, (n - 1) as nat) + group(
            bytes[3 * n - 3],
            bytes[3 * n - 2],
            bytes[3 * n - 1],
        )
    }
}

/// What the one or two bytes are written as that are left over after the
/// groups of three: their bits, six at a time, the last digit filled up with
/// zero bits, and `=` for each byte that the group lacks.
pub open spec fn tail(bytes: Seq<u8>) -> Seq<char> {
    let n = bytes.len() as int;
    if n % 3 == 1 {
        let a = bytes[n - 1] as int;
        seq![digit(a / 4), digit((a % 4) * 16), '=', '=']
    } else if n % 3 == 2 {
        let a = bytes[n - 2] as int;
        let b = bytes[n - 1] as int;
        seq![digit(a / 4), digit((a % 4) * 16 + b / 16), digit((b % 16) * 4), '=']
    } else {
        Seq::empty()
    }
}

/// The base64 text of the bytes, with the standard alphabet and padding.
pub open spec fn base64(bytes: Seq<u8>) -> Seq<char> {
    groups(bytes, (bytes.len() / 3) as nat) + tail(bytes)
}

/// The base64 text of no bytes is empty, and every three bytes more make
/// four characters more.
pub proof fn lemma_base64_len(bytes: Seq<u8>)
    ensures
        base64(bytes).len() == 4 * ((bytes.len() + 2) / 3),
{
    lemma_groups_len(bytes, (bytes.len() / 3) as nat);
}

/// The groups are written as four characters each.
proof fn lemma_groups_len(bytes: Seq<u8>, n: nat)
    ensures
        groups(bytes, n).len() == 4 * n,
    decreases n,
{
    if n > 0 {
        lemma_groups_len(bytes, (n - 1) as nat);
    }
}

/// Writes one more digit.
fn push_digit(out: &mut String, v: usize)
    requires
        v < 64,
    ensures
        final(out)@ == old(out)@.push(digit(v as int)),
{
    let alphabet = "ABCDEFGHIJKLMNOPQRSTUVWXYZabcdefghijklmnopqrstuvwxyz0123456789+/";
    proof {
        reveal_strlit("ABCDEFGHIJKLMNOPQRSTUVWXYZabcdefghijklmnopqrstuvwxyz0123456789+/");
    }
    let one = alphabet.substring_ascii(v, v + 1);
    out.append(one);
    assert(out@ =~= old(out)@.push(digit(v as int)));
}

/// Writes one `=`.
fn push_pad(out: &mut String)
    ensures
        final(out)@ == old(out)@.push('='),
{
    proof {
        reveal_strlit("=");
    }
    out.append("=");
    assert(out@ =~= old(out)@.push('='));
}

/// The base64 text of the bytes.
pub fn encode(bytes: &Vec<u8>) -> (r: String)
    ensures
        r@ == base64(bytes@),
{
    let n = bytes.len();
    let mut out = String::new();
    let mut i: usize = 0;
    while n - i >= 3
        invariant
            i <= n,
            n == bytes@.len(),
            i % 3 == 0,
            out@ == groups(bytes@, (i / 3) as nat),
        decreases n - i,
    {
        let a = bytes[i] as usize;
        let b = bytes[i + 1] as usize;
        let c = bytes[i + 2] as usize;
        let ghost before = out@;
        push_digit(&mut out, a / 4);
        push_digit(&mut out, (a % 4) * 16 + b / 16);
        push_digit(&mut out, (b % 16) * 4 + c / 64);
        push_digit(&mut out, c % 64);
        proof {
            let k = (i / 3 + 1) as nat;
            assert(3 * k - 3 == i);
            assert(out@ =~= before + group(bytes@[i as int], bytes@[i + 1], bytes@[i + 2]));
            assert((i + 3) / 3 == k);
        }
        i += 3;
    }
    proof {
        assert(n / 3 == i / 3);
        assert(n % 3 == n - i);
    }
    if n - i == 1 {
        let a = bytes[i] as usize;
        let ghost before = out@;
        push_digit(&mut out, a / 4);
        push_digit(&mut out, (a % 4) * 16);
        push_pad(&mut out);
        push_pad(&mut out);
        assert(out@ =~= before + tail(bytes@));
    } else if n - i == 2 {
        let a = bytes[i] as usize;
        let b = bytes[i + 1] as usize;
        let ghost before = out@;
        push_digit(&mut out, a / 4);
        push_digit(&mut out, (a % 4) * 16 + b / 16);
        push_digit(&mut out, (b % 16) * 4);
        push_pad(&mut out);
        assert(out@ =~= before + tail(bytes@));
    } else {
        assert(out@ =~= out@ + tail(bytes@));
    }
    out
}

} // verus!
