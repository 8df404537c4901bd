//! Standard base64 with padding, used to attach HTTP basic-auth
//! credentials to outbound requests.

use vstd::prelude::*;

verus! {

/// The base64 alphabet: the digit byte for a 6-bit value.
pub open spec fn b64_byte(v: int) -> u8 {
    if v < 26 {
        (65 + v) as u8  // 'A' ..= 'Z'
    } else if v < 52 {
        (97 + (v - 26)) as u8  // 'a' ..= 'z'
    } else if v < 62 {
        (48 + (v - 52)) as u8  // '0' ..= '9'
    } else if v == 62 {
        43  // '+'
    } else {
        47  // '/'
    }
}

/// The four digits of one full three-byte group.
#[verifier::opaque]
pub open spec fn b64_group3(b0: u8, b1: u8, b2: u8) -> Seq<u8> {
    let g = b0 * 65536 + b1 * 256 + b2;
    seq![
        b64_byte(g / 262144 % 64),
        b64_byte(g / 4096 % 64),
        b64_byte(g / 64 % 64),
        b64_byte(g % 64),
    ]
}

/// The two digits and two padding bytes of a trailing one-byte group.
#[verifier::opaque]
pub open spec fn b64_group1(b0: u8) -> Seq<u8> {
    seq![b64_byte(b0 as int / 4), b64_byte(b0 as int % 4 * 16), 61u8, 61u8]
}

/// The three digits and one padding byte of a trailing two-byte group.
#[verifier::opaque]
pub open spec fn b64_group2(b0: u8, b1: u8) -> Seq<u8> {
    seq![
        b64_byte(b0 as int / 4),
        b64_byte(b0 as int % 4 * 16 + b1 as int / 16),
        b64_byte(b1 as int % 16 * 4),
        61u8,
    ]
}

/// The padded base64 encoding of a byte string.
#[verifier::opaque]
pub open spec fn base64_of(bytes: Seq<u8>) -> Seq<u8>
    decreases bytes.len(),
{
    if bytes.len() == 0 {
        Seq::empty()
    } else if bytes.len() == 1 {
        b64_group1(bytes[0])
    } else if bytes.len() == 2 {
        b64_group2(bytes[0], bytes[1])
    } else {
        b64_group3(bytes[0], bytes[1], bytes[2]) + base64_of(bytes.skip(3))
    }
}

proof fn lemma_base64_append(t: Seq<u8>, u: Seq<u8>)
    requires
        t.len() % 3 == 0,
    ensures
        base64_of(t + u) == base64_of(t) + base64_of(u),
    decreases t.len(),
{
    reveal(base64_of);
    if t.len() == 0 {
        assert(t + u =~= u);
        assert(base64_of(t) + base64_of(u) =~= base64_of(u));
    } else {
        let joined = t + u;
        assert(joined.len() >= 3);
        assert(joined[0] == t[0] && joined[1] == t[1] && joined[2] == t[2]);
        assert(joined.skip(3) =~= t.skip(3) + u);
        assert(t.skip(3).len() % 3 == 0);
        lemma_base64_append(t.skip(3), u);
        if t.len() == 3 {
            assert(base64_of(t.skip(3)) =~= Seq::<u8>::empty());
        }
        assert(b64_group3(t[0], t[1], t[2]) + (base64_of(t.skip(3)) + base64_of(u))
            =~= (b64_group3(t[0], t[1], t[2]) + base64_of(t.skip(3))) + base64_of(u));
    }
}

/// The base64 digit byte for a 6-bit value.
fn b64_digit(v: u32) -> (r: u8)
    requires
        v < 64,
    ensures
        r == b64_byte(v as int),
{
    if v < 26 {
        65 + (v as u8)
    } else if v < 52 {
        97 + (v as u8 - 26)
    } else if v < 62 {
        48 + (v as u8 - 52)
    } else if v == 62 {
        43
    } else {
        47
    }
}

/// Appends the four digits of one full three-byte group.
fn push_group3(out: &mut Vec<u8>, b0: u8, b1: u8, b2: u8)
    ensures
        final(out)@ == old(out)@ + b64_group3(b0, b1, b2),
{
    let g: u32 = (b0 as u32) * 65536 + (b1 as u32) * 256 + (b2 as u32);
    out.push(b64_digit(g / 262144 % 64));
    out.push(b64_digit(g / 4096 % 64));
    out.push(b64_digit(g / 64 % 64));
    out.push(b64_digit(g % 64));
    proof {
        reveal(b64_group3);
        assert(out@ =~= old(out)@ + b64_group3(b0, b1, b2));
    }
}

/// Appends the two digits and two padding bytes of a trailing one-byte
/// group.
fn push_group1(out: &mut Vec<u8>, b0: u8)
    ensures
        final(out)@ == old(out)@ + b64_group1(b0),
{
    out.push(b64_digit((b0 as u32) / 4));
    out.push(b64_digit((b0 as u32) % 4 * 16));
    out.push(61);
    out.push(61);
    proof {
        reveal(b64_group1);
        assert(out@ =~= old(out)@ + b64_group1(b0));
    }
}

/// Appends the three digits and one padding byte of a trailing two-byte
/// group.
fn push_group2(out: &mut Vec<u8>, b0: u8, b1: u8)
    ensures
        final(out)@ == old(out)@ + b64_group2(b0, b1),
{
    out.push(b64_digit((b0 as u32) / 4));
    out.push(b64_digit((b0 as u32) % 4 * 16 + (b1 as u32) / 16));
    out.push(b64_digit((b1 as u32) % 16 * 4));
    out.push(61);
    proof {
        reveal(b64_group2);
        assert(out@ =~= old(out)@ + b64_group2(b0, b1));
    }
}

/// Encodes a byte string as padded base64.
#[verifier::rlimit(100)]
#[verifier::spinoff_prover]
pub fn base64_encode(bytes: &[u8]) -> (r: Vec<u8>)
    ensures
        r@ == base64_of(bytes@),
{
    let mut out: Vec<u8> = Vec::new();
    let mut i: usize = 0;
    proof {
        reveal(base64_of);
        assert(bytes@.subrange(0, 0) =~= Seq::<u8>::empty());
    }
    while bytes.len() - i >= 3
        invariant
            i <= bytes@.len(),
            i % 3 == 0,
            out@ == base64_of(bytes@.subrange(0, i as int)),
        decreases bytes@.len() - i,
    {
        let ghost done = bytes@.subrange(0, i as int);
        let b0 = bytes[i];
        let b1 = bytes[i + 1];
        let b2 = bytes[i + 2];
        push_group3(&mut out, b0, b1, b2);
        proof {
            reveal_with_fuel(base64_of, 2);
            let group = bytes@.subrange(i as int, i as int + 3);
            assert(group.skip(3) =~= Seq::<u8>::empty());
            assert(base64_of(group) =~= b64_group3(b0, b1, b2));
            lemma_base64_append(done, group);
            assert(done + group =~= bytes@.subrange(0, i as int + 3));
        }
        i = i + 3;
    }
    let ghost done = bytes@.subrange(0, i as int);
    if bytes.len() - i == 1 {
        push_group1(&mut out, bytes[i]);
        proof {
            reveal(base64_of);
            let rest = bytes@.subrange(i as int, bytes@.len() as int);
            assert(rest.len() == 1);
            assert(base64_of(rest) =~= b64_group1(bytes@[i as int]));
            lemma_base64_append(done, rest);
            assert(done + rest =~= bytes@);
        }
    } else if bytes.len() - i == 2 {
        push_group2(&mut out, bytes[i], bytes[i + 1]);
        proof {
            reveal(base64_of);
            let rest = bytes@.subrange(i as int, bytes@.len() as int);
            assert(base64_of(rest) =~= b64_group2(bytes@[i as int], bytes@[i as int + 1]));
            lemma_base64_append(done, rest);
            assert(done + rest =~= bytes@);
        }
    } else {
        proof {
            assert(done =~= bytes@);
        }
    }
    out
}

} // verus!
