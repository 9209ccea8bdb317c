//! Map payload cache encoding: the Base64 text form in which downloaded map
//! payloads are kept in browser storage, and the storage key scheme.

use vstd::prelude::*;
use crate::text::push_char;
use vstd::string::StringSliceAdditionalSpecFns;

verus! {

/// Character code of the Base64 alphabet entry for a 6-bit value.
pub open spec fn sextet_byte(i: int) -> u8 {
    if i < 26 {
        (65 + i) as u8
    } else if i < 52 {
        (97 + (i - 26)) as u8
    } else if i < 62 {
        (48 + (i - 52)) as u8
    } else if i == 62 {
        43u8
    } else {
        47u8
    }
}

/// The 6-bit value a Base64 alphabet character stands for, if it is one.
pub open spec fn sextet_value(c: u8) -> Option<int> {
    if 65 <= c <= 90 {
        Some(c - 65)
    } else if 97 <= c <= 122 {
        Some(c - 97 + 26)
    } else if 48 <= c <= 57 {
        Some(c - 48 + 52)
    } else if c == 43 {
        Some(62)
    } else if c == 47 {
        Some(63)
    } else {
        None
    }
}

/// The padding character `=`.
pub open spec fn pad_byte() -> u8 {
    61u8
}

/// Encoding of one group of one to three bytes as four characters
/// (missing bytes count as zero and their characters become `=`).
pub open spec fn encode_group(g: Seq<u8>) -> Seq<u8> {
    let b0 = g[0] as int;
    let b1 = if g.len() > 1 { g[1] as int } else { 0 };
    let b2 = if g.len() > 2 { g[2] as int } else { 0 };
    let n = b0 * 65536 + b1 * 256 + b2;
    seq![
        sextet_byte(n / 262144),
        sextet_byte((n / 4096) % 64),
        if g.len() > 1 { sextet_byte((n / 64) % 64) } else { pad_byte() },
        if g.len() > 2 { sextet_byte(n % 64) } else { pad_byte() },
    ]
}

/// Base64 text of `data` (standard alphabet, `=` padding), as character codes.
pub open spec fn encode_bytes(data: Seq<u8>) -> Seq<u8>
    decreases data.len(),
{
    if data.len() == 0 {
        seq![]
    } else if data.len() <= 3 {
        encode_group(data)
    } else {
        encode_group(data.take(3)) + encode_bytes(data.skip(3))
    }
}

/// Base64 text of `data` as characters.
pub open spec fn encode_chars(data: Seq<u8>) -> Seq<char> {
    encode_bytes(data).map_values(|b: u8| b as char)
}

/// The input with every `=` removed (padding may stand anywhere).
pub open spec fn strip_padding(s: Seq<u8>) -> Seq<u8>
    decreases s.len(),
{
    if s.len() == 0 {
        seq![]
    } else if s.last() == pad_byte() {
        strip_padding(s.drop_last())
    } else {
        strip_padding(s.drop_last()).push(s.last())
    }
}

/// Value of the 24-bit number that a group of two to four alphabet
/// characters spells (missing characters count as zero).
pub open spec fn group_number(g: Seq<u8>) -> int {
    let v0 = sextet_value(g[0]).unwrap();
    let v1 = sextet_value(g[1]).unwrap();
    let v2 = if g.len() > 2 { sextet_value(g[2]).unwrap() } else { 0 };
    let v3 = if g.len() > 3 { sextet_value(g[3]).unwrap() } else { 0 };
    v0 * 262144 + v1 * 4096 + v2 * 64 + v3
}

/// Every character of the group belongs to the alphabet.
pub open spec fn group_valid(g: Seq<u8>) -> bool {
    forall|i: int| 0 <= i < g.len() ==> (#[trigger] sextet_value(g[i])) is Some
}

/// Decoding of one group of two to four characters: one byte per character
/// beyond the first.
pub open spec fn decode_group(g: Seq<u8>) -> Option<Seq<u8>> {
    if !group_valid(g) {
        None
    } else {
        let n = group_number(g);
        let first = seq![(n / 65536) as u8];
        let second = if g.len() > 2 { first.push(((n / 256) % 256) as u8) } else { first };
        Some(if g.len() > 3 { second.push((n % 256) as u8) } else { second })
    }
}

/// Decoding of padding-free text, four characters at a time; `None` when a
/// group is shorter than two characters or holds a character outside the alphabet.
pub open spec fn decode_groups(s: Seq<u8>) -> Option<Seq<u8>>
    decreases s.len(),
{
    if s.len() == 0 {
        Some(seq![])
    } else if s.len() < 2 {
        None
    } else if s.len() <= 4 {
        decode_group(s)
    } else {
        match decode_group(s.take(4)) {
            None => None,
            Some(head) => match decode_groups(s.skip(4)) {
                None => None,
                Some(rest) => Some(head + rest),
            },
        }
    }
}

/// Bytes that the Base64 text with character codes `input` stands for.
pub open spec fn decode_bytes(input: Seq<u8>) -> Option<Seq<u8>> {
    decode_groups(strip_padding(input))
}

fn sextet_byte_exec(i: u32) -> (c: u8)
    requires
        i < 64,
    ensures
        c == sextet_byte(i as int),
{
    if i < 26 {
        (65 + i) as u8
    } else if i < 52 {
        (97 + (i - 26)) as u8
    } else if i < 62 {
        (48 + (i - 52)) as u8
    } else if i == 62 {
        43
    } else {
        47
    }
}

fn sextet_value_exec(c: u8) -> (v: Option<u32>)
    ensures
        v matches Some(x) ==> sextet_value(c) == Some(x as int) && x < 64,
        v is None ==> sextet_value(c) is None,
{
    if 65 <= c && c <= 90 {
        Some((c - 65) as u32)
    } else if 97 <= c && c <= 122 {
        Some((c - 97 + 26) as u32)
    } else if 48 <= c && c <= 57 {
        Some((c - 48 + 52) as u32)
    } else if c == 43 {
        Some(62)
    } else if c == 47 {
        Some(63)
    } else {
        None
    }
}

/// Length of the group that starts at `i` in a sequence of length `len`.
pub open spec fn group_len(len: int, i: int) -> int {
    if len - i > 3 { 3 } else { len - i }
}

fn encode_group_exec(data: &[u8], i: usize) -> (r: (u8, u8, u8, u8))
    requires
        i < data@.len(),
    ensures
        seq![r.0, r.1, r.2, r.3] == encode_group(
            data@.skip(i as int).take(group_len(data@.len() as int, i as int)),
        ),
{
    let rest = data.len() - i;
    let b0 = data[i] as u32;
    let b1 = if rest > 1 { data[i + 1] as u32 } else { 0 };
    let b2 = if rest > 2 { data[i + 2] as u32 } else { 0 };
    let n: u32 = b0 * 65536 + b1 * 256 + b2;
    let c0 = sextet_byte_exec(n / 262144);
    let c1 = sextet_byte_exec((n / 4096) % 64);
    let c2 = if rest > 1 { sextet_byte_exec((n / 64) % 64) } else { 61u8 };
    let c3 = if rest > 2 { sextet_byte_exec(n % 64) } else { 61u8 };
    proof {
        let g = data@.skip(i as int).take(group_len(data@.len() as int, i as int));
        assert(g[0] == data@[i as int]);
        if rest > 1 {
            assert(g[1] == data@[i + 1]);
        }
        if rest > 2 {
            assert(g[2] == data@[i + 2]);
        }
        assert(encode_group(g) =~= seq![c0, c1, c2, c3]);
    }
    (c0, c1, c2, c3)
}

proof fn lemma_encode_unfold(tail: Seq<u8>)
    requires
        tail.len() > 0,
    ensures
        encode_chars(tail) == encode_group(tail.take(group_len(tail.len() as int, 0))).map_values(
            |b: u8| b as char,
        ) + encode_chars(tail.skip(group_len(tail.len() as int, 0))),
{
    let k = group_len(tail.len() as int, 0);
    if tail.len() > 3 {
        lemma_map_chars_add(encode_group(tail.take(3)), encode_bytes(tail.skip(3)));
    } else {
        assert(tail.take(k) =~= tail);
        assert(tail.skip(k) =~= Seq::<u8>::empty());
        assert(encode_chars(tail.skip(k)) =~= Seq::<char>::empty());
        assert(encode_chars(tail) =~= encode_group(tail.take(k)).map_values(|b: u8| b as char)
            + encode_chars(tail.skip(k)));
    }
}

/// Standard Base64 (with `=` padding) of a map payload.
pub fn encode_base64(data: &[u8]) -> (out: String)
    ensures
        out@ == encode_chars(data@),
{
    let mut out = String::new();
    let len = data.len();
    let mut i: usize = 0;
    proof {
        assert(data@.skip(0) =~= data@);
    }
    while i < len
        invariant
            len == data@.len(),
            i <= len,
            encode_chars(data@) == out@ + encode_chars(data@.skip(i as int)),
        decreases len - i,
    {
        let (c0, c1, c2, c3) = encode_group_exec(data, i);
        let ghost before = out@;
        push_char(&mut out, c0 as char);
        push_char(&mut out, c1 as char);
        push_char(&mut out, c2 as char);
        push_char(&mut out, c3 as char);
        let next: usize = if len - i > 3 { i + 3 } else { len };
        proof {
            let tail = data@.skip(i as int);
            let k = group_len(len as int, i as int);
            lemma_encode_unfold(tail);
            assert(tail.skip(k) =~= data@.skip(next as int));
            assert(encode_group(tail.take(k)).map_values(|b: u8| b as char) =~= seq![
                c0 as char,
                c1 as char,
                c2 as char,
                c3 as char,
            ]);
            assert(out@ =~= before + seq![c0 as char, c1 as char, c2 as char, c3 as char]);
        }
        i = next;
    }
    proof {
        assert(data@.skip(len as int) =~= Seq::<u8>::empty());
        assert(encode_chars(data@.skip(len as int)) =~= Seq::<char>::empty());
        assert(out@ + encode_chars(data@.skip(len as int)) =~= out@);
    }
    out
}

/// `Some(head + rest)` when `rest` is present, `None` otherwise.
pub open spec fn prepend_bytes(head: Seq<u8>, rest: Option<Seq<u8>>) -> Option<Seq<u8>> {
    match rest {
        Some(r) => Some(head + r),
        None => None,
    }
}

/// Length of the decoding group that starts at `i` in a sequence of length `len`.
pub open spec fn quad_len(len: int, i: int) -> int {
    if len - i > 4 { 4 } else { len - i }
}

proof fn lemma_decode_unfold(s: Seq<u8>)
    requires
        s.len() >= 2,
    ensures
        decode_groups(s) == match decode_group(s.take(quad_len(s.len() as int, 0))) {
            None => None,
            Some(h) => prepend_bytes(h, decode_groups(s.skip(quad_len(s.len() as int, 0)))),
        },
{
    let k = quad_len(s.len() as int, 0);
    if s.len() <= 4 {
        assert(s.take(k) =~= s);
        assert(s.skip(k) =~= Seq::<u8>::empty());
        match decode_group(s) {
            None => {},
            Some(h) => {
                assert(h + Seq::<u8>::empty() =~= h);
            },
        }
    }
}

proof fn lemma_decode_step(bytes: Seq<u8>, i: int, before: Seq<u8>)
    requires
        0 <= i,
        i + 2 <= bytes.len(),
        decode_groups(bytes) == prepend_bytes(before, decode_groups(bytes.skip(i))),
    ensures
        ({
            let k = quad_len(bytes.len() as int, i);
            match decode_group(bytes.skip(i).take(k)) {
                None => decode_groups(bytes) is None,
                Some(h) => decode_groups(bytes) == prepend_bytes(
                    before + h,
                    decode_groups(bytes.skip(i + k)),
                ),
            }
        }),
{
    let tail = bytes.skip(i);
    let k = quad_len(bytes.len() as int, i);
    lemma_decode_unfold(tail);
    assert(tail.take(quad_len(tail.len() as int, 0)) =~= tail.take(k));
    assert(tail.skip(k) =~= bytes.skip(i + k));
    match decode_group(tail.take(k)) {
        None => {},
        Some(h) => {
            match decode_groups(bytes.skip(i + k)) {
                None => {},
                Some(r) => {
                    assert(before + (h + r) =~= (before + h) + r);
                },
            }
        },
    }
}

/// Decodes the group of up to four characters at `i`; on success returns the
/// three bytes of the 24-bit number it spells (of which the caller keeps one
/// per character beyond the first).
fn decode_group_exec(s: &Vec<u8>, i: usize) -> (r: Option<(u8, u8, u8)>)
    requires
        i + 2 <= s@.len(),
    ensures
        ({
            let g = s@.skip(i as int).take(quad_len(s@.len() as int, i as int));
            match r {
                None => decode_group(g) is None,
                Some((x, y, z)) => decode_group(g) is Some && decode_group(g).unwrap() == if g.len() > 3 {
                    seq![x, y, z]
                } else if g.len() > 2 {
                    seq![x, y]
                } else {
                    seq![x]
                },
            }
        }),
{
    let rest = s.len() - i;
    let k: usize = if rest > 4 { 4 } else { rest };
    let ghost g = s@.skip(i as int).take(k as int);
    let mut n: u32 = 0;
    let mut j: usize = 0;
    while j < k
        invariant
            k <= 4,
            i + k <= s@.len(),
            s@.len() <= usize::MAX,
            g == s@.skip(i as int).take(k as int),
            j <= k,
            forall|t: int| 0 <= t < j ==> (#[trigger] sextet_value(g[t])) is Some,
            n as int == (if j > 0 { sextet_value(g[0]).unwrap() * 262144 } else { 0 }) + (if j
                > 1 { sextet_value(g[1]).unwrap() * 4096 } else { 0 }) + (if j > 2 {
                sextet_value(g[2]).unwrap() * 64
            } else { 0 }) + (if j > 3 { sextet_value(g[3]).unwrap() } else { 0 }),
            n < 16777216,
        decreases k - j,
    {
        assert(g[j as int] == s@[i + j]);
        match sextet_value_exec(s[i + j]) {
            None => {
                return None;
            },
            Some(v) => {
                let shift: u32 = if j == 0 {
                    262144
                } else if j == 1 {
                    4096
                } else if j == 2 {
                    64
                } else {
                    1
                };
                proof {
                    if j == 0 {
                        assert(v * 262144 < 16777216);
                    }
                    if j == 1 {
                        assert(v * 4096 < 262144);
                    }
                    if j == 2 {
                        assert(v * 64 < 4096);
                    }
                }
                n = n + v * shift;
            },
        }
        j = j + 1;
    }
    proof {
        assert(group_valid(g));
        assert(n as int == group_number(g));
    }
    Some(((n / 65536) as u8, ((n / 256) % 256) as u8, (n % 256) as u8))
}

/// Bytes of a Base64 text (standard alphabet); `=` is ignored wherever it
/// stands. `Err` when a character lies outside the alphabet or the text ends
/// in a lone character.
pub fn decode_base64(input: &str) -> (res: Result<Vec<u8>, ()>)
    ensures
        match res {
            Ok(v) => decode_bytes(input.spec_bytes()) == Some(v@),
            Err(_) => decode_bytes(input.spec_bytes()) is None,
        },
{
    let raw = input.as_bytes();
    let mut bytes: Vec<u8> = Vec::new();
    let mut p: usize = 0;
    while p < raw.len()
        invariant
            p <= raw@.len(),
            bytes@ == strip_padding(raw@.take(p as int)),
        decreases raw@.len() - p,
    {
        proof {
            assert(raw@.take(p + 1).drop_last() =~= raw@.take(p as int));
        }
        if raw[p] != 61 {
            bytes.push(raw[p]);
        }
        p = p + 1;
    }
    proof {
        assert(raw@.take(raw@.len() as int) =~= raw@);
        assert(bytes@ == strip_padding(input.spec_bytes()));
    }
    let len = bytes.len();
    let mut out: Vec<u8> = Vec::new();
    let mut i: usize = 0;
    proof {
        assert(bytes@.skip(0) =~= bytes@);
        assert(out@ + bytes@ =~= bytes@);
        assert(prepend_bytes(out@, decode_groups(bytes@)) == decode_groups(bytes@)) by {
            match decode_groups(bytes@) {
                None => {},
                Some(r) => {
                    assert(out@ + r =~= r);
                },
            }
        }
    }
    while i < len
        invariant
            len == bytes@.len(),
            i <= len,
            decode_bytes(input.spec_bytes()) == decode_groups(bytes@),
            decode_groups(bytes@) == prepend_bytes(out@, decode_groups(bytes@.skip(i as int))),
        decreases len - i,
    {
        let rest = len - i;
        if rest < 2 {
            proof {
                assert(decode_groups(bytes@.skip(i as int)) is None);
            }
            return Err(());
        }
        let k: usize = if rest > 4 { 4 } else { rest };
        proof {
            lemma_decode_step(bytes@, i as int, out@);
        }
        match decode_group_exec(&bytes, i) {
            None => {
                return Err(());
            },
            Some((x, y, z)) => {
                let ghost before = out@;
                out.push(x);
                if k > 2 {
                    out.push(y);
                }
                if k > 3 {
                    out.push(z);
                }
                proof {
                    let h = decode_group(bytes@.skip(i as int).take(k as int)).unwrap();
                    assert(out@ =~= before + h);
                }
            },
        }
        i = i + k;
    }
    proof {
        assert(bytes@.skip(len as int) =~= Seq::<u8>::empty());
        assert(out@ + Seq::<u8>::empty() =~= out@);
    }
    Ok(out)
}

proof fn lemma_sextet_inverse(x: int)
    requires
        0 <= x < 64,
    ensures
        sextet_value(sextet_byte(x)) == Some(x),
        sextet_byte(x) != pad_byte(),
{
}

proof fn lemma_group_arith(b0: u32, b1: u32, b2: u32)
    requires
        b0 < 256,
        b1 < 256,
        b2 < 256,
    ensures
        ({
            let n = b0 * 65536 + b1 * 256 + b2;
            &&& n / 262144 < 64
            &&& (n / 262144) * 262144 + ((n / 4096) % 64) * 4096 + ((n / 64) % 64) * 64 + n % 64 == n
            &&& n / 65536 == b0
            &&& (n / 256) % 256 == b1
            &&& n % 256 == b2
            &&& b2 == 0 ==> n % 64 == 0
            &&& b1 == 0 && b2 == 0 ==> (n / 64) % 64 == 0
        }),
{
    assert(b0 * 65536 + b1 * 256 + b2 < 16777216) by (nonlinear_arith)
        requires
            b0 < 256,
            b1 < 256,
            b2 < 256,
    ;
    let n: u32 = (b0 * 65536 + b1 * 256 + b2) as u32;
    assert((n / 262144) * 262144 + ((n / 4096) % 64) * 4096 + ((n / 64) % 64) * 64 + n % 64 == n
        && n / 262144 < 64) by (bit_vector)
        requires
            n < 16777216,
    ;
    assert(n / 65536 == b0 && (n / 256) % 256 == b1 && n % 256 == b2 && (b2 == 0 ==> n % 64 == 0)
        && (b1 == 0 && b2 == 0 ==> (n / 64) % 64 == 0)) by (bit_vector)
        requires
            n == b0 * 65536 + b1 * 256 + b2,
            b0 < 256,
            b1 < 256,
            b2 < 256,
    ;
}

/// Encoding of a group with its padding left out.
pub open spec fn encode_group_unpadded(g: Seq<u8>) -> Seq<u8> {
    encode_group(g).take(g.len() + 1 as int)
}

proof fn lemma_group_roundtrip(g: Seq<u8>)
    requires
        1 <= g.len() <= 3,
    ensures
        decode_group(encode_group_unpadded(g)) == Some(g),
        strip_padding(encode_group(g)) == encode_group_unpadded(g),
        encode_group(g).len() == 4,
{
    let b0 = g[0] as u32;
    let b1: u32 = if g.len() > 1 { g[1] as u32 } else { 0 };
    let b2: u32 = if g.len() > 2 { g[2] as u32 } else { 0 };
    lemma_group_arith(b0, b1, b2);
    let n = b0 * 65536 + b1 * 256 + b2;
    let e = encode_group(g);
    let u = encode_group_unpadded(g);
    lemma_sextet_inverse(n / 262144);
    lemma_sextet_inverse((n / 4096) % 64);
    lemma_sextet_inverse((n / 64) % 64);
    lemma_sextet_inverse(n % 64);
    assert(group_valid(u));
    assert(group_number(u) == n);
    let d = decode_group(u).unwrap();
    assert(d =~= g);
    // padding
    let e3 = e.drop_last();
    let e2 = e3.drop_last();
    let e1 = e2.drop_last();
    let e0 = e1.drop_last();
    assert(e0 =~= Seq::<u8>::empty());
    assert(strip_padding(e0) =~= Seq::<u8>::empty());
    assert(strip_padding(e1) =~= e.take(1));
    assert(strip_padding(e2) =~= e.take(2));
    if g.len() == 1 {
        assert(strip_padding(e3) =~= e.take(2));
    } else {
        assert(strip_padding(e3) =~= e.take(3));
    }
    assert(e.drop_last() =~= e3);
    assert(strip_padding(e) =~= u);
}

proof fn lemma_strip_padding_add(a: Seq<u8>, b: Seq<u8>)
    ensures
        strip_padding(a + b) == strip_padding(a) + strip_padding(b),
    decreases b.len(),
{
    if b.len() == 0 {
        assert(a + b =~= a);
        assert(strip_padding(a) + strip_padding(b) =~= strip_padding(a));
    } else {
        lemma_strip_padding_add(a, b.drop_last());
        assert((a + b).drop_last() =~= a + b.drop_last());
        assert((a + b).last() == b.last());
        if b.last() == pad_byte() {
        } else {
            assert(strip_padding(a + b) =~= strip_padding(a) + strip_padding(b));
        }
    }
}

/// Encoding with every padding character left out, group by group.
pub open spec fn encode_unpadded(data: Seq<u8>) -> Seq<u8>
    decreases data.len(),
{
    if data.len() == 0 {
        seq![]
    } else if data.len() <= 3 {
        encode_group_unpadded(data)
    } else {
        encode_group_unpadded(data.take(3)) + encode_unpadded(data.skip(3))
    }
}

proof fn lemma_roundtrip_bytes(data: Seq<u8>)
    ensures
        strip_padding(encode_bytes(data)) == encode_unpadded(data),
        decode_groups(encode_unpadded(data)) == Some(data),
    decreases data.len(),
{
    if data.len() == 0 {
        assert(strip_padding(Seq::<u8>::empty()) =~= Seq::<u8>::empty());
    } else if data.len() <= 3 {
        lemma_group_roundtrip(data);
    } else {
        let g = data.take(3);
        let rest = data.skip(3);
        lemma_group_roundtrip(g);
        lemma_roundtrip_bytes(rest);
        lemma_strip_padding_add(encode_group(g), encode_bytes(rest));
        let u = encode_unpadded(data);
        let ug = encode_group_unpadded(g);
        assert(ug.len() == 4);
        assert(u.take(4) =~= ug);
        assert(u.skip(4) =~= encode_unpadded(rest));
        lemma_encode_unpadded_nonempty(rest);
        assert(u.len() > 4);
        assert(g + rest =~= data);
    }
}

proof fn lemma_encode_unpadded_nonempty(data: Seq<u8>)
    requires
        data.len() > 0,
    ensures
        encode_unpadded(data).len() >= 2,
    decreases data.len(),
{
    if data.len() > 3 {
        lemma_encode_unpadded_nonempty(data.skip(3));
    }
}

/// Decoding the Base64 text of any payload gives the payload back: what
/// `encode_base64` stores, `decode_base64` restores.
pub proof fn lemma_base64_round_trip(data: Seq<u8>)
    ensures
        decode_bytes(encode_bytes(data)) == Some(data),
        vstd::utf8::encode_utf8(encode_chars(data)) == encode_bytes(data),
{
    lemma_roundtrip_bytes(data);
    lemma_encode_ascii(data);
    let chars = encode_chars(data);
    vstd::utf8::is_ascii_chars_encode_utf8(chars);
    assert(vstd::utf8::encode_utf8(chars) =~= encode_bytes(data));
}

proof fn lemma_strip_padding_keeps(s: Seq<u8>, i: int)
    requires
        0 <= i < s.len(),
        s[i] != pad_byte(),
    ensures
        strip_padding(s).contains(s[i]),
    decreases s.len(),
{
    if i == s.len() - 1 {
        assert(strip_padding(s) == strip_padding(s.drop_last()).push(s[i]));
        assert(strip_padding(s)[strip_padding(s).len() - 1] == s[i]);
    } else {
        lemma_strip_padding_keeps(s.drop_last(), i);
        let t = strip_padding(s.drop_last());
        let j = choose|j: int| 0 <= j < t.len() && t[j] == s[i];
        if s.last() != pad_byte() {
            assert(strip_padding(s)[j] == s[i]);
        }
    }
}

proof fn lemma_invalid_groups(s: Seq<u8>, i: int)
    requires
        0 <= i < s.len(),
        sextet_value(s[i]) is None,
    ensures
        decode_groups(s) is None,
    decreases s.len(),
{
    if s.len() >= 2 && s.len() <= 4 {
        assert(!group_valid(s));
    } else if s.len() > 4 {
        if i < 4 {
            assert(s.take(4)[i] == s[i]);
            assert(!group_valid(s.take(4)));
        } else {
            assert(s.skip(4)[i - 4] == s[i]);
            lemma_invalid_groups(s.skip(4), i - 4);
        }
    }
}

/// A text holding a byte outside the Base64 alphabet (other than the
/// padding `=`) decodes to nothing.
pub proof fn law_foreign_byte_rejected(input: Seq<u8>, i: int)
    requires
        0 <= i < input.len(),
        input[i] != pad_byte(),
        sextet_value(input[i]) is None,
    ensures
        decode_bytes(input) is None,
{
    lemma_strip_padding_keeps(input, i);
    let t = strip_padding(input);
    let j = choose|j: int| 0 <= j < t.len() && t[j] == input[i];
    lemma_invalid_groups(t, j);
}

proof fn lemma_encode_ascii(data: Seq<u8>)
    ensures
        forall|i: int| 0 <= i < encode_bytes(data).len() ==> #[trigger] encode_bytes(data)[i] < 128,
        vstd::utf8::is_ascii_chars(encode_chars(data)),
    decreases data.len(),
{
    if data.len() > 3 {
        lemma_encode_ascii(data.skip(3));
    }
    assert forall|i: int| 0 <= i < encode_bytes(data).len() implies #[trigger] encode_bytes(data)[i] < 128 by {
        if data.len() > 3 {
            let g = encode_group(data.take(3));
            if i >= 4 {
                assert(encode_bytes(data)[i] == encode_bytes(data.skip(3))[i - 4]);
            }
        }
    }
}

proof fn lemma_map_chars_add(a: Seq<u8>, b: Seq<u8>)
    ensures
        (a + b).map_values(|x: u8| x as char) == a.map_values(|x: u8| x as char) + b.map_values(
            |x: u8| x as char,
        ),
{
    assert((a + b).map_values(|x: u8| x as char) =~= a.map_values(|x: u8| x as char)
        + b.map_values(|x: u8| x as char));
}

/// Base64 text of a map payload for storage; encoding always succeeds.
pub fn base64_encode(bytes: &[u8]) -> (r: Option<String>)
    ensures
        r matches Some(s) && s@ == encode_chars(bytes@),
{
    Some(encode_base64(bytes))
}

/// The payload a stored base64 text holds, `None` when a character lies
/// outside the alphabet or the text ends in a lone character.
pub fn base64_decode(encoded: &str) -> (r: Option<Vec<u8>>)
    ensures
        match r {
            Some(v) => decode_bytes(encoded.spec_bytes()) == Some(v@),
            None => decode_bytes(encoded.spec_bytes()) is None,
        },
{
    match decode_base64(encoded) {
        Ok(v) => Some(v),
        Err(_) => None,
    }
}

} // verus!
