//! Byte-level text building blocks shared by the output formatter and the
//! envelope encoder: appending UTF-8 text, decimal renderings of integers,
//! and JSON string escaping.

use vstd::prelude::*;
use vstd::string::StringSliceAdditionalSpecFns;
use vstd::utf8::encode_utf8;

verus! {

/// The decimal rendering of a natural number, most significant digit first,
/// with no leading zeros (`0` renders as the single byte `b'0'`).
pub open spec fn dec_rep(n: nat) -> Seq<u8>
    decreases n,
{
    if n < 10 {
        seq![(0x30 + n) as u8]
    } else {
        dec_rep(n / 10) + seq![(0x30 + n % 10) as u8]
    }
}

/// The decimal rendering of an integer: a leading `-` for negatives.
pub open spec fn dec_rep_int(v: int) -> Seq<u8> {
    if v < 0 {
        seq![0x2du8] + dec_rep((-v) as nat)
    } else {
        dec_rep(v as nat)
    }
}

/// The rendering of a boolean as `true` or `false`.
pub open spec fn bool_rep(b: bool) -> Seq<u8> {
    if b {
        ("true").spec_bytes()
    } else {
        ("false").spec_bytes()
    }
}

/// Lower-case hexadecimal digit for a value below 16.
pub open spec fn hex_digit(n: nat) -> u8 {
    if n < 10 {
        (0x30 + n) as u8
    } else {
        (0x57 + n) as u8
    }
}

/// How a single byte of UTF-8 text appears inside a JSON string literal.
/// Bytes above 0x7f belong to multi-byte scalars and pass through unchanged.
pub open spec fn esc_byte(b: u8) -> Seq<u8> {
    if b == 0x22 {
        seq![0x5cu8, 0x22u8]
    } else if b == 0x5c {
        seq![0x5cu8, 0x5cu8]
    } else if b == 0x0a {
        seq![0x5cu8, 0x6eu8]
    } else if b == 0x0d {
        seq![0x5cu8, 0x72u8]
    } else if b == 0x09 {
        seq![0x5cu8, 0x74u8]
    } else if b < 0x20 {
        seq![0x5cu8, 0x75u8, 0x30u8, 0x30u8, hex_digit((b / 16) as nat), hex_digit((b % 16) as nat)]
    } else {
        seq![b]
    }
}

/// JSON string escaping applied byte by byte to UTF-8 text.
pub open spec fn json_escaped(s: Seq<u8>) -> Seq<u8>
    decreases s.len(),
{
    if s.len() == 0 {
        Seq::empty()
    } else {
        esc_byte(s[0]) + json_escaped(s.drop_first())
    }
}

/// Escaping distributes over appending one byte at the end.
pub proof fn lemma_json_escaped_push(s: Seq<u8>, b: u8)
    ensures
        json_escaped(s.push(b)) == json_escaped(s) + esc_byte(b),
    decreases s.len(),
{
    if s.len() == 0 {
        let single = s.push(b);
        assert(single.drop_first() =~= Seq::<u8>::empty());
        assert(json_escaped(single) == esc_byte(b) + json_escaped(single.drop_first()));
        assert(json_escaped(Seq::<u8>::empty()) == Seq::<u8>::empty());
        assert(json_escaped(s) == Seq::<u8>::empty());
        assert(json_escaped(s.push(b)) =~= json_escaped(s) + esc_byte(b));
    } else {
        assert(s.push(b).drop_first() =~= s.drop_first().push(b));
        lemma_json_escaped_push(s.drop_first(), b);
        assert(json_escaped(s.push(b)) =~= json_escaped(s) + esc_byte(b));
    }
}

/// Appends the UTF-8 bytes of `s` to `out`.
pub fn push_str_bytes(out: &mut Vec<u8>, s: &str)
    ensures
        final(out)@ == old(out)@ + encode_utf8(s@),
{
    out.extend_from_slice(s.as_bytes());
}

/// Appends the decimal rendering of `n` to `out`.
pub fn push_u64_dec(out: &mut Vec<u8>, n: u64)
    ensures
        final(out)@ == old(out)@ + dec_rep(n as nat),
{
    let mut low_digits: Vec<u8> = Vec::new();
    let mut m: u64 = n;
    while m >= 10
        invariant
            dec_rep(n as nat) == dec_rep(m as nat) + low_digits@.reverse(),
        decreases m,
    {
        let d: u8 = (m % 10) as u8;
        proof {
            assert(dec_rep(m as nat) == dec_rep((m / 10) as nat) + seq![(0x30 + m % 10) as u8]);
            assert(low_digits@.push((0x30 + d) as u8).reverse() =~= seq![(0x30 + d) as u8]
                + low_digits@.reverse());
            assert(dec_rep((m / 10) as nat) + low_digits@.push((0x30 + d) as u8).reverse()
                =~= dec_rep(m as nat) + low_digits@.reverse());
        }
        low_digits.push(0x30 + d);
        m = m / 10;
    }
    proof {
        assert(dec_rep(m as nat) == seq![(0x30 + m) as u8]);
    }
    out.push(0x30 + m as u8);
    let ghost mid = out@;
    proof {
        assert(mid =~= old(out)@ + dec_rep(m as nat));
    }
    let mut i: usize = low_digits.len();
    while i > 0
        invariant
            i <= low_digits.len(),
            out@ == mid + low_digits@.reverse().take(low_digits@.len() - i),
        decreases i,
    {
        i = i - 1;
        let d: u8 = low_digits[i];
        out.push(d);
        proof {
            let r = low_digits@.reverse();
            assert(r[low_digits@.len() - i - 1] == low_digits@[i as int]);
            assert(r.take(low_digits@.len() - i) =~= r.take(low_digits@.len() - i - 1).push(
                low_digits@[i as int],
            ));
        }
    }
    proof {
        assert(low_digits@.reverse().take(low_digits@.len() as int) =~= low_digits@.reverse());
        assert(out@ =~= old(out)@ + dec_rep(n as nat));
    }
}

/// Appends the decimal rendering of `v` to `out`, with a `-` for negatives.
pub fn push_i32_dec(out: &mut Vec<u8>, v: i32)
    ensures
        final(out)@ == old(out)@ + dec_rep_int(v as int),
{
    if v < 0 {
        out.push(0x2d);
        let magnitude: u64 = (-(v as i64)) as u64;
        push_u64_dec(out, magnitude);
        proof {
            assert(out@ =~= old(out)@ + dec_rep_int(v as int));
        }
    } else {
        push_u64_dec(out, v as u64);
    }
}

/// Appends `true` or `false` to `out`.
pub fn push_bool(out: &mut Vec<u8>, b: bool)
    ensures
        final(out)@ == old(out)@ + bool_rep(b),
{
    if b {
        push_str_bytes(out, "true");
    } else {
        push_str_bytes(out, "false");
    }
}

/// Appends the JSON-escaped UTF-8 bytes of `s` to `out` (no quotes).
pub fn push_json_escaped(out: &mut Vec<u8>, s: &str)
    ensures
        final(out)@ == old(out)@ + json_escaped(encode_utf8(s@)),
{
    let b: &[u8] = s.as_bytes();
    let n: usize = b.len();
    let mut i: usize = 0;
    while i < n
        invariant
            n == b@.len(),
            i <= n,
            b@ == encode_utf8(s@),
            out@ == old(out)@ + json_escaped(b@.take(i as int)),
        decreases n - i,
    {
        let c: u8 = b[i];
        if c == 0x22 {
            out.push(0x5c);
            out.push(0x22);
        } else if c == 0x5c {
            out.push(0x5c);
            out.push(0x5c);
        } else if c == 0x0a {
            out.push(0x5c);
            out.push(0x6e);
        } else if c == 0x0d {
            out.push(0x5c);
            out.push(0x72);
        } else if c == 0x09 {
            out.push(0x5c);
            out.push(0x74);
        } else if c < 0x20 {
            out.push(0x5c);
            out.push(0x75);
            out.push(0x30);
            out.push(0x30);
            let hi: u8 = c / 16;
            let lo: u8 = c % 16;
            out.push(if hi < 10 { 0x30 + hi } else { 0x57 + hi });
            out.push(if lo < 10 { 0x30 + lo } else { 0x57 + lo });
        } else {
            out.push(c);
        }
        proof {
            assert(out@ =~= old(out)@ + json_escaped(b@.take(i as int)) + esc_byte(b@[i as int]));
            assert(b@.take(i + 1) =~= b@.take(i as int).push(b@[i as int]));
            lemma_json_escaped_push(b@.take(i as int), b@[i as int]);
            assert(out@ =~= old(out)@ + json_escaped(b@.take(i + 1)));
        }
        i = i + 1;
    }
    proof {
        assert(b@.take(n as int) =~= b@);
    }
}

/// Appends a complete JSON string literal (quotes included) for `s`.
pub fn push_json_string(out: &mut Vec<u8>, s: &str)
    ensures
        final(out)@ == old(out)@ + json_string_rep(s@),
{
    out.push(0x22);
    push_json_escaped(out, s);
    out.push(0x22);
    proof {
        assert(out@ =~= old(out)@ + json_string_rep(s@));
    }
}

/// A JSON string literal: quote, escaped UTF-8 bytes, quote.
pub open spec fn json_string_rep(s: Seq<char>) -> Seq<u8> {
    seq![0x22u8] + json_escaped(encode_utf8(s)) + seq![0x22u8]
}

/// Returns true if some element of `v` views like `s`.
pub fn contains_string(v: &Vec<String>, s: &String) -> (r: bool)
    ensures
        r == v.deep_view().contains(s@),
{
    let n: usize = v.len();
    let mut i: usize = 0;
    while i < n
        invariant
            n == v@.len(),
            i <= n,
            forall|k: int| 0 <= k < i ==> v.deep_view()[k] != s@,
        decreases n - i,
    {
        if v[i].eq(s) {
            assert(v.deep_view()[i as int] == s@);
            return true;
        }
        i = i + 1;
    }
    false
}

/// Lexicographic order on byte sequences: the empty sequence first, then
/// byte by byte, a proper prefix before its extensions.
pub open spec fn bytes_le(a: Seq<u8>, b: Seq<u8>) -> bool
    decreases a.len(),
{
    if a.len() == 0 {
        true
    } else if b.len() == 0 {
        false
    } else if a[0] < b[0] {
        true
    } else if a[0] > b[0] {
        false
    } else {
        bytes_le(a.drop_first(), b.drop_first())
    }
}

/// Compares two strings lexicographically by their UTF-8 bytes.
pub fn str_bytes_le(a: &str, b: &str) -> (r: bool)
    ensures
        r == bytes_le(encode_utf8(a@), encode_utf8(b@)),
{
    let ab: &[u8] = a.as_bytes();
    let bb: &[u8] = b.as_bytes();
    let n1: usize = ab.len();
    let n2: usize = bb.len();
    let mut i: usize = 0;
    proof {
        assert(ab@.skip(0) =~= ab@);
        assert(bb@.skip(0) =~= bb@);
    }
    while i < n1 && i < n2
        invariant
            i <= n1,
            i <= n2,
            n1 == ab@.len(),
            n2 == bb@.len(),
            ab@ == encode_utf8(a@),
            bb@ == encode_utf8(b@),
            bytes_le(ab@, bb@) == bytes_le(ab@.skip(i as int), bb@.skip(i as int)),
        decreases n1 - i,
    {
        let ca: u8 = ab[i];
        let cb: u8 = bb[i];
        if ca < cb {
            proof {
                assert(ab@.skip(i as int)[0] == ca);
                assert(bb@.skip(i as int)[0] == cb);
            }
            return true;
        }
        if ca > cb {
            proof {
                assert(ab@.skip(i as int)[0] == ca);
                assert(bb@.skip(i as int)[0] == cb);
            }
            return false;
        }
        proof {
            assert(ab@.skip(i as int)[0] == ca);
            assert(bb@.skip(i as int)[0] == cb);
            assert(ab@.skip(i as int).drop_first() =~= ab@.skip(i + 1));
            assert(bb@.skip(i as int).drop_first() =~= bb@.skip(i + 1));
        }
        i = i + 1;
    }
    proof {
        if i == n1 {
            assert(ab@.skip(i as int).len() == 0);
        } else {
            assert(bb@.skip(i as int).len() == 0);
            assert(ab@.skip(i as int).len() > 0);
        }
    }
    n1 <= n2
}

/// Returns whether two string slices hold the same characters.
pub fn str_eq(a: &str, b: &str) -> (r: bool)
    ensures
        r == (a@ == b@),
{
    let ab: &[u8] = a.as_bytes();
    let bb: &[u8] = b.as_bytes();
    if ab.len() != bb.len() {
        proof {
            if a@ == b@ {
                assert(encode_utf8(a@) == encode_utf8(b@));
            }
        }
        return false;
    }
    let n: usize = ab.len();
    let mut i: usize = 0;
    while i < n
        invariant
            n == ab@.len(),
            ab@.len() == bb@.len(),
            ab@ == encode_utf8(a@),
            bb@ == encode_utf8(b@),
            i <= n,
            forall|k: int| 0 <= k < i ==> ab@[k] == bb@[k],
        decreases n - i,
    {
        if ab[i] != bb[i] {
            proof {
                if a@ == b@ {
                    assert(encode_utf8(a@) == encode_utf8(b@));
                    assert(ab@[i as int] == bb@[i as int]);
                }
            }
            return false;
        }
        i = i + 1;
    }
    proof {
        assert(ab@ =~= bb@);
        vstd::utf8::encode_utf8_decode_utf8(a@);
        vstd::utf8::encode_utf8_decode_utf8(b@);
    }
    true
}

/// The items joined by `sep`: nothing for an empty list, and no leading or
/// trailing separator.
pub open spec fn joined(items: Seq<Seq<u8>>, sep: Seq<u8>) -> Seq<u8>
    decreases items.len(),
{
    if items.len() == 0 {
        Seq::empty()
    } else if items.len() == 1 {
        items[0]
    } else {
        joined(items.drop_last(), sep) + sep + items.last()
    }
}

/// Joining distributes over appending one item at the end.
pub proof fn lemma_joined_push(items: Seq<Seq<u8>>, sep: Seq<u8>, item: Seq<u8>)
    ensures
        items.len() == 0 ==> joined(items.push(item), sep) == item,
        items.len() > 0 ==> joined(items.push(item), sep) == joined(items, sep) + sep + item,
{
    let t = items.push(item);
    if items.len() == 0 {
        assert(t.len() == 1);
        assert(joined(t, sep) == t[0]);
    } else {
        assert(t.drop_last() =~= items);
        assert(t.last() == item);
    }
}

/// Whether a byte is ASCII whitespace: tab through carriage return, or
/// space.
pub open spec fn is_ws_byte(b: u8) -> bool {
    (0x09 <= b <= 0x0d) || b == 0x20
}

/// Whether three bytes are the UTF-8 encoding of a whitespace scalar: the
/// ogham space mark, the en quad through hair space range, the line and
/// paragraph separators, narrow no-break space, medium mathematical space,
/// or ideographic space.
pub open spec fn is_three_byte_ws(a: u8, b: u8, c: u8) -> bool {
    (a == 0xe1 && b == 0x9a && c == 0x80) || (a == 0xe2 && b == 0x80 && ((0x80 <= c <= 0x8a) || c
        == 0xa8 || c == 0xa9 || c == 0xaf)) || (a == 0xe2 && b == 0x81 && c == 0x9f) || (a == 0xe3
        && b == 0x80 && c == 0x80)
}

/// The length of the whitespace scalar that ends `s`, if one does: one byte
/// of ASCII whitespace, the two-byte next line or no-break space, or a
/// three-byte whitespace scalar; zero otherwise.
pub open spec fn ws_suffix_len(s: Seq<u8>) -> int {
    if s.len() >= 1 && is_ws_byte(s.last()) {
        1
    } else if s.len() >= 2 && s[s.len() - 2] == 0xc2 && (s.last() == 0x85 || s.last() == 0xa0) {
        2
    } else if s.len() >= 3 && is_three_byte_ws(s[s.len() - 3], s[s.len() - 2], s.last()) {
        3
    } else {
        0
    }
}

/// The bytes with trailing whitespace scalars removed, whitespace as the
/// original text defines it.  Non-whitespace multi-byte scalars are
/// untouched: their bytes match none of the trimmed suffixes.
pub open spec fn trim_end_bytes(s: Seq<u8>) -> Seq<u8>
    decreases s.len(),
{
    if ws_suffix_len(s) > 0 {
        trim_end_bytes(s.take(s.len() - ws_suffix_len(s)))
    } else {
        s
    }
}

/// The length of the whitespace scalar ending the first `j` bytes of `b`.
fn ws_suffix(b: &[u8], j: usize) -> (k: usize)
    requires
        j <= b@.len(),
    ensures
        k as int == ws_suffix_len(b@.take(j as int)),
        k <= j,
{
    proof {
        let t = b@.take(j as int);
        if j >= 1 {
            assert(t.last() == b@[j - 1]);
        }
        if j >= 2 {
            assert(t[t.len() - 2] == b@[j - 2]);
        }
        if j >= 3 {
            assert(t[t.len() - 3] == b@[j - 3]);
        }
    }
    if j >= 1 && ((0x09 <= b[j - 1] && b[j - 1] <= 0x0d) || b[j - 1] == 0x20) {
        1
    } else if j >= 2 && b[j - 2] == 0xc2 && (b[j - 1] == 0x85 || b[j - 1] == 0xa0) {
        2
    } else if j >= 3 && ((b[j - 3] == 0xe1 && b[j - 2] == 0x9a && b[j - 1] == 0x80) || (b[j - 3]
        == 0xe2 && b[j - 2] == 0x80 && ((0x80 <= b[j - 1] && b[j - 1] <= 0x8a) || b[j - 1] == 0xa8
        || b[j - 1] == 0xa9 || b[j - 1] == 0xaf)) || (b[j - 3] == 0xe2 && b[j - 2] == 0x81 && b[j
        - 1] == 0x9f) || (b[j - 3] == 0xe3 && b[j - 2] == 0x80 && b[j - 1] == 0x80)) {
        3
    } else {
        0
    }
}

/// Appends the UTF-8 bytes of `s` with trailing whitespace removed.
pub fn push_trimmed_end(out: &mut Vec<u8>, s: &str)
    ensures
        final(out)@ == old(out)@ + trim_end_bytes(encode_utf8(s@)),
{
    let b: &[u8] = s.as_bytes();
    let mut j: usize = b.len();
    proof {
        assert(b@.take(b@.len() as int) =~= b@);
    }
    let mut k: usize = ws_suffix(b, j);
    while k > 0
        invariant
            j <= b@.len(),
            k <= j,
            b@ == encode_utf8(s@),
            k as int == ws_suffix_len(b@.take(j as int)),
            trim_end_bytes(b@) == trim_end_bytes(b@.take(j as int)),
        decreases j,
    {
        proof {
            let t = b@.take(j as int);
            assert(t.take(t.len() - ws_suffix_len(t)) =~= b@.take(j - k));
        }
        j = j - k;
        k = ws_suffix(b, j);
    }
    proof {
        let t = b@.take(j as int);
        assert(ws_suffix_len(t) == 0);
        assert(trim_end_bytes(t) =~= t);
    }
    let mut i: usize = 0;
    while i < j
        invariant
            i <= j,
            j <= b@.len(),
            b@ == encode_utf8(s@),
            out@ == old(out)@ + b@.take(j as int).take(i as int),
        decreases j - i,
    {
        let c: u8 = b[i];
        out.push(c);
        proof {
            assert(b@.take(j as int).take(i + 1) =~= b@.take(j as int).take(i as int).push(
                b@[i as int],
            ));
        }
        i = i + 1;
    }
    proof {
        assert(b@.take(j as int).take(j as int) =~= b@.take(j as int));
        assert(out@ =~= old(out)@ + trim_end_bytes(encode_utf8(s@)));
    }
}

/// A JSON array of numbers, one per byte of `data`.
pub open spec fn json_u8_array_rep(data: Seq<u8>) -> Seq<u8> {
    seq![0x5bu8] + joined(data.map_values(|b: u8| dec_rep(b as nat)), seq![0x2cu8]) + seq![0x5du8]
}

/// Appends a JSON array of numbers, one per byte of `data`.
pub fn push_json_u8_array(out: &mut Vec<u8>, data: &Vec<u8>)
    ensures
        final(out)@ == old(out)@ + json_u8_array_rep(data@),
{
    let ghost reps = data@.map_values(|b: u8| dec_rep(b as nat));
    out.push(0x5b);
    let mut i: usize = 0;
    while i < data.len()
        invariant
            i <= data@.len(),
            reps == data@.map_values(|b: u8| dec_rep(b as nat)),
            out@ == old(out)@ + seq![0x5bu8] + joined(reps.take(i as int), seq![0x2cu8]),
        decreases data@.len() - i,
    {
        if i > 0 {
            out.push(0x2c);
        }
        let b: u8 = data[i];
        push_u64_dec(out, b as u64);
        proof {
            assert(reps.take(i + 1) =~= reps.take(i as int).push(reps[i as int]));
            lemma_joined_push(reps.take(i as int), seq![0x2cu8], reps[i as int]);
            assert(out@ =~= old(out)@ + seq![0x5bu8] + joined(reps.take(i + 1), seq![0x2cu8]));
        }
        i = i + 1;
    }
    out.push(0x5d);
    proof {
        assert(reps.take(data@.len() as int) =~= reps);
        assert(out@ =~= old(out)@ + json_u8_array_rep(data@));
    }
}

/// A JSON array of string literals.
pub open spec fn json_string_array_rep(items: Seq<Seq<char>>) -> Seq<u8> {
    seq![0x5bu8] + joined(items.map_values(|s: Seq<char>| json_string_rep(s)), seq![0x2cu8])
        + seq![0x5du8]
}

/// Appends a JSON array of string literals, one per item.
pub fn push_json_string_array(out: &mut Vec<u8>, items: &Vec<String>)
    ensures
        final(out)@ == old(out)@ + json_string_array_rep(items.deep_view()),
{
    let ghost reps = items.deep_view().map_values(|s: Seq<char>| json_string_rep(s));
    out.push(0x5b);
    let mut i: usize = 0;
    while i < items.len()
        invariant
            i <= items@.len(),
            items@.len() == items.deep_view().len(),
            reps == items.deep_view().map_values(|s: Seq<char>| json_string_rep(s)),
            forall|k: int| 0 <= k < items@.len() ==> items.deep_view()[k] == items@[k]@,
            out@ == old(out)@ + seq![0x5bu8] + joined(reps.take(i as int), seq![0x2cu8]),
        decreases items@.len() - i,
    {
        if i > 0 {
            out.push(0x2c);
        }
        push_json_string(out, items[i].as_str());
        proof {
            assert(reps.take(i + 1) =~= reps.take(i as int).push(reps[i as int]));
            lemma_joined_push(reps.take(i as int), seq![0x2cu8], reps[i as int]);
            assert(out@ =~= old(out)@ + seq![0x5bu8] + joined(reps.take(i + 1), seq![0x2cu8]));
        }
        i = i + 1;
    }
    out.push(0x5d);
    proof {
        assert(reps.take(items.deep_view().len() as int) =~= reps);
        assert(out@ =~= old(out)@ + json_string_array_rep(items.deep_view()));
    }
}

} // verus!
