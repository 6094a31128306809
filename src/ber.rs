//! Basic Encoding Rules: tag-length-value framing, the lengths and integers
//! that SNMP messages use.

use vstd::prelude::*;

verus! {

pub const TAG_INTEGER: u8 = 0x02;

pub const TAG_OCTET_STRING: u8 = 0x04;

pub const TAG_SEQUENCE: u8 = 0x30;

/// Unsigned big-endian value of a byte string.
pub open spec fn be_value(s: Seq<u8>) -> nat
    decreases s.len(),
{
    if s.len() == 0 {
        0
    } else {
        (be_value(s.drop_last()) * 256 + s.last()) as nat
    }
}

/// Value of INTEGER content octets when the sign bit is clear.
pub open spec fn uint_value(s: Seq<u8>) -> Option<nat> {
    if s.len() == 0 || s[0] >= 0x80 {
        None
    } else {
        Some(be_value(s))
    }
}

/// Value of INTEGER content octets when it is a non-negative 32-bit number.
pub open spec fn u32_value(s: Seq<u8>) -> Option<u32> {
    match uint_value(s) {
        Some(v) => if v <= u32::MAX {
            Some(v as u32)
        } else {
            None
        },
        None => None,
    }
}

/// Identifier and length octets at the start of `s`: the header length and
/// the content length. Only single-octet tags and definite lengths of at
/// most four length octets are accepted.
pub open spec fn header(s: Seq<u8>) -> Option<(int, int)> {
    if s.len() < 2 || s[0] % 32 == 31 {
        None
    } else if s[1] < 0x80 {
        Some((2, s[1] as int))
    } else if 0x81 <= s[1] <= 0x84 && s.len() >= 2 + (s[1] - 0x80) {
        let k = s[1] - 0x80;
        Some((2 + k, be_value(s.subrange(2, 2 + k)) as int))
    } else {
        None
    }
}

/// Splits the first TLV off `s`: its tag, its content and what follows it.
#[verifier::opaque]
pub open spec fn split_tlv(s: Seq<u8>) -> Option<(u8, Seq<u8>, Seq<u8>)> {
    match header(s) {
        Some((hl, len)) => if hl + len <= s.len() {
            Some((s[0], s.subrange(hl, hl + len), s.subrange(hl + len, s.len() as int)))
        } else {
            None
        },
        None => None,
    }
}

proof fn lemma_be_value_step(s: Seq<u8>, a: int, b: int)
    requires
        0 <= a <= b < s.len(),
    ensures
        be_value(s.subrange(a, b + 1)) == be_value(s.subrange(a, b)) * 256 + s[b],
{
    assert(s.subrange(a, b + 1).drop_last() =~= s.subrange(a, b));
}

/// Reads the TLV that starts at `pos` in `data[..end]`; on success returns its
/// tag and the bounds of its content.
pub fn read_tlv(data: &[u8], pos: usize, end: usize) -> (r: Option<(u8, usize, usize)>)
    requires
        pos <= end <= data@.len(),
    ensures
        r is None <==> split_tlv(data@.subrange(pos as int, end as int)) is None,
        r matches Some((t, cs, ce)) ==> pos <= cs <= ce <= end && split_tlv(
            data@.subrange(pos as int, end as int),
        ) == Some((t, data@.subrange(cs as int, ce as int), data@.subrange(ce as int, end as int))),
{
    reveal(split_tlv);
    let ghost s = data@.subrange(pos as int, end as int);
    if end - pos < 2 || data[pos] % 32 == 31 {
        return None;
    }
    let tag = data[pos];
    let first = data[pos + 1];
    let hl: usize;
    let len: u64;
    if first < 0x80 {
        hl = 2;
        len = first as u64;
    } else if 0x81 <= first && first <= 0x84 && end - pos >= 2 + (first - 0x80) as usize {
        let k = (first - 0x80) as usize;
        let mut acc: u64 = 0;
        let mut i: usize = 0;
        while i < k
            invariant
                k <= 4,
                i <= k,
                pos + 2 + k <= end <= data@.len(),
                s == data@.subrange(pos as int, end as int),
                acc == be_value(s.subrange(2, 2 + i)),
                i == 0 ==> acc == 0,
                i <= 1 ==> acc < 0x100,
                i <= 2 ==> acc < 0x10000,
                i <= 3 ==> acc < 0x1000000,
                acc < 0x100000000,
            decreases k - i,
        {
            proof {
                lemma_be_value_step(s, 2, 2 + i);
            }
            acc = acc * 256 + data[pos + 2 + i] as u64;
            i = i + 1;
        }
        hl = 2 + k;
        len = acc;
    } else {
        return None;
    }
    if len > (end - pos - hl) as u64 {
        return None;
    }
    let cs = pos + hl;
    let ce = cs + len as usize;
    assert(s.subrange(hl as int, hl + len) =~= data@.subrange(cs as int, ce as int));
    assert(s.subrange(hl + len, s.len() as int) =~= data@.subrange(ce as int, end as int));
    Some((tag, cs, ce))
}


/// Length octets in their shortest definite form.
pub open spec fn len_bytes(n: nat) -> Seq<u8> {
    let q1 = n / 256;
    let q2 = q1 / 256;
    let q3 = q2 / 256;
    if n < 0x80 {
        seq![n as u8]
    } else if n < 0x100 {
        seq![0x81u8, n as u8]
    } else if n < 0x10000 {
        seq![0x82u8, q1 as u8, (n % 256) as u8]
    } else if n < 0x1000000 {
        seq![0x83u8, q2 as u8, (q1 % 256) as u8, (n % 256) as u8]
    } else {
        seq![0x84u8, q3 as u8, (q2 % 256) as u8, (q1 % 256) as u8, (n % 256) as u8]
    }
}

/// The encoding of one TLV with the shortest length form.
pub open spec fn tlv(tag: u8, content: Seq<u8>) -> Seq<u8> {
    seq![tag] + len_bytes(content.len()) + content
}

/// Whether `tlv(tag, content)` is defined: a single-octet tag and a length
/// that fits in four length octets.
pub open spec fn framable(tag: u8, content: Seq<u8>) -> bool {
    tag % 32 != 31 && content.len() <= u32::MAX
}

pub proof fn lemma_be_value_small(s: Seq<u8>)
    ensures
        s.len() == 1 ==> be_value(s) == s[0],
        s.len() == 2 ==> be_value(s) == s[0] * 256 + s[1],
        s.len() == 3 ==> be_value(s) == (s[0] * 256 + s[1]) * 256 + s[2],
        s.len() == 4 ==> be_value(s) == ((s[0] * 256 + s[1]) * 256 + s[2]) * 256 + s[3],
{
    reveal_with_fuel(be_value, 5);
    if s.len() == 4 {
        assert(s.drop_last().drop_last().drop_last().drop_last() =~= Seq::<u8>::empty());
    }
    if s.len() == 3 {
        assert(s.drop_last().drop_last().drop_last() =~= Seq::<u8>::empty());
    }
    if s.len() == 2 {
        assert(s.drop_last().drop_last() =~= Seq::<u8>::empty());
    }
    if s.len() == 1 {
        assert(s.drop_last() =~= Seq::<u8>::empty());
    }
}

proof fn lemma_len_bytes(n: nat)
    requires
        n <= u32::MAX,
    ensures
        1 <= len_bytes(n).len() <= 5,
        n < 0x80 ==> len_bytes(n) == seq![n as u8],
        n >= 0x80 ==> len_bytes(n)[0] == 0x80 + (len_bytes(n).len() - 1) && be_value(
            len_bytes(n).subrange(1, len_bytes(n).len() as int),
        ) == n,
{
    let q1 = n / 256;
    let q2 = q1 / 256;
    let q3 = q2 / 256;
    vstd::arithmetic::div_mod::lemma_fundamental_div_mod(n as int, 256);
    vstd::arithmetic::div_mod::lemma_fundamental_div_mod(q1 as int, 256);
    vstd::arithmetic::div_mod::lemma_fundamental_div_mod(q2 as int, 256);
    vstd::arithmetic::div_mod::lemma_mod_pos_bound(n as int, 256);
    vstd::arithmetic::div_mod::lemma_mod_pos_bound(q1 as int, 256);
    vstd::arithmetic::div_mod::lemma_mod_pos_bound(q2 as int, 256);
    let b = len_bytes(n);
    let t = b.subrange(1, b.len() as int);
    lemma_be_value_small(t);
}

/// The TLV framing reads back what it wrote, whatever follows it.
pub proof fn lemma_split_tlv(tag: u8, content: Seq<u8>, rest: Seq<u8>)
    requires
        framable(tag, content),
    ensures
        split_tlv(tlv(tag, content) + rest) == Some((tag, content, rest)),
{
    reveal(split_tlv);
    let n: int = content.len() as int;
    lemma_len_bytes(n as nat);
    let lb = len_bytes(n as nat);
    let s = tlv(tag, content) + rest;
    let hl: int = 1 + lb.len() as int;
    assert(s[0] == tag);
    assert(s[1] == lb[0]);
    if n >= 0x80 {
        assert(s.subrange(2, hl) =~= lb.subrange(1, lb.len() as int));
    }
    assert(header(s) == Some((hl, n)));
    assert(s.subrange(hl, hl + n) =~= content);
    assert(s.subrange(hl + n, s.len() as int) =~= rest);
}

/// A TLV is its content plus two to six octets of tag and length.
pub proof fn lemma_tlv_len(tag: u8, content: Seq<u8>)
    requires
        content.len() <= u32::MAX,
    ensures
        content.len() + 2 <= tlv(tag, content).len() <= content.len() + 6,
{
    lemma_len_bytes(content.len());
}

/// Appends `s` to `out`.
pub fn push_all(out: &mut Vec<u8>, s: &[u8])
    ensures
        final(out)@ == old(out)@ + s@,
{
    let ghost start = out@;
    let mut i: usize = 0;
    while i < s.len()
        invariant
            i <= s@.len(),
            out@ == start + s@.subrange(0, i as int),
        decreases s@.len() - i,
    {
        out.push(s[i]);
        i = i + 1;
        assert(out@ =~= start + s@.subrange(0, i as int));
    }
    assert(s@.subrange(0, i as int) =~= s@);
}

/// Appends the shortest length octets for `n`.
pub fn push_len(out: &mut Vec<u8>, n: usize)
    requires
        n <= u32::MAX,
    ensures
        final(out)@ == old(out)@ + len_bytes(n as nat),
{
    let q1 = n / 256;
    let q2 = q1 / 256;
    let q3 = q2 / 256;
    let ghost start = out@;
    if n < 0x80 {
        out.push(n as u8);
    } else if n < 0x100 {
        out.push(0x81);
        out.push(n as u8);
    } else if n < 0x10000 {
        out.push(0x82);
        out.push(q1 as u8);
        out.push((n % 256) as u8);
    } else if n < 0x1000000 {
        out.push(0x83);
        out.push(q2 as u8);
        out.push((q1 % 256) as u8);
        out.push((n % 256) as u8);
    } else {
        out.push(0x84);
        out.push(q3 as u8);
        out.push((q2 % 256) as u8);
        out.push((q1 % 256) as u8);
        out.push((n % 256) as u8);
    }
    assert(out@ =~= start + len_bytes(n as nat));
}

/// Appends the TLV with tag `tag` and content `content`.
pub fn push_tlv(out: &mut Vec<u8>, tag: u8, content: &[u8])
    requires
        content@.len() <= u32::MAX,
    ensures
        final(out)@ == old(out)@ + tlv(tag, content@),
{
    let ghost start = out@;
    out.push(tag);
    push_len(out, content.len());
    push_all(out, content);
    assert(out@ =~= start + tlv(tag, content@));
}

proof fn lemma_be_value_grows(s: Seq<u8>, i: int, j: int)
    requires
        0 <= i <= j <= s.len(),
    ensures
        be_value(s.subrange(0, i)) <= be_value(s.subrange(0, j)),
    decreases j - i,
{
    if i < j {
        lemma_be_value_step(s, 0, j - 1);
        lemma_be_value_grows(s, i, j - 1);
    }
}

/// Reads the INTEGER content `data[cs..ce]` as an unsigned 32-bit value.
pub fn read_u32(data: &[u8], cs: usize, ce: usize) -> (r: Option<u32>)
    requires
        cs <= ce <= data@.len(),
    ensures
        ({
            let v = uint_value(data@.subrange(cs as int, ce as int));
            match r {
                Some(x) => v == Some(x as nat),
                None => v is None || v.unwrap() > u32::MAX,
            }
        }),
        r == u32_value(data@.subrange(cs as int, ce as int)),
{
    let ghost s = data@.subrange(cs as int, ce as int);
    if cs == ce || data[cs] >= 0x80 {
        return None;
    }
    let mut acc: u64 = 0;
    let mut i: usize = cs;
    while i < ce
        invariant
            cs <= i <= ce <= data@.len(),
            s == data@.subrange(cs as int, ce as int),
            acc == be_value(s.subrange(0, i - cs)),
            acc <= u32::MAX,
        decreases ce - i,
    {
        proof {
            lemma_be_value_step(s, 0, i - cs);
        }
        acc = acc * 256 + data[i] as u64;
        i = i + 1;
        if acc > u32::MAX as u64 {
            proof {
                lemma_be_value_grows(s, i - cs, s.len() as int);
                assert(s.subrange(0, s.len() as int) =~= s);
            }
            return None;
        }
    }
    assert(s.subrange(0, i - cs) =~= s);
    Some(acc as u32)
}


/// Content of the first TLV of `s` when its tag is `tag`, and what follows it.
pub open spec fn expect(s: Seq<u8>, tag: u8) -> Option<(Seq<u8>, Seq<u8>)> {
    match split_tlv(s) {
        Some((t, c, rest)) => if t == tag {
            Some((c, rest))
        } else {
            None
        },
        None => None,
    }
}

/// Content of a leading INTEGER (never empty), and what follows it.
pub open spec fn expect_int(s: Seq<u8>) -> Option<(Seq<u8>, Seq<u8>)> {
    match expect(s, TAG_INTEGER) {
        Some((c, rest)) => if c.len() > 0 {
            Some((c, rest))
        } else {
            None
        },
        None => None,
    }
}

/// Reads a TLV with tag `tag` at `pos` in `data[..end]`; returns the bounds
/// of its content.
pub fn read_expected(data: &[u8], pos: usize, end: usize, tag: u8) -> (r: Option<(usize, usize)>)
    requires
        pos <= end <= data@.len(),
    ensures
        r is None <==> expect(data@.subrange(pos as int, end as int), tag) is None,
        r matches Some((cs, ce)) ==> pos <= cs <= ce <= end && expect(
            data@.subrange(pos as int, end as int),
            tag,
        ) == Some((data@.subrange(cs as int, ce as int), data@.subrange(ce as int, end as int))),
{
    match read_tlv(data, pos, end) {
        Some((t, cs, ce)) => if t == tag {
            Some((cs, ce))
        } else {
            None
        },
        None => None,
    }
}

/// Reads an INTEGER at `pos` in `data[..end]`; returns the bounds of its content.
pub fn read_int(data: &[u8], pos: usize, end: usize) -> (r: Option<(usize, usize)>)
    requires
        pos <= end <= data@.len(),
    ensures
        r is None <==> expect_int(data@.subrange(pos as int, end as int)) is None,
        r matches Some((cs, ce)) ==> pos <= cs <= ce <= end && expect_int(
            data@.subrange(pos as int, end as int),
        ) == Some((data@.subrange(cs as int, ce as int), data@.subrange(ce as int, end as int))),
{
    match read_expected(data, pos, end, TAG_INTEGER) {
        Some((cs, ce)) => if cs < ce {
            Some((cs, ce))
        } else {
            None
        },
        None => None,
    }
}

/// A copy of `data[start..end]`.
pub fn copy_range(data: &[u8], start: usize, end: usize) -> (r: Vec<u8>)
    requires
        start <= end <= data@.len(),
    ensures
        r@ == data@.subrange(start as int, end as int),
{
    let mut r: Vec<u8> = Vec::new();
    let mut i: usize = start;
    while i < end
        invariant
            start <= i <= end <= data@.len(),
            r@ == data@.subrange(start as int, i as int),
        decreases end - i,
    {
        r.push(data[i]);
        i = i + 1;
        assert(r@ =~= data@.subrange(start as int, i as int));
    }
    r
}


/// A copy of `s`.
pub fn clone_bytes(s: &[u8]) -> (r: Vec<u8>)
    ensures
        r@ == s@,
{
    assert(s@.subrange(0, s@.len() as int) =~= s@);
    copy_range(s, 0, s.len())
}

/// Whether `a` and `b` hold the same octets.
pub fn bytes_equal(a: &[u8], b: &[u8]) -> (r: bool)
    ensures
        r == (a@ == b@),
{
    if a.len() != b.len() {
        return false;
    }
    let mut i: usize = 0;
    while i < a.len()
        invariant
            i <= a@.len() == b@.len(),
            forall|j: int| 0 <= j < i ==> a@[j] == b@[j],
        decreases a@.len() - i,
    {
        if a[i] != b[i] {
            return false;
        }
        i = i + 1;
    }
    assert(a@ =~= b@);
    true
}

} // verus!
