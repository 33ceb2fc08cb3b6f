use vstd::prelude::*;
use vstd::slice::slice_subrange;

verus! {

/// The longest varint that is read: ten bytes, the length of a negative `int32`.
pub const MAX_VARINT_LEN: usize = 10;

/// The bytes whose groups make up a 32-bit value: five groups carry 35 bits.
pub const U32_VARINT_LEN: usize = 5;

/// Base-128 varint of `v`, least significant group first, high bit set on every byte but the last.
pub open spec fn varint_bytes(v: nat) -> Seq<u8>
    decreases v,
{
    if v < 128 {
        seq![v as u8]
    } else {
        seq![(v % 128 + 128) as u8] + varint_bytes(v / 128)
    }
}

/// The number that the groups of `s` spell, least significant group first.
pub open spec fn varint_value(s: Seq<u8>) -> nat
    decreases s.len(),
{
    if s.len() == 0 {
        0
    } else {
        (s[0] % 128) as nat + 128 * varint_value(s.drop_first())
    }
}

/// `128` to the power `e`.
pub open spec fn pow128(e: nat) -> nat
    decreases e,
{
    if e == 0 {
        1
    } else {
        128 * pow128((e - 1) as nat)
    }
}

/// A varint of `n` bytes starts at `i` in `s`: every byte before the last has its high bit set.
pub open spec fn varint_ends_at(s: Seq<u8>, i: int, n: int) -> bool {
    &&& 1 <= n <= MAX_VARINT_LEN
    &&& 0 <= i
    &&& i + n <= s.len()
    &&& forall|k: int| i <= k < i + n - 1 ==> s[k] >= 128
    &&& s[i + n - 1] < 128
}

/// What reading a 32-bit varint at `i` gives: the low 32 bits of the value of its first five
/// bytes and the position after it, or `None` when no varint of at most ten bytes ends there.
pub open spec fn varint_at(s: Seq<u8>, i: int) -> Option<(nat, int)> {
    if exists|n: int| varint_ends_at(s, i, n) {
        let n = choose|n: int| varint_ends_at(s, i, n);
        let groups = if n < U32_VARINT_LEN {
            n
        } else {
            U32_VARINT_LEN as int
        };
        Some((varint_value(s.subrange(i, i + groups)) % 4294967296, i + n))
    } else {
        None
    }
}

pub proof fn lemma_varint_end_unique(s: Seq<u8>, i: int, n: int, m: int)
    requires
        varint_ends_at(s, i, n),
        varint_ends_at(s, i, m),
    ensures
        n == m,
{
    if n < m {
        assert(s[i + n - 1] >= 128);
    } else if m < n {
        assert(s[i + m - 1] >= 128);
    }
}

/// The varint of `v` is a well-formed varint of at most `e` bytes whose value is `v`,
/// whenever `v < 128^e`.
pub proof fn lemma_varint_shape(v: nat, e: nat)
    requires
        1 <= e,
        v < pow128(e),
    ensures
        1 <= varint_bytes(v).len() <= e,
        forall|k: int| 0 <= k < varint_bytes(v).len() - 1 ==> varint_bytes(v)[k] >= 128,
        varint_bytes(v)[varint_bytes(v).len() - 1] < 128,
        varint_value(varint_bytes(v)) == v,
    decreases v,
{
    let b = varint_bytes(v);
    if v < 128 {
        assert(b.drop_first() =~= Seq::<u8>::empty());
        assert(varint_value(b) == (b[0] % 128) as nat + 128 * varint_value(b.drop_first()));
    } else {
        let p = pow128((e - 1) as nat);
        if e == 1 {
            assert(pow128(0) == 1);
        }
        assert(v / 128 < p) by (nonlinear_arith)
            requires
                v < 128 * p,
        ;
        lemma_varint_shape(v / 128, (e - 1) as nat);
        let rest = varint_bytes(v / 128);
        assert(b == seq![(v % 128 + 128) as u8] + rest);
        assert(b.drop_first() =~= rest);
        assert forall|k: int| 0 <= k < b.len() - 1 implies b[k] >= 128 by {
            if k > 0 {
                assert(b[k] == rest[k - 1]);
            }
        }
        assert(b[b.len() - 1] == rest[rest.len() - 1]);
        assert(b[0] % 128 == v % 128);
        assert(v == v % 128 + 128 * (v / 128)) by (nonlinear_arith);
        assert(varint_value(b) == (b[0] % 128) as nat + 128 * varint_value(rest));
    }
}

/// Every `u32` fits a varint of at most five bytes.
pub proof fn lemma_u32_varint(v: nat)
    requires
        v <= u32::MAX,
    ensures
        1 <= varint_bytes(v).len() <= U32_VARINT_LEN,
        forall|k: int| 0 <= k < varint_bytes(v).len() - 1 ==> varint_bytes(v)[k] >= 128,
        varint_bytes(v)[varint_bytes(v).len() - 1] < 128,
        varint_value(varint_bytes(v)) == v,
{
    reveal_with_fuel(pow128, 6);
    lemma_varint_shape(v, 5);
}

/// Reading a varint back where `varint_bytes(v)` was written gives `v` and the position
/// right after it.
pub proof fn lemma_read_back_varint(s: Seq<u8>, i: int, v: nat)
    requires
        v <= u32::MAX,
        0 <= i,
        i + varint_bytes(v).len() <= s.len(),
        s.subrange(i, i + varint_bytes(v).len()) == varint_bytes(v),
    ensures
        varint_at(s, i) == Some((v, i + varint_bytes(v).len())),
{
    let b = varint_bytes(v);
    let n = b.len() as int;
    lemma_u32_varint(v);
    assert forall|k: int| i <= k < i + n - 1 implies s[k] >= 128 by {
        assert(s[k] == s.subrange(i, i + n)[k - i]);
    }
    assert(s[i + n - 1] == s.subrange(i, i + n)[n - 1]);
    assert(varint_ends_at(s, i, n));
    let m = choose|m: int| varint_ends_at(s, i, m);
    lemma_varint_end_unique(s, i, n, m);
    assert(s.subrange(i, i + n) == b);
}

/// Relies on micropb's `PbEncoder::encode_varint32`: it appends the base-128 groups of `v`,
/// least significant first, with the high bit set on every byte but the last. Writing into a
/// `Vec` cannot fail.
#[verifier::external_body]
pub(crate) fn push_varint(out: &mut Vec<u8>, v: u32)
    ensures
        final(out)@ == old(out)@ + varint_bytes(v as nat),
{
    let mut encoder = micropb::PbEncoder::new(out);
    match encoder.encode_varint32(v) {
        Ok(()) => {},
        Err(never) => match never {},
    }
}

/// Relies on micropb's `PbDecoder::decode_varint32` over a byte slice: it reads bytes up to
/// the first one without the high bit, at most ten, keeps the low 32 bits of the groups of
/// the first five, and `bytes_read` then tells how many bytes it took. Running out of bytes,
/// or ten bytes that all have the high bit, is an error.
#[verifier::external_body]
fn decode_varint32(s: &[u8]) -> (r: Option<(u32, usize)>)
    ensures
        match (r, varint_at(s@, 0)) {
            (Some((v, n)), Some((w, m))) => v as nat == w && n as int == m,
            (None, None) => true,
            _ => false,
        },
{
    let mut decoder = micropb::PbDecoder::new(s);
    match decoder.decode_varint32() {
        Ok(v) => Some((v, decoder.bytes_read())),
        Err(_) => None,
    }
}

/// Reading at `i` in `s` is reading at the start of what follows `i`.
proof fn lemma_varint_at_suffix(s: Seq<u8>, i: int)
    requires
        0 <= i <= s.len(),
    ensures
        match (varint_at(s.subrange(i, s.len() as int), 0), varint_at(s, i)) {
            (Some((v, n)), Some((w, m))) => v == w && n + i == m,
            (None, None) => true,
            _ => false,
        },
{
    let t = s.subrange(i, s.len() as int);
    assert forall|n: int| varint_ends_at(t, 0, n) <==> varint_ends_at(s, i, n) by {
        if varint_ends_at(t, 0, n) {
            assert forall|k: int| i <= k < i + n - 1 implies s[k] >= 128 by {
                assert(s[k] == t[k - i]);
            }
            assert(s[i + n - 1] == t[n - 1]);
        }
        if varint_ends_at(s, i, n) {
            assert forall|k: int| 0 <= k < n - 1 implies t[k] >= 128 by {
                assert(t[k] == s[k + i]);
            }
            assert(t[n - 1] == s[i + n - 1]);
        }
    }
    if exists|n: int| varint_ends_at(s, i, n) {
        let n = choose|n: int| varint_ends_at(s, i, n);
        let m = choose|m: int| varint_ends_at(t, 0, m);
        lemma_varint_end_unique(s, i, n, m);
        let g = if n < U32_VARINT_LEN {
            n
        } else {
            U32_VARINT_LEN as int
        };
        assert(t.subrange(0, g) =~= s.subrange(i, i + g));
    }
}

/// Reads the varint that starts at `pos`: its low 32 bits and the position after it.
pub fn read_varint(s: &[u8], pos: usize) -> (r: Option<(u64, usize)>)
    ensures
        match (r, varint_at(s@, pos as int)) {
            (Some((v, p)), Some((w, q))) => v as nat == w && p as int == q,
            (None, None) => true,
            _ => false,
        },
{
    let len = s.len();
    if pos >= len {
        proof {
            if exists|n: int| varint_ends_at(s@, pos as int, n) {
                let n = choose|n: int| varint_ends_at(s@, pos as int, n);
            }
        }
        return None;
    }
    proof {
        lemma_varint_at_suffix(s@, pos as int);
        lemma_varint_at_bounds(s@.subrange(pos as int, len as int), 0);
    }
    match decode_varint32(slice_subrange(s, pos, len)) {
        None => None,
        Some((v, n)) => Some((v as u64, pos + n)),
    }
}

/// One field of a message as the wire lays it out: its number, its wire type, the varint it
/// carries (wire type 0) or its payload's length (wire type 2), and where its payload lies.
pub ghost struct FieldSpec {
    pub number: nat,
    pub wire_type: nat,
    pub value: nat,
    pub start: int,
    pub end: int,
}

/// The field that starts at `i` in `s`, or `None` where no well-formed field starts there.
/// Field number zero, groups and the reserved wire types are refused.
pub open spec fn field_at(s: Seq<u8>, i: int) -> Option<FieldSpec> {
    match varint_at(s, i) {
        None => None,
        Some((key, p)) => {
            let number = key / 8;
            let wire_type = key % 8;
            if number == 0 {
                None
            } else if wire_type == 0 {
                match varint_at(s, p) {
                    None => None,
                    Some((v, q)) => Some(FieldSpec { number, wire_type, value: v, start: p, end: q }),
                }
            } else if wire_type == 2 {
                match varint_at(s, p) {
                    None => None,
                    Some((l, q)) => if q + l <= s.len() {
                        Some(FieldSpec { number, wire_type, value: l, start: q, end: q + l })
                    } else {
                        None
                    },
                }
            } else if wire_type == 1 && p + 8 <= s.len() {
                Some(FieldSpec { number, wire_type, value: 0, start: p, end: p + 8 })
            } else if wire_type == 5 && p + 4 <= s.len() {
                Some(FieldSpec { number, wire_type, value: 0, start: p, end: p + 4 })
            } else {
                None
            }
        },
    }
}

/// A field read off the wire; its view is the `FieldSpec` it stands for.
pub struct WireField {
    pub number: u64,
    pub wire_type: u64,
    pub value: u64,
    pub start: usize,
    pub end: usize,
}

impl View for WireField {
    type V = FieldSpec;

    open spec fn view(&self) -> FieldSpec {
        FieldSpec {
            number: self.number as nat,
            wire_type: self.wire_type as nat,
            value: self.value as nat,
            start: self.start as int,
            end: self.end as int,
        }
    }
}

pub proof fn lemma_varint_at_bounds(s: Seq<u8>, i: int)
    ensures
        varint_at(s, i) matches Some((v, p)) ==> i < p <= s.len(),
{
    if exists|n: int| varint_ends_at(s, i, n) {
        let n = choose|n: int| varint_ends_at(s, i, n);
    }
}

pub proof fn lemma_field_at_bounds(s: Seq<u8>, i: int)
    ensures
        field_at(s, i) matches Some(f) ==> i < f.start <= f.end <= s.len(),
{
    lemma_varint_at_bounds(s, i);
    if let Some((key, p)) = varint_at(s, i) {
        lemma_varint_at_bounds(s, p);
    }
}

/// Reads the field that starts at `pos`.
pub fn read_field(s: &[u8], pos: usize) -> (r: Option<WireField>)
    ensures
        match (r, field_at(s@, pos as int)) {
            (Some(f), Some(g)) => f@ == g,
            (None, None) => true,
            _ => false,
        },
{
    proof {
        lemma_varint_at_bounds(s@, pos as int);
    }
    let len = s.len();
    let (key, p) = match read_varint(s, pos) {
        None => return None,
        Some(kp) => kp,
    };
    proof {
        lemma_varint_at_bounds(s@, p as int);
    }
    let number = key / 8;
    let wire_type = key % 8;
    if number == 0 {
        None
    } else if wire_type == 0 {
        match read_varint(s, p) {
            None => None,
            Some((v, q)) => Some(WireField { number, wire_type, value: v, start: p, end: q }),
        }
    } else if wire_type == 2 {
        match read_varint(s, p) {
            None => None,
            Some((l, q)) => {
                if l <= (len - q) as u64 {
                    Some(WireField { number, wire_type, value: l, start: q, end: q + l as usize })
                } else {
                    None
                }
            },
        }
    } else if wire_type == 1 && p <= len && 8 <= len - p {
        Some(WireField { number, wire_type, value: 0, start: p, end: p + 8 })
    } else if wire_type == 5 && p <= len && 4 <= len - p {
        Some(WireField { number, wire_type, value: 0, start: p, end: p + 4 })
    } else {
        None
    }
}

} // verus!
