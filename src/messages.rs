use vstd::prelude::*;
use vstd::slice::slice_subrange;

use crate::animation::{AnimationDescriptor, RainbowAnimation, SolidAnimation};
use crate::wire::{
    field_at, lemma_read_back_varint, lemma_field_at_bounds, lemma_u32_varint, push_varint, read_field, varint_bytes,
    U32_VARINT_LEN,
};

verus! {

/// Why a characteristic payload could not be decoded.
#[derive(Clone, Copy, Debug, PartialEq, Eq, Structural)]
pub enum WireError {
    /// The bytes are not a well-formed message of the expected kind.
    Malformed,
    /// A well-formed `SetAnimation` that names no animation.
    MissingAnimation,
}

/// The payload of the `bpm` characteristic: a signed tempo.
#[derive(Clone, Copy, Debug, PartialEq, Eq, Structural)]
pub struct SetBpm {
    pub bpm: i32,
}

pub const TWO_POW_32: u64 = 4294967296;

/// The value of the varint field `number` in the message that runs from `i` to the end of
/// `s`, `acc` standing for what the fields before `i` set. The last occurrence wins, an
/// absent field keeps its default, other fields are skipped, and the field under the wrong
/// wire type makes the message malformed.
pub open spec fn last_varint(s: Seq<u8>, i: int, number: nat, acc: nat) -> Option<nat>
    decreases s.len() - i,
{
    if i < 0 || i >= s.len() {
        Some(acc)
    } else {
        match field_at(s, i) {
            None => None,
            Some(f) => if f.end <= i || f.end > s.len() {
                None
            } else if f.number == number && f.wire_type != 0 {
                None
            } else {
                last_varint(s, f.end, number, if f.number == number { f.value } else { acc })
            },
        }
    }
}

/// The low 32 bits of `v`, as an unsigned field reads them.
pub open spec fn uint32_of(v: nat) -> u32 {
    (v % 4294967296) as u32
}

/// The low 32 bits of `v`, as a signed field reads them.
pub open spec fn int32_of(v: nat) -> i32 {
    let w = v % 4294967296;
    if w < 2147483648 {
        w as i32
    } else {
        (w - 4294967296) as i32
    }
}

/// The animation that the nested message `s` under field `number` of the oneof describes.
pub open spec fn nested_animation(number: nat, s: Seq<u8>) -> Option<AnimationDescriptor> {
    match last_varint(s, 0, 1, 0) {
        None => None,
        Some(v) => if number == 1 {
            Some(AnimationDescriptor::Rainbow(RainbowAnimation { speed: uint32_of(v) }))
        } else {
            Some(AnimationDescriptor::Solid(SolidAnimation { color: uint32_of(v) }))
        },
    }
}

/// The `animation` oneof of the `SetAnimation` message that runs from `i` to the end of `s`:
/// field 1 holds a rainbow, field 2 a solid color; the last of them present wins.
pub open spec fn animation_fields(s: Seq<u8>, i: int, acc: Option<AnimationDescriptor>) -> Option<
    Option<AnimationDescriptor>,
>
    decreases s.len() - i,
{
    if i < 0 || i >= s.len() {
        Some(acc)
    } else {
        match field_at(s, i) {
            None => None,
            Some(f) => if f.end <= i || f.end > s.len() {
                None
            } else if f.number == 1 || f.number == 2 {
                if f.wire_type != 2 {
                    None
                } else {
                    match nested_animation(f.number, s.subrange(f.start, f.end)) {
                        None => None,
                        Some(a) => animation_fields(s, f.end, Some(a)),
                    }
                }
            } else {
                animation_fields(s, f.end, acc)
            },
        }
    }
}

/// What decoding the payload `s` of the `animation` characteristic gives.
pub open spec fn set_animation_of(s: Seq<u8>) -> Result<AnimationDescriptor, WireError> {
    match animation_fields(s, 0, None) {
        None => Err(WireError::Malformed),
        Some(None) => Err(WireError::MissingAnimation),
        Some(Some(a)) => Ok(a),
    }
}

/// What decoding the payload `s` of the `bpm` characteristic gives.
pub open spec fn set_bpm_of(s: Seq<u8>) -> Result<SetBpm, WireError> {
    match last_varint(s, 0, 1, 0) {
        None => Err(WireError::Malformed),
        Some(v) => Ok(SetBpm { bpm: int32_of(v) }),
    }
}

/// A varint field with implicit presence: nothing when it holds its default, zero.
pub open spec fn varint_field_bytes(number: nat, v: nat) -> Seq<u8> {
    if v == 0 {
        Seq::empty()
    } else {
        varint_bytes(number * 8) + varint_bytes(v)
    }
}

/// The nested message that carries an animation's parameters.
pub open spec fn animation_body_bytes(a: AnimationDescriptor) -> Seq<u8> {
    match a {
        AnimationDescriptor::Rainbow(r) => varint_field_bytes(1, r.speed as nat),
        AnimationDescriptor::Solid(c) => varint_field_bytes(1, c.color as nat),
    }
}

/// The field of the oneof under which an animation travels.
pub open spec fn animation_field_number(a: AnimationDescriptor) -> nat {
    match a {
        AnimationDescriptor::Rainbow(_) => 1,
        AnimationDescriptor::Solid(_) => 2,
    }
}

/// The `SetAnimation` message that carries `a`.
pub open spec fn set_animation_bytes(a: AnimationDescriptor) -> Seq<u8> {
    let body = animation_body_bytes(a);
    varint_bytes(animation_field_number(a) * 8 + 2) + varint_bytes(body.len()) + body
}

/// The `SetBPM` message that carries the tempo `bpm`.
pub open spec fn set_bpm_bytes(bpm: u16) -> Seq<u8> {
    varint_field_bytes(1, bpm as nat)
}

/// A message that holds the single varint field 1 with value `v` reads back as `v`.
pub proof fn lemma_varint_field_round_trip(v: nat)
    requires
        v <= u32::MAX,
    ensures
        last_varint(varint_field_bytes(1, v), 0, 1, 0) == Some(v),
{
    let s = varint_field_bytes(1, v);
    if v != 0 {
        let head = varint_bytes(8);
        let tail = varint_bytes(v);
        lemma_u32_varint(8);
        lemma_u32_varint(v);
        assert(head == seq![8u8]);
        assert(s.subrange(0, 1) =~= head);
        assert(s.subrange(1, s.len() as int) =~= tail);
        lemma_read_back_varint(s, 0, 8);
        lemma_read_back_varint(s, 1, v);
        let f = field_at(s, 0).unwrap();
        assert(f.end == s.len());
        assert(last_varint(s, f.end, 1, v) == Some(v));
    }
}

/// Encoding an animation and decoding the bytes gives back the same animation.
pub proof fn lemma_set_animation_round_trip(a: AnimationDescriptor)
    ensures
        set_animation_of(set_animation_bytes(a)) == Ok::<AnimationDescriptor, WireError>(a),
{
    let body = animation_body_bytes(a);
    let number = animation_field_number(a);
    let s = set_animation_bytes(a);
    let v: nat = match a {
        AnimationDescriptor::Rainbow(r) => r.speed as nat,
        AnimationDescriptor::Solid(c) => c.color as nat,
    };
    lemma_u32_varint(v);
    lemma_u32_varint(8);
    assert(body.len() <= 6);
    lemma_u32_varint(number * 8 + 2);
    lemma_u32_varint(body.len());
    let k = varint_bytes(number * 8 + 2);
    let l = varint_bytes(body.len());
    assert(k.len() == 1 && l.len() == 1);
    assert(s.subrange(0, 1) =~= k);
    assert(s.subrange(1, 2) =~= l);
    lemma_read_back_varint(s, 0, number * 8 + 2);
    lemma_read_back_varint(s, 1, body.len());
    let f = field_at(s, 0).unwrap();
    assert(f.number == number && f.wire_type == 2);
    assert(f.end == s.len());
    assert(s.subrange(f.start, f.end) =~= body);
    lemma_varint_field_round_trip(v);
    assert(nested_animation(number, body) == Some(a));
    assert(animation_fields(s, f.end, Some(a)) == Some(Some(a)));
}

/// Encoding a tempo and decoding the bytes gives back the same tempo.
pub proof fn lemma_set_bpm_round_trip(bpm: u16)
    ensures
        set_bpm_of(set_bpm_bytes(bpm)) == Ok::<SetBpm, WireError>(SetBpm { bpm: bpm as i32 }),
{
    lemma_varint_field_round_trip(bpm as nat);
}

/// Reads the varint field `number` of the message `s`; `None` where `s` is malformed.
pub fn read_varint_message(s: &[u8], number: u64) -> (r: Option<u64>)
    ensures
        match (r, last_varint(s@, 0, number as nat, 0)) {
            (Some(v), Some(w)) => v as nat == w,
            (None, None) => true,
            _ => false,
        },
{
    let len = s.len();
    let mut pos: usize = 0;
    let mut acc: u64 = 0;
    while pos < len
        invariant
            len == s@.len(),
            pos <= len,
            last_varint(s@, pos as int, number as nat, acc as nat) == last_varint(
                s@,
                0,
                number as nat,
                0,
            ),
        decreases len - pos,
    {
        proof {
            lemma_field_at_bounds(s@, pos as int);
        }
        let f = match read_field(s, pos) {
            None => return None,
            Some(f) => f,
        };
        if f.number == number {
            if f.wire_type != 0 {
                return None;
            }
            acc = f.value;
        }
        pos = f.end;
    }
    Some(acc)
}

/// Decodes the payload of the `animation` characteristic.
pub fn decode_set_animation(s: &[u8]) -> (r: Result<AnimationDescriptor, WireError>)
    ensures
        r == set_animation_of(s@),
{
    let len = s.len();
    let mut pos: usize = 0;
    let mut acc: Option<AnimationDescriptor> = None;
    while pos < len
        invariant
            len == s@.len(),
            pos <= len,
            animation_fields(s@, pos as int, acc) == animation_fields(s@, 0, None),
        decreases len - pos,
    {
        proof {
            lemma_field_at_bounds(s@, pos as int);
        }
        let f = match read_field(s, pos) {
            None => return Err(WireError::Malformed),
            Some(f) => f,
        };
        if f.number == 1 || f.number == 2 {
            if f.wire_type != 2 {
                return Err(WireError::Malformed);
            }
            let body = slice_subrange(s, f.start, f.end);
            let v = match read_varint_message(body, 1) {
                None => return Err(WireError::Malformed),
                Some(v) => v,
            };
            let low = (v % TWO_POW_32) as u32;
            if f.number == 1 {
                acc = Some(AnimationDescriptor::Rainbow(RainbowAnimation { speed: low }));
            } else {
                acc = Some(AnimationDescriptor::Solid(SolidAnimation { color: low }));
            }
        }
        pos = f.end;
    }
    match acc {
        None => Err(WireError::MissingAnimation),
        Some(a) => Ok(a),
    }
}

/// Decodes the payload of the `bpm` characteristic.
pub fn decode_set_bpm(s: &[u8]) -> (r: Result<SetBpm, WireError>)
    ensures
        r == set_bpm_of(s@),
{
    match read_varint_message(s, 1) {
        None => Err(WireError::Malformed),
        Some(v) => {
            let w = v % TWO_POW_32;
            let bpm: i32 = if w < 2147483648 {
                w as i32
            } else {
                (w as i64 - 4294967296) as i32
            };
            Ok(SetBpm { bpm })
        },
    }
}

/// Appends a varint field with implicit presence, skipped when `v` is zero.
fn push_varint_field(out: &mut Vec<u8>, number: u32, v: u32)
    requires
        number < 16,
    ensures
        final(out)@ == old(out)@ + varint_field_bytes(number as nat, v as nat),
        varint_field_bytes(number as nat, v as nat).len() <= 1 + U32_VARINT_LEN,
{
    proof {
        lemma_u32_varint(v as nat);
        lemma_u32_varint(number as nat * 8);
        assert(varint_bytes(number as nat * 8).len() == 1);
    }
    if v != 0 {
        push_varint(out, number * 8);
        push_varint(out, v);
        assert(final(out)@ =~= old(out)@ + varint_field_bytes(number as nat, v as nat));
    } else {
        assert(old(out)@ + varint_field_bytes(number as nat, v as nat) =~= old(out)@);
    }
}

/// Encodes `a` as the payload of the `animation` characteristic.
pub fn encode_set_animation(a: &AnimationDescriptor) -> (r: Vec<u8>)
    ensures
        r@ == set_animation_bytes(*a),
{
    let mut body: Vec<u8> = Vec::new();
    let number: u32 = match a {
        AnimationDescriptor::Rainbow(r) => {
            push_varint_field(&mut body, 1, r.speed);
            1
        },
        AnimationDescriptor::Solid(c) => {
            push_varint_field(&mut body, 1, c.color);
            2
        },
    };
    assert(body@ =~= animation_body_bytes(*a));
    let mut out: Vec<u8> = Vec::new();
    push_varint(&mut out, number * 8 + 2);
    push_varint(&mut out, body.len() as u32);
    let mut i: usize = 0;
    let ghost head = out@;
    while i < body.len()
        invariant
            i <= body@.len(),
            out@ == head + body@.subrange(0, i as int),
        decreases body@.len() - i,
    {
        out.push(body[i]);
        assert(body@.subrange(0, i + 1) =~= body@.subrange(0, i as int).push(body@[i as int]));
        i = i + 1;
    }
    assert(body@.subrange(0, i as int) =~= body@);
    assert(out@ =~= set_animation_bytes(*a));
    out
}

/// Encodes the tempo `bpm` as the payload of the `bpm` characteristic.
pub fn encode_set_bpm(bpm: u16) -> (r: Vec<u8>)
    ensures
        r@ == set_bpm_bytes(bpm),
{
    let mut out: Vec<u8> = Vec::new();
    push_varint_field(&mut out, 1, bpm as u32);
    assert(out@ =~= set_bpm_bytes(bpm));
    out
}

} // verus!
