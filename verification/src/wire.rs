//! The byte format of the envelope: base-128 integers, tagged fields, and a
//! tokenizer that splits a message into its fields.
//!
//! A message is a run of fields. Each field starts with a key, a base-128
//! integer that holds the field's tag and the shape of its value: another
//! base-128 integer, eight bytes, four bytes, a length followed by that many
//! bytes, or a group of fields that ends with a key of its own. Groups may
//! hold groups, down to a fixed depth.

use vstd::prelude::*;

verus! {

/// A bound on the value of what is left of a base-128 integer after `depth`
/// of its at most ten bytes: each byte holds seven bits, but the tenth only
/// one.
pub open spec fn varint_bound(depth: nat) -> nat
    decreases 9 - depth,
{
    if depth >= 9 {
        2
    } else {
        128 * varint_bound(depth + 1)
    }
}

/// Reads a base-128 integer from the front of `b`, least significant group
/// first: the value and the number of bytes it took. `depth` counts the bytes
/// that were read before `b`. Paddings with zero groups are accepted; an
/// eleventh byte, or a value of 2^64 or more, is not.
pub open spec fn parse_varint_from(b: Seq<u8>, depth: nat) -> Option<(nat, int)>
    decreases b.len(),
{
    if b.len() == 0 || depth >= 10 {
        None
    } else if b[0] < 0x80 {
        if depth == 9 && b[0] >= 2 {
            None
        } else {
            Some((b[0] as nat, 1))
        }
    } else {
        match parse_varint_from(b.skip(1), depth + 1) {
            Some((v, n)) => Some((((b[0] - 0x80) as nat) + 128 * v, n + 1)),
            None => None,
        }
    }
}

/// Reads a base-128 integer from the front of `b`.
pub open spec fn parse_varint(b: Seq<u8>) -> Option<(nat, int)> {
    parse_varint_from(b, 0)
}

/// What a parsed integer is bounded by, and how many bytes it took.
pub proof fn lemma_parse_varint_bounds(b: Seq<u8>, depth: nat)
    requires
        parse_varint_from(b, depth) is Some,
    ensures
        parse_varint_from(b, depth).unwrap().0 < varint_bound(depth),
        1 <= parse_varint_from(b, depth).unwrap().1 <= b.len(),
        parse_varint_from(b, depth).unwrap().1 <= 10 - depth,
        depth <= 9,
    decreases b.len(),
{
    if b[0] >= 0x80 {
        lemma_parse_varint_bounds(b.skip(1), depth + 1);
    }
    if depth < 9 {
        lemma_varint_bound_mono(depth + 1, depth + 1);
    }
}

/// A base-128 integer of at most ten bytes is below 2^64.
pub proof fn lemma_varint_bound_zero()
    ensures
        varint_bound(0) == 0x1_0000_0000_0000_0000,
{
    reveal_with_fuel(varint_bound, 11);
}

/// Each byte before the tenth widens the bound by seven bits, and no bound
/// is above 2^64.
proof fn lemma_varint_bound_step(depth: nat)
    requires
        depth < 9,
    ensures
        varint_bound(depth) == 128 * varint_bound(depth + 1),
        varint_bound(depth) <= 0x1_0000_0000_0000_0000,
{
    lemma_varint_bound_zero();
    lemma_varint_bound_mono(0, depth);
}

/// The bound shrinks as more bytes have been read.
proof fn lemma_varint_bound_mono(a: nat, c: nat)
    requires
        a <= c,
    ensures
        varint_bound(c) <= varint_bound(a),
        varint_bound(c) >= 2,
    decreases 9 - a,
{
    if c >= 9 {
        if a < 9 {
            lemma_varint_bound_mono(a + 1, c);
        }
    } else if a < c {
        lemma_varint_bound_mono(a + 1, c);
    } else {
        lemma_varint_bound_mono(c + 1, c + 1);
    }
}

/// Reads the base-128 integer that starts at `pos`.
fn read_varint_from(data: &[u8], pos: usize, depth: u8) -> (r: Option<(u64, usize)>)
    requires
        pos <= data.len(),
        depth <= 10,
    ensures
        match r {
            Some((v, n)) => parse_varint_from(data@.skip(pos as int), depth as nat) == Some(
                (v as nat, n as int),
            ) && 1 <= n && pos + n <= data.len(),
            None => parse_varint_from(data@.skip(pos as int), depth as nat) is None,
        },
    decreases data.len() - pos,
{
    if pos >= data.len() || depth >= 10 {
        return None;
    }
    let byte: u8 = data[pos];
    if byte < 0x80 {
        if depth == 9 && byte >= 2 {
            None
        } else {
            Some((byte as u64, 1))
        }
    } else {
        assert(data@.skip(pos as int).skip(1) =~= data@.skip(pos + 1));
        match read_varint_from(data, pos + 1, depth + 1) {
            Some((v, n)) => {
                proof {
                    lemma_parse_varint_bounds(data@.skip(pos + 1), (depth + 1) as nat);
                    lemma_varint_bound_step(depth as nat);
                }
                let low: u64 = (byte - 0x80) as u64;
                Some((low + 128 * v, n + 1))
            },
            None => None,
        }
    }
}

/// Reads the base-128 integer that starts at `pos`.
pub fn read_varint(data: &[u8], pos: usize) -> (r: Option<(u64, usize)>)
    requires
        pos <= data.len(),
    ensures
        match r {
            Some((v, n)) => parse_varint(data@.skip(pos as int)) == Some((v as nat, n as int))
                && 1 <= n && pos + n <= data.len(),
            None => parse_varint(data@.skip(pos as int)) is None,
        },
{
    read_varint_from(data, pos, 0)
}

/// The value of a field, by its shape. Of a group and of a value of fixed
/// width only the shape is kept.
pub enum WireValue {
    Varint(u64),
    Fixed64,
    Bytes(Seq<u8>),
    Fixed32,
    Group,
}

/// One field of a message: its tag and its value.
pub struct WireField {
    pub tag: u32,
    pub value: WireValue,
}

/// Reads a key from the front of `b`: the tag, the shape of the value, and
/// the number of bytes that the key took. The key must fit 32 bits, the tag
/// must not be zero, and the shape must be one of the six that exist.
pub open spec fn parse_key(b: Seq<u8>) -> Option<(u32, nat, int)> {
    match parse_varint(b) {
        None => None,
        Some((key, n)) => if key > u32::MAX || key % 8 > 5 || key / 8 == 0 {
            None
        } else {
            Some(((key / 8) as u32, key % 8, n))
        },
    }
}

/// The number of bytes that the value of a field takes at the front of `b`,
/// by its shape: a base-128 integer, eight bytes, a length and that many
/// bytes, a group, or four bytes. `budget` is the number of levels that
/// fields may still be nested in groups; with none left, nothing is read.
pub open spec fn value_len(b: Seq<u8>, tag: u32, shape: nat, budget: nat) -> Option<int>
    decreases b.len(), 1nat,
{
    if budget == 0 {
        None
    } else if shape == 0 {
        match parse_varint(b) {
            Some((_, n)) => Some(n),
            None => None,
        }
    } else if shape == 1 {
        if b.len() >= 8 {
            Some(8)
        } else {
            None
        }
    } else if shape == 2 {
        match parse_varint(b) {
            Some((len, n)) => if len <= b.len() - n {
                Some(n + len as int)
            } else {
                None
            },
            None => None,
        }
    } else if shape == 3 {
        group_len(b, tag, budget)
    } else if shape == 5 {
        if b.len() >= 4 {
            Some(4)
        } else {
            None
        }
    } else {
        None
    }
}

/// The number of bytes that are left of the group `tag` at the front of
/// `b`: its fields, each one level deeper than the group itself, and the key
/// that ends the group, which holds the same tag.
pub open spec fn group_len(b: Seq<u8>, tag: u32, budget: nat) -> Option<int>
    decreases b.len(), 0nat,
{
    match parse_key(b) {
        None => None,
        Some((inner, shape, n0)) => if !(0 < n0 <= b.len()) || budget == 0 {
            None
        } else if shape == 4 {
            if inner == tag {
                Some(n0)
            } else {
                None
            }
        } else {
            match value_len(b.skip(n0), inner, shape, (budget - 1) as nat) {
                None => None,
                Some(n1) => if !(0 <= n1 <= b.len() - n0) {
                    None
                } else {
                    match group_len(b.skip(n0 + n1), tag, budget) {
                        Some(n2) => Some(n0 + n1 + n2),
                        None => None,
                    }
                },
            }
        },
    }
}

/// The value of the given shape at the front of `b`.
pub open spec fn value_of(b: Seq<u8>, shape: nat) -> WireValue {
    if shape == 0 {
        WireValue::Varint(parse_varint(b).unwrap().0 as u64)
    } else if shape == 1 {
        WireValue::Fixed64
    } else if shape == 2 {
        let (len, n) = parse_varint(b).unwrap();
        WireValue::Bytes(b.subrange(n, n + len as int))
    } else if shape == 3 {
        WireValue::Group
    } else {
        WireValue::Fixed32
    }
}

/// Reads one field from the front of `b`: the field and the number of bytes
/// it took.
pub open spec fn parse_field(b: Seq<u8>, budget: nat) -> Option<(WireField, int)> {
    match parse_key(b) {
        None => None,
        Some((tag, shape, n0)) => match value_len(b.skip(n0), tag, shape, budget) {
            None => None,
            Some(n1) => Some((WireField { tag, value: value_of(b.skip(n0), shape) }, n0 + n1)),
        },
    }
}

/// Splits `b` into its fields, in order; `None` where `b` is not a run of
/// whole fields.
pub open spec fn parse_fields(b: Seq<u8>, budget: nat) -> Option<Seq<WireField>>
    decreases b.len(),
{
    if b.len() == 0 {
        Some(Seq::empty())
    } else {
        match parse_field(b, budget) {
            None => None,
            Some((f, n)) => if 0 < n <= b.len() {
                match parse_fields(b.skip(n), budget) {
                    Some(rest) => Some(seq![f] + rest),
                    None => None,
                }
            } else {
                None
            },
        }
    }
}

/// The value of a field, as the tokenizer hands it out.
#[derive(Debug, PartialEq)]
pub enum FieldData {
    Varint(u64),
    Fixed64,
    Bytes(Vec<u8>),
    Fixed32,
    Group,
}

/// One field of a message, as the tokenizer hands it out.
#[derive(Debug, PartialEq)]
pub struct Field {
    pub tag: u32,
    pub data: FieldData,
}

impl View for Field {
    type V = WireField;

    open spec fn view(&self) -> WireField {
        WireField {
            tag: self.tag,
            value: match self.data {
                FieldData::Varint(v) => WireValue::Varint(v),
                FieldData::Fixed64 => WireValue::Fixed64,
                FieldData::Bytes(b) => WireValue::Bytes(b@),
                FieldData::Fixed32 => WireValue::Fixed32,
                FieldData::Group => WireValue::Group,
            },
        }
    }
}

/// The views of a list of fields.
pub open spec fn field_views(fields: Seq<Field>) -> Seq<WireField> {
    Seq::new(fields.len(), |i: int| fields[i]@)
}

/// Reads the key that starts at `pos`.
pub fn read_key(data: &[u8], pos: usize) -> (r: Option<(u32, u8, usize)>)
    requires
        pos <= data.len(),
    ensures
        match r {
            Some((tag, shape, n)) => parse_key(data@.skip(pos as int)) == Some(
                (tag, shape as nat, n as int),
            ) && 1 <= n && pos + n <= data.len() && shape <= 5 && tag >= 1,
            None => parse_key(data@.skip(pos as int)) is None,
        },
{
    match read_varint(data, pos) {
        Some((key, n)) => {
            if key > 0xffff_ffff || key % 8 > 5 || key / 8 == 0 {
                None
            } else {
                Some(((key / 8) as u32, (key % 8) as u8, n))
            }
        },
        None => None,
    }
}

/// Finds the end of the value that starts at `pos`.
pub fn skip_value(data: &[u8], pos: usize, tag: u32, shape: u8, budget: u32) -> (r: Option<usize>)
    requires
        pos <= data.len(),
    ensures
        match r {
            Some(n) => value_len(data@.skip(pos as int), tag, shape as nat, budget as nat) == Some(
                n as int,
            ) && pos + n <= data.len(),
            None => value_len(data@.skip(pos as int), tag, shape as nat, budget as nat) is None,
        },
    decreases data.len() - pos, 1nat,
{
    if budget == 0 {
        None
    } else if shape == 0 {
        match read_varint(data, pos) {
            Some((_, n)) => Some(n),
            None => None,
        }
    } else if shape == 1 {
        if data.len() - pos >= 8 {
            Some(8)
        } else {
            None
        }
    } else if shape == 2 {
        match read_varint(data, pos) {
            Some((len, n)) => {
                if len <= (data.len() - pos - n) as u64 {
                    Some(n + len as usize)
                } else {
                    None
                }
            },
            None => None,
        }
    } else if shape == 3 {
        skip_group(data, pos, tag, budget)
    } else if shape == 5 {
        if data.len() - pos >= 4 {
            Some(4)
        } else {
            None
        }
    } else {
        None
    }
}

/// Finds the end of the group `tag` whose fields start at `pos`.
pub fn skip_group(data: &[u8], pos: usize, tag: u32, budget: u32) -> (r: Option<usize>)
    requires
        pos <= data.len(),
    ensures
        match r {
            Some(n) => group_len(data@.skip(pos as int), tag, budget as nat) == Some(n as int)
                && pos + n <= data.len(),
            None => group_len(data@.skip(pos as int), tag, budget as nat) is None,
        },
    decreases data.len() - pos, 0nat,
{
    let mut at: usize = pos;
    loop
        invariant
            pos <= at <= data.len(),
            group_len(data@.skip(pos as int), tag, budget as nat) == match group_len(
                data@.skip(at as int),
                tag,
                budget as nat,
            ) {
                Some(n) => Some(at - pos + n),
                None => None,
            },
        decreases data.len() - at,
    {
        let ghost b = data@.skip(at as int);
        let (inner, shape, n0) = match read_key(data, at) {
            Some(key) => key,
            None => {
                return None;
            },
        };
        if budget == 0 {
            return None;
        }
        if shape == 4 {
            if inner == tag {
                return Some(at - pos + n0);
            } else {
                return None;
            }
        }
        assert(b.skip(n0 as int) =~= data@.skip(at + n0));
        let n1: usize = match skip_value(data, at + n0, inner, shape, budget - 1) {
            Some(n1) => n1,
            None => {
                return None;
            },
        };
        assert(b.skip(n0 + n1) =~= data@.skip(at + n0 + n1));
        at = at + n0 + n1;
    }
}

/// Reads the field that starts at `pos`.
pub fn read_field(data: &[u8], pos: usize, budget: u32) -> (r: Option<(Field, usize)>)
    requires
        pos <= data.len(),
    ensures
        match r {
            Some((f, n)) => parse_field(data@.skip(pos as int), budget as nat) == Some(
                (f@, n as int),
            ) && 2 <= n && pos + n <= data.len(),
            None => parse_field(data@.skip(pos as int), budget as nat) is None,
        },
{
    let ghost b = data@.skip(pos as int);
    let (tag, shape, n0) = match read_key(data, pos) {
        Some(key) => key,
        None => {
            return None;
        },
    };
    let at: usize = pos + n0;
    assert(b.skip(n0 as int) =~= data@.skip(at as int));
    if budget == 0 {
        return None;
    }
    if shape == 0 {
        match read_varint(data, at) {
            Some((v, n1)) => Some((Field { tag, data: FieldData::Varint(v) }, n0 + n1)),
            None => None,
        }
    } else if shape == 2 {
        match read_varint(data, at) {
            Some((len, n1)) => {
                let start: usize = at + n1;
                if len <= (data.len() - start) as u64 {
                    let count: usize = len as usize;
                    let bytes = vstd::slice::slice_to_vec(
                        vstd::slice::slice_subrange(data, start, start + count),
                    );
                    assert(bytes@ =~= b.skip(n0 as int).subrange(n1 as int, n1 + len as int));
                    Some((Field { tag, data: FieldData::Bytes(bytes) }, n0 + n1 + count))
                } else {
                    None
                }
            },
            None => None,
        }
    } else {
        match skip_value(data, at, tag, shape, budget) {
            Some(n1) => {
                let data = if shape == 1 {
                    FieldData::Fixed64
                } else if shape == 3 {
                    FieldData::Group
                } else {
                    FieldData::Fixed32
                };
                proof {
                    if shape == 3 {
                        lemma_group_len_positive(b.skip(n0 as int), tag, budget as nat);
                    }
                }
                Some((Field { tag, data }, n0 + n1))
            },
            None => None,
        }
    }
}

/// A group takes at least the one byte of the key that ends it.
pub proof fn lemma_group_len_positive(b: Seq<u8>, tag: u32, budget: nat)
    requires
        group_len(b, tag, budget) is Some,
    ensures
        group_len(b, tag, budget).unwrap() >= 1,
    decreases b.len(),
{
    let (inner, shape, n0) = parse_key(b).unwrap();
    if shape != 4 {
        let n1 = value_len(b.skip(n0), inner, shape, (budget - 1) as nat).unwrap();
        lemma_group_len_positive(b.skip(n0 + n1), tag, budget);
    }
}

/// Splits a message into its fields.
pub fn read_fields(data: &[u8], budget: u32) -> (r: Option<Vec<Field>>)
    ensures
        match r {
            Some(fields) => parse_fields(data@, budget as nat) == Some(field_views(fields@)),
            None => parse_fields(data@, budget as nat) is None,
        },
{
    let mut fields: Vec<Field> = Vec::new();
    let mut pos: usize = 0;
    proof {
        assert(data@.skip(0) =~= data@);
        match parse_fields(data@, budget as nat) {
            Some(rest) => {
                assert(field_views(fields@) + rest =~= rest);
            },
            None => {},
        }
    }
    while pos < data.len()
        invariant
            pos <= data.len(),
            parse_fields(data@, budget as nat) == match parse_fields(
                data@.skip(pos as int),
                budget as nat,
            ) {
                Some(rest) => Some(field_views(fields@) + rest),
                None => None,
            },
        decreases data.len() - pos,
    {
        let ghost b = data@.skip(pos as int);
        match read_field(data, pos, budget) {
            None => {
                return None;
            },
            Some((f, n)) => {
                let ghost before = field_views(fields@);
                assert(b.skip(n as int) =~= data@.skip(pos + n));
                fields.push(f);
                pos = pos + n;
                proof {
                    assert(field_views(fields@) =~= before + seq![f@]);
                    match parse_fields(data@.skip(pos as int), budget as nat) {
                        Some(rest) => {
                            assert(before + (seq![f@] + rest) =~= field_views(fields@) + rest);
                        },
                        None => {},
                    }
                }
            },
        }
    }
    proof {
        assert(data@.skip(pos as int).len() == 0);
        assert(field_views(fields@) + Seq::<WireField>::empty() =~= field_views(fields@));
    }
    Some(fields)
}

/// The base-128 form of `v`: seven bits to a byte, least significant group
/// first, each byte but the last marked by its high bit.
pub open spec fn varint(v: nat) -> Seq<u8>
    decreases v,
{
    if v < 128 {
        seq![v as u8]
    } else {
        seq![(v % 128 + 128) as u8] + varint(v / 128)
    }
}

/// A field whose value is a number.
pub open spec fn varint_field(tag: u32, v: u64) -> Seq<u8> {
    varint(tag as nat * 8) + varint(v as nat)
}

/// A field whose value is a run of bytes, preceded by its length.
pub open spec fn bytes_field(tag: u32, b: Seq<u8>) -> Seq<u8> {
    varint(tag as nat * 8 + 2) + varint(b.len()) + b
}

/// The base-128 form of a number is read back as that number, whatever
/// follows it.
pub proof fn lemma_varint_round_trip(v: nat, depth: nat, rest: Seq<u8>)
    requires
        depth <= 9,
        v < varint_bound(depth),
    ensures
        parse_varint_from(varint(v) + rest, depth) == Some((v, varint(v).len() as int)),
    decreases v,
{
    let b = varint(v) + rest;
    if v < 128 {
        assert(b[0] == v as u8);
    } else {
        assert(depth < 9);
        lemma_varint_bound_step(depth);
        assert(v / 128 < varint_bound(depth + 1)) by (nonlinear_arith)
            requires
                v < 128 * varint_bound(depth + 1),
        ;
        lemma_varint_round_trip(v / 128, depth + 1, rest);
        assert(b[0] == (v % 128 + 128) as u8);
        assert(b.skip(1) =~= varint(v / 128) + rest);
        assert((b[0] - 0x80) as nat + 128 * (v / 128) == v) by (nonlinear_arith)
            requires
                b[0] == (v % 128 + 128) as u8,
        ;
    }
}

/// A number field is read back as it was written, whatever follows it.
pub proof fn lemma_varint_field_round_trip(tag: u32, v: u64, rest: Seq<u8>, budget: nat)
    requires
        1 <= tag < 0x2000_0000,
        budget > 0,
    ensures
        parse_field(varint_field(tag, v) + rest, budget) == Some(
            (
                WireField { tag, value: WireValue::Varint(v) },
                varint_field(tag, v).len() as int,
            ),
        ),
        varint_field(tag, v).len() > 0,
{
    let key = tag as nat * 8;
    let b = varint_field(tag, v) + rest;
    lemma_varint_bound_zero();
    assert(b =~= varint(key) + (varint(v as nat) + rest));
    lemma_varint_round_trip(key, 0, varint(v as nat) + rest);
    let n0 = varint(key).len() as int;
    assert(b.skip(n0) =~= varint(v as nat) + rest);
    lemma_varint_round_trip(v as nat, 0, rest);
    assert(key / 8 == tag && key % 8 == 0);
}

/// A bytes field is read back as it was written, whatever follows it.
pub proof fn lemma_bytes_field_round_trip(
    tag: u32,
    data: Seq<u8>,
    rest: Seq<u8>,
    budget: nat,
)
    requires
        1 <= tag < 0x2000_0000,
        data.len() <= u64::MAX,
        budget > 0,
    ensures
        parse_field(bytes_field(tag, data) + rest, budget) == Some(
            (
                WireField { tag, value: WireValue::Bytes(data) },
                bytes_field(tag, data).len() as int,
            ),
        ),
        bytes_field(tag, data).len() > 0,
{
    let key = tag as nat * 8 + 2;
    let b = bytes_field(tag, data) + rest;
    lemma_varint_bound_zero();
    assert(b =~= varint(key) + (varint(data.len()) + (data + rest)));
    lemma_varint_round_trip(key, 0, varint(data.len()) + (data + rest));
    let n0 = varint(key).len() as int;
    assert(b.skip(n0) =~= varint(data.len()) + (data + rest));
    lemma_varint_round_trip(data.len(), 0, data + rest);
    let n1 = varint(data.len()).len() as int;
    assert(key / 8 == tag && key % 8 == 2);
    assert(b.skip(n0).subrange(n1, n1 + data.len() as int) =~= data);
}

/// Appends the base-128 form of `v`.
pub fn write_varint(out: &mut Vec<u8>, v: u64)
    ensures
        final(out)@ == old(out)@ + varint(v as nat),
{
    let mut rest: u64 = v;
    let ghost done: Seq<u8> = Seq::empty();
    assert(old(out)@ + done =~= old(out)@);
    while rest >= 128
        invariant
            out@ == old(out)@ + done,
            done + varint(rest as nat) == varint(v as nat),
        decreases rest,
    {
        let byte: u8 = (rest % 128 + 128) as u8;
        out.push(byte);
        proof {
            assert((done.push(byte)) + varint((rest / 128) as nat) =~= done + varint(rest as nat));
            assert(old(out)@ + done.push(byte) =~= (old(out)@ + done).push(byte));
            done = done.push(byte);
        }
        rest = rest / 128;
    }
    out.push(rest as u8);
    proof {
        assert(old(out)@ + (done + varint(rest as nat)) =~= (old(out)@ + done).push(rest as u8));
    }
}

/// Appends a field whose value is a number.
pub fn write_varint_field(out: &mut Vec<u8>, tag: u32, v: u64)
    requires
        tag < 0x2000_0000,
    ensures
        final(out)@ == old(out)@ + varint_field(tag, v),
{
    write_varint(out, tag as u64 * 8);
    write_varint(out, v);
    assert(out@ =~= old(out)@ + varint_field(tag, v));
}

/// Appends a field whose value is a run of bytes.
pub fn write_bytes_field(out: &mut Vec<u8>, tag: u32, data: &[u8])
    requires
        tag < 0x2000_0000,
    ensures
        final(out)@ == old(out)@ + bytes_field(tag, data@),
{
    write_varint(out, tag as u64 * 8 + 2);
    write_varint(out, data.len() as u64);
    out.extend_from_slice(data);
    assert(out@ =~= old(out)@ + bytes_field(tag, data@));
}

/// What a run of fields makes of `acc`, where `apply` says what one field
/// makes of it; `None` where one of the fields is refused.
pub open spec fn fold_fields<A>(
    fields: Seq<WireField>,
    acc: A,
    apply: spec_fn(A, WireField) -> Option<A>,
) -> Option<A>
    decreases fields.len(),
{
    if fields.len() == 0 {
        Some(acc)
    } else {
        match apply(acc, fields[0]) {
            Some(next) => fold_fields(fields.skip(1), next, apply),
            None => None,
        }
    }
}

/// What the fields in `b` make of `acc`; `None` where `b` is not a run of
/// whole fields, or one of them is refused.
pub open spec fn parse_fold<A>(
    b: Seq<u8>,
    budget: nat,
    acc: A,
    apply: spec_fn(A, WireField) -> Option<A>,
) -> Option<A> {
    match parse_fields(b, budget) {
        Some(fields) => fold_fields(fields, acc, apply),
        None => None,
    }
}

/// Folding a run that starts with a field applies that field first.
pub proof fn lemma_parse_fold_step<A>(
    b: Seq<u8>,
    budget: nat,
    acc: A,
    apply: spec_fn(A, WireField) -> Option<A>,
)
    requires
        b.len() > 0,
        parse_field(b, budget) is Some,
        0 < parse_field(b, budget).unwrap().1 <= b.len(),
    ensures
        parse_fold(b, budget, acc, apply) == match apply(acc, parse_field(b, budget).unwrap().0) {
            Some(next) => parse_fold(
                b.skip(parse_field(b, budget).unwrap().1),
                budget,
                next,
                apply,
            ),
            None => None,
        },
{
    let (f, n) = parse_field(b, budget).unwrap();
    match parse_fields(b.skip(n), budget) {
        Some(rest) => {
            let all = seq![f] + rest;
            assert(all[0] == f);
            assert(all.skip(1) =~= rest);
        },
        None => {},
    }
}

/// A field that stands in front of `rest` is applied before `rest` is read.
pub proof fn lemma_parse_fold_field<A>(
    field: Seq<u8>,
    f: WireField,
    rest: Seq<u8>,
    budget: nat,
    acc: A,
    apply: spec_fn(A, WireField) -> Option<A>,
)
    requires
        field.len() > 0,
        parse_field(field + rest, budget) == Some((f, field.len() as int)),
    ensures
        parse_fold(field + rest, budget, acc, apply) == match apply(acc, f) {
            Some(next) => parse_fold(rest, budget, next, apply),
            None => None,
        },
{
    let b = field + rest;
    assert(b.skip(field.len() as int) =~= rest);
    lemma_parse_fold_step(b, budget, acc, apply);
}

/// Reads the fields of `data` one by one and lets `apply` merge each into
/// what the fields before it made of `start`. `model` says what `apply` does.
pub fn decode_fold<T: View, F: Fn(T, Field) -> Option<T>>(
    data: &[u8],
    budget: u32,
    start: T,
    apply: F,
    Ghost(model): Ghost<spec_fn(T::V, WireField) -> Option<T::V>>,
) -> (r: Option<T>)
    requires
        forall|a: T, f: Field| apply.requires((a, f)),
        forall|a: T, f: Field, r: Option<T>| #[trigger]
            apply.ensures((a, f), r) ==> match r {
                Some(q) => model(a@, f@) == Some(q@),
                None => model(a@, f@) is None,
            },
    ensures
        match r {
            Some(q) => parse_fold(data@, budget as nat, start@, model) == Some(q@),
            None => parse_fold(data@, budget as nat, start@, model) is None,
        },
{
    let ghost init = start@;
    let mut acc = start;
    let mut pos: usize = 0;
    proof {
        assert(data@.skip(0) =~= data@);
    }
    while pos < data.len()
        invariant
            pos <= data.len(),
            init == start@,
            forall|a: T, f: Field| apply.requires((a, f)),
            forall|a: T, f: Field, r: Option<T>| #[trigger]
                apply.ensures((a, f), r) ==> match r {
                    Some(q) => model(a@, f@) == Some(q@),
                    None => model(a@, f@) is None,
                },
            parse_fold(data@, budget as nat, init, model) == parse_fold(
                data@.skip(pos as int),
                budget as nat,
                acc@,
                model,
            ),
        decreases data.len() - pos,
    {
        let ghost b = data@.skip(pos as int);
        let ghost before = acc@;
        match read_field(data, pos, budget) {
            None => {
                return None;
            },
            Some((f, n)) => {
                proof {
                    assert(b.skip(n as int) =~= data@.skip(pos + n));
                    lemma_parse_fold_step(b, budget as nat, before, model);
                }
                match apply(acc, f) {
                    Some(next) => {
                        acc = next;
                    },
                    None => {
                        return None;
                    },
                }
                pos = pos + n;
            },
        }
    }
    Some(acc)
}

} // verus!
