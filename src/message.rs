//! Typed messages over the field encoding: each message type states its
//! canonical field sequence, what decoding a field sequence yields, and that
//! decoding its own fields gives them back.

use vstd::prelude::*;
use vstd::string::StrSliceExecFns;
use vstd::utf8::{
    decode_utf8, decode_utf8_encode_utf8, encode_utf8, encode_utf8_decode_utf8,
    encode_utf8_valid_utf8, valid_utf8,
};

use crate::error::KiCadError;
use crate::wire::{
    encode_field, encode_fields, field_number_ok, fields_numbers_ok, fields_view,
    lemma_parse_fields_round_trip, parse_fields, read_fields, write_fields, WireField,
    WireFieldV, WireValue, WireValueV,
};

verus! {

broadcast use {encode_utf8_decode_utf8, encode_utf8_valid_utf8};

/// A message type of the interface.
pub trait WireMessage: Sized {
    /// The fully qualified schema name, such as `kiapi.common.commands.GetVersion`.
    spec fn spec_schema_name() -> Seq<char>;

    /// The canonical fields of this value: every field, in field-number order.
    spec fn fields(&self) -> Seq<WireFieldV>;

    /// The canonical fields of the value that decoding `fs` yields; `None`
    /// where `fs` does not decode. A later occurrence of a field replaces an
    /// earlier one, and fields of other numbers are skipped.
    spec fn decoded(fs: Seq<WireFieldV>) -> Option<Seq<WireFieldV>>;

    /// Decoding a value's own fields gives them back.
    proof fn lemma_fields_decode(&self)
        requires
            encode_fields(self.fields()).len() <= u64::MAX,
        ensures
            fields_numbers_ok(self.fields()),
            Self::decoded(self.fields()) == Some(self.fields()),
    ;

    fn schema_name() -> (r: String)
        ensures
            r@ == Self::spec_schema_name(),
    ;

    fn to_fields(&self) -> (r: Vec<WireField>)
        ensures
            fields_view(r@) == self.fields(),
            fields_numbers_ok(fields_view(r@)),
    ;

    fn from_fields(fs: &Vec<WireField>) -> (r: Result<Self, KiCadError>)
        ensures
            match Self::decoded(fields_view(fs@)) {
                Some(c) => match r {
                    Ok(m) => m.fields() == c,
                    Err(_) => false,
                },
                None => r matches Err(KiCadError::MalformedEnvelope),
            },
    ;
}

// ---- reading field sequences in spec ----

pub open spec fn last_within(fs: Seq<WireFieldV>, k: u32, i: int) -> Option<WireValueV>
    decreases i,
{
    if i <= 0 {
        None
    } else if fs[i - 1].number == k {
        Some(fs[i - 1].value)
    } else {
        last_within(fs, k, i - 1)
    }
}

/// The payload of the last field numbered `k`.
pub open spec fn last_of(fs: Seq<WireFieldV>, k: u32) -> Option<WireValueV> {
    last_within(fs, k, fs.len() as int)
}

pub open spec fn all_within(fs: Seq<WireFieldV>, k: u32, i: int) -> Seq<WireValueV>
    decreases i,
{
    if i <= 0 {
        Seq::empty()
    } else if fs[i - 1].number == k {
        all_within(fs, k, i - 1).push(fs[i - 1].value)
    } else {
        all_within(fs, k, i - 1)
    }
}

/// The payloads of all fields numbered `k`, in order.
pub open spec fn all_of(fs: Seq<WireFieldV>, k: u32) -> Seq<WireValueV> {
    all_within(fs, k, fs.len() as int)
}

pub open spec fn as_varint(o: Option<WireValueV>) -> Option<u64> {
    match o {
        None => Some(0),
        Some(WireValueV::Varint(v)) => Some(v),
        Some(_) => None,
    }
}

pub open spec fn as_fixed64(o: Option<WireValueV>) -> Option<u64> {
    match o {
        None => Some(0),
        Some(WireValueV::Fixed64(v)) => Some(v),
        Some(_) => None,
    }
}

pub open spec fn as_text(o: Option<WireValueV>) -> Option<Seq<char>> {
    match o {
        None => Some(Seq::empty()),
        Some(WireValueV::Delimited(b)) => if valid_utf8(b) {
            Some(decode_utf8(b))
        } else {
            None
        },
        Some(_) => None,
    }
}

pub open spec fn as_bytes(o: Option<WireValueV>) -> Option<Seq<u8>> {
    match o {
        None => Some(Seq::empty()),
        Some(WireValueV::Delimited(b)) => Some(b),
        Some(_) => None,
    }
}

pub open spec fn as_nested_value<M: WireMessage>(v: WireValueV) -> Option<Seq<WireFieldV>> {
    match v {
        WireValueV::Delimited(b) => match parse_fields(b) {
            Some(fs) => M::decoded(fs),
            None => None,
        },
        _ => None,
    }
}

/// An optional nested message: `Some(None)` where the field is absent.
pub open spec fn as_nested<M: WireMessage>(o: Option<WireValueV>) -> Option<Option<Seq<WireFieldV>>> {
    match o {
        None => Some(None),
        Some(v) => match as_nested_value::<M>(v) {
            Some(c) => Some(Some(c)),
            None => None,
        },
    }
}

/// A repeated nested message: every occurrence must decode.
pub open spec fn as_nested_all<M: WireMessage>(vs: Seq<WireValueV>) -> Option<Seq<Seq<WireFieldV>>>
    decreases vs.len(),
{
    if vs.len() == 0 {
        Some(Seq::empty())
    } else {
        match (as_nested_all::<M>(vs.drop_last()), as_nested_value::<M>(vs.last())) {
            (Some(cs), Some(c)) => Some(cs.push(c)),
            _ => None,
        }
    }
}

pub open spec fn last_among_within(fs: Seq<WireFieldV>, lo: u32, hi: u32, i: int) -> Option<WireFieldV>
    decreases i,
{
    if i <= 0 {
        None
    } else if lo <= fs[i - 1].number <= hi {
        Some(fs[i - 1])
    } else {
        last_among_within(fs, lo, hi, i - 1)
    }
}

/// The last field whose number lies in `lo..=hi`: the member of a group of
/// alternatives that counts.
pub open spec fn last_among(fs: Seq<WireFieldV>, lo: u32, hi: u32) -> Option<WireFieldV> {
    last_among_within(fs, lo, hi, fs.len() as int)
}

// ---- canonical fields ----

/// The canonical payload of a signed 32-bit field: sign-extended to 64 bits.
pub open spec fn i32_bits(x: i32) -> u64 {
    x as i64 as u64
}

pub proof fn lemma_i32_bits(x: i32)
    ensures
        i32_bits(x) as i32 == x,
{
    assert((x as i64 as u64) as i32 == x) by (bit_vector);
}

/// The canonical payload of a boolean field.
pub open spec fn bool_bits(b: bool) -> u64 {
    if b {
        1
    } else {
        0
    }
}

pub proof fn lemma_u64_i64(x: u64)
    ensures
        (x as i64) as u64 == x,
{
    assert((x as i64) as u64 == x) by (bit_vector);
}

pub open spec fn repeated_varint(k: u32, xs: Seq<u64>) -> Seq<WireFieldV> {
    xs.map_values(|x: u64| varint_field(k, x))
}

/// A repeated integer: every occurrence must be an integer.
pub open spec fn as_varint_all(vs: Seq<WireValueV>) -> Option<Seq<u64>>
    decreases vs.len(),
{
    if vs.len() == 0 {
        Some(Seq::empty())
    } else {
        match (as_varint_all(vs.drop_last()), vs.last()) {
            (Some(xs), WireValueV::Varint(v)) => Some(xs.push(v)),
            _ => None,
        }
    }
}

pub open spec fn repeated_bytes(k: u32, bs: Seq<Seq<u8>>) -> Seq<WireFieldV> {
    bs.map_values(|b: Seq<u8>| bytes_field(k, b))
}

/// A repeated length-delimited field: every occurrence must be delimited.
pub open spec fn as_delimited_all(vs: Seq<WireValueV>) -> Option<Seq<Seq<u8>>>
    decreases vs.len(),
{
    if vs.len() == 0 {
        Some(Seq::empty())
    } else {
        match (as_delimited_all(vs.drop_last()), vs.last()) {
            (Some(bs), WireValueV::Delimited(b)) => Some(bs.push(b)),
            _ => None,
        }
    }
}

pub open spec fn all_valid_utf8(bs: Seq<Seq<u8>>) -> bool {
    forall|i: int| 0 <= i < bs.len() ==> valid_utf8(#[trigger] bs[i])
}

/// A repeated string field: every occurrence must be delimited UTF-8.
pub open spec fn as_text_all(vs: Seq<WireValueV>) -> Option<Seq<Seq<u8>>> {
    match as_delimited_all(vs) {
        Some(bs) => if all_valid_utf8(bs) {
            Some(bs)
        } else {
            None
        },
        None => None,
    }
}

/// The bytes of each of a sequence of strings.
pub open spec fn texts_bytes(ts: Seq<String>) -> Seq<Seq<u8>> {
    ts.map_values(|t: String| encode_utf8(t@))
}

/// The contents of each of a sequence of byte vectors.
pub open spec fn bytes_views(bs: Seq<Vec<u8>>) -> Seq<Seq<u8>> {
    bs.map_values(|b: Vec<u8>| b@)
}

/// The canonical payloads of a repeated signed 32-bit field.
pub open spec fn i32_list_bits(xs: Seq<i32>) -> Seq<u64> {
    xs.map_values(|x: i32| i32_bits(x))
}

/// The canonical payloads of a repeated signed 32-bit field decoded from `us`.
pub open spec fn i32_list_from(us: Seq<u64>) -> Seq<u64> {
    us.map_values(|u: u64| i32_bits(u as i32))
}



pub open spec fn varint_field(k: u32, v: u64) -> WireFieldV {
    WireFieldV { number: k, value: WireValueV::Varint(v) }
}

pub open spec fn fixed64_field(k: u32, v: u64) -> WireFieldV {
    WireFieldV { number: k, value: WireValueV::Fixed64(v) }
}

pub open spec fn text_field(k: u32, s: Seq<char>) -> WireFieldV {
    WireFieldV { number: k, value: WireValueV::Delimited(encode_utf8(s)) }
}

pub open spec fn bytes_field(k: u32, b: Seq<u8>) -> WireFieldV {
    WireFieldV { number: k, value: WireValueV::Delimited(b) }
}

pub open spec fn nested_field(k: u32, c: Seq<WireFieldV>) -> WireFieldV {
    WireFieldV { number: k, value: WireValueV::Delimited(encode_fields(c)) }
}

pub open spec fn single(f: WireFieldV) -> Seq<WireFieldV> {
    seq![f]
}

pub open spec fn optional_nested(k: u32, o: Option<Seq<WireFieldV>>) -> Seq<WireFieldV> {
    match o {
        Some(c) => seq![nested_field(k, c)],
        None => Seq::empty(),
    }
}

pub open spec fn repeated_nested(k: u32, cs: Seq<Seq<WireFieldV>>) -> Seq<WireFieldV> {
    cs.map_values(|c: Seq<WireFieldV>| nested_field(k, c))
}

/// The canonical fields of an optional nested message.
pub open spec fn fields_of_option<M: WireMessage>(o: Option<M>) -> Option<Seq<WireFieldV>> {
    match o {
        Some(m) => Some(m.fields()),
        None => None,
    }
}

/// The canonical fields of each of a sequence of messages.
pub open spec fn fields_of_all<M: WireMessage>(s: Seq<M>) -> Seq<Seq<WireFieldV>> {
    s.map_values(|m: M| m.fields())
}

// ---- facts about reading canonical fields ----

proof fn lemma_last_within_prefix(a: Seq<WireFieldV>, b: Seq<WireFieldV>, k: u32, i: int)
    requires
        0 <= i <= a.len(),
    ensures
        last_within(a + b, k, i) == last_within(a, k, i),
    decreases i,
{
    if i > 0 {
        lemma_last_within_prefix(a, b, k, i - 1);
    }
}

proof fn lemma_last_within_suffix(a: Seq<WireFieldV>, b: Seq<WireFieldV>, k: u32, j: int)
    requires
        0 <= j <= b.len(),
    ensures
        last_within(a + b, k, a.len() + j) == match last_within(b, k, j) {
            Some(v) => Some(v),
            None => last_within(a, k, a.len() as int),
        },
    decreases j,
{
    if j == 0 {
        lemma_last_within_prefix(a, b, k, a.len() as int);
    } else {
        lemma_last_within_suffix(a, b, k, j - 1);
    }
}

pub broadcast proof fn lemma_last_of_concat(a: Seq<WireFieldV>, b: Seq<WireFieldV>, k: u32)
    ensures
        #[trigger] last_of(a + b, k) == match last_of(b, k) {
            Some(v) => Some(v),
            None => last_of(a, k),
        },
{
    lemma_last_within_suffix(a, b, k, b.len() as int);
}

proof fn lemma_all_within_prefix(a: Seq<WireFieldV>, b: Seq<WireFieldV>, k: u32, i: int)
    requires
        0 <= i <= a.len(),
    ensures
        all_within(a + b, k, i) == all_within(a, k, i),
    decreases i,
{
    if i > 0 {
        lemma_all_within_prefix(a, b, k, i - 1);
    }
}

proof fn lemma_all_within_suffix(a: Seq<WireFieldV>, b: Seq<WireFieldV>, k: u32, j: int)
    requires
        0 <= j <= b.len(),
    ensures
        all_within(a + b, k, a.len() + j) == all_within(a, k, a.len() as int) + all_within(b, k, j),
    decreases j,
{
    if j == 0 {
        lemma_all_within_prefix(a, b, k, a.len() as int);
        assert(all_within(a, k, a.len() as int) + Seq::<WireValueV>::empty() =~= all_within(a, k, a.len() as int));
    } else {
        lemma_all_within_suffix(a, b, k, j - 1);
        assert((a + b)[a.len() + j - 1] == b[j - 1]);
        if b[j - 1].number == k {
            assert(all_within(a, k, a.len() as int) + all_within(b, k, j - 1).push(b[j - 1].value)
                =~= (all_within(a, k, a.len() as int) + all_within(b, k, j - 1)).push(b[j - 1].value));
        }
    }
}

pub broadcast proof fn lemma_all_of_concat(a: Seq<WireFieldV>, b: Seq<WireFieldV>, k: u32)
    ensures
        #[trigger] all_of(a + b, k) == all_of(a, k) + all_of(b, k),
{
    lemma_all_within_suffix(a, b, k, b.len() as int);
}

pub broadcast proof fn lemma_last_of_single(f: WireFieldV, k: u32)
    ensures
        #[trigger] last_of(single(f), k) == if f.number == k {
            Some(f.value)
        } else {
            None
        },
{
    reveal_with_fuel(last_within, 2);
}

pub broadcast proof fn lemma_all_of_single(f: WireFieldV, k: u32)
    ensures
        #[trigger] all_of(single(f), k) == if f.number == k {
            seq![f.value]
        } else {
            Seq::empty()
        },
{
    reveal_with_fuel(all_within, 2);
    assert(Seq::<WireValueV>::empty().push(f.value) =~= seq![f.value]);
}

pub broadcast proof fn lemma_last_of_optional(j: u32, o: Option<Seq<WireFieldV>>, k: u32)
    ensures
        #[trigger] last_of(optional_nested(j, o), k) == match o {
            Some(c) => if j == k {
                Some(WireValueV::Delimited(encode_fields(c)))
            } else {
                None
            },
            None => None,
        },
{
    reveal_with_fuel(last_within, 2);
}

pub broadcast proof fn lemma_all_of_optional(j: u32, o: Option<Seq<WireFieldV>>, k: u32)
    requires
        j != k,
    ensures
        #[trigger] all_of(optional_nested(j, o), k) == Seq::<WireValueV>::empty(),
{
    reveal_with_fuel(all_within, 2);
}

proof fn lemma_last_within_repeated(j: u32, cs: Seq<Seq<WireFieldV>>, k: u32, i: int)
    requires
        j != k,
        0 <= i <= cs.len(),
    ensures
        last_within(repeated_nested(j, cs), k, i) is None,
    decreases i,
{
    if i > 0 {
        lemma_last_within_repeated(j, cs, k, i - 1);
    }
}

pub broadcast proof fn lemma_last_of_repeated(j: u32, cs: Seq<Seq<WireFieldV>>, k: u32)
    requires
        j != k,
    ensures
        #[trigger] last_of(repeated_nested(j, cs), k) is None,
{
    lemma_last_within_repeated(j, cs, k, cs.len() as int);
}

proof fn lemma_all_within_repeated(j: u32, cs: Seq<Seq<WireFieldV>>, i: int)
    requires
        0 <= i <= cs.len(),
    ensures
        all_within(repeated_nested(j, cs), j, i) == cs.take(i).map_values(
            |c: Seq<WireFieldV>| WireValueV::Delimited(encode_fields(c)),
        ),
    decreases i,
{
    if i == 0 {
        assert(cs.take(0).map_values(|c: Seq<WireFieldV>| WireValueV::Delimited(encode_fields(c)))
            =~= Seq::<WireValueV>::empty());
    } else {
        lemma_all_within_repeated(j, cs, i - 1);
        assert(cs.take(i).map_values(|c: Seq<WireFieldV>| WireValueV::Delimited(encode_fields(c)))
            =~= cs.take(i - 1).map_values(
            |c: Seq<WireFieldV>| WireValueV::Delimited(encode_fields(c)),
        ).push(WireValueV::Delimited(encode_fields(cs[i - 1]))));
    }
}

pub broadcast proof fn lemma_all_of_repeated(j: u32, cs: Seq<Seq<WireFieldV>>)
    ensures
        #[trigger] all_of(repeated_nested(j, cs), j) == cs.map_values(
            |c: Seq<WireFieldV>| WireValueV::Delimited(encode_fields(c)),
        ),
{
    lemma_all_within_repeated(j, cs, cs.len() as int);
    assert(cs.take(cs.len() as int) =~= cs);
}

pub broadcast proof fn lemma_numbers_ok_concat(a: Seq<WireFieldV>, b: Seq<WireFieldV>)
    ensures
        fields_numbers_ok(a) && fields_numbers_ok(b) ==> #[trigger] fields_numbers_ok(a + b),
{
    if fields_numbers_ok(a) && fields_numbers_ok(b) {
        assert forall|i: int| 0 <= i < (a + b).len() implies field_number_ok(
            #[trigger] (a + b)[i].number,
        ) by {
            if i >= a.len() {
                assert((a + b)[i] == b[i - a.len()]);
            }
        }
    }
}

pub broadcast proof fn lemma_encode_fields_concat(a: Seq<WireFieldV>, b: Seq<WireFieldV>)
    ensures
        #[trigger] encode_fields(a + b) == encode_fields(a) + encode_fields(b),
    decreases b.len(),
{
    if b.len() == 0 {
        assert(a + b =~= a);
        assert(encode_fields(a) + encode_fields(b) =~= encode_fields(a));
    } else {
        lemma_encode_fields_concat(a, b.drop_last());
        assert((a + b).drop_last() =~= a + b.drop_last());
        assert(encode_fields(a) + encode_fields(b) =~= encode_fields(a) + encode_fields(
            b.drop_last(),
        ) + encode_field(b.last()));
    }
}

pub broadcast proof fn lemma_encode_single(f: WireFieldV)
    ensures
        #[trigger] encode_fields(single(f)) == encode_field(f),
{
    assert(single(f).drop_last() =~= Seq::<WireFieldV>::empty());
    assert(single(f).last() == f);
    assert(encode_fields(Seq::<WireFieldV>::empty()) == Seq::<u8>::empty());
    assert(Seq::<u8>::empty() + encode_field(f) =~= encode_field(f));
}

/// A nested message's bytes are no longer than the field that carries them.
pub broadcast proof fn lemma_nested_within(k: u32, c: Seq<WireFieldV>)
    ensures
        encode_fields(c).len() <= #[trigger] encode_field(nested_field(k, c)).len(),
{
}

pub broadcast proof fn lemma_optional_encoding(k: u32, o: Option<Seq<WireFieldV>>)
    ensures
        #[trigger] encode_fields(optional_nested(k, o)) == match o {
            Some(c) => encode_field(nested_field(k, c)),
            None => Seq::empty(),
        },
{
    match o {
        Some(c) => {
            lemma_encode_single(nested_field(k, c));
        },
        None => {},
    }
}

pub broadcast proof fn lemma_numbers_ok_single(f: WireFieldV)
    ensures
        #[trigger] fields_numbers_ok(single(f)) == field_number_ok(f.number),
{
    assert(single(f)[0] == f);
}

pub broadcast proof fn lemma_numbers_ok_optional(k: u32, o: Option<Seq<WireFieldV>>)
    ensures
        field_number_ok(k) ==> #[trigger] fields_numbers_ok(optional_nested(k, o)),
{
}

pub broadcast proof fn lemma_numbers_ok_repeated(k: u32, cs: Seq<Seq<WireFieldV>>)
    ensures
        field_number_ok(k) ==> #[trigger] fields_numbers_ok(repeated_nested(k, cs)),
{
}

proof fn lemma_last_among_prefix(a: Seq<WireFieldV>, b: Seq<WireFieldV>, lo: u32, hi: u32, i: int)
    requires
        0 <= i <= a.len(),
    ensures
        last_among_within(a + b, lo, hi, i) == last_among_within(a, lo, hi, i),
    decreases i,
{
    if i > 0 {
        lemma_last_among_prefix(a, b, lo, hi, i - 1);
    }
}

proof fn lemma_last_among_suffix(a: Seq<WireFieldV>, b: Seq<WireFieldV>, lo: u32, hi: u32, j: int)
    requires
        0 <= j <= b.len(),
    ensures
        last_among_within(a + b, lo, hi, a.len() + j) == match last_among_within(b, lo, hi, j) {
            Some(f) => Some(f),
            None => last_among_within(a, lo, hi, a.len() as int),
        },
    decreases j,
{
    if j == 0 {
        lemma_last_among_prefix(a, b, lo, hi, a.len() as int);
    } else {
        lemma_last_among_suffix(a, b, lo, hi, j - 1);
    }
}

pub broadcast proof fn lemma_last_among_concat(a: Seq<WireFieldV>, b: Seq<WireFieldV>, lo: u32, hi: u32)
    ensures
        #[trigger] last_among(a + b, lo, hi) == match last_among(b, lo, hi) {
            Some(f) => Some(f),
            None => last_among(a, lo, hi),
        },
{
    lemma_last_among_suffix(a, b, lo, hi, b.len() as int);
}

pub broadcast proof fn lemma_last_among_single(f: WireFieldV, lo: u32, hi: u32)
    ensures
        #[trigger] last_among(single(f), lo, hi) == if lo <= f.number <= hi {
            Some(f)
        } else {
            None
        },
{
    reveal_with_fuel(last_among_within, 2);
}

pub broadcast proof fn lemma_last_among_optional(j: u32, o: Option<Seq<WireFieldV>>, lo: u32, hi: u32)
    requires
        !(lo <= j <= hi),
    ensures
        #[trigger] last_among(optional_nested(j, o), lo, hi) is None,
{
    reveal_with_fuel(last_among_within, 2);
}

pub broadcast proof fn lemma_last_among_empty(lo: u32, hi: u32)
    ensures
        #[trigger] last_among(Seq::<WireFieldV>::empty(), lo, hi) is None,
{
}

pub broadcast proof fn lemma_last_of_empty(k: u32)
    ensures
        #[trigger] last_of(Seq::<WireFieldV>::empty(), k) is None,
{
}

proof fn lemma_last_within_repeated_varint(j: u32, xs: Seq<u64>, k: u32, i: int)
    requires
        j != k,
        0 <= i <= xs.len(),
    ensures
        last_within(repeated_varint(j, xs), k, i) is None,
    decreases i,
{
    if i > 0 {
        lemma_last_within_repeated_varint(j, xs, k, i - 1);
    }
}

pub broadcast proof fn lemma_last_of_repeated_varint(j: u32, xs: Seq<u64>, k: u32)
    requires
        j != k,
    ensures
        #[trigger] last_of(repeated_varint(j, xs), k) is None,
{
    lemma_last_within_repeated_varint(j, xs, k, xs.len() as int);
}

proof fn lemma_all_within_repeated_varint(j: u32, xs: Seq<u64>, i: int)
    requires
        0 <= i <= xs.len(),
    ensures
        as_varint_all(all_within(repeated_varint(j, xs), j, i)) == Some(xs.take(i)),
    decreases i,
{
    if i == 0 {
        assert(xs.take(0) =~= Seq::<u64>::empty());
    } else {
        lemma_all_within_repeated_varint(j, xs, i - 1);
        assert(all_within(repeated_varint(j, xs), j, i).drop_last() == all_within(repeated_varint(j, xs), j, i - 1));
        assert(xs.take(i) =~= xs.take(i - 1).push(xs[i - 1]));
    }
}

pub broadcast proof fn lemma_all_of_repeated_varint(j: u32, xs: Seq<u64>)
    ensures
        #[trigger] as_varint_all(all_of(repeated_varint(j, xs), j)) == Some(xs),
{
    lemma_all_within_repeated_varint(j, xs, xs.len() as int);
    assert(xs.take(xs.len() as int) =~= xs);
}

pub broadcast proof fn lemma_numbers_ok_repeated_varint(k: u32, xs: Seq<u64>)
    ensures
        field_number_ok(k) ==> #[trigger] fields_numbers_ok(repeated_varint(k, xs)),
{
}

pub broadcast proof fn lemma_i32_list_round_trip(xs: Seq<i32>)
    ensures
        #[trigger] i32_list_from(i32_list_bits(xs)) == i32_list_bits(xs),
{
    assert forall|i: int| 0 <= i < xs.len() implies #[trigger] i32_list_from(i32_list_bits(xs))[i]
        == i32_list_bits(xs)[i] by {
        lemma_i32_bits(xs[i]);
    }
    assert(i32_list_from(i32_list_bits(xs)) =~= i32_list_bits(xs));
}

proof fn lemma_last_within_repeated_bytes(j: u32, bs: Seq<Seq<u8>>, k: u32, i: int)
    requires
        j != k,
        0 <= i <= bs.len(),
    ensures
        last_within(repeated_bytes(j, bs), k, i) is None,
    decreases i,
{
    if i > 0 {
        lemma_last_within_repeated_bytes(j, bs, k, i - 1);
    }
}

pub broadcast proof fn lemma_last_of_repeated_bytes(j: u32, bs: Seq<Seq<u8>>, k: u32)
    requires
        j != k,
    ensures
        #[trigger] last_of(repeated_bytes(j, bs), k) is None,
{
    lemma_last_within_repeated_bytes(j, bs, k, bs.len() as int);
}

proof fn lemma_all_within_repeated_bytes(j: u32, bs: Seq<Seq<u8>>, i: int)
    requires
        0 <= i <= bs.len(),
    ensures
        as_delimited_all(all_within(repeated_bytes(j, bs), j, i)) == Some(bs.take(i)),
    decreases i,
{
    if i == 0 {
        assert(bs.take(0) =~= Seq::<Seq<u8>>::empty());
    } else {
        lemma_all_within_repeated_bytes(j, bs, i - 1);
        assert(all_within(repeated_bytes(j, bs), j, i).drop_last() == all_within(
            repeated_bytes(j, bs),
            j,
            i - 1,
        ));
        assert(bs.take(i) =~= bs.take(i - 1).push(bs[i - 1]));
    }
}

pub broadcast proof fn lemma_all_of_repeated_bytes(j: u32, bs: Seq<Seq<u8>>)
    ensures
        #[trigger] as_delimited_all(all_of(repeated_bytes(j, bs), j)) == Some(bs),
{
    lemma_all_within_repeated_bytes(j, bs, bs.len() as int);
    assert(bs.take(bs.len() as int) =~= bs);
}

proof fn lemma_all_within_other(fs: Seq<WireFieldV>, k: u32, i: int)
    requires
        0 <= i <= fs.len(),
        forall|m: int| 0 <= m < fs.len() ==> (#[trigger] fs[m]).number != k,
    ensures
        all_within(fs, k, i) == Seq::<WireValueV>::empty(),
    decreases i,
{
    if i > 0 {
        lemma_all_within_other(fs, k, i - 1);
    }
}

pub broadcast proof fn lemma_all_of_repeated_other(j: u32, cs: Seq<Seq<WireFieldV>>, k: u32)
    requires
        j != k,
    ensures
        #[trigger] all_of(repeated_nested(j, cs), k) == Seq::<WireValueV>::empty(),
{
    lemma_all_within_other(repeated_nested(j, cs), k, cs.len() as int);
}

pub broadcast proof fn lemma_all_of_repeated_bytes_other(j: u32, bs: Seq<Seq<u8>>, k: u32)
    requires
        j != k,
    ensures
        #[trigger] all_of(repeated_bytes(j, bs), k) == Seq::<WireValueV>::empty(),
{
    lemma_all_within_other(repeated_bytes(j, bs), k, bs.len() as int);
}

pub broadcast proof fn lemma_numbers_ok_repeated_bytes(k: u32, bs: Seq<Seq<u8>>)
    ensures
        field_number_ok(k) ==> #[trigger] fields_numbers_ok(repeated_bytes(k, bs)),
{
}

pub broadcast proof fn lemma_texts_valid(ts: Seq<String>)
    ensures
        #[trigger] all_valid_utf8(texts_bytes(ts)),
{
    broadcast use encode_utf8_valid_utf8;

}

pub broadcast group group_canonical_fields {
    lemma_last_of_repeated_bytes,
    lemma_all_of_repeated_bytes,
    lemma_all_of_repeated_other,
    lemma_all_of_repeated_bytes_other,
    lemma_numbers_ok_repeated_bytes,
    lemma_texts_valid,
    lemma_all_of_optional,
    lemma_last_of_repeated_varint,
    lemma_all_of_repeated_varint,
    lemma_numbers_ok_repeated_varint,
    lemma_i32_list_round_trip,
    lemma_last_among_concat,
    lemma_last_among_single,
    lemma_last_among_optional,
    lemma_last_among_empty,
    lemma_last_of_empty,
    lemma_last_of_concat,
    lemma_all_of_concat,
    lemma_last_of_single,
    lemma_all_of_single,
    lemma_last_of_optional,
    lemma_last_of_repeated,
    lemma_all_of_repeated,
    lemma_numbers_ok_concat,
    lemma_numbers_ok_single,
    lemma_numbers_ok_optional,
    lemma_numbers_ok_repeated,
    lemma_encode_fields_concat,
    lemma_encode_single,
    lemma_nested_within,
    lemma_optional_encoding,
}

/// A nested message's fields survive being carried as bytes.
pub proof fn lemma_nested_round_trip<M: WireMessage>(m: M)
    requires
        encode_fields(m.fields()).len() <= u64::MAX,
    ensures
        as_nested_value::<M>(WireValueV::Delimited(encode_fields(m.fields()))) == Some(m.fields()),
{
    m.lemma_fields_decode();
    lemma_parse_fields_round_trip(m.fields());
}

/// Every element of a repeated nested message survives being carried as bytes.
pub proof fn lemma_nested_all_round_trip<M: WireMessage>(items: Seq<M>, k: u32)
    requires
        encode_fields(repeated_nested(k, fields_of_all(items))).len() <= u64::MAX,
    ensures
        as_nested_all::<M>(
            fields_of_all(items).map_values(
                |c: Seq<WireFieldV>| WireValueV::Delimited(encode_fields(c)),
            ),
        ) == Some(fields_of_all(items)),
    decreases items.len(),
{
    let cs = fields_of_all(items);
    let vs = cs.map_values(|c: Seq<WireFieldV>| WireValueV::Delimited(encode_fields(c)));
    if items.len() == 0 {
        assert(cs =~= Seq::<Seq<WireFieldV>>::empty());
    } else {
        let init = items.drop_last();
        assert(fields_of_all(init) =~= cs.drop_last());
        assert(repeated_nested(k, fields_of_all(init)) =~= repeated_nested(k, cs).drop_last());
        assert(repeated_nested(k, cs) =~= repeated_nested(k, cs).drop_last() + single(
            nested_field(k, cs.last()),
        ));
        lemma_encode_fields_concat(repeated_nested(k, cs).drop_last(), single(nested_field(k, cs.last())));
        lemma_encode_single(nested_field(k, cs.last()));
        lemma_nested_all_round_trip(init, k);
        assert(vs.drop_last() =~= fields_of_all(init).map_values(
            |c: Seq<WireFieldV>| WireValueV::Delimited(encode_fields(c)),
        ));
        lemma_nested_round_trip(items.last());
        assert(cs.drop_last().push(cs.last()) =~= cs);
    }
}

/// An optional nested message survives being carried as its field.
pub proof fn lemma_optional_round_trip<M: WireMessage>(o: Option<M>, k: u32)
    requires
        encode_fields(optional_nested(k, fields_of_option(o))).len() <= u64::MAX,
    ensures
        as_nested::<M>(last_of(optional_nested(k, fields_of_option(o)), k)) == Some(
            fields_of_option(o),
        ),
{
    lemma_last_of_optional(k, fields_of_option(o), k);
    lemma_optional_encoding(k, fields_of_option(o));
    if let Some(m) = o {
        lemma_nested_round_trip(m);
    }
}

/// A repeated nested message survives being carried as its fields.
pub proof fn lemma_repeated_round_trip<M: WireMessage>(items: Seq<M>, k: u32)
    requires
        encode_fields(repeated_nested(k, fields_of_all(items))).len() <= u64::MAX,
    ensures
        as_nested_all::<M>(all_of(repeated_nested(k, fields_of_all(items)), k)) == Some(
            fields_of_all(items),
        ),
{
    lemma_all_of_repeated(k, fields_of_all(items));
    lemma_nested_all_round_trip(items, k);
}

// ---- reading fields ----

/// Relies on std's `String::from_utf8`: it succeeds exactly on valid UTF-8,
/// and then holds the characters those bytes encode.
#[verifier::external_body]
fn utf8_to_string(b: &Vec<u8>) -> (r: Option<String>)
    ensures
        r is Some <==> valid_utf8(b@),
        r matches Some(s) ==> s@ == decode_utf8(b@),
{
    String::from_utf8(b.clone()).ok()
}

/// Whether two strings hold the same characters.
pub fn str_eq(a: &str, b: &str) -> (r: bool)
    ensures
        r == (a@ == b@),
{
    a.to_owned() == b.to_owned()
}

/// The index of the last field numbered `k`.
fn find_last(fs: &Vec<WireField>, k: u32) -> (r: Option<usize>)
    ensures
        match r {
            Some(i) => i < fs@.len() && last_of(fields_view(fs@), k) == Some(fs@[i as int].value@),
            None => last_of(fields_view(fs@), k) is None,
        },
{
    let ghost fv = fields_view(fs@);
    let mut i: usize = fs.len();
    while i > 0
        invariant
            i <= fs@.len(),
            fv == fields_view(fs@),
            last_of(fv, k) == last_within(fv, k, i as int),
        decreases i,
    {
        if fs[i - 1].number == k {
            return Some(i - 1);
        }
        i = i - 1;
    }
    None
}

/// The index of the last field whose number lies in `lo..=hi`.
pub fn find_last_among(fs: &Vec<WireField>, lo: u32, hi: u32) -> (r: Option<usize>)
    ensures
        match r {
            Some(i) => i < fs@.len() && last_among(fields_view(fs@), lo, hi) == Some(fs@[i as int]@),
            None => last_among(fields_view(fs@), lo, hi) is None,
        },
{
    let ghost fv = fields_view(fs@);
    let mut i: usize = fs.len();
    while i > 0
        invariant
            i <= fs@.len(),
            fv == fields_view(fs@),
            last_among(fv, lo, hi) == last_among_within(fv, lo, hi, i as int),
        decreases i,
    {
        if lo <= fs[i - 1].number && fs[i - 1].number <= hi {
            return Some(i - 1);
        }
        i = i - 1;
    }
    None
}

/// The integer in the last field numbered `k`; zero where there is none.
pub fn varint_at(fs: &Vec<WireField>, k: u32) -> (r: Result<u64, KiCadError>)
    ensures
        match as_varint(last_of(fields_view(fs@), k)) {
            Some(v) => r == Ok::<u64, KiCadError>(v),
            None => r matches Err(KiCadError::MalformedEnvelope),
        },
{
    match find_last(fs, k) {
        None => Ok(0),
        Some(i) => match &fs[i].value {
            WireValue::Varint(v) => Ok(*v),
            _ => Err(KiCadError::MalformedEnvelope),
        },
    }
}

/// The eight-byte value in the last field numbered `k`; zero where there is none.
pub fn fixed64_at(fs: &Vec<WireField>, k: u32) -> (r: Result<u64, KiCadError>)
    ensures
        match as_fixed64(last_of(fields_view(fs@), k)) {
            Some(v) => r == Ok::<u64, KiCadError>(v),
            None => r matches Err(KiCadError::MalformedEnvelope),
        },
{
    match find_last(fs, k) {
        None => Ok(0),
        Some(i) => match &fs[i].value {
            WireValue::Fixed64(v) => Ok(*v),
            _ => Err(KiCadError::MalformedEnvelope),
        },
    }
}

/// The text that `b` encodes.
pub fn text_from_bytes(b: &Vec<u8>) -> (r: Result<String, KiCadError>)
    ensures
        match as_text(Some(WireValueV::Delimited(b@))) {
            Some(t) => r matches Ok(s) && s@ == t,
            None => r matches Err(KiCadError::MalformedEnvelope),
        },
{
    match utf8_to_string(b) {
        Some(s) => Ok(s),
        None => Err(KiCadError::MalformedEnvelope),
    }
}

/// The text in the last field numbered `k`; empty where there is none.
pub fn text_at(fs: &Vec<WireField>, k: u32) -> (r: Result<String, KiCadError>)
    ensures
        match as_text(last_of(fields_view(fs@), k)) {
            Some(t) => r matches Ok(s) && s@ == t,
            None => r matches Err(KiCadError::MalformedEnvelope),
        },
{
    match find_last(fs, k) {
        None => Ok(String::new()),
        Some(i) => match &fs[i].value {
            WireValue::Delimited(b) => match utf8_to_string(b) {
                Some(s) => Ok(s),
                None => Err(KiCadError::MalformedEnvelope),
            },
            _ => Err(KiCadError::MalformedEnvelope),
        },
    }
}

/// The bytes in the last field numbered `k`; empty where there is none.
pub fn bytes_at(fs: &Vec<WireField>, k: u32) -> (r: Result<Vec<u8>, KiCadError>)
    ensures
        match as_bytes(last_of(fields_view(fs@), k)) {
            Some(t) => r matches Ok(b) && b@ == t,
            None => r matches Err(KiCadError::MalformedEnvelope),
        },
{
    match find_last(fs, k) {
        None => Ok(Vec::new()),
        Some(i) => match &fs[i].value {
            WireValue::Delimited(b) => Ok(b.clone()),
            _ => Err(KiCadError::MalformedEnvelope),
        },
    }
}

/// Decodes the bytes of one message.
pub fn decode_message<M: WireMessage>(b: &[u8]) -> (r: Result<M, KiCadError>)
    ensures
        match parse_fields(b@) {
            Some(fs) => match M::decoded(fs) {
                Some(c) => r matches Ok(m) && m.fields() == c,
                None => r matches Err(KiCadError::MalformedEnvelope),
            },
            None => r matches Err(KiCadError::MalformedEnvelope),
        },
{
    match read_fields(b) {
        None => Err(KiCadError::MalformedEnvelope),
        Some(fs) => M::from_fields(&fs),
    }
}

/// The bytes of one message.
pub fn encode_message<M: WireMessage>(m: &M) -> (r: Vec<u8>)
    ensures
        r@ == encode_fields(m.fields()),
{
    let fs = m.to_fields();
    write_fields(&fs)
}

/// The nested message in the last field numbered `k`, if any.
pub fn nested_at<M: WireMessage>(fs: &Vec<WireField>, k: u32) -> (r: Result<Option<M>, KiCadError>)
    ensures
        match as_nested::<M>(last_of(fields_view(fs@), k)) {
            Some(Some(c)) => r matches Ok(Some(m)) && m.fields() == c,
            Some(None) => r matches Ok(None),
            None => r matches Err(KiCadError::MalformedEnvelope),
        },
{
    match find_last(fs, k) {
        None => Ok(None),
        Some(i) => match &fs[i].value {
            WireValue::Delimited(b) => match decode_message::<M>(b.as_slice()) {
                Ok(m) => Ok(Some(m)),
                Err(e) => Err(e),
            },
            _ => Err(KiCadError::MalformedEnvelope),
        },
    }
}

/// The nested messages of every field numbered `k`, in order.
pub fn all_nested_at<M: WireMessage>(fs: &Vec<WireField>, k: u32) -> (r: Result<Vec<M>, KiCadError>)
    ensures
        match as_nested_all::<M>(all_of(fields_view(fs@), k)) {
            Some(cs) => r matches Ok(v) && fields_of_all(v@) == cs,
            None => r matches Err(KiCadError::MalformedEnvelope),
        },
{
    let ghost fv = fields_view(fs@);
    let mut out: Vec<M> = Vec::new();
    let mut i: usize = 0;
    while i < fs.len()
        invariant
            i <= fs@.len(),
            fv == fields_view(fs@),
            as_nested_all::<M>(all_within(fv, k, i as int)) == Some(fields_of_all(out@)),
        decreases fs@.len() - i,
    {
        if fs[i].number == k {
            match &fs[i].value {
                WireValue::Delimited(b) => {
                    match decode_message::<M>(b.as_slice()) {
                        Ok(m) => {
                            let ghost before = out@;
                            out.push(m);
                            assert(all_within(fv, k, i + 1).drop_last() == all_within(fv, k, i as int));
                            assert(fields_of_all(out@) =~= fields_of_all(before).push(m.fields()));
                        },
                        Err(e) => {
                            proof { lemma_nested_all_fails::<M>(fv, k, i as int); }
                            return Err(e);
                        },
                    }
                },
                _ => {
                    proof { lemma_nested_all_fails::<M>(fv, k, i as int); }
                    return Err(KiCadError::MalformedEnvelope);
                },
            }
        }
        i = i + 1;
    }
    Ok(out)
}

/// Once one occurrence fails to decode, the repeated field fails.
proof fn lemma_nested_all_fails<M: WireMessage>(fv: Seq<WireFieldV>, k: u32, i: int)
    requires
        0 <= i < fv.len(),
        fv[i].number == k,
        as_nested_value::<M>(fv[i].value) is None,
    ensures
        as_nested_all::<M>(all_of(fv, k)) is None,
{
    lemma_nested_all_fails_from::<M>(fv, k, i, fv.len() as int);
}

proof fn lemma_nested_all_fails_from<M: WireMessage>(fv: Seq<WireFieldV>, k: u32, i: int, j: int)
    requires
        0 <= i < j <= fv.len(),
        fv[i].number == k,
        as_nested_value::<M>(fv[i].value) is None,
    ensures
        as_nested_all::<M>(all_within(fv, k, j)) is None,
    decreases j,
{
    if j > i + 1 {
        lemma_nested_all_fails_from::<M>(fv, k, i, j - 1);
        if fv[j - 1].number == k {
            assert(all_within(fv, k, j).drop_last() == all_within(fv, k, j - 1));
        }
    } else {
        assert(all_within(fv, k, j).last() == fv[i].value);
    }
}

/// The signed 32-bit integers of every field numbered `k`, in order.
pub fn all_i32_at(fs: &Vec<WireField>, k: u32) -> (r: Result<Vec<i32>, KiCadError>)
    ensures
        match as_varint_all(all_of(fields_view(fs@), k)) {
            Some(us) => r matches Ok(v) && i32_list_bits(v@) == i32_list_from(us),
            None => r matches Err(KiCadError::MalformedEnvelope),
        },
{
    let ghost fv = fields_view(fs@);
    let mut out: Vec<i32> = Vec::new();
    let ghost mut us: Seq<u64> = Seq::empty();
    let mut i: usize = 0;
    while i < fs.len()
        invariant
            i <= fs@.len(),
            fv == fields_view(fs@),
            as_varint_all(all_within(fv, k, i as int)) == Some(us),
            out@.len() == us.len(),
            i32_list_bits(out@) == i32_list_from(us),
        decreases fs@.len() - i,
    {
        if fs[i].number == k {
            match &fs[i].value {
                WireValue::Varint(v) => {
                    let ghost before = out@;
                    out.push(*v as i32);
                    proof {
                        assert(all_within(fv, k, i + 1).drop_last() == all_within(fv, k, i as int));
                        let old_us = us;
                        us = us.push(*v);
                        assert forall|j: int| 0 <= j < out@.len() implies #[trigger] i32_list_bits(
                            out@,
                        )[j] == i32_list_from(us)[j] by {
                            if j < before.len() {
                                assert(out@[j] == before[j]);
                                assert(us[j] == old_us[j]);
                                assert(i32_list_bits(before)[j] == i32_list_from(old_us)[j]);
                            }
                        }
                        assert(i32_list_bits(out@) =~= i32_list_from(us));
                    }
                },
                _ => {
                    proof { lemma_varint_all_fails(fv, k, i as int, fv.len() as int); }
                    return Err(KiCadError::MalformedEnvelope);
                },
            }
        }
        i = i + 1;
    }
    Ok(out)
}

proof fn lemma_varint_all_fails(fv: Seq<WireFieldV>, k: u32, i: int, j: int)
    requires
        0 <= i < j <= fv.len(),
        fv[i].number == k,
        !(fv[i].value is Varint),
    ensures
        as_varint_all(all_within(fv, k, j)) is None,
    decreases j,
{
    if j > i + 1 {
        lemma_varint_all_fails(fv, k, i, j - 1);
        if fv[j - 1].number == k {
            assert(all_within(fv, k, j).drop_last() == all_within(fv, k, j - 1));
        }
    } else {
        assert(all_within(fv, k, j).last() == fv[i].value);
    }
}

/// The bytes of every field numbered `k`, in order.
pub fn all_bytes_at(fs: &Vec<WireField>, k: u32) -> (r: Result<Vec<Vec<u8>>, KiCadError>)
    ensures
        match as_delimited_all(all_of(fields_view(fs@), k)) {
            Some(bs) => r matches Ok(v) && bytes_views(v@) == bs,
            None => r matches Err(KiCadError::MalformedEnvelope),
        },
{
    let ghost fv = fields_view(fs@);
    let mut out: Vec<Vec<u8>> = Vec::new();
    let mut i: usize = 0;
    while i < fs.len()
        invariant
            i <= fs@.len(),
            fv == fields_view(fs@),
            as_delimited_all(all_within(fv, k, i as int)) == Some(bytes_views(out@)),
        decreases fs@.len() - i,
    {
        if fs[i].number == k {
            match &fs[i].value {
                WireValue::Delimited(b) => {
                    let ghost before = out@;
                    out.push(b.clone());
                    proof {
                        assert(all_within(fv, k, i + 1).drop_last() == all_within(fv, k, i as int));
                        assert(bytes_views(out@) =~= bytes_views(before).push(b@));
                    }
                },
                _ => {
                    proof {
                        lemma_delimited_all_fails(fv, k, i as int, fv.len() as int);
                    }
                    return Err(KiCadError::MalformedEnvelope);
                },
            }
        }
        i = i + 1;
    }
    Ok(out)
}

proof fn lemma_delimited_all_fails(fv: Seq<WireFieldV>, k: u32, i: int, j: int)
    requires
        0 <= i < j <= fv.len(),
        fv[i].number == k,
        !(fv[i].value is Delimited),
    ensures
        as_delimited_all(all_within(fv, k, j)) is None,
    decreases j,
{
    if j > i + 1 {
        lemma_delimited_all_fails(fv, k, i, j - 1);
        if fv[j - 1].number == k {
            assert(all_within(fv, k, j).drop_last() == all_within(fv, k, j - 1));
        }
    } else {
        assert(all_within(fv, k, j).last() == fv[i].value);
    }
}

/// The strings of every field numbered `k`, in order.
pub fn all_text_at(fs: &Vec<WireField>, k: u32) -> (r: Result<Vec<String>, KiCadError>)
    ensures
        match as_text_all(all_of(fields_view(fs@), k)) {
            Some(bs) => r matches Ok(v) && texts_bytes(v@) == bs,
            None => r matches Err(KiCadError::MalformedEnvelope),
        },
{
    let bs = all_bytes_at(fs, k)?;
    let ghost bv = bytes_views(bs@);
    let mut out: Vec<String> = Vec::new();
    let mut i: usize = 0;
    while i < bs.len()
        invariant
            i <= bs@.len(),
            bv == bytes_views(bs@),
            as_delimited_all(all_of(fields_view(fs@), k)) == Some(bv),
            out@.len() == i,
            texts_bytes(out@) == bv.take(i as int),
            all_valid_utf8(bv.take(i as int)),
        decreases bs@.len() - i,
    {
        match utf8_to_string(&bs[i]) {
            Some(t) => {
                let ghost before = out@;
                out.push(t);
                proof {
                    assert(bv[i as int] == bs@[i as int]@);
                    assert(valid_utf8(bv[i as int]));
                    decode_utf8_encode_utf8(bv[i as int]);
                    assert(encode_utf8(t@) == bv[i as int]);
                    assert forall|m: int| 0 <= m < i implies #[trigger] texts_bytes(out@)[m]
                        == bv.take(i + 1)[m] by {
                        assert(out@[m] == before[m]);
                        assert(texts_bytes(before)[m] == bv.take(i as int)[m]);
                    }
                    assert(texts_bytes(out@) =~= bv.take(i + 1));
                    assert(all_valid_utf8(bv.take(i + 1))) by {
                        assert forall|m: int| 0 <= m < i + 1 implies valid_utf8(
                            #[trigger] bv.take(i + 1)[m],
                        ) by {
                            if m < i {
                                assert(bv.take(i + 1)[m] == bv.take(i as int)[m]);
                            }
                        }
                    }
                }
            },
            None => {
                proof {
                    assert(bv[i as int] == bs@[i as int]@);
                    assert(!valid_utf8(bv[i as int]));
                    assert(as_delimited_all(all_of(fields_view(fs@), k)) == Some(bv));
                    assert(!all_valid_utf8(bv));
                }
                return Err(KiCadError::MalformedEnvelope);
            },
        }
        i = i + 1;
    }
    proof {
        assert(bv.take(i as int) =~= bv);
        assert(as_delimited_all(all_of(fields_view(fs@), k)) == Some(bv));
    }
    Ok(out)
}

// ---- writing fields ----

pub fn push_repeated_bytes(out: &mut Vec<WireField>, k: u32, bs: &Vec<Vec<u8>>)
    requires
        field_number_ok(k),
    ensures
        fields_view(final(out)@) == fields_view(old(out)@) + repeated_bytes(k, bytes_views(bs@)),
        fields_numbers_ok(fields_view(old(out)@)) ==> fields_numbers_ok(fields_view(final(out)@)),
{
    let ghost before = fields_view(old(out)@);
    let mut i: usize = 0;
    assert(before + repeated_bytes(k, bytes_views(bs@.take(0))) =~= before);
    while i < bs.len()
        invariant
            field_number_ok(k),
            i <= bs@.len(),
            fields_view(out@) == before + repeated_bytes(k, bytes_views(bs@.take(i as int))),
            fields_numbers_ok(before) ==> fields_numbers_ok(fields_view(out@)),
        decreases bs@.len() - i,
    {
        push_bytes(out, k, &bs[i]);
        assert(repeated_bytes(k, bytes_views(bs@.take(i + 1))) =~= repeated_bytes(
            k,
            bytes_views(bs@.take(i as int)),
        ) + single(bytes_field(k, bs@[i as int]@)));
        i = i + 1;
    }
    assert(bs@.take(i as int) =~= bs@);
}

pub fn push_repeated_text(out: &mut Vec<WireField>, k: u32, ts: &Vec<String>)
    requires
        field_number_ok(k),
    ensures
        fields_view(final(out)@) == fields_view(old(out)@) + repeated_bytes(k, texts_bytes(ts@)),
        fields_numbers_ok(fields_view(old(out)@)) ==> fields_numbers_ok(fields_view(final(out)@)),
{
    let ghost before = fields_view(old(out)@);
    let mut i: usize = 0;
    assert(before + repeated_bytes(k, texts_bytes(ts@.take(0))) =~= before);
    while i < ts.len()
        invariant
            field_number_ok(k),
            i <= ts@.len(),
            fields_view(out@) == before + repeated_bytes(k, texts_bytes(ts@.take(i as int))),
            fields_numbers_ok(before) ==> fields_numbers_ok(fields_view(out@)),
        decreases ts@.len() - i,
    {
        push_text(out, k, &ts[i]);
        assert(texts_bytes(ts@.take(i + 1)) =~= texts_bytes(ts@.take(i as int)).push(
            encode_utf8(ts@[i as int]@),
        ));
        assert(text_field(k, ts@[i as int]@) == bytes_field(k, encode_utf8(ts@[i as int]@)));
        assert(repeated_bytes(k, texts_bytes(ts@.take(i + 1))) =~= repeated_bytes(
            k,
            texts_bytes(ts@.take(i as int)),
        ) + single(text_field(k, ts@[i as int]@)));
        i = i + 1;
    }
    assert(ts@.take(i as int) =~= ts@);
}

pub fn push_repeated_i32(out: &mut Vec<WireField>, k: u32, xs: &Vec<i32>)
    requires
        field_number_ok(k),
    ensures
        fields_view(final(out)@) == fields_view(old(out)@) + repeated_varint(k, i32_list_bits(xs@)),
        fields_numbers_ok(fields_view(old(out)@)) ==> fields_numbers_ok(fields_view(final(out)@)),
{
    let ghost before = fields_view(old(out)@);
    let mut i: usize = 0;
    assert(before + repeated_varint(k, i32_list_bits(xs@.take(0))) =~= before);
    while i < xs.len()
        invariant
            field_number_ok(k),
            i <= xs@.len(),
            fields_view(out@) == before + repeated_varint(k, i32_list_bits(xs@.take(i as int))),
            fields_numbers_ok(before) ==> fields_numbers_ok(fields_view(out@)),
        decreases xs@.len() - i,
    {
        push_varint(out, k, xs[i] as i64 as u64);
        assert(repeated_varint(k, i32_list_bits(xs@.take(i + 1))) =~= repeated_varint(
            k,
            i32_list_bits(xs@.take(i as int)),
        ) + single(varint_field(k, i32_bits(xs@[i as int]))));
        i = i + 1;
    }
    assert(xs@.take(i as int) =~= xs@);
}

pub fn push_varint(out: &mut Vec<WireField>, k: u32, v: u64)
    requires
        field_number_ok(k),
    ensures
        fields_view(final(out)@) == fields_view(old(out)@) + single(varint_field(k, v)),
        fields_numbers_ok(fields_view(old(out)@)) ==> fields_numbers_ok(fields_view(final(out)@)),
{
    let ghost before = fields_view(out@);
    out.push(WireField { number: k, value: WireValue::Varint(v) });
    assert(fields_view(out@) =~= before + single(varint_field(k, v)));
}

pub fn push_fixed64(out: &mut Vec<WireField>, k: u32, v: u64)
    requires
        field_number_ok(k),
    ensures
        fields_view(final(out)@) == fields_view(old(out)@) + single(fixed64_field(k, v)),
        fields_numbers_ok(fields_view(old(out)@)) ==> fields_numbers_ok(fields_view(final(out)@)),
{
    let ghost before = fields_view(out@);
    out.push(WireField { number: k, value: WireValue::Fixed64(v) });
    assert(fields_view(out@) =~= before + single(fixed64_field(k, v)));
}

pub fn push_text(out: &mut Vec<WireField>, k: u32, s: &String)
    requires
        field_number_ok(k),
    ensures
        fields_view(final(out)@) == fields_view(old(out)@) + single(text_field(k, s@)),
        fields_numbers_ok(fields_view(old(out)@)) ==> fields_numbers_ok(fields_view(final(out)@)),
{
    let ghost before = fields_view(out@);
    let b = s.as_str().as_bytes_vec();
    out.push(WireField { number: k, value: WireValue::Delimited(b) });
    assert(fields_view(out@) =~= before + single(text_field(k, s@)));
}

pub fn push_bytes(out: &mut Vec<WireField>, k: u32, b: &Vec<u8>)
    requires
        field_number_ok(k),
    ensures
        fields_view(final(out)@) == fields_view(old(out)@) + single(bytes_field(k, b@)),
        fields_numbers_ok(fields_view(old(out)@)) ==> fields_numbers_ok(fields_view(final(out)@)),
{
    let ghost before = fields_view(out@);
    out.push(WireField { number: k, value: WireValue::Delimited(b.clone()) });
    assert(fields_view(out@) =~= before + single(bytes_field(k, b@)));
}

pub fn push_nested<M: WireMessage>(out: &mut Vec<WireField>, k: u32, m: &M)
    requires
        field_number_ok(k),
    ensures
        fields_view(final(out)@) == fields_view(old(out)@) + single(nested_field(k, m.fields())),
        fields_numbers_ok(fields_view(old(out)@)) ==> fields_numbers_ok(fields_view(final(out)@)),
{
    let ghost before = fields_view(out@);
    let b = encode_message(m);
    out.push(WireField { number: k, value: WireValue::Delimited(b) });
    assert(fields_view(out@) =~= before + single(nested_field(k, m.fields())));
}

pub fn push_optional<M: WireMessage>(out: &mut Vec<WireField>, k: u32, o: &Option<M>)
    requires
        field_number_ok(k),
    ensures
        fields_view(final(out)@) == fields_view(old(out)@) + optional_nested(k, fields_of_option(*o)),
        fields_numbers_ok(fields_view(old(out)@)) ==> fields_numbers_ok(fields_view(final(out)@)),
{
    let ghost before = fields_view(out@);
    match o {
        Some(m) => {
            push_nested(out, k, m);
        },
        None => {
            assert(before + optional_nested(k, fields_of_option(*o)) =~= before);
        },
    }
}

pub fn push_repeated<M: WireMessage>(out: &mut Vec<WireField>, k: u32, items: &Vec<M>)
    requires
        field_number_ok(k),
    ensures
        fields_view(final(out)@) == fields_view(old(out)@) + repeated_nested(k, fields_of_all(items@)),
        fields_numbers_ok(fields_view(old(out)@)) ==> fields_numbers_ok(fields_view(final(out)@)),
{
    let ghost before = fields_view(old(out)@);
    let mut i: usize = 0;
    assert(before + repeated_nested(k, fields_of_all(items@.take(0))) =~= before);
    while i < items.len()
        invariant
            field_number_ok(k),
            i <= items@.len(),
            fields_view(out@) == before + repeated_nested(k, fields_of_all(items@.take(i as int))),
            fields_numbers_ok(before) ==> fields_numbers_ok(fields_view(out@)),
        decreases items@.len() - i,
    {
        push_nested(out, k, &items[i]);
        assert(repeated_nested(k, fields_of_all(items@.take(i + 1))) =~= repeated_nested(
            k,
            fields_of_all(items@.take(i as int)),
        ) + single(nested_field(k, items@[i as int].fields())));
        i = i + 1;
    }
    assert(items@.take(i as int) =~= items@);
}

} // verus!
