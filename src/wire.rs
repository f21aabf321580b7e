//! The binary field encoding that every message on the socket uses: a
//! sequence of fields, each a key (field number and wire type) in base-128
//! digits followed by a payload.

use vstd::prelude::*;

verus! {

/// Largest field number the encoding admits, plus one.
pub const FIELD_NUMBER_LIMIT: u32 = 0x2000_0000;

/// Longest accepted base-128 integer, in bytes.
pub const VARINT_MAX_BYTES: usize = 10;

/// Base-128 digits of `n`, least significant first; every byte but the last
/// has its high bit set.
pub open spec fn varint_bytes(n: nat) -> Seq<u8>
    decreases n,
{
    if n < 128 {
        seq![n as u8]
    } else {
        seq![(n % 128 + 128) as u8] + varint_bytes(n / 128)
    }
}

/// Reads one base-128 integer from the front of `s`, using at most `budget`
/// bytes: the value and the number of bytes it took.
pub open spec fn parse_varint_within(s: Seq<u8>, budget: nat) -> Option<(nat, nat)>
    decreases budget,
{
    if budget == 0 || s.len() == 0 {
        None
    } else if s[0] < 128 {
        Some((s[0] as nat, 1))
    } else {
        match parse_varint_within(s.drop_first(), (budget - 1) as nat) {
            Some((v, n)) => Some((v * 128 + (s[0] - 128) as nat, n + 1)),
            None => None,
        }
    }
}

pub open spec fn parse_varint(s: Seq<u8>) -> Option<(nat, nat)> {
    parse_varint_within(s, VARINT_MAX_BYTES as nat)
}

pub proof fn lemma_varint_len(n: nat, k: nat)
    requires
        n < pow128(k),
        k >= 1,
    ensures
        varint_bytes(n).len() <= k,
        varint_bytes(n).len() >= 1,
    decreases n,
{
    if n >= 128 {
        assert(n / 128 < pow128((k - 1) as nat)) by {
            assert(pow128(k) == 128 * pow128((k - 1) as nat));
        };
        if k == 1 {
            assert(pow128(1) == 128) by {
                reveal_with_fuel(pow128, 2);
            };
        }
        lemma_varint_len(n / 128, (k - 1) as nat);
    }
}

pub open spec fn pow128(k: nat) -> nat
    decreases k,
{
    if k == 0 {
        1
    } else {
        128 * pow128((k - 1) as nat)
    }
}

/// Every value of 64 bits takes at most ten digits.
pub proof fn lemma_u64_varint_len(n: u64)
    ensures
        1 <= varint_bytes(n as nat).len() <= VARINT_MAX_BYTES,
{
    reveal_with_fuel(pow128, 11);
    assert(pow128(10) == 1180591620717411303424nat);
    lemma_varint_len(n as nat, 10);
}

/// Reading the digits of `n` back gives `n`, whatever follows them.
pub proof fn lemma_varint_round_trip(n: nat, rest: Seq<u8>, budget: nat)
    requires
        varint_bytes(n).len() <= budget,
    ensures
        parse_varint_within(varint_bytes(n) + rest, budget) == Some((n, varint_bytes(n).len())),
    decreases n,
{
    let s = varint_bytes(n) + rest;
    if n < 128 {
        assert(s[0] == n as u8);
    } else {
        let tail = varint_bytes(n / 128);
        assert(s.drop_first() =~= tail + rest);
        lemma_varint_round_trip(n / 128, rest, (budget - 1) as nat);
    }
}

/// Reads the base-128 integer that starts at `pos`, as the spec reads it from
/// `s[pos..]`; `None` where it is missing, too long, or above 64 bits.
fn read_varint(s: &[u8], pos: usize, budget: usize) -> (r: Option<(u64, usize)>)
    requires
        pos <= s@.len(),
        budget <= VARINT_MAX_BYTES,
    ensures
        match parse_varint_within(s@.subrange(pos as int, s@.len() as int), budget as nat) {
            Some((v, n)) => if v <= u64::MAX {
                match r {
                    Some((x, end)) => x == v && end == pos + n,
                    None => false,
                }
            } else {
                r is None
            },
            None => r is None,
        },
        match r {
            Some((_, end)) => pos < end <= s@.len(),
            None => true,
        },
    decreases budget,
{
    let ghost sub = s@.subrange(pos as int, s@.len() as int);
    if budget == 0 || pos >= s.len() {
        return None;
    }
    let b = s[pos];
    if b < 128 {
        return Some((b as u64, pos + 1));
    }
    assert(sub.drop_first() =~= s@.subrange(pos + 1, s@.len() as int));
    match read_varint(s, pos + 1, budget - 1) {
        None => {
            proof {
                let rec = parse_varint_within(sub.drop_first(), (budget - 1) as nat);
                if let Some((v, n)) = rec {
                    assert(v * 128 + (b - 128) as nat > u64::MAX) by (nonlinear_arith)
                        requires
                            v > u64::MAX,
                    ;
                }
            }
            None
        },
        Some((hi, end)) => {
            match hi.checked_mul(128) {
                None => None,
                Some(h) => match h.checked_add((b - 128) as u64) {
                    None => None,
                    Some(v) => Some((v, end)),
                },
            }
        },
    }
}

/// Appends the base-128 digits of `v`.
pub fn write_varint(out: &mut Vec<u8>, v: u64)
    ensures
        final(out)@ == old(out)@ + varint_bytes(v as nat),
{
    let ghost start = old(out)@;
    let mut x: u64 = v;
    while x >= 128
        invariant
            start + varint_bytes(v as nat) == out@ + varint_bytes(x as nat),
        decreases x,
    {
        let ghost before = out@;
        out.push((x % 128 + 128) as u8);
        assert(before + varint_bytes(x as nat) =~= out@ + varint_bytes((x / 128) as nat));
        x = x / 128;
    }
    let ghost before = out@;
    out.push(x as u8);
    assert(before + varint_bytes(x as nat) =~= out@);
}

/// The eight bytes of `v`, least significant first.
pub open spec fn le_bytes64(v: u64) -> Seq<u8> {
    seq![
        (v & 0xff) as u8,
        ((v >> 8u64) & 0xff) as u8,
        ((v >> 16u64) & 0xff) as u8,
        ((v >> 24u64) & 0xff) as u8,
        ((v >> 32u64) & 0xff) as u8,
        ((v >> 40u64) & 0xff) as u8,
        ((v >> 48u64) & 0xff) as u8,
        ((v >> 56u64) & 0xff) as u8,
    ]
}

/// The value of eight bytes read least significant first.
pub open spec fn le_value64(b: Seq<u8>) -> u64 {
    (b[0] as u64) | ((b[1] as u64) << 8u64) | ((b[2] as u64) << 16u64) | ((b[3] as u64)
        << 24u64) | ((b[4] as u64) << 32u64) | ((b[5] as u64) << 40u64) | ((b[6] as u64)
        << 48u64) | ((b[7] as u64) << 56u64)
}

/// The four bytes of `v`, least significant first.
pub open spec fn le_bytes32(v: u32) -> Seq<u8> {
    seq![
        (v & 0xff) as u8,
        ((v >> 8u32) & 0xff) as u8,
        ((v >> 16u32) & 0xff) as u8,
        ((v >> 24u32) & 0xff) as u8,
    ]
}

/// The value of four bytes read least significant first.
pub open spec fn le_value32(b: Seq<u8>) -> u32 {
    (b[0] as u32) | ((b[1] as u32) << 8u32) | ((b[2] as u32) << 16u32) | ((b[3] as u32) << 24u32)
}

pub proof fn lemma_le64_round_trip(v: u64)
    ensures
        le_value64(le_bytes64(v)) == v,
{
    let b = le_bytes64(v);
    let (b0, b1, b2, b3, b4, b5, b6, b7) = (b[0], b[1], b[2], b[3], b[4], b[5], b[6], b[7]);
    assert((b0 as u64) | ((b1 as u64) << 8u64) | ((b2 as u64) << 16u64) | ((b3 as u64) << 24u64)
        | ((b4 as u64) << 32u64) | ((b5 as u64) << 40u64) | ((b6 as u64) << 48u64) | ((b7 as u64)
        << 56u64) == v) by (bit_vector)
        requires
            b0 == (v & 0xff) as u8,
            b1 == ((v >> 8u64) & 0xff) as u8,
            b2 == ((v >> 16u64) & 0xff) as u8,
            b3 == ((v >> 24u64) & 0xff) as u8,
            b4 == ((v >> 32u64) & 0xff) as u8,
            b5 == ((v >> 40u64) & 0xff) as u8,
            b6 == ((v >> 48u64) & 0xff) as u8,
            b7 == ((v >> 56u64) & 0xff) as u8,
    ;
}

pub proof fn lemma_le32_round_trip(v: u32)
    ensures
        le_value32(le_bytes32(v)) == v,
{
    let b = le_bytes32(v);
    let (b0, b1, b2, b3) = (b[0], b[1], b[2], b[3]);
    assert((b0 as u32) | ((b1 as u32) << 8u32) | ((b2 as u32) << 16u32) | ((b3 as u32) << 24u32)
        == v) by (bit_vector)
        requires
            b0 == (v & 0xff) as u8,
            b1 == ((v >> 8u32) & 0xff) as u8,
            b2 == ((v >> 16u32) & 0xff) as u8,
            b3 == ((v >> 24u32) & 0xff) as u8,
    ;
}

/// The payload of one field, as the four wire types carry it.
pub enum WireValue {
    Varint(u64),
    Fixed64(u64),
    Delimited(Vec<u8>),
    Fixed32(u32),
}

/// One field: its number and its payload.
pub struct WireField {
    pub number: u32,
    pub value: WireValue,
}

/// What a `WireValue` holds.
pub enum WireValueV {
    Varint(u64),
    Fixed64(u64),
    Delimited(Seq<u8>),
    Fixed32(u32),
}

/// What a `WireField` holds.
pub struct WireFieldV {
    pub number: u32,
    pub value: WireValueV,
}

impl View for WireValue {
    type V = WireValueV;

    open spec fn view(&self) -> WireValueV {
        match self {
            WireValue::Varint(v) => WireValueV::Varint(*v),
            WireValue::Fixed64(v) => WireValueV::Fixed64(*v),
            WireValue::Delimited(b) => WireValueV::Delimited(b@),
            WireValue::Fixed32(v) => WireValueV::Fixed32(*v),
        }
    }
}

impl View for WireField {
    type V = WireFieldV;

    open spec fn view(&self) -> WireFieldV {
        WireFieldV { number: self.number, value: self.value@ }
    }
}

pub open spec fn fields_view(fs: Seq<WireField>) -> Seq<WireFieldV> {
    fs.map_values(|f: WireField| f@)
}

pub open spec fn wire_type(v: WireValueV) -> nat {
    match v {
        WireValueV::Varint(_) => 0,
        WireValueV::Fixed64(_) => 1,
        WireValueV::Delimited(_) => 2,
        WireValueV::Fixed32(_) => 5,
    }
}

pub open spec fn field_number_ok(n: u32) -> bool {
    1 <= n < FIELD_NUMBER_LIMIT
}

pub open spec fn fields_numbers_ok(fs: Seq<WireFieldV>) -> bool {
    forall|i: int| 0 <= i < fs.len() ==> field_number_ok(#[trigger] fs[i].number)
}

pub open spec fn payload_bytes(v: WireValueV) -> Seq<u8> {
    match v {
        WireValueV::Varint(x) => varint_bytes(x as nat),
        WireValueV::Fixed64(x) => le_bytes64(x),
        WireValueV::Delimited(b) => varint_bytes(b.len()) + b,
        WireValueV::Fixed32(x) => le_bytes32(x),
    }
}

pub open spec fn field_key(f: WireFieldV) -> nat {
    f.number as nat * 8 + wire_type(f.value)
}

pub open spec fn encode_field(f: WireFieldV) -> Seq<u8> {
    varint_bytes(field_key(f)) + payload_bytes(f.value)
}

/// The bytes of a field sequence: each field's bytes, in order.
pub open spec fn encode_fields(fs: Seq<WireFieldV>) -> Seq<u8>
    decreases fs.len(),
{
    if fs.len() == 0 {
        Seq::empty()
    } else {
        encode_fields(fs.drop_last()) + encode_field(fs.last())
    }
}

/// Reads one field from the front of `s`: the field and the bytes it took.
pub open spec fn parse_field(s: Seq<u8>) -> Option<(WireFieldV, nat)> {
    match parse_varint(s) {
        None => None,
        Some((key, n)) => {
            let number = key / 8;
            let wt = key % 8;
            let rest = s.skip(n as int);
            if number < 1 || number >= FIELD_NUMBER_LIMIT {
                None
            } else if wt == 0 {
                match parse_varint(rest) {
                    Some((v, m)) => if v <= u64::MAX {
                        Some((WireFieldV { number: number as u32, value: WireValueV::Varint(v as u64) }, n + m))
                    } else {
                        None
                    },
                    None => None,
                }
            } else if wt == 1 {
                if rest.len() >= 8 {
                    Some((WireFieldV { number: number as u32, value: WireValueV::Fixed64(le_value64(rest.take(8))) }, n + 8))
                } else {
                    None
                }
            } else if wt == 2 {
                match parse_varint(rest) {
                    Some((len, m)) => if m + len <= rest.len() {
                        Some((WireFieldV { number: number as u32, value: WireValueV::Delimited(rest.subrange(m as int, (m + len) as int)) }, n + m + len))
                    } else {
                        None
                    },
                    None => None,
                }
            } else if wt == 5 {
                if rest.len() >= 4 {
                    Some((WireFieldV { number: number as u32, value: WireValueV::Fixed32(le_value32(rest.take(4))) }, n + 4))
                } else {
                    None
                }
            } else {
                None
            }
        },
    }
}

/// Reads a whole byte sequence as fields; `None` where any part is malformed.
pub open spec fn parse_fields(s: Seq<u8>) -> Option<Seq<WireFieldV>>
    decreases s.len(),
{
    if s.len() == 0 {
        Some(Seq::empty())
    } else {
        match parse_field(s) {
            Some((f, n)) => if 0 < n <= s.len() {
                match parse_fields(s.skip(n as int)) {
                    Some(t) => Some(seq![f] + t),
                    None => None,
                }
            } else {
                None
            },
            None => None,
        }
    }
}

pub proof fn lemma_encode_fields_front(fs: Seq<WireFieldV>)
    requires
        fs.len() > 0,
    ensures
        encode_fields(fs) == encode_field(fs[0]) + encode_fields(fs.drop_first()),
    decreases fs.len(),
{
    if fs.len() == 1 {
        assert(fs.drop_last() =~= Seq::<WireFieldV>::empty());
        assert(fs.drop_first() =~= Seq::<WireFieldV>::empty());
        assert(encode_fields(fs) =~= encode_field(fs[0]) + encode_fields(fs.drop_first()));
    } else {
        lemma_encode_fields_front(fs.drop_last());
        assert(fs.drop_last().drop_first() =~= fs.drop_first().drop_last());
        assert(fs.drop_first().last() == fs.last());
        assert(encode_fields(fs) =~= encode_field(fs[0]) + encode_fields(fs.drop_first()));
    }
}

/// Reading a field's bytes back gives the field, whatever follows them.
pub proof fn lemma_parse_field_round_trip(f: WireFieldV, rest: Seq<u8>)
    requires
        field_number_ok(f.number),
        encode_field(f).len() <= u64::MAX,
    ensures
        parse_field(encode_field(f) + rest) == Some((f, encode_field(f).len())),
{
    let key = field_key(f);
    let pay = payload_bytes(f.value);
    let s = encode_field(f) + rest;
    lemma_u64_varint_len(key as u64);
    assert(s =~= varint_bytes(key) + (pay + rest));
    lemma_varint_round_trip(key, pay + rest, VARINT_MAX_BYTES as nat);
    let n = varint_bytes(key).len();
    assert(s.skip(n as int) =~= pay + rest);
    assert(key / 8 == f.number as nat);
    assert(key % 8 == wire_type(f.value));
    match f.value {
        WireValueV::Varint(x) => {
            lemma_u64_varint_len(x);
            lemma_varint_round_trip(x as nat, rest, VARINT_MAX_BYTES as nat);
        },
        WireValueV::Fixed64(x) => {
            assert((pay + rest).take(8) =~= pay);
            lemma_le64_round_trip(x);
        },
        WireValueV::Fixed32(x) => {
            assert((pay + rest).take(4) =~= pay);
            lemma_le32_round_trip(x);
        },
        WireValueV::Delimited(b) => {
            lemma_u64_varint_len(b.len() as u64);
            let lb = varint_bytes(b.len());
            assert(pay + rest =~= lb + (b + rest));
            lemma_varint_round_trip(b.len(), b + rest, VARINT_MAX_BYTES as nat);
            assert((pay + rest).subrange(lb.len() as int, (lb.len() + b.len()) as int) =~= b);
        },
    }
}

/// Reading the bytes of a field sequence back gives the sequence.
pub proof fn lemma_parse_fields_round_trip(fs: Seq<WireFieldV>)
    requires
        fields_numbers_ok(fs),
        encode_fields(fs).len() <= u64::MAX,
    ensures
        parse_fields(encode_fields(fs)) == Some(fs),
    decreases fs.len(),
{
    if fs.len() == 0 {
        assert(fs =~= Seq::<WireFieldV>::empty());
    } else {
        lemma_encode_fields_front(fs);
        let head = encode_field(fs[0]);
        let tail = encode_fields(fs.drop_first());
        lemma_parse_field_round_trip(fs[0], tail);
        lemma_u64_varint_len(0);
        assert((head + tail).skip(head.len() as int) =~= tail);
        lemma_parse_fields_round_trip(fs.drop_first());
        assert(seq![fs[0]] + fs.drop_first() =~= fs);
    }
}

/// Copies `s[from..to]`.
fn copy_range(s: &[u8], from: usize, to: usize) -> (r: Vec<u8>)
    requires
        from <= to <= s@.len(),
    ensures
        r@ == s@.subrange(from as int, to as int),
{
    let mut r: Vec<u8> = Vec::new();
    let mut i: usize = from;
    while i < to
        invariant
            from <= i <= to <= s@.len(),
            r@ == s@.subrange(from as int, i as int),
        decreases to - i,
    {
        r.push(s[i]);
        i = i + 1;
        assert(r@ =~= s@.subrange(from as int, i as int));
    }
    r
}

/// Appends the bytes of `b`.
fn append_bytes(out: &mut Vec<u8>, b: &[u8])
    ensures
        final(out)@ == old(out)@ + b@,
{
    let ghost start = old(out)@;
    let mut i: usize = 0;
    while i < b.len()
        invariant
            i <= b@.len(),
            out@ == start + b@.take(i as int),
        decreases b@.len() - i,
    {
        out.push(b[i]);
        i = i + 1;
        assert(out@ =~= start + b@.take(i as int));
    }
    assert(b@.take(i as int) =~= b@);
}

/// Reads the field that starts at `pos`, as `parse_field` reads `s[pos..]`:
/// the field and the position after it.
fn read_field(s: &[u8], pos: usize) -> (r: Option<(WireField, usize)>)
    requires
        pos <= s@.len(),
    ensures
        match parse_field(s@.subrange(pos as int, s@.len() as int)) {
            Some((f, n)) => match r {
                Some((g, end)) => g@ == f && end == pos + n,
                None => false,
            },
            None => r is None,
        },
        match r {
            Some((_, end)) => pos < end <= s@.len(),
            None => true,
        },
{
    let ghost sub = s@.subrange(pos as int, s@.len() as int);
    let slen = s.len();
    let (key, p) = match read_varint(s, pos, VARINT_MAX_BYTES) {
        None => return None,
        Some(kp) => kp,
    };
    let ghost n = (p - pos) as nat;
    assert(sub.skip(n as int) =~= s@.subrange(p as int, s@.len() as int));
    let number = key / 8;
    let wt = key % 8;
    if number < 1 || number >= FIELD_NUMBER_LIMIT as u64 {
        return None;
    }
    let number = number as u32;
    if wt == 0 {
        match read_varint(s, p, VARINT_MAX_BYTES) {
            None => None,
            Some((v, q)) => {
                Some((WireField { number, value: WireValue::Varint(v) }, q))
            },
        }
    } else if wt == 1 {
        if s.len() - p >= 8 {
            let v: u64 = (s[p] as u64) | ((s[p + 1] as u64) << 8u64) | ((s[p + 2] as u64)
                << 16u64) | ((s[p + 3] as u64) << 24u64) | ((s[p + 4] as u64) << 32u64) | ((s[p
                + 5] as u64) << 40u64) | ((s[p + 6] as u64) << 48u64) | ((s[p + 7] as u64)
                << 56u64);
            Some((WireField { number, value: WireValue::Fixed64(v) }, p + 8))
        } else {
            None
        }
    } else if wt == 2 {
        match read_varint(s, p, VARINT_MAX_BYTES) {
            None => None,
            Some((len, q)) => {
                if len <= (s.len() - q) as u64 {
                    let end = q + len as usize;
                    let b = copy_range(s, q, end);
                    assert(b@ =~= sub.skip(n as int).subrange((q - p) as int, (q - p + len) as int));
                    Some((WireField { number, value: WireValue::Delimited(b) }, end))
                } else {
                    None
                }
            },
        }
    } else if wt == 5 {
        if s.len() - p >= 4 {
            let v: u32 = (s[p] as u32) | ((s[p + 1] as u32) << 8u32) | ((s[p + 2] as u32)
                << 16u32) | ((s[p + 3] as u32) << 24u32);
            Some((WireField { number, value: WireValue::Fixed32(v) }, p + 4))
        } else {
            None
        }
    } else {
        None
    }
}

/// Reads a whole byte sequence as fields.
pub fn read_fields(s: &[u8]) -> (r: Option<Vec<WireField>>)
    ensures
        match parse_fields(s@) {
            Some(fs) => r is Some && fields_view(r->0@) == fs,
            None => r is None,
        },
{
    let mut out: Vec<WireField> = Vec::new();
    let mut pos: usize = 0;
    assert(s@.subrange(0, s@.len() as int) =~= s@);
    while pos < s.len()
        invariant
            pos <= s@.len(),
            parse_fields(s@) == match parse_fields(s@.subrange(pos as int, s@.len() as int)) {
                Some(t) => Some(fields_view(out@) + t),
                None => None,
            },
        decreases s@.len() - pos,
    {
        let ghost sub = s@.subrange(pos as int, s@.len() as int);
        match read_field(s, pos) {
            None => {
                return None;
            },
            Some((f, next)) => {
                assert(sub.skip((next - pos) as int) =~= s@.subrange(next as int, s@.len() as int));
                let ghost before = fields_view(out@);
                out.push(f);
                proof {
                    assert(fields_view(out@) =~= before + seq![f@]);
                    match parse_fields(s@.subrange(next as int, s@.len() as int)) {
                        Some(t) => {
                            assert(before + (seq![f@] + t) =~= fields_view(out@) + t);
                        },
                        None => {},
                    }
                }
                pos = next;
            },
        }
    }
    assert(s@.subrange(pos as int, s@.len() as int) =~= Seq::<u8>::empty());
    assert(fields_view(out@) + Seq::<WireFieldV>::empty() =~= fields_view(out@));
    Some(out)
}

/// Appends the bytes of one field.
pub fn write_field(out: &mut Vec<u8>, f: &WireField)
    requires
        field_number_ok(f.number),
    ensures
        final(out)@ == old(out)@ + encode_field(f@),
{
    let ghost start = old(out)@;
    match &f.value {
        WireValue::Varint(v) => {
            write_varint(out, f.number as u64 * 8);
            write_varint(out, *v);
        },
        WireValue::Fixed64(v) => {
            write_varint(out, f.number as u64 * 8 + 1);
            let v = *v;
            out.push((v & 0xff) as u8);
            out.push(((v >> 8u64) & 0xff) as u8);
            out.push(((v >> 16u64) & 0xff) as u8);
            out.push(((v >> 24u64) & 0xff) as u8);
            out.push(((v >> 32u64) & 0xff) as u8);
            out.push(((v >> 40u64) & 0xff) as u8);
            out.push(((v >> 48u64) & 0xff) as u8);
            out.push(((v >> 56u64) & 0xff) as u8);
        },
        WireValue::Delimited(b) => {
            write_varint(out, f.number as u64 * 8 + 2);
            write_varint(out, b.len() as u64);
            append_bytes(out, b.as_slice());
        },
        WireValue::Fixed32(v) => {
            write_varint(out, f.number as u64 * 8 + 5);
            let v = *v;
            out.push((v & 0xff) as u8);
            out.push(((v >> 8u32) & 0xff) as u8);
            out.push(((v >> 16u32) & 0xff) as u8);
            out.push(((v >> 24u32) & 0xff) as u8);
        },
    }
    assert(out@ =~= start + encode_field(f@));
}

/// The bytes of a field sequence.
pub fn write_fields(fs: &Vec<WireField>) -> (r: Vec<u8>)
    requires
        fields_numbers_ok(fields_view(fs@)),
    ensures
        r@ == encode_fields(fields_view(fs@)),
{
    let mut out: Vec<u8> = Vec::new();
    let mut i: usize = 0;
    while i < fs.len()
        invariant
            i <= fs@.len(),
            fields_numbers_ok(fields_view(fs@)),
            out@ == encode_fields(fields_view(fs@).take(i as int)),
        decreases fs@.len() - i,
    {
        assert(field_number_ok(fields_view(fs@)[i as int].number));
        write_field(&mut out, &fs[i]);
        assert(fields_view(fs@).take(i + 1).drop_last() =~= fields_view(fs@).take(i as int));
        i = i + 1;
    }
    assert(fields_view(fs@).take(i as int) =~= fields_view(fs@));
    out
}

} // verus!
