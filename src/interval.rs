use vstd::prelude::*;
use crate::bytes::{
    i16_at, i16_bytes, i32_at, i32_bytes, lemma_i16_within, lemma_i32_within, lemma_u32_at_extend,
    push_all, push_i16, push_i32, push_padding, read_i16, read_i32, read_u32, zeros, ByteOrder,
};
use crate::layout::{align_up, field_offset, fields_end, struct_align, struct_size, FieldShape};
use crate::scalar::{Integer, SmallInt};
use crate::structs::{DaySecond, YearMonth};

verus! {

broadcast use crate::bytes::lemma_u16_bytes_len, crate::bytes::lemma_u32_bytes_len;

/// SQL_INTERVAL_UNION: storage that holds either a `YearMonth` or a `DaySecond`.
///
/// As in C, both payloads share the same bytes and nothing records which one was written:
/// the caller reads the one that the interval's type names. The storage is as large as the
/// larger payload; a `YearMonth` leaves the bytes after its own eight zero.
#[derive(Clone, Copy)]
pub struct IntervalUnion {
    pub bytes: [u8; 20],
}

/// The array that holds the twenty bytes of `v`.
fn bytes20(v: &Vec<u8>) -> (r: [u8; 20])
    requires
        v@.len() == 20,
    ensures
        r@ == v@,
{
    let mut a: [u8; 20] = [0u8; 20];
    let mut i: usize = 0;
    while i < 20
        invariant
            i <= 20,
            v@.len() == 20,
            forall|j: int| 0 <= j < i ==> a@[j] == v@[j],
        decreases 20 - i,
    {
        a[i] = v[i];
        i = i + 1;
    }
    assert(a@ =~= v@);
    a
}

impl IntervalUnion {
    /// Size in bytes of the C union.
    pub const SIZE: usize = 20;

    /// Storage that holds `ym`.
    pub fn from_year_month(ym: YearMonth, order: ByteOrder) -> (r: IntervalUnion)
        ensures
            r.bytes@ == ym.image(order) + zeros(12),
    {
        let mut img = ym.to_bytes(order);
        push_padding(&mut img, 12);
        proof {
            ym.lemma_round_trip(order);
        }
        IntervalUnion { bytes: bytes20(&img) }
    }

    /// Storage that holds `ds`.
    pub fn from_day_second(ds: DaySecond, order: ByteOrder) -> (r: IntervalUnion)
        ensures
            r.bytes@ == ds.image(order),
    {
        let img = ds.to_bytes(order);
        proof {
            ds.lemma_round_trip(order);
        }
        IntervalUnion { bytes: bytes20(&img) }
    }

    /// The storage read as a `YearMonth`.
    pub fn year_month(&self, order: ByteOrder) -> (r: YearMonth)
        ensures
            r.decodes(self.bytes@, order),
    {
        let b: &[u8] = &self.bytes;
        YearMonth { year: read_u32(b, 0, order), month: read_u32(b, 4, order) }
    }

    /// The storage read as a `DaySecond`.
    pub fn day_second(&self, order: ByteOrder) -> (r: DaySecond)
        ensures
            r.decodes(self.bytes@, order),
    {
        let b: &[u8] = &self.bytes;
        DaySecond {
            day: read_u32(b, 0, order),
            hour: read_u32(b, 4, order),
            minute: read_u32(b, 8, order),
            second: read_u32(b, 12, order),
            fraction: read_u32(b, 16, order),
        }
    }

    /// A `YearMonth` written into the storage reads back unchanged.
    pub proof fn lemma_year_month_round_trip(ym: YearMonth, order: ByteOrder)
        ensures
            forall|v: YearMonth| #[trigger] v.decodes(ym.image(order) + zeros(12), order) <==> v == ym,
    {
        let img = ym.image(order);
        ym.lemma_round_trip(order);
        lemma_u32_at_extend(img, zeros(12), 0, order);
        lemma_u32_at_extend(img, zeros(12), 4, order);
        assert forall|v: YearMonth| #[trigger] v.decodes(img + zeros(12), order) <==> v == ym by {
            assert(v.decodes(img + zeros(12), order) == v.decodes(img, order));
        }
    }
}

impl Default for IntervalUnion {
    /// Every byte zero.
    fn default() -> (r: IntervalUnion)
        ensures
            r.bytes@ == zeros(20),
    {
        let r = IntervalUnion { bytes: [0u8; 20] };
        assert(r.bytes@ =~= zeros(20));
        r
    }
}

/// SQL_INTERVAL_STRUCT: an interval, with the type that tells which payload is stored.
///
/// C puts two bytes of padding after `interval_sign`, since the union is aligned to four bytes.
#[derive(Clone, Copy)]
pub struct IntervalStruct {
    pub interval_type: Integer,
    pub interval_sign: SmallInt,
    pub interval_value: IntervalUnion,
}

impl IntervalStruct {
    /// Size in bytes of the C structure.
    pub const SIZE: usize = 28;

    /// The size and alignment of each field, in C order; the union is as large as its larger
    /// payload and aligned as its `u32` fields.
    pub open spec fn spec_field_shapes() -> Seq<FieldShape> {
        seq![
            FieldShape { size: 4, align: 4 },
            FieldShape { size: 2, align: 2 },
            FieldShape { size: 20, align: 4 },
        ]
    }

    /// The size and alignment of each field, in C order.
    pub fn field_shapes() -> (r: Vec<FieldShape>)
        ensures
            r@ == Self::spec_field_shapes(),
    {
        let r = vec![
            FieldShape { size: 4, align: 4 },
            FieldShape { size: 2, align: 2 },
            FieldShape { size: IntervalUnion::SIZE, align: 4 },
        ];
        assert(r@ =~= Self::spec_field_shapes());
        r
    }

    /// `SIZE` and the offsets at which `decodes` and `image` place the fields are those of
    /// C layout.
    pub proof fn lemma_c_layout()
        ensures
            struct_size(Self::spec_field_shapes()) == Self::SIZE,
            field_offset(Self::spec_field_shapes(), 0) == 0,
            field_offset(Self::spec_field_shapes(), 1) == 4,
            field_offset(Self::spec_field_shapes(), 2) == 8,
    {
        let sh = Self::spec_field_shapes();
        assert(fields_end(sh, 0) == 0);
        assert(struct_align(sh, 0) == 1);
        assert(align_up(0, 4) == 0);
        assert(fields_end(sh, 1) == 4);
        assert(struct_align(sh, 1) == 4);
        assert(align_up(4, 2) == 4);
        assert(fields_end(sh, 2) == 6);
        assert(struct_align(sh, 2) == 4);
        assert(align_up(6, 4) == 8);
        assert(fields_end(sh, 3) == 28);
        assert(struct_align(sh, 3) == 4);
        assert(align_up(28, 4) == Self::SIZE);
    }

    /// The byte image of the value: each field at its C offset, padding zeroed.
    pub open spec fn image(self, order: ByteOrder) -> Seq<u8> {
        i32_bytes(self.interval_type, order) + i16_bytes(self.interval_sign, order) + zeros(2)
            + self.interval_value.bytes@
    }

    /// `self` is the value whose byte image starts `b`: each field as stored at its offset.
    pub open spec fn decodes(self, b: Seq<u8>, order: ByteOrder) -> bool {
        &&& self.interval_type == i32_at(b, 0, order)
        &&& self.interval_sign == i16_at(b, 4, order)
        &&& self.interval_value.bytes@ == b.subrange(8, 28)
    }

    /// The byte image of the value, as a driver reads it from memory.
    pub fn to_bytes(&self, order: ByteOrder) -> (r: Vec<u8>)
        ensures
            r@ == self.image(order),
    {
        let mut out: Vec<u8> = Vec::new();
        push_i32(&mut out, self.interval_type, order);
        push_i16(&mut out, self.interval_sign, order);
        push_padding(&mut out, 2);
        push_all(&mut out, &self.interval_value.bytes);
        assert(out@ =~= self.image(order));
        out
    }

    /// Reads a value back from its byte image; `None` where `b` is not exactly that long.
    pub fn from_bytes(b: &[u8], order: ByteOrder) -> (r: Option<IntervalStruct>)
        ensures
            r is Some <==> b@.len() == Self::SIZE,
            r matches Some(v) ==> v.decodes(b@, order),
    {
        if b.len() != Self::SIZE {
            return None;
        }
        let mut payload: Vec<u8> = Vec::new();
        let mut i: usize = 8;
        while i < 28
            invariant
                8 <= i <= 28,
                b@.len() == 28,
                payload@ == b@.subrange(8, i as int),
            decreases 28 - i,
        {
            payload.push(b[i]);
            i = i + 1;
            assert(payload@ =~= b@.subrange(8, i as int));
        }
        Some(
            IntervalStruct {
                interval_type: read_i32(b, 0, order),
                interval_sign: read_i16(b, 4, order),
                interval_value: IntervalUnion { bytes: bytes20(&payload) },
            },
        )
    }

    /// Reading back the byte image gives the value again, and no other value.
    pub proof fn lemma_round_trip(self, order: ByteOrder)
        ensures
            self.image(order).len() == Self::SIZE,
            forall|v: IntervalStruct| #[trigger] v.decodes(self.image(order), order) <==> (
            v.interval_type == self.interval_type && v.interval_sign == self.interval_sign
                && v.interval_value.bytes == self.interval_value.bytes),
    {
        let img = self.image(order);
        let t = i32_bytes(self.interval_type, order);
        let s = i16_bytes(self.interval_sign, order);
        let u = self.interval_value.bytes@;
        assert(img =~= Seq::<u8>::empty() + t + (s + zeros(2) + u));
        lemma_i32_within(Seq::<u8>::empty(), self.interval_type, s + zeros(2) + u, order);
        assert(img =~= t + s + (zeros(2) + u));
        lemma_i16_within(t, self.interval_sign, zeros(2) + u, order);
        assert(img.subrange(8, 28) =~= u);
        assert forall|v: IntervalStruct| #[trigger] v.decodes(img, order) implies
            v.interval_value.bytes == self.interval_value.bytes by {
            assert(v.interval_value.bytes =~= self.interval_value.bytes);
        }
    }
}

impl Default for IntervalStruct {
    /// Every field zero: the state a driver sees in zeroed memory.
    fn default() -> (r: IntervalStruct)
        ensures
            r.interval_type == 0,
            r.interval_sign == 0,
            r.interval_value.bytes@ == zeros(20),
    {
        IntervalStruct { interval_type: 0, interval_sign: 0, interval_value: IntervalUnion::default() }
    }
}

} // verus!
