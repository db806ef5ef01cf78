use vstd::prelude::*;
use crate::bytes::{
    i16_at, i16_bytes, lemma_i16_within, lemma_u16_within, lemma_u32_within,
    push_all, push_i16, push_padding, push_u16, push_u32, read_bytes8, read_i16, read_u16,
    read_u32, u16_at, u16_bytes, u32_at, u32_bytes, zeros, ByteOrder,
};
use crate::layout::{align_up, field_offset, fields_end, struct_align, struct_size, FieldShape};
use crate::scalar::{SmallInt, UInteger, USmallInt};

verus! {

broadcast use crate::bytes::lemma_u16_bytes_len, crate::bytes::lemma_u32_bytes_len;

/// SQL_YEAR_MONTH_STRUCT: the payload of a year-month interval.
#[derive(Debug, PartialEq, Eq, Clone, Copy, Hash, Structural)]
pub struct YearMonth {
    pub year: UInteger,
    pub month: UInteger,
}

impl YearMonth {
    /// Size in bytes of the C structure, trailing padding included.
    pub const SIZE: usize = 8;

    /// The size and alignment of each field, in C order.
    pub open spec fn spec_field_shapes() -> Seq<FieldShape> {
        seq![
            FieldShape { size: 4, align: 4 },
            FieldShape { size: 4, align: 4 },
        ]
    }

    /// The size and alignment of each field, in C order.
    pub fn field_shapes() -> (r: Vec<FieldShape>)
        ensures
            r@ == Self::spec_field_shapes(),
    {
        let r = vec![
            FieldShape { size: 4, align: 4 },
            FieldShape { size: 4, align: 4 },
        ];
        assert(r@ =~= Self::spec_field_shapes());
        r
    }

    /// `SIZE` and the offsets at which `decodes` and `image` place the fields are those of
    /// C layout.
    pub proof fn lemma_c_layout()
        ensures
            struct_size(Self::spec_field_shapes()) == Self::SIZE,
            field_offset(Self::spec_field_shapes(), 0) == 0,
            field_offset(Self::spec_field_shapes(), 1) == 4,
    {
        let sh = Self::spec_field_shapes();
        assert(fields_end(sh, 0) == 0);
        assert(struct_align(sh, 0) == 1);
        assert(align_up(0, 4) == 0);
        assert(fields_end(sh, 1) == 4);
        assert(struct_align(sh, 1) == 4);
        assert(align_up(4, 4) == 4);
        assert(fields_end(sh, 2) == 8);
        assert(struct_align(sh, 2) == 4);
        assert(align_up(8, 4) == Self::SIZE);
    }

    /// The byte image of the value: each field at its C offset, padding zeroed.
    pub open spec fn image(self, order: ByteOrder) -> Seq<u8> {
        u32_bytes(self.year, order) + u32_bytes(self.month, order)
    }

    /// `self` is the value whose byte image starts `b`: each field as stored at its offset.
    pub open spec fn decodes(self, b: Seq<u8>, order: ByteOrder) -> bool {
        &&& self.year == u32_at(b, 0, order)
        &&& self.month == u32_at(b, 4, order)
    }

    /// The byte image of the value, as a driver reads it from memory.
    pub fn to_bytes(&self, order: ByteOrder) -> (r: Vec<u8>)
        ensures
            r@ == self.image(order),
    {
        let mut out: Vec<u8> = Vec::new();
        push_u32(&mut out, self.year, order);
        push_u32(&mut out, self.month, order);
        assert(out@ =~= self.image(order));
        out
    }

    /// Reads a value back from its byte image; `None` where `b` is not exactly that long.
    pub fn from_bytes(b: &[u8], order: ByteOrder) -> (r: Option<YearMonth>)
        ensures
            r is Some <==> b@.len() == Self::SIZE,
            r matches Some(v) ==> v.decodes(b@, order),
    {
        if b.len() != Self::SIZE {
            return None;
        }
        Some(YearMonth {
            year: read_u32(b, 0, order),
            month: read_u32(b, 4, order),
        })
    }

    /// Reading back the byte image gives the value again, and no other value.
    pub proof fn lemma_round_trip(self, order: ByteOrder)
        ensures
            self.image(order).len() == Self::SIZE,
            forall|v: YearMonth| #[trigger] v.decodes(self.image(order), order) <==> v == self,
    {
        let img = self.image(order);
        let pre = Seq::<u8>::empty();
        let post = u32_bytes(self.month, order);
        assert(img =~= pre + u32_bytes(self.year, order) + post);
        lemma_u32_within(pre, self.year, post, order);
        let pre = u32_bytes(self.year, order);
        let post = Seq::<u8>::empty();
        assert(img =~= pre + u32_bytes(self.month, order) + post);
        lemma_u32_within(pre, self.month, post, order);
    }
}

impl Default for YearMonth {
    /// Every field zero: the state a driver sees in zeroed memory.
    fn default() -> (r: YearMonth)
        ensures
            r == (YearMonth { year: 0, month: 0 }),
    {
        YearMonth { year: 0, month: 0 }
    }
}

/// SQL_DAY_SECOND_STRUCT: the payload of a day-time interval.
#[derive(Debug, PartialEq, Eq, Clone, Copy, Hash, Structural)]
pub struct DaySecond {
    pub day: UInteger,
    pub hour: UInteger,
    pub minute: UInteger,
    pub second: UInteger,
    pub fraction: UInteger,
}

impl DaySecond {
    /// Size in bytes of the C structure, trailing padding included.
    pub const SIZE: usize = 20;

    /// The size and alignment of each field, in C order.
    pub open spec fn spec_field_shapes() -> Seq<FieldShape> {
        seq![
            FieldShape { size: 4, align: 4 },
            FieldShape { size: 4, align: 4 },
            FieldShape { size: 4, align: 4 },
            FieldShape { size: 4, align: 4 },
            FieldShape { size: 4, align: 4 },
        ]
    }

    /// The size and alignment of each field, in C order.
    pub fn field_shapes() -> (r: Vec<FieldShape>)
        ensures
            r@ == Self::spec_field_shapes(),
    {
        let r = vec![
            FieldShape { size: 4, align: 4 },
            FieldShape { size: 4, align: 4 },
            FieldShape { size: 4, align: 4 },
            FieldShape { size: 4, align: 4 },
            FieldShape { size: 4, align: 4 },
        ];
        assert(r@ =~= Self::spec_field_shapes());
        r
    }

    /// `SIZE` and the offsets at which `decodes` and `image` place the fields are those of
    /// C layout.
    pub proof fn lemma_c_layout()
        ensures
            struct_size(Self::spec_field_shapes()) == Self::SIZE,
            field_offset(Self::spec_field_shapes(), 0) == 0,
            field_offset(Self::spec_field_shapes(), 1) == 4,
            field_offset(Self::spec_field_shapes(), 2) == 8,
            field_offset(Self::spec_field_shapes(), 3) == 12,
            field_offset(Self::spec_field_shapes(), 4) == 16,
    {
        let sh = Self::spec_field_shapes();
        assert(fields_end(sh, 0) == 0);
        assert(struct_align(sh, 0) == 1);
        assert(align_up(0, 4) == 0);
        assert(fields_end(sh, 1) == 4);
        assert(struct_align(sh, 1) == 4);
        assert(align_up(4, 4) == 4);
        assert(fields_end(sh, 2) == 8);
        assert(struct_align(sh, 2) == 4);
        assert(align_up(8, 4) == 8);
        assert(fields_end(sh, 3) == 12);
        assert(struct_align(sh, 3) == 4);
        assert(align_up(12, 4) == 12);
        assert(fields_end(sh, 4) == 16);
        assert(struct_align(sh, 4) == 4);
        assert(align_up(16, 4) == 16);
        assert(fields_end(sh, 5) == 20);
        assert(struct_align(sh, 5) == 4);
        assert(align_up(20, 4) == Self::SIZE);
    }

    /// The byte image of the value: each field at its C offset, padding zeroed.
    pub open spec fn image(self, order: ByteOrder) -> Seq<u8> {
        u32_bytes(self.day, order) + u32_bytes(self.hour, order) + u32_bytes(self.minute, order)
            + u32_bytes(self.second, order) + u32_bytes(self.fraction, order)
    }

    /// `self` is the value whose byte image starts `b`: each field as stored at its offset.
    pub open spec fn decodes(self, b: Seq<u8>, order: ByteOrder) -> bool {
        &&& self.day == u32_at(b, 0, order)
        &&& self.hour == u32_at(b, 4, order)
        &&& self.minute == u32_at(b, 8, order)
        &&& self.second == u32_at(b, 12, order)
        &&& self.fraction == u32_at(b, 16, order)
    }

    /// The byte image of the value, as a driver reads it from memory.
    pub fn to_bytes(&self, order: ByteOrder) -> (r: Vec<u8>)
        ensures
            r@ == self.image(order),
    {
        let mut out: Vec<u8> = Vec::new();
        push_u32(&mut out, self.day, order);
        push_u32(&mut out, self.hour, order);
        push_u32(&mut out, self.minute, order);
        push_u32(&mut out, self.second, order);
        push_u32(&mut out, self.fraction, order);
        assert(out@ =~= self.image(order));
        out
    }

    /// Reads a value back from its byte image; `None` where `b` is not exactly that long.
    pub fn from_bytes(b: &[u8], order: ByteOrder) -> (r: Option<DaySecond>)
        ensures
            r is Some <==> b@.len() == Self::SIZE,
            r matches Some(v) ==> v.decodes(b@, order),
    {
        if b.len() != Self::SIZE {
            return None;
        }
        Some(DaySecond {
            day: read_u32(b, 0, order),
            hour: read_u32(b, 4, order),
            minute: read_u32(b, 8, order),
            second: read_u32(b, 12, order),
            fraction: read_u32(b, 16, order),
        })
    }

    /// Reading back the byte image gives the value again, and no other value.
    pub proof fn lemma_round_trip(self, order: ByteOrder)
        ensures
            self.image(order).len() == Self::SIZE,
            forall|v: DaySecond| #[trigger] v.decodes(self.image(order), order) <==> v == self,
    {
        let img = self.image(order);
        let pre = Seq::<u8>::empty();
        let post = u32_bytes(self.hour, order) + u32_bytes(self.minute, order) + u32_bytes(self.second, order) + u32_bytes(self.fraction, order);
        assert(img =~= pre + u32_bytes(self.day, order) + post);
        lemma_u32_within(pre, self.day, post, order);
        let pre = u32_bytes(self.day, order);
        let post = u32_bytes(self.minute, order) + u32_bytes(self.second, order) + u32_bytes(self.fraction, order);
        assert(img =~= pre + u32_bytes(self.hour, order) + post);
        lemma_u32_within(pre, self.hour, post, order);
        let pre = u32_bytes(self.day, order) + u32_bytes(self.hour, order);
        let post = u32_bytes(self.second, order) + u32_bytes(self.fraction, order);
        assert(img =~= pre + u32_bytes(self.minute, order) + post);
        lemma_u32_within(pre, self.minute, post, order);
        let pre = u32_bytes(self.day, order) + u32_bytes(self.hour, order) + u32_bytes(self.minute, order);
        let post = u32_bytes(self.fraction, order);
        assert(img =~= pre + u32_bytes(self.second, order) + post);
        lemma_u32_within(pre, self.second, post, order);
        let pre = u32_bytes(self.day, order) + u32_bytes(self.hour, order) + u32_bytes(self.minute, order) + u32_bytes(self.second, order);
        let post = Seq::<u8>::empty();
        assert(img =~= pre + u32_bytes(self.fraction, order) + post);
        lemma_u32_within(pre, self.fraction, post, order);
    }
}

impl Default for DaySecond {
    /// Every field zero: the state a driver sees in zeroed memory.
    fn default() -> (r: DaySecond)
        ensures
            r == (DaySecond { day: 0, hour: 0, minute: 0, second: 0, fraction: 0 }),
    {
        DaySecond { day: 0, hour: 0, minute: 0, second: 0, fraction: 0 }
    }
}

/// SQL_DATE_STRUCT
#[derive(Debug, PartialEq, Eq, Clone, Copy, Hash, Structural)]
pub struct Date {
    pub year: SmallInt,
    pub month: USmallInt,
    pub day: USmallInt,
}

impl Date {
    /// Size in bytes of the C structure, trailing padding included.
    pub const SIZE: usize = 6;

    /// The size and alignment of each field, in C order.
    pub open spec fn spec_field_shapes() -> Seq<FieldShape> {
        seq![
            FieldShape { size: 2, align: 2 },
            FieldShape { size: 2, align: 2 },
            FieldShape { size: 2, align: 2 },
        ]
    }

    /// The size and alignment of each field, in C order.
    pub fn field_shapes() -> (r: Vec<FieldShape>)
        ensures
            r@ == Self::spec_field_shapes(),
    {
        let r = vec![
            FieldShape { size: 2, align: 2 },
            FieldShape { size: 2, align: 2 },
            FieldShape { size: 2, align: 2 },
        ];
        assert(r@ =~= Self::spec_field_shapes());
        r
    }

    /// `SIZE` and the offsets at which `decodes` and `image` place the fields are those of
    /// C layout.
    pub proof fn lemma_c_layout()
        ensures
            struct_size(Self::spec_field_shapes()) == Self::SIZE,
            field_offset(Self::spec_field_shapes(), 0) == 0,
            field_offset(Self::spec_field_shapes(), 1) == 2,
            field_offset(Self::spec_field_shapes(), 2) == 4,
    {
        let sh = Self::spec_field_shapes();
        assert(fields_end(sh, 0) == 0);
        assert(struct_align(sh, 0) == 1);
        assert(align_up(0, 2) == 0);
        assert(fields_end(sh, 1) == 2);
        assert(struct_align(sh, 1) == 2);
        assert(align_up(2, 2) == 2);
        assert(fields_end(sh, 2) == 4);
        assert(struct_align(sh, 2) == 2);
        assert(align_up(4, 2) == 4);
        assert(fields_end(sh, 3) == 6);
        assert(struct_align(sh, 3) == 2);
        assert(align_up(6, 2) == Self::SIZE);
    }

    /// The byte image of the value: each field at its C offset, padding zeroed.
    pub open spec fn image(self, order: ByteOrder) -> Seq<u8> {
        i16_bytes(self.year, order) + u16_bytes(self.month, order) + u16_bytes(self.day, order)
    }

    /// `self` is the value whose byte image starts `b`: each field as stored at its offset.
    pub open spec fn decodes(self, b: Seq<u8>, order: ByteOrder) -> bool {
        &&& self.year == i16_at(b, 0, order)
        &&& self.month == u16_at(b, 2, order)
        &&& self.day == u16_at(b, 4, order)
    }

    /// The byte image of the value, as a driver reads it from memory.
    pub fn to_bytes(&self, order: ByteOrder) -> (r: Vec<u8>)
        ensures
            r@ == self.image(order),
    {
        let mut out: Vec<u8> = Vec::new();
        push_i16(&mut out, self.year, order);
        push_u16(&mut out, self.month, order);
        push_u16(&mut out, self.day, order);
        assert(out@ =~= self.image(order));
        out
    }

    /// Reads a value back from its byte image; `None` where `b` is not exactly that long.
    pub fn from_bytes(b: &[u8], order: ByteOrder) -> (r: Option<Date>)
        ensures
            r is Some <==> b@.len() == Self::SIZE,
            r matches Some(v) ==> v.decodes(b@, order),
    {
        if b.len() != Self::SIZE {
            return None;
        }
        Some(Date {
            year: read_i16(b, 0, order),
            month: read_u16(b, 2, order),
            day: read_u16(b, 4, order),
        })
    }

    /// Reading back the byte image gives the value again, and no other value.
    pub proof fn lemma_round_trip(self, order: ByteOrder)
        ensures
            self.image(order).len() == Self::SIZE,
            forall|v: Date| #[trigger] v.decodes(self.image(order), order) <==> v == self,
    {
        let img = self.image(order);
        let pre = Seq::<u8>::empty();
        let post = u16_bytes(self.month, order) + u16_bytes(self.day, order);
        assert(img =~= pre + i16_bytes(self.year, order) + post);
        lemma_i16_within(pre, self.year, post, order);
        let pre = i16_bytes(self.year, order);
        let post = u16_bytes(self.day, order);
        assert(img =~= pre + u16_bytes(self.month, order) + post);
        lemma_u16_within(pre, self.month, post, order);
        let pre = i16_bytes(self.year, order) + u16_bytes(self.month, order);
        let post = Seq::<u8>::empty();
        assert(img =~= pre + u16_bytes(self.day, order) + post);
        lemma_u16_within(pre, self.day, post, order);
    }
}

impl Default for Date {
    /// Every field zero: the state a driver sees in zeroed memory.
    fn default() -> (r: Date)
        ensures
            r == (Date { year: 0, month: 0, day: 0 }),
    {
        Date { year: 0, month: 0, day: 0 }
    }
}

/// SQL_TIME_STRUCT
#[derive(Debug, PartialEq, Eq, Clone, Copy, Hash, Structural)]
pub struct Time {
    pub hour: USmallInt,
    pub minute: USmallInt,
    pub second: USmallInt,
}

impl Time {
    /// Size in bytes of the C structure, trailing padding included.
    pub const SIZE: usize = 6;

    /// The size and alignment of each field, in C order.
    pub open spec fn spec_field_shapes() -> Seq<FieldShape> {
        seq![
            FieldShape { size: 2, align: 2 },
            FieldShape { size: 2, align: 2 },
            FieldShape { size: 2, align: 2 },
        ]
    }

    /// The size and alignment of each field, in C order.
    pub fn field_shapes() -> (r: Vec<FieldShape>)
        ensures
            r@ == Self::spec_field_shapes(),
    {
        let r = vec![
            FieldShape { size: 2, align: 2 },
            FieldShape { size: 2, align: 2 },
            FieldShape { size: 2, align: 2 },
        ];
        assert(r@ =~= Self::spec_field_shapes());
        r
    }

    /// `SIZE` and the offsets at which `decodes` and `image` place the fields are those of
    /// C layout.
    pub proof fn lemma_c_layout()
        ensures
            struct_size(Self::spec_field_shapes()) == Self::SIZE,
            field_offset(Self::spec_field_shapes(), 0) == 0,
            field_offset(Self::spec_field_shapes(), 1) == 2,
            field_offset(Self::spec_field_shapes(), 2) == 4,
    {
        let sh = Self::spec_field_shapes();
        assert(fields_end(sh, 0) == 0);
        assert(struct_align(sh, 0) == 1);
        assert(align_up(0, 2) == 0);
        assert(fields_end(sh, 1) == 2);
        assert(struct_align(sh, 1) == 2);
        assert(align_up(2, 2) == 2);
        assert(fields_end(sh, 2) == 4);
        assert(struct_align(sh, 2) == 2);
        assert(align_up(4, 2) == 4);
        assert(fields_end(sh, 3) == 6);
        assert(struct_align(sh, 3) == 2);
        assert(align_up(6, 2) == Self::SIZE);
    }

    /// The byte image of the value: each field at its C offset, padding zeroed.
    pub open spec fn image(self, order: ByteOrder) -> Seq<u8> {
        u16_bytes(self.hour, order) + u16_bytes(self.minute, order)
            + u16_bytes(self.second, order)
    }

    /// `self` is the value whose byte image starts `b`: each field as stored at its offset.
    pub open spec fn decodes(self, b: Seq<u8>, order: ByteOrder) -> bool {
        &&& self.hour == u16_at(b, 0, order)
        &&& self.minute == u16_at(b, 2, order)
        &&& self.second == u16_at(b, 4, order)
    }

    /// The byte image of the value, as a driver reads it from memory.
    pub fn to_bytes(&self, order: ByteOrder) -> (r: Vec<u8>)
        ensures
            r@ == self.image(order),
    {
        let mut out: Vec<u8> = Vec::new();
        push_u16(&mut out, self.hour, order);
        push_u16(&mut out, self.minute, order);
        push_u16(&mut out, self.second, order);
        assert(out@ =~= self.image(order));
        out
    }

    /// Reads a value back from its byte image; `None` where `b` is not exactly that long.
    pub fn from_bytes(b: &[u8], order: ByteOrder) -> (r: Option<Time>)
        ensures
            r is Some <==> b@.len() == Self::SIZE,
            r matches Some(v) ==> v.decodes(b@, order),
    {
        if b.len() != Self::SIZE {
            return None;
        }
        Some(Time {
            hour: read_u16(b, 0, order),
            minute: read_u16(b, 2, order),
            second: read_u16(b, 4, order),
        })
    }

    /// Reading back the byte image gives the value again, and no other value.
    pub proof fn lemma_round_trip(self, order: ByteOrder)
        ensures
            self.image(order).len() == Self::SIZE,
            forall|v: Time| #[trigger] v.decodes(self.image(order), order) <==> v == self,
    {
        let img = self.image(order);
        let pre = Seq::<u8>::empty();
        let post = u16_bytes(self.minute, order) + u16_bytes(self.second, order);
        assert(img =~= pre + u16_bytes(self.hour, order) + post);
        lemma_u16_within(pre, self.hour, post, order);
        let pre = u16_bytes(self.hour, order);
        let post = u16_bytes(self.second, order);
        assert(img =~= pre + u16_bytes(self.minute, order) + post);
        lemma_u16_within(pre, self.minute, post, order);
        let pre = u16_bytes(self.hour, order) + u16_bytes(self.minute, order);
        let post = Seq::<u8>::empty();
        assert(img =~= pre + u16_bytes(self.second, order) + post);
        lemma_u16_within(pre, self.second, post, order);
    }
}

impl Default for Time {
    /// Every field zero: the state a driver sees in zeroed memory.
    fn default() -> (r: Time)
        ensures
            r == (Time { hour: 0, minute: 0, second: 0 }),
    {
        Time { hour: 0, minute: 0, second: 0 }
    }
}

/// SQL_TIMESTAMP_STRUCT
#[derive(Debug, PartialEq, Eq, Clone, Copy, Hash, Structural)]
pub struct Timestamp {
    pub year: SmallInt,
    pub month: USmallInt,
    pub day: USmallInt,
    pub hour: USmallInt,
    pub minute: USmallInt,
    pub second: USmallInt,
    pub fraction: UInteger,
}

impl Timestamp {
    /// Size in bytes of the C structure, trailing padding included.
    pub const SIZE: usize = 16;

    /// The size and alignment of each field, in C order.
    pub open spec fn spec_field_shapes() -> Seq<FieldShape> {
        seq![
            FieldShape { size: 2, align: 2 },
            FieldShape { size: 2, align: 2 },
            FieldShape { size: 2, align: 2 },
            FieldShape { size: 2, align: 2 },
            FieldShape { size: 2, align: 2 },
            FieldShape { size: 2, align: 2 },
            FieldShape { size: 4, align: 4 },
        ]
    }

    /// The size and alignment of each field, in C order.
    pub fn field_shapes() -> (r: Vec<FieldShape>)
        ensures
            r@ == Self::spec_field_shapes(),
    {
        let r = vec![
            FieldShape { size: 2, align: 2 },
            FieldShape { size: 2, align: 2 },
            FieldShape { size: 2, align: 2 },
            FieldShape { size: 2, align: 2 },
            FieldShape { size: 2, align: 2 },
            FieldShape { size: 2, align: 2 },
            FieldShape { size: 4, align: 4 },
        ];
        assert(r@ =~= Self::spec_field_shapes());
        r
    }

    /// `SIZE` and the offsets at which `decodes` and `image` place the fields are those of
    /// C layout.
    pub proof fn lemma_c_layout()
        ensures
            struct_size(Self::spec_field_shapes()) == Self::SIZE,
            field_offset(Self::spec_field_shapes(), 0) == 0,
            field_offset(Self::spec_field_shapes(), 1) == 2,
            field_offset(Self::spec_field_shapes(), 2) == 4,
            field_offset(Self::spec_field_shapes(), 3) == 6,
            field_offset(Self::spec_field_shapes(), 4) == 8,
            field_offset(Self::spec_field_shapes(), 5) == 10,
            field_offset(Self::spec_field_shapes(), 6) == 12,
    {
        let sh = Self::spec_field_shapes();
        assert(fields_end(sh, 0) == 0);
        assert(struct_align(sh, 0) == 1);
        assert(align_up(0, 2) == 0);
        assert(fields_end(sh, 1) == 2);
        assert(struct_align(sh, 1) == 2);
        assert(align_up(2, 2) == 2);
        assert(fields_end(sh, 2) == 4);
        assert(struct_align(sh, 2) == 2);
        assert(align_up(4, 2) == 4);
        assert(fields_end(sh, 3) == 6);
        assert(struct_align(sh, 3) == 2);
        assert(align_up(6, 2) == 6);
        assert(fields_end(sh, 4) == 8);
        assert(struct_align(sh, 4) == 2);
        assert(align_up(8, 2) == 8);
        assert(fields_end(sh, 5) == 10);
        assert(struct_align(sh, 5) == 2);
        assert(align_up(10, 2) == 10);
        assert(fields_end(sh, 6) == 12);
        assert(struct_align(sh, 6) == 2);
        assert(align_up(12, 4) == 12);
        assert(fields_end(sh, 7) == 16);
        assert(struct_align(sh, 7) == 4);
        assert(align_up(16, 4) == Self::SIZE);
    }

    /// The byte image of the value: each field at its C offset, padding zeroed.
    pub open spec fn image(self, order: ByteOrder) -> Seq<u8> {
        i16_bytes(self.year, order) + u16_bytes(self.month, order) + u16_bytes(self.day, order)
            + u16_bytes(self.hour, order) + u16_bytes(self.minute, order)
            + u16_bytes(self.second, order) + u32_bytes(self.fraction, order)
    }

    /// `self` is the value whose byte image starts `b`: each field as stored at its offset.
    pub open spec fn decodes(self, b: Seq<u8>, order: ByteOrder) -> bool {
        &&& self.year == i16_at(b, 0, order)
        &&& self.month == u16_at(b, 2, order)
        &&& self.day == u16_at(b, 4, order)
        &&& self.hour == u16_at(b, 6, order)
        &&& self.minute == u16_at(b, 8, order)
        &&& self.second == u16_at(b, 10, order)
        &&& self.fraction == u32_at(b, 12, order)
    }

    /// The byte image of the value, as a driver reads it from memory.
    pub fn to_bytes(&self, order: ByteOrder) -> (r: Vec<u8>)
        ensures
            r@ == self.image(order),
    {
        let mut out: Vec<u8> = Vec::new();
        push_i16(&mut out, self.year, order);
        push_u16(&mut out, self.month, order);
        push_u16(&mut out, self.day, order);
        push_u16(&mut out, self.hour, order);
        push_u16(&mut out, self.minute, order);
        push_u16(&mut out, self.second, order);
        push_u32(&mut out, self.fraction, order);
        assert(out@ =~= self.image(order));
        out
    }

    /// Reads a value back from its byte image; `None` where `b` is not exactly that long.
    pub fn from_bytes(b: &[u8], order: ByteOrder) -> (r: Option<Timestamp>)
        ensures
            r is Some <==> b@.len() == Self::SIZE,
            r matches Some(v) ==> v.decodes(b@, order),
    {
        if b.len() != Self::SIZE {
            return None;
        }
        Some(Timestamp {
            year: read_i16(b, 0, order),
            month: read_u16(b, 2, order),
            day: read_u16(b, 4, order),
            hour: read_u16(b, 6, order),
            minute: read_u16(b, 8, order),
            second: read_u16(b, 10, order),
            fraction: read_u32(b, 12, order),
        })
    }

    /// Reading back the byte image gives the value again, and no other value.
    pub proof fn lemma_round_trip(self, order: ByteOrder)
        ensures
            self.image(order).len() == Self::SIZE,
            forall|v: Timestamp| #[trigger] v.decodes(self.image(order), order) <==> v == self,
    {
        let img = self.image(order);
        let pre = Seq::<u8>::empty();
        let post = u16_bytes(self.month, order) + u16_bytes(self.day, order) + u16_bytes(self.hour, order) + u16_bytes(self.minute, order) + u16_bytes(self.second, order) + u32_bytes(self.fraction, order);
        assert(img =~= pre + i16_bytes(self.year, order) + post);
        lemma_i16_within(pre, self.year, post, order);
        let pre = i16_bytes(self.year, order);
        let post = u16_bytes(self.day, order) + u16_bytes(self.hour, order) + u16_bytes(self.minute, order) + u16_bytes(self.second, order) + u32_bytes(self.fraction, order);
        assert(img =~= pre + u16_bytes(self.month, order) + post);
        lemma_u16_within(pre, self.month, post, order);
        let pre = i16_bytes(self.year, order) + u16_bytes(self.month, order);
        let post = u16_bytes(self.hour, order) + u16_bytes(self.minute, order) + u16_bytes(self.second, order) + u32_bytes(self.fraction, order);
        assert(img =~= pre + u16_bytes(self.day, order) + post);
        lemma_u16_within(pre, self.day, post, order);
        let pre = i16_bytes(self.year, order) + u16_bytes(self.month, order) + u16_bytes(self.day, order);
        let post = u16_bytes(self.minute, order) + u16_bytes(self.second, order) + u32_bytes(self.fraction, order);
        assert(img =~= pre + u16_bytes(self.hour, order) + post);
        lemma_u16_within(pre, self.hour, post, order);
        let pre = i16_bytes(self.year, order) + u16_bytes(self.month, order) + u16_bytes(self.day, order) + u16_bytes(self.hour, order);
        let post = u16_bytes(self.second, order) + u32_bytes(self.fraction, order);
        assert(img =~= pre + u16_bytes(self.minute, order) + post);
        lemma_u16_within(pre, self.minute, post, order);
        let pre = i16_bytes(self.year, order) + u16_bytes(self.month, order) + u16_bytes(self.day, order) + u16_bytes(self.hour, order) + u16_bytes(self.minute, order);
        let post = u32_bytes(self.fraction, order);
        assert(img =~= pre + u16_bytes(self.second, order) + post);
        lemma_u16_within(pre, self.second, post, order);
        let pre = i16_bytes(self.year, order) + u16_bytes(self.month, order) + u16_bytes(self.day, order) + u16_bytes(self.hour, order) + u16_bytes(self.minute, order) + u16_bytes(self.second, order);
        let post = Seq::<u8>::empty();
        assert(img =~= pre + u32_bytes(self.fraction, order) + post);
        lemma_u32_within(pre, self.fraction, post, order);
    }
}

impl Default for Timestamp {
    /// Every field zero: the state a driver sees in zeroed memory.
    fn default() -> (r: Timestamp)
        ensures
            r == (Timestamp { year: 0, month: 0, day: 0, hour: 0, minute: 0, second: 0, fraction: 0 }),
    {
        Timestamp { year: 0, month: 0, day: 0, hour: 0, minute: 0, second: 0, fraction: 0 }
    }
}

/// SQLGUID
#[derive(Debug, Eq, Clone, Copy, Hash)]
pub struct Guid {
    pub d1: u32,
    pub d2: u16,
    pub d3: u16,
    pub d4: [u8; 8],
}

impl Guid {
    /// Size in bytes of the C structure, trailing padding included.
    pub const SIZE: usize = 16;

    /// The size and alignment of each field, in C order.
    pub open spec fn spec_field_shapes() -> Seq<FieldShape> {
        seq![
            FieldShape { size: 4, align: 4 },
            FieldShape { size: 2, align: 2 },
            FieldShape { size: 2, align: 2 },
            FieldShape { size: 8, align: 1 },
        ]
    }

    /// The size and alignment of each field, in C order.
    pub fn field_shapes() -> (r: Vec<FieldShape>)
        ensures
            r@ == Self::spec_field_shapes(),
    {
        let r = vec![
            FieldShape { size: 4, align: 4 },
            FieldShape { size: 2, align: 2 },
            FieldShape { size: 2, align: 2 },
            FieldShape { size: 8, align: 1 },
        ];
        assert(r@ =~= Self::spec_field_shapes());
        r
    }

    /// `SIZE` and the offsets at which `decodes` and `image` place the fields are those of
    /// C layout.
    pub proof fn lemma_c_layout()
        ensures
            struct_size(Self::spec_field_shapes()) == Self::SIZE,
            field_offset(Self::spec_field_shapes(), 0) == 0,
            field_offset(Self::spec_field_shapes(), 1) == 4,
            field_offset(Self::spec_field_shapes(), 2) == 6,
            field_offset(Self::spec_field_shapes(), 3) == 8,
    {
        let sh = Self::spec_field_shapes();
        assert(fields_end(sh, 0) == 0);
        assert(struct_align(sh, 0) == 1);
        assert(align_up(0, 4) == 0);
        assert(fields_end(sh, 1) == 4);
        assert(struct_align(sh, 1) == 4);
        assert(align_up(4, 2) == 4);
        assert(fields_end(sh, 2) == 6);
        assert(struct_align(sh, 2) == 4);
        assert(align_up(6, 2) == 6);
        assert(fields_end(sh, 3) == 8);
        assert(struct_align(sh, 3) == 4);
        assert(align_up(8, 1) == 8);
        assert(fields_end(sh, 4) == 16);
        assert(struct_align(sh, 4) == 4);
        assert(align_up(16, 4) == Self::SIZE);
    }

    /// The byte image of the value: each field at its C offset, padding zeroed.
    pub open spec fn image(self, order: ByteOrder) -> Seq<u8> {
        u32_bytes(self.d1, order) + u16_bytes(self.d2, order) + u16_bytes(self.d3, order)
            + self.d4@
    }

    /// `self` is the value whose byte image starts `b`: each field as stored at its offset.
    pub open spec fn decodes(self, b: Seq<u8>, order: ByteOrder) -> bool {
        &&& self.d1 == u32_at(b, 0, order)
        &&& self.d2 == u16_at(b, 4, order)
        &&& self.d3 == u16_at(b, 6, order)
        &&& self.d4@ == b.subrange(8, 16)
    }

    /// The byte image of the value, as a driver reads it from memory.
    pub fn to_bytes(&self, order: ByteOrder) -> (r: Vec<u8>)
        ensures
            r@ == self.image(order),
    {
        let mut out: Vec<u8> = Vec::new();
        push_u32(&mut out, self.d1, order);
        push_u16(&mut out, self.d2, order);
        push_u16(&mut out, self.d3, order);
        push_all(&mut out, &self.d4);
        assert(out@ =~= self.image(order));
        out
    }

    /// Reads a value back from its byte image; `None` where `b` is not exactly that long.
    pub fn from_bytes(b: &[u8], order: ByteOrder) -> (r: Option<Guid>)
        ensures
            r is Some <==> b@.len() == Self::SIZE,
            r matches Some(v) ==> v.decodes(b@, order),
    {
        if b.len() != Self::SIZE {
            return None;
        }
        Some(Guid {
            d1: read_u32(b, 0, order),
            d2: read_u16(b, 4, order),
            d3: read_u16(b, 6, order),
            d4: read_bytes8(b, 8),
        })
    }

    /// Reading back the byte image gives the value again, and no other value.
    pub proof fn lemma_round_trip(self, order: ByteOrder)
        ensures
            self.image(order).len() == Self::SIZE,
            forall|v: Guid| #[trigger] v.decodes(self.image(order), order) <==> v == self,
    {
        let img = self.image(order);
        let pre = Seq::<u8>::empty();
        let post = u16_bytes(self.d2, order) + u16_bytes(self.d3, order) + self.d4@;
        assert(img =~= pre + u32_bytes(self.d1, order) + post);
        lemma_u32_within(pre, self.d1, post, order);
        let pre = u32_bytes(self.d1, order);
        let post = u16_bytes(self.d3, order) + self.d4@;
        assert(img =~= pre + u16_bytes(self.d2, order) + post);
        lemma_u16_within(pre, self.d2, post, order);
        let pre = u32_bytes(self.d1, order) + u16_bytes(self.d2, order);
        let post = self.d4@;
        assert(img =~= pre + u16_bytes(self.d3, order) + post);
        lemma_u16_within(pre, self.d3, post, order);
        assert(img.subrange(8, 16) =~= self.d4@);
        assert forall|v: Guid| v.decodes(img, order) implies v == self by {
            assert(v.d4 =~= self.d4);
        }
    }
}

impl Default for Guid {
    /// Every field zero: the state a driver sees in zeroed memory.
    fn default() -> (r: Guid)
        ensures
            r.d1 == 0,
            r.d2 == 0,
            r.d3 == 0,
            r.d4@ == zeros(8),
    {
        let r = Guid { d1: 0, d2: 0, d3: 0, d4: [0u8; 8] };
        assert(r.d4@ =~= zeros(8));
        r
    }
}

impl PartialEq for Guid {
    fn eq(&self, o: &Guid) -> (r: bool) {
        if self.d1 != o.d1 || self.d2 != o.d2 || self.d3 != o.d3 {
            return false;
        }
        let mut k: usize = 0;
        while k < 8
            invariant
                k <= 8,
                forall|i: int| 0 <= i < k ==> self.d4@[i] == o.d4@[i],
            decreases 8 - k,
        {
            if self.d4[k] != o.d4[k] {
                return false;
            }
            k = k + 1;
        }
        assert(self.d4@ =~= o.d4@);
        true
    }
}

impl vstd::std_specs::cmp::PartialEqSpecImpl for Guid {
    open spec fn obeys_eq_spec() -> bool {
        true
    }

    open spec fn eq_spec(&self, o: &Guid) -> bool {
        self.d1 == o.d1 && self.d2 == o.d2 && self.d3 == o.d3 && self.d4@ == o.d4@
    }
}

/// SQL_SS_TIME2_STRUCT: a time of day with fractional seconds (SQL Server).
///
/// C puts two bytes of padding before `fraction`, which is aligned to four bytes.
#[derive(Debug, PartialEq, Eq, Clone, Copy, Hash, Structural)]
pub struct SsTime2 {
    pub hour: USmallInt,
    pub minute: USmallInt,
    pub second: USmallInt,
    pub fraction: UInteger,
}

impl SsTime2 {
    /// Size in bytes of the C structure, trailing padding included.
    pub const SIZE: usize = 12;

    /// The size and alignment of each field, in C order.
    pub open spec fn spec_field_shapes() -> Seq<FieldShape> {
        seq![
            FieldShape { size: 2, align: 2 },
            FieldShape { size: 2, align: 2 },
            FieldShape { size: 2, align: 2 },
            FieldShape { size: 4, align: 4 },
        ]
    }

    /// The size and alignment of each field, in C order.
    pub fn field_shapes() -> (r: Vec<FieldShape>)
        ensures
            r@ == Self::spec_field_shapes(),
    {
        let r = vec![
            FieldShape { size: 2, align: 2 },
            FieldShape { size: 2, align: 2 },
            FieldShape { size: 2, align: 2 },
            FieldShape { size: 4, align: 4 },
        ];
        assert(r@ =~= Self::spec_field_shapes());
        r
    }

    /// `SIZE` and the offsets at which `decodes` and `image` place the fields are those of
    /// C layout.
    pub proof fn lemma_c_layout()
        ensures
            struct_size(Self::spec_field_shapes()) == Self::SIZE,
            field_offset(Self::spec_field_shapes(), 0) == 0,
            field_offset(Self::spec_field_shapes(), 1) == 2,
            field_offset(Self::spec_field_shapes(), 2) == 4,
            field_offset(Self::spec_field_shapes(), 3) == 8,
    {
        let sh = Self::spec_field_shapes();
        assert(fields_end(sh, 0) == 0);
        assert(struct_align(sh, 0) == 1);
        assert(align_up(0, 2) == 0);
        assert(fields_end(sh, 1) == 2);
        assert(struct_align(sh, 1) == 2);
        assert(align_up(2, 2) == 2);
        assert(fields_end(sh, 2) == 4);
        assert(struct_align(sh, 2) == 2);
        assert(align_up(4, 2) == 4);
        assert(fields_end(sh, 3) == 6);
        assert(struct_align(sh, 3) == 2);
        assert(align_up(6, 4) == 8);
        assert(fields_end(sh, 4) == 12);
        assert(struct_align(sh, 4) == 4);
        assert(align_up(12, 4) == Self::SIZE);
    }

    /// The byte image of the value: each field at its C offset, padding zeroed.
    pub open spec fn image(self, order: ByteOrder) -> Seq<u8> {
        u16_bytes(self.hour, order) + u16_bytes(self.minute, order)
            + u16_bytes(self.second, order) + zeros(2) + u32_bytes(self.fraction, order)
    }

    /// `self` is the value whose byte image starts `b`: each field as stored at its offset.
    pub open spec fn decodes(self, b: Seq<u8>, order: ByteOrder) -> bool {
        &&& self.hour == u16_at(b, 0, order)
        &&& self.minute == u16_at(b, 2, order)
        &&& self.second == u16_at(b, 4, order)
        &&& self.fraction == u32_at(b, 8, order)
    }

    /// The byte image of the value, as a driver reads it from memory.
    pub fn to_bytes(&self, order: ByteOrder) -> (r: Vec<u8>)
        ensures
            r@ == self.image(order),
    {
        let mut out: Vec<u8> = Vec::new();
        push_u16(&mut out, self.hour, order);
        push_u16(&mut out, self.minute, order);
        push_u16(&mut out, self.second, order);
        push_padding(&mut out, 2);
        push_u32(&mut out, self.fraction, order);
        assert(out@ =~= self.image(order));
        out
    }

    /// Reads a value back from its byte image; `None` where `b` is not exactly that long.
    pub fn from_bytes(b: &[u8], order: ByteOrder) -> (r: Option<SsTime2>)
        ensures
            r is Some <==> b@.len() == Self::SIZE,
            r matches Some(v) ==> v.decodes(b@, order),
    {
        if b.len() != Self::SIZE {
            return None;
        }
        Some(SsTime2 {
            hour: read_u16(b, 0, order),
            minute: read_u16(b, 2, order),
            second: read_u16(b, 4, order),
            fraction: read_u32(b, 8, order),
        })
    }

    /// Reading back the byte image gives the value again, and no other value.
    pub proof fn lemma_round_trip(self, order: ByteOrder)
        ensures
            self.image(order).len() == Self::SIZE,
            forall|v: SsTime2| #[trigger] v.decodes(self.image(order), order) <==> v == self,
    {
        let img = self.image(order);
        let pre = Seq::<u8>::empty();
        let post = u16_bytes(self.minute, order) + u16_bytes(self.second, order) + zeros(2) + u32_bytes(self.fraction, order);
        assert(img =~= pre + u16_bytes(self.hour, order) + post);
        lemma_u16_within(pre, self.hour, post, order);
        let pre = u16_bytes(self.hour, order);
        let post = u16_bytes(self.second, order) + zeros(2) + u32_bytes(self.fraction, order);
        assert(img =~= pre + u16_bytes(self.minute, order) + post);
        lemma_u16_within(pre, self.minute, post, order);
        let pre = u16_bytes(self.hour, order) + u16_bytes(self.minute, order);
        let post = zeros(2) + u32_bytes(self.fraction, order);
        assert(img =~= pre + u16_bytes(self.second, order) + post);
        lemma_u16_within(pre, self.second, post, order);
        let pre = u16_bytes(self.hour, order) + u16_bytes(self.minute, order) + u16_bytes(self.second, order) + zeros(2);
        let post = Seq::<u8>::empty();
        assert(img =~= pre + u32_bytes(self.fraction, order) + post);
        lemma_u32_within(pre, self.fraction, post, order);
    }
}

impl Default for SsTime2 {
    /// Every field zero: the state a driver sees in zeroed memory.
    fn default() -> (r: SsTime2)
        ensures
            r == (SsTime2 { hour: 0, minute: 0, second: 0, fraction: 0 }),
    {
        SsTime2 { hour: 0, minute: 0, second: 0, fraction: 0 }
    }
}

/// SQL_SS_TIMESTAMPOFFSET_STRUCT: a timestamp with its offset from UTC (SQL Server).
#[derive(Debug, PartialEq, Eq, Clone, Copy, Hash, Structural)]
pub struct SsTimestampOffset {
    pub year: SmallInt,
    pub month: USmallInt,
    pub day: USmallInt,
    pub hour: USmallInt,
    pub minute: USmallInt,
    pub second: USmallInt,
    pub fraction: UInteger,
    pub timezone_hour: SmallInt,
    pub timezone_minute: SmallInt,
}

impl SsTimestampOffset {
    /// Size in bytes of the C structure, trailing padding included.
    pub const SIZE: usize = 20;

    /// The size and alignment of each field, in C order.
    pub open spec fn spec_field_shapes() -> Seq<FieldShape> {
        seq![
            FieldShape { size: 2, align: 2 },
            FieldShape { size: 2, align: 2 },
            FieldShape { size: 2, align: 2 },
            FieldShape { size: 2, align: 2 },
            FieldShape { size: 2, align: 2 },
            FieldShape { size: 2, align: 2 },
            FieldShape { size: 4, align: 4 },
            FieldShape { size: 2, align: 2 },
            FieldShape { size: 2, align: 2 },
        ]
    }

    /// The size and alignment of each field, in C order.
    pub fn field_shapes() -> (r: Vec<FieldShape>)
        ensures
            r@ == Self::spec_field_shapes(),
    {
        let r = vec![
            FieldShape { size: 2, align: 2 },
            FieldShape { size: 2, align: 2 },
            FieldShape { size: 2, align: 2 },
            FieldShape { size: 2, align: 2 },
            FieldShape { size: 2, align: 2 },
            FieldShape { size: 2, align: 2 },
            FieldShape { size: 4, align: 4 },
            FieldShape { size: 2, align: 2 },
            FieldShape { size: 2, align: 2 },
        ];
        assert(r@ =~= Self::spec_field_shapes());
        r
    }

    /// `SIZE` and the offsets at which `decodes` and `image` place the fields are those of
    /// C layout.
    pub proof fn lemma_c_layout()
        ensures
            struct_size(Self::spec_field_shapes()) == Self::SIZE,
            field_offset(Self::spec_field_shapes(), 0) == 0,
            field_offset(Self::spec_field_shapes(), 1) == 2,
            field_offset(Self::spec_field_shapes(), 2) == 4,
            field_offset(Self::spec_field_shapes(), 3) == 6,
            field_offset(Self::spec_field_shapes(), 4) == 8,
            field_offset(Self::spec_field_shapes(), 5) == 10,
            field_offset(Self::spec_field_shapes(), 6) == 12,
            field_offset(Self::spec_field_shapes(), 7) == 16,
            field_offset(Self::spec_field_shapes(), 8) == 18,
    {
        let sh = Self::spec_field_shapes();
        assert(fields_end(sh, 0) == 0);
        assert(struct_align(sh, 0) == 1);
        assert(align_up(0, 2) == 0);
        assert(fields_end(sh, 1) == 2);
        assert(struct_align(sh, 1) == 2);
        assert(align_up(2, 2) == 2);
        assert(fields_end(sh, 2) == 4);
        assert(struct_align(sh, 2) == 2);
        assert(align_up(4, 2) == 4);
        assert(fields_end(sh, 3) == 6);
        assert(struct_align(sh, 3) == 2);
        assert(align_up(6, 2) == 6);
        assert(fields_end(sh, 4) == 8);
        assert(struct_align(sh, 4) == 2);
        assert(align_up(8, 2) == 8);
        assert(fields_end(sh, 5) == 10);
        assert(struct_align(sh, 5) == 2);
        assert(align_up(10, 2) == 10);
        assert(fields_end(sh, 6) == 12);
        assert(struct_align(sh, 6) == 2);
        assert(align_up(12, 4) == 12);
        assert(fields_end(sh, 7) == 16);
        assert(struct_align(sh, 7) == 4);
        assert(align_up(16, 2) == 16);
        assert(fields_end(sh, 8) == 18);
        assert(struct_align(sh, 8) == 4);
        assert(align_up(18, 2) == 18);
        assert(fields_end(sh, 9) == 20);
        assert(struct_align(sh, 9) == 4);
        assert(align_up(20, 4) == Self::SIZE);
    }

    /// The byte image of the value: each field at its C offset, padding zeroed.
    pub open spec fn image(self, order: ByteOrder) -> Seq<u8> {
        i16_bytes(self.year, order) + u16_bytes(self.month, order) + u16_bytes(self.day, order)
            + u16_bytes(self.hour, order) + u16_bytes(self.minute, order)
            + u16_bytes(self.second, order) + u32_bytes(self.fraction, order)
            + i16_bytes(self.timezone_hour, order) + i16_bytes(self.timezone_minute, order)
    }

    /// `self` is the value whose byte image starts `b`: each field as stored at its offset.
    pub open spec fn decodes(self, b: Seq<u8>, order: ByteOrder) -> bool {
        &&& self.year == i16_at(b, 0, order)
        &&& self.month == u16_at(b, 2, order)
        &&& self.day == u16_at(b, 4, order)
        &&& self.hour == u16_at(b, 6, order)
        &&& self.minute == u16_at(b, 8, order)
        &&& self.second == u16_at(b, 10, order)
        &&& self.fraction == u32_at(b, 12, order)
        &&& self.timezone_hour == i16_at(b, 16, order)
        &&& self.timezone_minute == i16_at(b, 18, order)
    }

    /// The byte image of the value, as a driver reads it from memory.
    pub fn to_bytes(&self, order: ByteOrder) -> (r: Vec<u8>)
        ensures
            r@ == self.image(order),
    {
        let mut out: Vec<u8> = Vec::new();
        push_i16(&mut out, self.year, order);
        push_u16(&mut out, self.month, order);
        push_u16(&mut out, self.day, order);
        push_u16(&mut out, self.hour, order);
        push_u16(&mut out, self.minute, order);
        push_u16(&mut out, self.second, order);
        push_u32(&mut out, self.fraction, order);
        push_i16(&mut out, self.timezone_hour, order);
        push_i16(&mut out, self.timezone_minute, order);
        assert(out@ =~= self.image(order));
        out
    }

    /// Reads a value back from its byte image; `None` where `b` is not exactly that long.
    pub fn from_bytes(b: &[u8], order: ByteOrder) -> (r: Option<SsTimestampOffset>)
        ensures
            r is Some <==> b@.len() == Self::SIZE,
            r matches Some(v) ==> v.decodes(b@, order),
    {
        if b.len() != Self::SIZE {
            return None;
        }
        Some(SsTimestampOffset {
            year: read_i16(b, 0, order),
            month: read_u16(b, 2, order),
            day: read_u16(b, 4, order),
            hour: read_u16(b, 6, order),
            minute: read_u16(b, 8, order),
            second: read_u16(b, 10, order),
            fraction: read_u32(b, 12, order),
            timezone_hour: read_i16(b, 16, order),
            timezone_minute: read_i16(b, 18, order),
        })
    }

    /// Reading back the byte image gives the value again, and no other value.
    pub proof fn lemma_round_trip(self, order: ByteOrder)
        ensures
            self.image(order).len() == Self::SIZE,
            forall|v: SsTimestampOffset| #[trigger] v.decodes(self.image(order), order) <==> v == self,
    {
        let img = self.image(order);
        let pre = Seq::<u8>::empty();
        let post = u16_bytes(self.month, order) + u16_bytes(self.day, order) + u16_bytes(self.hour, order) + u16_bytes(self.minute, order) + u16_bytes(self.second, order) + u32_bytes(self.fraction, order) + i16_bytes(self.timezone_hour, order) + i16_bytes(self.timezone_minute, order);
        assert(img =~= pre + i16_bytes(self.year, order) + post);
        lemma_i16_within(pre, self.year, post, order);
        let pre = i16_bytes(self.year, order);
        let post = u16_bytes(self.day, order) + u16_bytes(self.hour, order) + u16_bytes(self.minute, order) + u16_bytes(self.second, order) + u32_bytes(self.fraction, order) + i16_bytes(self.timezone_hour, order) + i16_bytes(self.timezone_minute, order);
        assert(img =~= pre + u16_bytes(self.month, order) + post);
        lemma_u16_within(pre, self.month, post, order);
        let pre = i16_bytes(self.year, order) + u16_bytes(self.month, order);
        let post = u16_bytes(self.hour, order) + u16_bytes(self.minute, order) + u16_bytes(self.second, order) + u32_bytes(self.fraction, order) + i16_bytes(self.timezone_hour, order) + i16_bytes(self.timezone_minute, order);
        assert(img =~= pre + u16_bytes(self.day, order) + post);
        lemma_u16_within(pre, self.day, post, order);
        let pre = i16_bytes(self.year, order) + u16_bytes(self.month, order) + u16_bytes(self.day, order);
        let post = u16_bytes(self.minute, order) + u16_bytes(self.second, order) + u32_bytes(self.fraction, order) + i16_bytes(self.timezone_hour, order) + i16_bytes(self.timezone_minute, order);
        assert(img =~= pre + u16_bytes(self.hour, order) + post);
        lemma_u16_within(pre, self.hour, post, order);
        let pre = i16_bytes(self.year, order) + u16_bytes(self.month, order) + u16_bytes(self.day, order) + u16_bytes(self.hour, order);
        let post = u16_bytes(self.second, order) + u32_bytes(self.fraction, order) + i16_bytes(self.timezone_hour, order) + i16_bytes(self.timezone_minute, order);
        assert(img =~= pre + u16_bytes(self.minute, order) + post);
        lemma_u16_within(pre, self.minute, post, order);
        let pre = i16_bytes(self.year, order) + u16_bytes(self.month, order) + u16_bytes(self.day, order) + u16_bytes(self.hour, order) + u16_bytes(self.minute, order);
        let post = u32_bytes(self.fraction, order) + i16_bytes(self.timezone_hour, order) + i16_bytes(self.timezone_minute, order);
        assert(img =~= pre + u16_bytes(self.second, order) + post);
        lemma_u16_within(pre, self.second, post, order);
        let pre = i16_bytes(self.year, order) + u16_bytes(self.month, order) + u16_bytes(self.day, order) + u16_bytes(self.hour, order) + u16_bytes(self.minute, order) + u16_bytes(self.second, order);
        let post = i16_bytes(self.timezone_hour, order) + i16_bytes(self.timezone_minute, order);
        assert(img =~= pre + u32_bytes(self.fraction, order) + post);
        lemma_u32_within(pre, self.fraction, post, order);
        let pre = i16_bytes(self.year, order) + u16_bytes(self.month, order) + u16_bytes(self.day, order) + u16_bytes(self.hour, order) + u16_bytes(self.minute, order) + u16_bytes(self.second, order) + u32_bytes(self.fraction, order);
        let post = i16_bytes(self.timezone_minute, order);
        assert(img =~= pre + i16_bytes(self.timezone_hour, order) + post);
        lemma_i16_within(pre, self.timezone_hour, post, order);
        let pre = i16_bytes(self.year, order) + u16_bytes(self.month, order) + u16_bytes(self.day, order) + u16_bytes(self.hour, order) + u16_bytes(self.minute, order) + u16_bytes(self.second, order) + u32_bytes(self.fraction, order) + i16_bytes(self.timezone_hour, order);
        let post = Seq::<u8>::empty();
        assert(img =~= pre + i16_bytes(self.timezone_minute, order) + post);
        lemma_i16_within(pre, self.timezone_minute, post, order);
    }
}

impl Default for SsTimestampOffset {
    /// Every field zero: the state a driver sees in zeroed memory.
    fn default() -> (r: SsTimestampOffset)
        ensures
            r == (SsTimestampOffset { year: 0, month: 0, day: 0, hour: 0, minute: 0, second: 0, fraction: 0, timezone_hour: 0, timezone_minute: 0 }),
    {
        SsTimestampOffset { year: 0, month: 0, day: 0, hour: 0, minute: 0, second: 0, fraction: 0, timezone_hour: 0, timezone_minute: 0 }
    }
}

} // verus!
