use vstd::prelude::*;

verus! {

/// The order in which the bytes of a multi-byte integer are stored.
#[derive(Debug, Clone, Copy, PartialEq, Eq, Structural)]
pub enum ByteOrder {
    /// Least significant byte first.
    Little,
    /// Most significant byte first.
    Big,
}

/// The two bytes of `v` in the given order.
#[verifier::opaque]
pub open spec fn u16_bytes(v: u16, order: ByteOrder) -> Seq<u8> {
    let lo = (v % 256) as u8;
    let hi = (v / 256) as u8;
    match order {
        ByteOrder::Little => seq![lo, hi],
        ByteOrder::Big => seq![hi, lo],
    }
}

/// The four bytes of `v` in the given order.
#[verifier::opaque]
pub open spec fn u32_bytes(v: u32, order: ByteOrder) -> Seq<u8> {
    let b0 = (v % 256) as u8;
    let b1 = ((v / 0x100) % 256) as u8;
    let b2 = ((v / 0x1_0000) % 256) as u8;
    let b3 = (v / 0x100_0000) as u8;
    match order {
        ByteOrder::Little => seq![b0, b1, b2, b3],
        ByteOrder::Big => seq![b3, b2, b1, b0],
    }
}

/// The two's complement bytes of `v` in the given order.
pub open spec fn i16_bytes(v: i16, order: ByteOrder) -> Seq<u8> {
    u16_bytes(v as u16, order)
}

/// The two's complement bytes of `v` in the given order.
pub open spec fn i32_bytes(v: i32, order: ByteOrder) -> Seq<u8> {
    u32_bytes(v as u32, order)
}

/// The `u16` stored at `at` in `b`.
#[verifier::opaque]
pub open spec fn u16_at(b: Seq<u8>, at: int, order: ByteOrder) -> u16 {
    match order {
        ByteOrder::Little => (b[at] + 256 * b[at + 1]) as u16,
        ByteOrder::Big => (256 * b[at] + b[at + 1]) as u16,
    }
}

/// The `u32` stored at `at` in `b`.
#[verifier::opaque]
pub open spec fn u32_at(b: Seq<u8>, at: int, order: ByteOrder) -> u32 {
    match order {
        ByteOrder::Little => (b[at] + 0x100 * b[at + 1] + 0x1_0000 * b[at + 2] + 0x100_0000 * b[at
            + 3]) as u32,
        ByteOrder::Big => (0x100_0000 * b[at] + 0x1_0000 * b[at + 1] + 0x100 * b[at + 2] + b[at
            + 3]) as u32,
    }
}

/// The two's complement `i16` stored at `at` in `b`.
pub open spec fn i16_at(b: Seq<u8>, at: int, order: ByteOrder) -> i16 {
    u16_at(b, at, order) as i16
}

/// The two's complement `i32` stored at `at` in `b`.
pub open spec fn i32_at(b: Seq<u8>, at: int, order: ByteOrder) -> i32 {
    u32_at(b, at, order) as i32
}

/// `n` zero bytes: the padding that C layout puts between fields.
pub open spec fn zeros(n: nat) -> Seq<u8> {
    Seq::new(n, |i: int| 0u8)
}

/// Reading back the bytes of a `u16` gives the value.
pub proof fn lemma_u16_round_trip(v: u16, order: ByteOrder)
    ensures
        u16_at(u16_bytes(v, order), 0, order) == v,
{
    reveal(u16_at);
    reveal(u16_bytes);
}

/// Reading back the bytes of a `u32` gives the value.
pub proof fn lemma_u32_round_trip(v: u32, order: ByteOrder)
    ensures
        u32_at(u32_bytes(v, order), 0, order) == v,
{
    reveal(u32_at);
    reveal(u32_bytes);
}

/// The bytes of a `u16` are two.
pub broadcast proof fn lemma_u16_bytes_len(v: u16, order: ByteOrder)
    ensures
        #[trigger] u16_bytes(v, order).len() == 2,
{
    reveal(u16_bytes);
}

/// The bytes of a `u32` are four.
pub broadcast proof fn lemma_u32_bytes_len(v: u32, order: ByteOrder)
    ensures
        #[trigger] u32_bytes(v, order).len() == 4,
{
    reveal(u32_bytes);
}

/// A `u16` reads back from the place where its bytes stand in a longer sequence.
pub proof fn lemma_u16_within(p: Seq<u8>, v: u16, q: Seq<u8>, order: ByteOrder)
    ensures
        u16_at(p + u16_bytes(v, order) + q, p.len() as int, order) == v,
{
    let b = p + u16_bytes(v, order) + q;
    let x = u16_bytes(v, order);
    reveal(u16_at);
    lemma_u16_bytes_len(v, order);
    assert(b[p.len() as int] == x[0]);
    assert(b[p.len() + 1int] == x[1]);
    lemma_u16_round_trip(v, order);
}

/// A `u32` reads back from the place where its bytes stand in a longer sequence.
pub proof fn lemma_u32_within(p: Seq<u8>, v: u32, q: Seq<u8>, order: ByteOrder)
    ensures
        u32_at(p + u32_bytes(v, order) + q, p.len() as int, order) == v,
{
    let b = p + u32_bytes(v, order) + q;
    let x = u32_bytes(v, order);
    reveal(u32_at);
    lemma_u32_bytes_len(v, order);
    assert(b[p.len() as int] == x[0]);
    assert(b[p.len() + 1int] == x[1]);
    assert(b[p.len() + 2int] == x[2]);
    assert(b[p.len() + 3int] == x[3]);
    lemma_u32_round_trip(v, order);
}

/// An `i16` reads back from the place where its bytes stand in a longer sequence.
pub proof fn lemma_i16_within(p: Seq<u8>, v: i16, q: Seq<u8>, order: ByteOrder)
    ensures
        i16_at(p + i16_bytes(v, order) + q, p.len() as int, order) == v,
{
    lemma_u16_within(p, v as u16, q, order);
    assert((v as u16) as i16 == v) by (bit_vector);
}

/// An `i32` reads back from the place where its bytes stand in a longer sequence.
pub proof fn lemma_i32_within(p: Seq<u8>, v: i32, q: Seq<u8>, order: ByteOrder)
    ensures
        i32_at(p + i32_bytes(v, order) + q, p.len() as int, order) == v,
{
    lemma_u32_within(p, v as u32, q, order);
    assert((v as u32) as i32 == v) by (bit_vector);
}

/// A `u32` stored in `b` reads the same when more bytes follow `b`.
pub proof fn lemma_u32_at_extend(b: Seq<u8>, c: Seq<u8>, at: int, order: ByteOrder)
    requires
        0 <= at,
        at + 4 <= b.len(),
    ensures
        u32_at(b + c, at, order) == u32_at(b, at, order),
{
    reveal(u32_at);
    assert((b + c)[at] == b[at]);
    assert((b + c)[at + 1] == b[at + 1]);
    assert((b + c)[at + 2] == b[at + 2]);
    assert((b + c)[at + 3] == b[at + 3]);
}

/// Appends the bytes of `v` to `out`.
pub fn push_u16(out: &mut Vec<u8>, v: u16, order: ByteOrder)
    ensures
        final(out)@ == old(out)@ + u16_bytes(v, order),
{
    proof {
        reveal(u16_bytes);
    }
    let lo = (v % 256) as u8;
    let hi = (v / 256) as u8;
    match order {
        ByteOrder::Little => {
            out.push(lo);
            out.push(hi);
        },
        ByteOrder::Big => {
            out.push(hi);
            out.push(lo);
        },
    }
    assert(out@ =~= old(out)@ + u16_bytes(v, order));
}

/// Appends the bytes of `v` to `out`.
pub fn push_u32(out: &mut Vec<u8>, v: u32, order: ByteOrder)
    ensures
        final(out)@ == old(out)@ + u32_bytes(v, order),
{
    proof {
        reveal(u32_bytes);
    }
    let b0 = (v % 256) as u8;
    let b1 = ((v / 0x100) % 256) as u8;
    let b2 = ((v / 0x1_0000) % 256) as u8;
    let b3 = (v / 0x100_0000) as u8;
    match order {
        ByteOrder::Little => {
            out.push(b0);
            out.push(b1);
            out.push(b2);
            out.push(b3);
        },
        ByteOrder::Big => {
            out.push(b3);
            out.push(b2);
            out.push(b1);
            out.push(b0);
        },
    }
    assert(out@ =~= old(out)@ + u32_bytes(v, order));
}

/// Appends the two's complement bytes of `v` to `out`.
pub fn push_i16(out: &mut Vec<u8>, v: i16, order: ByteOrder)
    ensures
        final(out)@ == old(out)@ + i16_bytes(v, order),
{
    push_u16(out, v as u16, order);
}

/// Appends the two's complement bytes of `v` to `out`.
pub fn push_i32(out: &mut Vec<u8>, v: i32, order: ByteOrder)
    ensures
        final(out)@ == old(out)@ + i32_bytes(v, order),
{
    push_u32(out, v as u32, order);
}

/// Appends `n` zero bytes to `out`: the padding that C layout puts between fields.
pub fn push_padding(out: &mut Vec<u8>, n: usize)
    ensures
        final(out)@ == old(out)@ + zeros(n as nat),
{
    let mut k: usize = 0;
    while k < n
        invariant
            k <= n,
            out@ == old(out)@ + zeros(k as nat),
        decreases n - k,
    {
        out.push(0u8);
        k = k + 1;
        assert(out@ =~= old(out)@ + zeros(k as nat));
    }
}

/// The `u16` stored at `at` in `b`.
pub fn read_u16(b: &[u8], at: usize, order: ByteOrder) -> (r: u16)
    requires
        at + 2 <= b@.len(),
    ensures
        r == u16_at(b@, at as int, order),
{
    proof {
        reveal(u16_at);
    }
    let b0 = b[at] as u16;
    let b1 = b[at + 1] as u16;
    match order {
        ByteOrder::Little => b0 + 256 * b1,
        ByteOrder::Big => 256 * b0 + b1,
    }
}

/// The `u32` stored at `at` in `b`.
pub fn read_u32(b: &[u8], at: usize, order: ByteOrder) -> (r: u32)
    requires
        at + 4 <= b@.len(),
    ensures
        r == u32_at(b@, at as int, order),
{
    proof {
        reveal(u32_at);
    }
    let b0 = b[at] as u32;
    let b1 = b[at + 1] as u32;
    let b2 = b[at + 2] as u32;
    let b3 = b[at + 3] as u32;
    match order {
        ByteOrder::Little => b0 + 0x100 * b1 + 0x1_0000 * b2 + 0x100_0000 * b3,
        ByteOrder::Big => 0x100_0000 * b0 + 0x1_0000 * b1 + 0x100 * b2 + b3,
    }
}

/// The two's complement `i16` stored at `at` in `b`.
pub fn read_i16(b: &[u8], at: usize, order: ByteOrder) -> (r: i16)
    requires
        at + 2 <= b@.len(),
    ensures
        r == i16_at(b@, at as int, order),
{
    read_u16(b, at, order) as i16
}

/// The two's complement `i32` stored at `at` in `b`.
pub fn read_i32(b: &[u8], at: usize, order: ByteOrder) -> (r: i32)
    requires
        at + 4 <= b@.len(),
    ensures
        r == i32_at(b@, at as int, order),
{
    read_u32(b, at, order) as i32
}

/// Appends the bytes of `a` to `out`, in their own order.
pub fn push_all(out: &mut Vec<u8>, a: &[u8])
    ensures
        final(out)@ == old(out)@ + a@,
{
    let mut k: usize = 0;
    while k < a.len()
        invariant
            k <= a@.len(),
            out@ == old(out)@ + a@.subrange(0, k as int),
        decreases a@.len() - k,
    {
        out.push(a[k]);
        k = k + 1;
        assert(out@ =~= old(out)@ + a@.subrange(0, k as int));
    }
    assert(a@.subrange(0, a@.len() as int) =~= a@);
}

/// The eight bytes stored at `at` in `b`.
pub fn read_bytes8(b: &[u8], at: usize) -> (r: [u8; 8])
    requires
        at + 8 <= b@.len(),
    ensures
        r@ == b@.subrange(at as int, at + 8),
{
    let r: [u8; 8] = [
        b[at],
        b[at + 1],
        b[at + 2],
        b[at + 3],
        b[at + 4],
        b[at + 5],
        b[at + 6],
        b[at + 7],
    ];
    assert(r@ =~= b@.subrange(at as int, at + 8));
    r
}

/// Relies on `u16::to_ne_bytes`: the bytes of a `u16` in the machine's own order, which is
/// one of the two orders.
#[verifier::external_body]
fn native_bytes_u16(v: u16) -> (r: [u8; 2])
    ensures
        r@ == u16_bytes(v, ByteOrder::Little) || r@ == u16_bytes(v, ByteOrder::Big),
{
    v.to_ne_bytes()
}

/// The byte order of the machine this runs on.
pub fn native_order() -> (r: ByteOrder) {
    let probe = native_bytes_u16(1);
    if probe[0] == 1 {
        ByteOrder::Little
    } else {
        ByteOrder::Big
    }
}

} // verus!
