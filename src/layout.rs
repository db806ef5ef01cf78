use vstd::prelude::*;

verus! {

/// The size and alignment in bytes of one field of a C structure.
#[derive(Debug, PartialEq, Eq, Clone, Copy, Hash, Structural)]
pub struct FieldShape {
    pub size: usize,
    pub align: usize,
}

/// Where C puts each field of a structure, and how large the structure is.
#[derive(Debug, PartialEq, Eq, Clone)]
pub struct CLayout {
    pub offsets: Vec<usize>,
    pub size: usize,
    pub align: usize,
}

/// Every alignment is positive.
pub open spec fn shapes_valid(fields: Seq<FieldShape>) -> bool {
    forall|i: int| 0 <= i < fields.len() ==> #[trigger] fields[i].align > 0
}

/// `x` rounded up to a multiple of `a`.
pub open spec fn align_up(x: int, a: int) -> int {
    x + (a - x % a) % a
}

/// The first byte after the first `n` fields.
pub open spec fn fields_end(fields: Seq<FieldShape>, n: nat) -> int
    decreases n,
{
    if n == 0 {
        0
    } else {
        align_up(fields_end(fields, (n - 1) as nat), fields[n - 1].align as int) + fields[n
            - 1].size
    }
}

/// The offset of field `i`: the end of the fields before it, rounded up to its alignment.
pub open spec fn field_offset(fields: Seq<FieldShape>, i: int) -> int {
    align_up(fields_end(fields, i as nat), fields[i].align as int)
}

/// The alignment of the structure: the largest alignment of the first `n` fields, at least one.
pub open spec fn struct_align(fields: Seq<FieldShape>, n: nat) -> int
    decreases n,
{
    if n == 0 {
        1
    } else {
        let a = struct_align(fields, (n - 1) as nat);
        if fields[n - 1].align > a {
            fields[n - 1].align as int
        } else {
            a
        }
    }
}

/// The size of the structure: the end of its fields, rounded up to its alignment.
pub open spec fn struct_size(fields: Seq<FieldShape>) -> int {
    align_up(fields_end(fields, fields.len()), struct_align(fields, fields.len()))
}

/// Rounding up to a positive alignment neither lowers a value nor raises it past the next
/// multiple.
pub proof fn lemma_align_up(x: int, a: int)
    requires
        x >= 0,
        a > 0,
    ensures
        x <= align_up(x, a) < x + a,
        align_up(x, a) % a == 0,
{
    let r = x % a;
    let q = x / a;
    vstd::arithmetic::div_mod::lemma_fundamental_div_mod(x, a);
    vstd::arithmetic::div_mod::lemma_mod_pos_bound(x, a);
    if r == 0 {
        vstd::arithmetic::div_mod::lemma_mod_self_0(a);
    } else {
        vstd::arithmetic::div_mod::lemma_small_mod((a - r) as nat, a as nat);
        assert(x + (a - r) == (q + 1) * a) by (nonlinear_arith)
            requires
                x == a * q + r,
        ;
        vstd::arithmetic::div_mod::lemma_mod_multiples_basic(q + 1, a);
    }
}

/// The end of the fields grows with their number.
pub proof fn lemma_fields_end_grows(fields: Seq<FieldShape>, i: nat, j: nat)
    requires
        shapes_valid(fields),
        i <= j <= fields.len(),
    ensures
        0 <= fields_end(fields, i) <= fields_end(fields, j),
    decreases j,
{
    if j > 0 {
        if i < j {
            lemma_fields_end_grows(fields, i, (j - 1) as nat);
        }
        lemma_fields_end_grows(fields, 0, (j - 1) as nat);
        lemma_align_up(fields_end(fields, (j - 1) as nat), fields[j - 1].align as int);
    }
}

/// The alignment of the structure is at least one and at least that of each field.
pub proof fn lemma_struct_align(fields: Seq<FieldShape>, n: nat)
    requires
        n <= fields.len(),
    ensures
        struct_align(fields, n) >= 1,
        forall|i: int| 0 <= i < n ==> struct_align(fields, n) >= #[trigger] fields[i].align,
    decreases n,
{
    if n > 0 {
        lemma_struct_align(fields, (n - 1) as nat);
    }
}

/// The layout that C gives a structure with these fields in this order, each at the next
/// offset that its alignment allows, with trailing padding up to the largest alignment.
pub fn c_layout(fields: &Vec<FieldShape>) -> (r: CLayout)
    requires
        shapes_valid(fields@),
        struct_size(fields@) <= usize::MAX,
    ensures
        r.offsets@.len() == fields@.len(),
        forall|i: int| 0 <= i < fields@.len() ==> r.offsets@[i] == field_offset(fields@, i),
        r.size == struct_size(fields@),
        r.align == struct_align(fields@, fields@.len()),
{
    let n = fields.len();
    proof {
        lemma_struct_align(fields@, n as nat);
        lemma_fields_end_grows(fields@, n as nat, n as nat);
        lemma_align_up(fields_end(fields@, n as nat), struct_align(fields@, n as nat));
    }
    let mut offsets: Vec<usize> = Vec::new();
    let mut end: usize = 0;
    let mut align: usize = 1;
    let mut i: usize = 0;
    while i < n
        invariant
            n == fields@.len(),
            i <= n,
            shapes_valid(fields@),
            struct_size(fields@) <= usize::MAX,
            fields_end(fields@, n as nat) <= struct_size(fields@),
            end == fields_end(fields@, i as nat),
            align == struct_align(fields@, i as nat),
            offsets@.len() == i,
            forall|k: int| 0 <= k < i ==> offsets@[k] == field_offset(fields@, k),
        decreases n - i,
    {
        let f = fields[i];
        proof {
            lemma_fields_end_grows(fields@, (i + 1) as nat, n as nat);
            lemma_fields_end_grows(fields@, i as nat, i as nat);
            lemma_align_up(end as int, f.align as int);
            assert(f.align > 0);
        }
        let offset = end + (f.align - end % f.align) % f.align;
        offsets.push(offset);
        end = offset + f.size;
        if f.align > align {
            align = f.align;
        }
        i = i + 1;
    }
    proof {
        lemma_align_up(end as int, align as int);
    }
    let size = end + (align - end % align) % align;
    CLayout { offsets, size, align }
}

} // verus!
