use vstd::prelude::*;
use crate::dynamic_builder::text_has_nul;
use crate::error::{DdsError, DdsResult};
use crate::type_discovery::has_nul;

verus! {

// ---------------------------------------------------------------------------
// Serializer opcodes (the values of CycloneDDS's `dds_opcodes.h`)
// ---------------------------------------------------------------------------

pub const OP_RTS: u32 = 0x0000_0000;
pub const OP_ADR: u32 = 0x0100_0000;
pub const OP_DLC: u32 = 0x0400_0000;
pub const OP_KOF: u32 = 0x0700_0000;
pub const OP_JEQ4: u32 = 0x0800_0000;
pub const OP_MID: u32 = 0x0900_0000;

pub const VAL_1BY: u32 = 0x01;
pub const VAL_2BY: u32 = 0x02;
pub const VAL_4BY: u32 = 0x03;
pub const VAL_8BY: u32 = 0x04;
pub const VAL_STR: u32 = 0x05;
pub const VAL_BST: u32 = 0x06;
pub const VAL_SEQ: u32 = 0x07;
pub const VAL_ARR: u32 = 0x08;
pub const VAL_BSQ: u32 = 0x0b;

pub const TYPE_1BY: u32 = 0x0001_0000;
pub const TYPE_2BY: u32 = 0x0002_0000;
pub const TYPE_4BY: u32 = 0x0003_0000;
pub const TYPE_8BY: u32 = 0x0004_0000;
pub const TYPE_STR: u32 = 0x0005_0000;
pub const TYPE_BST: u32 = 0x0006_0000;
pub const TYPE_SEQ: u32 = 0x0007_0000;
pub const TYPE_ARR: u32 = 0x0008_0000;
pub const TYPE_UNI: u32 = 0x0009_0000;
pub const TYPE_BSQ: u32 = 0x000b_0000;
pub const TYPE_ENU: u32 = 0x000c_0000;
pub const TYPE_EXT: u32 = 0x000d_0000;

pub const SUBTYPE_1BY: u32 = 0x0000_0100;
pub const SUBTYPE_2BY: u32 = 0x0000_0200;
pub const SUBTYPE_4BY: u32 = 0x0000_0300;
pub const SUBTYPE_8BY: u32 = 0x0000_0400;
pub const SUBTYPE_STR: u32 = 0x0000_0500;
pub const SUBTYPE_BST: u32 = 0x0000_0600;
pub const SUBTYPE_SEQ: u32 = 0x0000_0700;
pub const SUBTYPE_STU: u32 = 0x0000_0a00;
pub const SUBTYPE_BSQ: u32 = 0x0000_0b00;
pub const SUBTYPE_ENU: u32 = 0x0000_0c00;

pub const OP_FLAG_SZ_SHIFT: u32 = 4;
pub const DDS_OP_MASK_CONST: u32 = 0xff00_0000;
pub const DDS_OP_TYPE_MASK_CONST: u32 = 0x007f_0000;
pub const DDS_OP_SUBTYPE_MASK_CONST: u32 = 0x0000_ff00;

/// ADR flags (low 8 bits of the ADR opcode).
pub const OP_FLAG_KEY: u32 = 0x01;
pub const OP_FLAG_DEF: u32 = 0x02;
pub const OP_FLAG_FP: u32 = 0x02;
pub const OP_FLAG_SGN: u32 = 0x04;
pub const OP_FLAG_MU: u32 = 0x08;
pub const OP_FLAG_OPT: u32 = 0x20;
pub const OP_FLAG_EXT: u32 = 0x40;

// ---------------------------------------------------------------------------
// Building op streams
// ---------------------------------------------------------------------------

/// The two words of a plain member: `ADR | typecode`, then its offset.
pub fn adr(typecode: u32, offset: u32) -> (r: Vec<u32>)
    ensures
        r@ == seq![OP_ADR | typecode, offset],
{
    let mut r: Vec<u32> = Vec::new();
    r.push(OP_ADR | typecode);
    r.push(offset);
    r
}

/// The two words of a key member: `ADR | KEY | typecode`, then its offset.
pub fn adr_key(typecode: u32, offset: u32) -> (r: Vec<u32>)
    ensures
        r@ == seq![OP_ADR | OP_FLAG_KEY | typecode, offset],
{
    let mut r: Vec<u32> = Vec::new();
    r.push(OP_ADR | OP_FLAG_KEY | typecode);
    r.push(offset);
    r
}

/// The three words of a bounded-string member: `ADR | BST`, its offset and
/// its bound.
pub fn adr_bst(offset: u32, bound: u32) -> (r: Vec<u32>)
    ensures
        r@ == seq![OP_ADR | TYPE_BST, offset, bound],
{
    let mut r: Vec<u32> = Vec::new();
    r.push(OP_ADR | TYPE_BST);
    r.push(offset);
    r.push(bound);
    r
}

/// The number of words that the ADR instruction `op` occupies.
pub open spec fn adr_width(op: u32) -> nat {
    let primary = op & DDS_OP_TYPE_MASK_CONST;
    let subtype = op & DDS_OP_SUBTYPE_MASK_CONST;
    if primary == TYPE_BST {
        3
    } else if primary == TYPE_SEQ && subtype == SUBTYPE_BST {
        3
    } else if primary == TYPE_SEQ {
        2
    } else if primary == TYPE_BSQ && subtype == SUBTYPE_BST {
        4
    } else if primary == TYPE_BSQ {
        3
    } else {
        2
    }
}

/// The number of words of the ADR instruction at `ops[i]`.
pub fn adr_step(ops: &[u32], i: usize) -> (r: usize)
    requires
        i < ops@.len(),
    ensures
        r == adr_width(ops@[i as int]),
{
    let op = ops[i];
    let primary = op & DDS_OP_TYPE_MASK_CONST;
    let subtype = op & DDS_OP_SUBTYPE_MASK_CONST;
    if primary == TYPE_BST {
        3
    } else if primary == TYPE_SEQ && subtype == SUBTYPE_BST {
        3
    } else if primary == TYPE_SEQ {
        2
    } else if primary == TYPE_BSQ && subtype == SUBTYPE_BST {
        4
    } else if primary == TYPE_BSQ {
        3
    } else {
        2
    }
}

/// `u32::saturating_add`.
pub open spec fn sat_add_u32(a: u32, b: u32) -> u32 {
    if a + b > u32::MAX {
        u32::MAX
    } else {
        (a + b) as u32
    }
}

/// Whether `op` is an ADR instruction.
pub open spec fn is_adr(op: u32) -> bool {
    op & DDS_OP_MASK_CONST == OP_ADR
}

/// The op stream after every ADR instruction from position `i` on has had
/// `base` added (saturating) to its offset word; the scan steps over each
/// ADR instruction by its width and over every other word by one, and
/// stops at an ADR that has no offset word.
pub open spec fn rebased_from(ops: Seq<u32>, base: u32, i: nat) -> Seq<u32>
    decreases (if i <= ops.len() { ops.len() - i } else { 0 }),
{
    if i >= ops.len() {
        ops
    } else if !is_adr(ops[i as int]) {
        rebased_from(ops, base, i + 1)
    } else if i + 1 >= ops.len() {
        ops
    } else {
        proof {
            assert(ops.update(i + 1int, sat_add_u32(ops[i + 1int], base)).len() == ops.len());
        }
        rebased_from(
            ops.update(i + 1int, sat_add_u32(ops[i + 1int], base)),
            base,
            i + adr_width(ops[i as int]),
        )
    }
}

/// Shifts the offsets of all ADR instructions of a member op stream by
/// `base_offset`, so that the stream can be nested in a larger struct.
pub fn rebase_ops(ops: Vec<u32>, base_offset: u32) -> (r: Vec<u32>)
    ensures
        r@ == rebased_from(ops@, base_offset, 0),
{
    let mut ops = ops;
    let ghost orig = ops@;
    let mut i: usize = 0;
    while i < ops.len()
        invariant_except_break
            ops@.len() == orig.len(),
            rebased_from(ops@, base_offset, i as nat) == rebased_from(orig, base_offset, 0),
        ensures
            ops@ == rebased_from(orig, base_offset, 0),
        decreases ops@.len() - i,
    {
        let op = ops[i];
        if (op & DDS_OP_MASK_CONST) != OP_ADR {
            i += 1;
            continue;
        }
        if i + 1 >= ops.len() {
            break;
        }
        let w = adr_step(ops.as_slice(), i);
        let shifted = ops[i + 1].saturating_add(base_offset);
        let ghost before = ops@;
        ops.set(i + 1, shifted);
        assert(ops@ == before.update(i + 1int, sat_add_u32(before[i + 1int], base_offset)));
        if w >= ops.len() - i {
            assert(rebased_from(ops@, base_offset, (i + w) as nat) == ops@);
            break;
        }
        i += w;
    }
    ops
}


// ---------------------------------------------------------------------------
// Unions
// ---------------------------------------------------------------------------

/// One arm of a union as the serializer reads it: the member's typecode
/// (with its flags), the case label, the member's offset, and the trailing
/// word (0 for a primitive member, the largest literal for an enum).
#[derive(Debug, Clone, Copy, PartialEq, Eq, Structural)]
pub struct UnionCaseOp {
    pub member_type: u32,
    pub label: u32,
    pub offset: u32,
    pub extra: u32,
}

/// The op stream of a union member: a four-word header
/// `ADR | UNI | discriminator type`, the discriminator's offset, the number
/// of cases, and the jump word (distance to the next member in the high
/// half, 4 to the first case in the low half); then one four-word `JEQ4`
/// entry per case; then `RTS`.
pub fn union_ops(discriminator_type: u32, discriminator_offset: u32, cases: &Vec<UnionCaseOp>) -> (r: Vec<u32>)
    requires
        4 + 4 * cases@.len() <= 0xffff,
    ensures
        r@.len() == 5 + 4 * cases@.len(),
        r@[0] == OP_ADR | TYPE_UNI | discriminator_type,
        r@[1] == discriminator_offset,
        r@[2] == cases@.len(),
        r@[3] == (4 + 4 * cases@.len()) * 0x10000 + 4,
        forall|i: int|
            #![trigger cases@[i]]
            0 <= i < cases@.len() ==> {
                &&& r@[4 + 4 * i] == OP_JEQ4 | cases@[i].member_type
                &&& r@[5 + 4 * i] == cases@[i].label
                &&& r@[6 + 4 * i] == cases@[i].offset
                &&& r@[7 + 4 * i] == cases@[i].extra
            },
        r@[4 + 4 * cases@.len() as int] == OP_RTS,
{
    let n = cases.len();
    let width: u32 = 4 + 4 * (n as u32);
    let mut r: Vec<u32> = Vec::new();
    r.push(OP_ADR | TYPE_UNI | discriminator_type);
    r.push(discriminator_offset);
    r.push(n as u32);
    r.push(width * 0x10000 + 4);
    let mut i: usize = 0;
    while i < n
        invariant
            n == cases@.len(),
            0 <= i <= n,
            r@.len() == 4 + 4 * i,
            r@[0] == OP_ADR | TYPE_UNI | discriminator_type,
            r@[1] == discriminator_offset,
            r@[2] == n,
            r@[3] == (4 + 4 * n) * 0x10000 + 4,
            forall|j: int|
                #![trigger cases@[j]]
                0 <= j < i ==> {
                    &&& r@[4 + 4 * j] == OP_JEQ4 | cases@[j].member_type
                    &&& r@[5 + 4 * j] == cases@[j].label
                    &&& r@[6 + 4 * j] == cases@[j].offset
                    &&& r@[7 + 4 * j] == cases@[j].extra
                },
        decreases n - i,
    {
        let c = cases[i];
        r.push(OP_JEQ4 | c.member_type);
        r.push(c.label);
        r.push(c.offset);
        r.push(c.extra);
        i += 1;
    }
    r.push(OP_RTS);
    r
}

// ---------------------------------------------------------------------------
// Topic descriptors
// ---------------------------------------------------------------------------

/// A key member of a keyed topic: its name, and the indices of the ADR
/// instructions on the path to it (one index for a flat key).
#[derive(Debug)]
pub struct KeyDescriptor {
    pub name: String,
    pub ops_path: Vec<u32>,
}

/// Whether some key's name holds a zero byte.
pub open spec fn some_key_name_has_nul(keys: Seq<KeyDescriptor>) -> bool {
    exists|i: int| 0 <= i < keys.len() && text_has_nul(#[trigger] keys[i].name@)
}

/// Checks that the names a topic descriptor hands to DDS can be C strings:
/// the type name, then the topic name, then each key name; the first that
/// holds a zero byte is refused with `BadParameter`.
pub fn check_descriptor_names(type_label: &str, topic_name: &str, keys: &Vec<KeyDescriptor>) -> (r: DdsResult<()>)
    ensures
        text_has_nul(type_label@) ==> (r matches Err(DdsError::BadParameter(m))
            && m@ == "type name contains null"@),
        !text_has_nul(type_label@) && text_has_nul(topic_name@) ==> (r matches Err(
            DdsError::BadParameter(m),
        ) && m@ == "topic name contains null"@),
        !text_has_nul(type_label@) && !text_has_nul(topic_name@) && some_key_name_has_nul(keys@)
            ==> (r matches Err(DdsError::BadParameter(m)) && m@ == "key name contains null"@),
        !text_has_nul(type_label@) && !text_has_nul(topic_name@) && !some_key_name_has_nul(keys@)
            ==> r is Ok,
{
    if has_nul(type_label) {
        return Err(DdsError::BadParameter("type name contains null".to_owned()));
    }
    if has_nul(topic_name) {
        return Err(DdsError::BadParameter("topic name contains null".to_owned()));
    }
    let mut i: usize = 0;
    while i < keys.len()
        invariant
            0 <= i <= keys@.len(),
            !text_has_nul(type_label@),
            !text_has_nul(topic_name@),
            forall|j: int| 0 <= j < i ==> !text_has_nul(#[trigger] keys@[j].name@),
        decreases keys@.len() - i,
    {
        if has_nul(keys[i].name.as_str()) {
            assert(text_has_nul(keys@[i as int].name@));
            return Err(DdsError::BadParameter("key name contains null".to_owned()));
        }
        i += 1;
    }
    Ok(())
}

/// The member ops, terminated by `RTS` (added only where the stream does not
/// already end with one).
pub open spec fn terminated(ops: Seq<u32>) -> Seq<u32> {
    if ops.len() > 0 && ops.last() == OP_RTS {
        ops
    } else {
        ops.push(OP_RTS)
    }
}

/// The key section of a descriptor: for each key, `KOF | n` followed by the
/// `n` indices of its path.
pub open spec fn key_section(paths: Seq<Seq<u32>>) -> Seq<u32>
    decreases paths.len(),
{
    if paths.len() == 0 {
        Seq::empty()
    } else {
        key_section(paths.drop_last()) + seq![OP_KOF | (paths.last().len() as u32)]
            + paths.last()
    }
}

/// The paths of a list of key descriptors.
pub open spec fn key_paths(keys: Seq<KeyDescriptor>) -> Seq<Seq<u32>> {
    keys.map_values(|k: KeyDescriptor| k.ops_path@)
}

/// The op stream of a topic descriptor, and the position of each key's
/// `KOF` entry in it.
///
/// The stream is the member ops terminated by `RTS`, then the key section,
/// then the ops that follow the keys.
pub fn descriptor_ops(ops: Vec<u32>, keys: &Vec<KeyDescriptor>, post_key_ops: Vec<u32>) -> (r: (
    Vec<u32>,
    Vec<u32>,
))
    requires
        terminated(ops@).len() + key_section(key_paths(keys@)).len() + post_key_ops@.len()
            <= u32::MAX,
    ensures
        r.0@ == terminated(ops@) + key_section(key_paths(keys@)) + post_key_ops@,
        r.1@.len() == keys@.len(),
        forall|i: int|
            0 <= i < keys@.len() ==> #[trigger] r.1@[i] == terminated(ops@).len() + key_section(
                key_paths(keys@).take(i),
            ).len(),
{
    let mut out = ops;
    let ghost orig = out@;
    let last_is_rts = out.len() > 0 && out[out.len() - 1] == OP_RTS;
    if !last_is_rts {
        out.push(OP_RTS);
    }
    assert(out@ == terminated(orig));
    let ghost paths = key_paths(keys@);
    proof {
        lemma_key_section_prefix_len(paths, keys@.len() as int);
        assert(paths.take(keys@.len() as int) =~= paths);
    }
    let mut offsets: Vec<u32> = Vec::new();
    let mut i: usize = 0;
    while i < keys.len()
        invariant
            0 <= i <= keys@.len(),
            paths == key_paths(keys@),
            out@ == terminated(orig) + key_section(paths.take(i as int)),
            terminated(orig).len() + key_section(paths).len() + post_key_ops@.len() <= u32::MAX,
            forall|j: int| 0 <= j <= keys@.len() ==> #[trigger] key_section(paths.take(j)).len()
                <= key_section(paths).len(),
            offsets@.len() == i,
            forall|j: int|
                0 <= j < i ==> #[trigger] offsets@[j] == terminated(orig).len() + key_section(
                    paths.take(j),
                ).len(),
        decreases keys@.len() - i,
    {
        let path = &keys[i].ops_path;
        assert(paths.take(i as int + 1).drop_last() =~= paths.take(i as int));
        assert(paths.take(i as int + 1).last() == path@);
        assert(key_section(paths.take(i as int + 1)).len() <= key_section(paths).len());
        let offset = out.len() as u32;
        offsets.push(offset);
        out.push(OP_KOF | (path.len() as u32));
        let mut k: usize = 0;
        while k < path.len()
            invariant
                0 <= k <= path@.len(),
                out@ == terminated(orig) + key_section(paths.take(i as int)) + seq![
                    OP_KOF | (path@.len() as u32),
                ] + path@.take(k as int),
            decreases path@.len() - k,
        {
            out.push(path[k]);
            k += 1;
            assert(path@.take(k as int) =~= path@.take(k as int - 1).push(path@[k as int - 1]));
        }
        assert(path@.take(path@.len() as int) =~= path@);
        i += 1;
        assert(out@ =~= terminated(orig) + key_section(paths.take(i as int)));
    }
    assert(paths.take(keys@.len() as int) =~= paths);
    let mut p: usize = 0;
    let ghost mid = out@;
    while p < post_key_ops.len()
        invariant
            0 <= p <= post_key_ops@.len(),
            out@ == mid + post_key_ops@.take(p as int),
        decreases post_key_ops@.len() - p,
    {
        out.push(post_key_ops[p]);
        p += 1;
        assert(post_key_ops@.take(p as int) =~= post_key_ops@.take(p as int - 1).push(
            post_key_ops@[p as int - 1],
        ));
    }
    assert(post_key_ops@.take(post_key_ops@.len() as int) =~= post_key_ops@);
    (out, offsets)
}

/// The key section of a prefix of the paths is no longer than the whole.
proof fn lemma_key_section_prefix_len(paths: Seq<Seq<u32>>, n: int)
    requires
        0 <= n <= paths.len(),
    ensures
        forall|j: int| 0 <= j <= n ==> #[trigger] key_section(paths.take(j)).len()
            <= key_section(paths.take(n)).len(),
    decreases n,
{
    if n > 0 {
        lemma_key_section_prefix_len(paths, n - 1);
        assert(paths.take(n).drop_last() =~= paths.take(n - 1));
    }
}


// ---------------------------------------------------------------------------
// Topic types
// ---------------------------------------------------------------------------

/// What a DDS topic type provides to build its descriptor: its name, its
/// member op stream, its keys and the ops that follow them.
pub trait DdsType: Sized {
    fn dds_type_name() -> &'static str;

    fn ops() -> Vec<u32>;

    fn key_count() -> (r: usize)
        default_ensures
            r == 0,
    {
        0
    }

    fn keys() -> (r: Vec<KeyDescriptor>)
        default_ensures
            r@.len() == 0,
    {
        Vec::new()
    }

    fn flagset() -> (r: u32)
        default_ensures
            r == 0,
    {
        0
    }

    fn post_key_ops() -> (r: Vec<u32>)
        default_ensures
            r@.len() == 0,
    {
        Vec::new()
    }
}

/// An enum member type: its largest discriminant, and the size flags of its
/// ADR instruction (four bytes unless the type says otherwise).
pub trait DdsEnumType: Sized + Copy {
    fn max_discriminant() -> u32;

    fn enum_op_flags() -> (r: u32)
        default_ensures
            r == 2u32 << OP_FLAG_SZ_SHIFT,
    {
        2u32 << OP_FLAG_SZ_SHIFT
    }
}

/// A union member type: its discriminator type, its number of cases, and
/// whether it has a default case.
pub trait DdsUnionType: Sized {
    fn discriminant_type() -> DiscriminantType;

    fn case_count() -> u32;

    fn has_default() -> bool;
}

/// The type of a union discriminator.
#[derive(Debug, Clone, Copy, PartialEq, Eq, Structural)]
pub enum DiscriminantType {
    Bool,
    U8,
    I8,
    U16,
    I16,
    U32,
    I32,
    U64,
    I64,
}


// ---------------------------------------------------------------------------
// Laws
// ---------------------------------------------------------------------------

proof fn lemma_rebase_zero_from(ops: Seq<u32>, i: nat)
    ensures
        rebased_from(ops, 0, i) == ops,
    decreases (if i <= ops.len() { ops.len() - i } else { 0 }),
{
    if i < ops.len() {
        if !is_adr(ops[i as int]) {
            lemma_rebase_zero_from(ops, i + 1);
        } else if i + 1 < ops.len() {
            assert(ops.update(i + 1int, sat_add_u32(ops[i + 1int], 0)) =~= ops);
            lemma_rebase_zero_from(ops, i + adr_width(ops[i as int]));
        }
    }
}

/// Rebasing by zero leaves a member op stream as it is.
pub proof fn law_rebase_by_zero_is_identity(ops: Seq<u32>)
    ensures
        rebased_from(ops, 0, 0) == ops,
{
    lemma_rebase_zero_from(ops, 0);
}

/// Rebasing never changes the length of an op stream.
pub proof fn law_rebase_keeps_length(ops: Seq<u32>, base: u32, i: nat)
    ensures
        rebased_from(ops, base, i).len() == ops.len(),
    decreases (if i <= ops.len() { ops.len() - i } else { 0 }),
{
    if i < ops.len() {
        if !is_adr(ops[i as int]) {
            law_rebase_keeps_length(ops, base, i + 1);
        } else if i + 1 < ops.len() {
            law_rebase_keeps_length(
                ops.update(i + 1int, sat_add_u32(ops[i + 1int], base)),
                base,
                i + adr_width(ops[i as int]),
            );
        }
    }
}

/// Rebasing from position `j` leaves the words up to `j` as they were.
proof fn lemma_rebase_keeps_prefix(ops: Seq<u32>, base: u32, j: nat, k: int)
    requires
        0 <= k <= j,
        k < ops.len(),
    ensures
        rebased_from(ops, base, j)[k] == ops[k],
    decreases (if j <= ops.len() { ops.len() - j } else { 0 }),
{
    if j < ops.len() {
        if !is_adr(ops[j as int]) {
            lemma_rebase_keeps_prefix(ops, base, j + 1, k);
        } else if j + 1 < ops.len() {
            let next = ops.update(j + 1int, sat_add_u32(ops[j + 1int], base));
            lemma_rebase_keeps_prefix(next, base, j + adr_width(ops[j as int]), k);
        }
    }
}

/// Changing a word before position `j` commutes with rebasing from `j`.
proof fn lemma_rebase_update_before(ops: Seq<u32>, base: u32, j: nat, k: int, v: u32)
    requires
        0 <= k < j,
        k < ops.len(),
    ensures
        rebased_from(ops.update(k, v), base, j) == rebased_from(ops, base, j).update(k, v),
    decreases (if j <= ops.len() { ops.len() - j } else { 0 }),
{
    let u = ops.update(k, v);
    if j >= ops.len() {
    } else if !is_adr(ops[j as int]) {
        assert(u[j as int] == ops[j as int]);
        lemma_rebase_update_before(ops, base, j + 1, k, v);
    } else if j + 1 >= ops.len() {
    } else {
        assert(u[j as int] == ops[j as int]);
        assert(u[j + 1int] == ops[j + 1int]);
        let next = ops.update(j + 1int, sat_add_u32(ops[j + 1int], base));
        assert(u.update(j + 1int, sat_add_u32(u[j + 1int], base)) =~= next.update(k, v));
        lemma_rebase_update_before(next, base, j + adr_width(ops[j as int]), k, v);
    }
}

/// Rebasing by `a` and then by `b` is rebasing once by their (saturating)
/// sum: nesting a nested member stream again places it at the sum of the
/// offsets.
pub proof fn law_rebase_composes(ops: Seq<u32>, a: u32, b: u32, i: nat)
    ensures
        rebased_from(rebased_from(ops, a, i), b, i) == rebased_from(ops, sat_add_u32(a, b), i),
    decreases (if i <= ops.len() { ops.len() - i } else { 0 }),
{
    let ab = sat_add_u32(a, b);
    if i >= ops.len() {
    } else if !is_adr(ops[i as int]) {
        let r = rebased_from(ops, a, i + 1);
        law_rebase_keeps_length(ops, a, i + 1);
        lemma_rebase_keeps_prefix(ops, a, i + 1, i as int);
        law_rebase_composes(ops, a, b, i + 1);
    } else if i + 1 >= ops.len() {
    } else {
        let w = adr_width(ops[i as int]);
        let x = ops[i + 1int];
        let next_a = ops.update(i + 1int, sat_add_u32(x, a));
        let r = rebased_from(next_a, a, i + w);
        law_rebase_keeps_length(next_a, a, i + w);
        lemma_rebase_keeps_prefix(next_a, a, i + w, i as int);
        lemma_rebase_keeps_prefix(next_a, a, i + w, i + 1int);
        let v = sat_add_u32(sat_add_u32(x, a), b);
        assert(v == sat_add_u32(x, ab));
        lemma_rebase_update_before(next_a, a, i + w, i + 1int, v);
        assert(next_a.update(i + 1int, v) =~= ops.update(i + 1int, v));
        law_rebase_composes(ops.update(i + 1int, v), a, b, i + w);
        lemma_rebase_update_before(ops.update(i + 1int, v), a, i + w, i + 1int, v);
    }
}


/// Rebasing from position `w + j` leaves the first `w` words and rebases
/// the rest as a stream of its own from `j`.
proof fn lemma_rebase_suffix(ops: Seq<u32>, base: u32, w: nat, j: nat)
    requires
        w <= ops.len(),
    ensures
        rebased_from(ops, base, w + j) == ops.take(w as int) + rebased_from(ops.skip(w as int), base, j),
    decreases (if w + j <= ops.len() { ops.len() - (w + j) } else { 0 }),
{
    let rest = ops.skip(w as int);
    if w + j >= ops.len() {
        assert(ops =~= ops.take(w as int) + rest);
    } else {
        assert(rest[j as int] == ops[(w + j) as int]);
        if !is_adr(ops[(w + j) as int]) {
            lemma_rebase_suffix(ops, base, w, j + 1);
            assert(w + (j + 1) == (w + j) + 1);
        } else if w + j + 1 >= ops.len() {
            assert(ops =~= ops.take(w as int) + rest);
        } else {
            let k = (w + j + 1) as int;
            let next = ops.update(k, sat_add_u32(ops[k], base));
            assert(rest[j + 1int] == ops[k]);
            assert(next.take(w as int) =~= ops.take(w as int));
            assert(next.skip(w as int) =~= rest.update(j + 1int, sat_add_u32(rest[j + 1int], base)));
            let aw = adr_width(ops[(w + j) as int]);
            lemma_rebase_suffix(next, base, w, j + aw);
            assert(w + (j + aw) == (w + j) + aw);
        }
    }
}

/// A member op stream is rebased instruction by instruction: a word that
/// is not an ADR instruction is kept, and an ADR instruction, whatever its
/// flags, keeps its opcode word and its words after the offset and has
/// `base` added to its offset word, saturating at `u32::MAX`; the rest of
/// the stream is then rebased in the same way.
pub proof fn law_rebase_by_instruction(ops: Seq<u32>, base: u32)
    requires
        ops.len() > 0,
    ensures
        !is_adr(ops[0]) ==> rebased_from(ops, base, 0) == seq![ops[0]] + rebased_from(ops.skip(1), base, 0),
        is_adr(ops[0]) && ops.len() == 1 ==> rebased_from(ops, base, 0) == ops,
        is_adr(ops[0]) && 2 <= adr_width(ops[0]) <= ops.len() ==> rebased_from(ops, base, 0) == ops.take(
            adr_width(ops[0]) as int,
        ).update(1, if ops[1] + base > u32::MAX { u32::MAX } else { (ops[1] + base) as u32 }) + rebased_from(
            ops.skip(adr_width(ops[0]) as int),
            base,
            0,
        ),
{
    if !is_adr(ops[0]) {
        lemma_rebase_suffix(ops, base, 1, 0);
        assert(ops.take(1) =~= seq![ops[0]]);
    } else if ops.len() >= 2 && 2 <= adr_width(ops[0]) <= ops.len() {
        let w = adr_width(ops[0]);
        let next = ops.update(1, sat_add_u32(ops[1], base));
        lemma_rebase_suffix(next, base, w, 0);
        assert(next.take(w as int) =~= ops.take(w as int).update(1, sat_add_u32(ops[1], base)));
        assert(next.skip(w as int) =~= ops.skip(w as int));
    }
}


/// The member ops end with `RTS` once terminated, and are kept in front.
pub proof fn law_terminated_ends_with_rts(ops: Seq<u32>)
    ensures
        terminated(ops).len() > 0,
        terminated(ops).last() == OP_RTS,
        terminated(ops).take(ops.len() as int) == ops,
        terminated(ops).len() <= ops.len() + 1,
        ops.len() > 0 && ops.last() == OP_RTS ==> terminated(ops) == ops,
{
    assert(ops.push(OP_RTS).take(ops.len() as int) =~= ops);
    assert(ops.take(ops.len() as int) =~= ops);
}

/// The key section of the first `n` paths is the start of the key section
/// of all of them.
proof fn lemma_key_section_prefix(paths: Seq<Seq<u32>>, n: int)
    requires
        0 <= n <= paths.len(),
    ensures
        key_section(paths.take(n)).len() <= key_section(paths).len(),
        key_section(paths).take(key_section(paths.take(n)).len() as int) == key_section(paths.take(n)),
    decreases paths.len(),
{
    if n == paths.len() {
        assert(paths.take(n) =~= paths);
        assert(key_section(paths).take(key_section(paths).len() as int) =~= key_section(paths));
    } else {
        let d = paths.drop_last();
        assert(paths.take(n) =~= d.take(n));
        lemma_key_section_prefix(d, n);
        let a = key_section(d);
        let whole = key_section(paths);
        let m = key_section(paths.take(n)).len() as int;
        assert(whole == a + seq![OP_KOF | (paths.last().len() as u32)] + paths.last());
        assert(whole.take(m) =~= a.take(m));
    }
}

/// In the key section, the entry of key `i` stands after those of the keys
/// before it: `KOF | n`, then the `n` indices of its path.
pub proof fn law_key_section_entries(paths: Seq<Seq<u32>>, i: int)
    requires
        0 <= i < paths.len(),
    ensures
        ({
            let ks = key_section(paths);
            let at = key_section(paths.take(i)).len() as int;
            &&& at + 1 + paths[i].len() <= ks.len()
            &&& ks[at] == OP_KOF | (paths[i].len() as u32)
            &&& forall|j: int| 0 <= j < paths[i].len() ==> ks[at + 1 + j] == #[trigger] paths[i][j]
        }),
{
    lemma_key_section_prefix(paths, i + 1);
    let t = paths.take(i + 1);
    assert(t.drop_last() =~= paths.take(i));
    assert(t.last() == paths[i]);
    let ks = key_section(paths);
    let kt = key_section(t);
    let at = key_section(paths.take(i)).len() as int;
    assert(kt == key_section(paths.take(i)) + seq![OP_KOF | (paths[i].len() as u32)] + paths[i]);
    assert(kt.len() == at + 1 + paths[i].len());
    assert forall|j: int| 0 <= j < paths[i].len() implies ks[at + 1 + j] == #[trigger] paths[i][j] by {
        assert(ks.take(kt.len() as int)[at + 1 + j] == kt[at + 1 + j]);
    }
    assert(ks.take(kt.len() as int)[at] == kt[at]);
}

} // verus!
