use cyclonedds::topic::{union_ops, UnionCaseOp};
use cyclonedds::{
    DDS_OP_MASK_CONST, DDS_OP_TYPE_MASK_CONST, OP_ADR, OP_FLAG_FP, OP_FLAG_SGN, OP_JEQ4, OP_RTS,
    SUBTYPE_4BY, TYPE_4BY, TYPE_8BY, TYPE_UNI,
};

/// The ops of a union switched on a `u32` with two arms: case 1 holds an
/// `i32`, case 2 an `f64`; the member sits after the discriminator.
fn choice_ops() -> Vec<u32> {
    let cases = vec![
        UnionCaseOp { member_type: TYPE_4BY | OP_FLAG_SGN, label: 1, offset: 8, extra: 0 },
        UnionCaseOp { member_type: TYPE_8BY | OP_FLAG_FP, label: 2, offset: 8, extra: 0 },
    ];
    union_ops(SUBTYPE_4BY, 0, &cases)
}

#[test]
fn union_ops_carry_the_member_type_and_offset() {
    let ops = choice_ops();

    assert!(ops.len() >= 4, "union ops too short: {ops:?}");
    assert_eq!(ops[0] & DDS_OP_MASK_CONST, OP_ADR, "first word is not an ADR: {ops:?}");
    assert_eq!(ops[0] & DDS_OP_TYPE_MASK_CONST, TYPE_UNI, "first word is not a union: {ops:?}");
    assert_eq!(ops[2], 2, "case count should be 2: {ops:?}");

    let first_case = (ops[3] & 0xFFFF) as usize;
    assert_eq!(first_case, 4, "first case should start at word 4: {ops:?}");

    let jeq4_i32 = ops[first_case];
    assert_eq!(
        jeq4_i32 & DDS_OP_MASK_CONST,
        OP_JEQ4,
        "expected a JEQ4 at word {first_case}: {ops:?}"
    );
    assert_ne!(
        jeq4_i32 & DDS_OP_TYPE_MASK_CONST,
        0,
        "the JEQ4 opcode carries no member type, so the case cannot be read: {ops:?}"
    );
    assert_eq!(ops[first_case + 1], 1, "case value: {ops:?}");

    let jeq4_f64 = ops[first_case + 4];
    assert_eq!(
        jeq4_f64 & DDS_OP_MASK_CONST,
        OP_JEQ4,
        "the second JEQ4 is not four words after the first: {ops:?}"
    );
    assert_eq!(ops[first_case + 5], 2, "case value: {ops:?}");

    assert_eq!(ops[3] >> 16, 12, "header jump width: {ops:?}");
}

#[test]
fn union_ops_end_with_return() {
    let ops = choice_ops();
    assert_eq!(ops.len(), 13);
    assert_eq!(ops[12], OP_RTS);
    assert_eq!(ops[6], 8);
    assert_eq!(ops[10], 8);
}
