use cyclonedds::topic::{adr_step, descriptor_ops};
use cyclonedds::{
    adr, adr_bst, adr_key, rebase_ops, KeyDescriptor, OP_ADR, OP_FLAG_KEY, OP_KOF, OP_RTS,
    SUBTYPE_BST, TYPE_4BY, TYPE_8BY, TYPE_BSQ, TYPE_BST, TYPE_SEQ,
};

#[test]
fn adr_helpers_build_member_words() {
    assert_eq!(adr(TYPE_4BY, 8), vec![OP_ADR | TYPE_4BY, 8]);
    assert_eq!(adr_key(TYPE_4BY, 0), vec![OP_ADR | OP_FLAG_KEY | TYPE_4BY, 0]);
    assert_eq!(adr_bst(16, 11), vec![OP_ADR | TYPE_BST, 16, 11]);
}

#[test]
fn rebase_shifts_only_adr_offsets() {
    let mut ops = adr(TYPE_4BY, 0);
    ops.extend(adr_bst(4, 9));
    ops.extend(adr(TYPE_SEQ | SUBTYPE_BST, 16));
    ops.push(12);
    ops.push(OP_RTS);
    let rebased = rebase_ops(ops, 100);
    assert_eq!(
        rebased,
        vec![
            OP_ADR | TYPE_4BY,
            100,
            OP_ADR | TYPE_BST,
            104,
            9,
            OP_ADR | TYPE_SEQ | SUBTYPE_BST,
            116,
            12,
            OP_RTS
        ]
    );
    // Offsets saturate.
    assert_eq!(rebase_ops(adr(TYPE_4BY, u32::MAX - 1), 5), vec![OP_ADR | TYPE_4BY, u32::MAX]);
    // An ADR without its offset word is left alone.
    assert_eq!(rebase_ops(vec![OP_ADR | TYPE_4BY], 5), vec![OP_ADR | TYPE_4BY]);
}

#[test]
fn adr_widths_follow_the_member_type() {
    assert_eq!(adr_step(&[OP_ADR | TYPE_4BY, 0], 0), 2);
    assert_eq!(adr_step(&[OP_ADR | TYPE_BST, 0, 5], 0), 3);
    assert_eq!(adr_step(&[OP_ADR | TYPE_SEQ, 0], 0), 2);
    assert_eq!(adr_step(&[OP_ADR | TYPE_SEQ | SUBTYPE_BST, 0, 5], 0), 3);
    assert_eq!(adr_step(&[OP_ADR | TYPE_BSQ, 0, 5], 0), 3);
    assert_eq!(adr_step(&[OP_ADR | TYPE_BSQ | SUBTYPE_BST, 0, 5, 6], 0), 4);
}

#[test]
fn descriptor_ops_append_return_and_keys() {
    let keys = vec![KeyDescriptor { name: "id".into(), ops_path: vec![0] }];
    let mut ops = adr_key(TYPE_4BY, 0);
    ops.extend(adr(TYPE_4BY, 4));
    let (full, offsets) = descriptor_ops(ops, &keys, vec![]);
    assert_eq!(
        full,
        vec![OP_ADR | OP_FLAG_KEY | TYPE_4BY, 0, OP_ADR | TYPE_4BY, 4, OP_RTS, OP_KOF | 1, 0]
    );
    assert_eq!(offsets, vec![5]);

    // A stream that already ends with RTS gets no second one.
    let (full, offsets) = descriptor_ops(vec![OP_ADR | TYPE_4BY, 0, OP_RTS], &Vec::new(), vec![7]);
    assert_eq!(full, vec![OP_ADR | TYPE_4BY, 0, OP_RTS, 7]);
    assert!(offsets.is_empty());
}

#[test]
fn rebasing_twice_is_rebasing_by_the_sum() {
    let mut ops = adr(TYPE_4BY, 0);
    ops.extend(adr_bst(4, 9));
    ops.extend(adr(TYPE_8BY, 16));
    let twice = rebase_ops(rebase_ops(ops.clone(), 4), 8);
    assert_eq!(twice, rebase_ops(ops.clone(), 12));
    assert_eq!(twice[1], 12);
    assert_eq!(twice[3], 16);
    assert_eq!(twice[4], 9);
    assert_eq!(twice[6], 28);
    // Offsets saturate rather than wrap.
    let high = rebase_ops(rebase_ops(ops.clone(), u32::MAX - 1), 5);
    assert_eq!(high, rebase_ops(ops, u32::MAX));
}
