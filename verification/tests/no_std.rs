use cyclonedds::no_std_types::{adr, adr_bst, adr_key, rebase_ops, DiscriminantType, OP_ADR, OP_FLAG_KEY, TYPE_4BY, TYPE_BST};

#[test]
fn no_std_adr_puts_the_offset_in_its_own_word() {
    // The f32 member at byte offset 4 of a `{ i32, f32 }` struct.
    assert_eq!(adr(TYPE_4BY, 4), [OP_ADR | TYPE_4BY, 4]);
    assert_eq!(adr(TYPE_4BY, 0x0001_0002), [OP_ADR | TYPE_4BY, 0x0001_0002]);
    assert_eq!(adr_key(TYPE_4BY, 8), [OP_ADR | TYPE_4BY | OP_FLAG_KEY, 8]);
    assert_eq!(adr_bst(8, 5), [OP_ADR | TYPE_BST, 8, 5]);
}

#[test]
fn no_std_rebase_replaces_low_halves() {
    let mut ops = [0xabcd_1234u32, 0x0000_ffff];
    rebase_ops(&mut ops, &[0x0001_0005, 7]);
    assert_eq!(ops, [0xabcd_0005, 0x0000_0007]);
}

#[test]
fn discriminant_type_names() {
    assert_eq!(DiscriminantType::U8.to_string(), "u8");
    assert_eq!(DiscriminantType::U16.to_string(), "u16");
    assert_eq!(DiscriminantType::U32.to_string(), "u32");
}
