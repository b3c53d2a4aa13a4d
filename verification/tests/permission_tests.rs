use mysql_user_crud::permission::{
    atomic_permission_list, count_ones, permission_list, Permission, ALL, NONE, READ,
    READ_ARTICLE, READ_WRITE_ARTICLE, WRITE_ARTICLE, WRITE_MESSAGE,
};

#[test]
fn from_bits_keeps_every_bit() {
    assert_eq!(Permission::from_bits(0).bits(), 0);
    assert_eq!(Permission::from_bits(1 << 40).bits(), 1 << 40);
    assert_eq!(Permission::from_bits(u64::MAX).bits(), u64::MAX);
}

#[test]
fn constants_have_their_bits() {
    assert_eq!(NONE, 0);
    assert_eq!(READ_ARTICLE, 1 << 0);
    assert_eq!(WRITE_ARTICLE, 1 << 1);
    assert_eq!(READ_WRITE_ARTICLE, READ_ARTICLE | WRITE_ARTICLE);
    assert_eq!(WRITE_MESSAGE, 1 << 15);
    assert_eq!(READ, 0x5555);
    assert_eq!(ALL, !0u64);
}

#[test]
fn has_is_containment() {
    let mask = Permission::from_bits(READ_ARTICLE);
    assert!(mask.has(Permission::from_bits(READ_ARTICLE)));
    assert!(!mask.has(Permission::from_bits(READ_WRITE_ARTICLE)));
    assert!(mask.has(Permission::from_bits(NONE)));
    assert!(Permission::from_bits(ALL).has(Permission::from_bits(READ)));
}

#[test]
fn intersects_is_any_of() {
    let mask = Permission::from_bits(READ_ARTICLE);
    assert!(mask.intersects(Permission::from_bits(READ_WRITE_ARTICLE)));
    assert!(!mask.intersects(Permission::from_bits(WRITE_ARTICLE)));
    assert!(!mask.intersects(Permission::from_bits(NONE)));
}

#[test]
fn intersects_is_symmetric_on_samples() {
    let samples = [0u64, 1, 2, 3, 0x5555, 0xc000, u64::MAX, 1 << 63];
    for a in samples {
        for b in samples {
            let x = Permission::from_bits(a);
            let y = Permission::from_bits(b);
            assert_eq!(x.intersects(y), y.intersects(x));
            assert_eq!(x.intersects(y), a & b != 0);
            assert_eq!(x.has(y), a & b == b);
            if b.count_ones() == 1 {
                assert_eq!(x.intersects(y), x.has(y));
            }
        }
    }
}

#[test]
fn count_ones_agrees_with_std() {
    for bits in [0u64, 1, 2, 3, 0x5555, 0xffff, u64::MAX, 1 << 63, 0xdead_beef] {
        assert_eq!(count_ones(bits), bits.count_ones());
    }
}

#[test]
fn atomic_names_of_all_are_the_sixteen_single_flags() {
    let names = Permission::from_bits(ALL).atomic_names();
    let expected = vec![
        "READ_ARTICLE",
        "WRITE_ARTICLE",
        "READ_COMMENT",
        "WRITE_COMMENT",
        "READ_USER",
        "WRITE_USER",
        "READ_SYSTEM",
        "WRITE_SYSTEM",
        "READ_FILE",
        "WRITE_FILE",
        "READ_TAG",
        "WRITE_TAG",
        "READ_CATEGORY",
        "WRITE_CATEGORY",
        "READ_MESSAGE",
        "WRITE_MESSAGE",
    ];
    assert_eq!(names, expected);
    assert_eq!(names.len(), 16);
    assert!(!names.iter().any(|n| n == "ALL" || n == "READ" || n.starts_with("READ_WRITE")));
}

#[test]
fn atomic_names_of_a_mask() {
    assert_eq!(Permission::from_bits(0).atomic_names(), Vec::<String>::new());
    assert_eq!(
        Permission::from_bits(READ_WRITE_ARTICLE).atomic_names(),
        vec!["READ_ARTICLE".to_string(), "WRITE_ARTICLE".to_string()]
    );
    assert_eq!(
        Permission::from_bits(1 << 40 | WRITE_MESSAGE).atomic_names(),
        vec!["WRITE_MESSAGE".to_string()]
    );
}

#[test]
fn registry_lists_every_flag() {
    let list = permission_list();
    assert_eq!(list.len(), 26);
    assert_eq!(list[0].name, "READ_ARTICLE");
    assert_eq!(list[0].description, "读取文章权限");
    assert_eq!(list[0].flag.bits(), 1);
    assert_eq!(list[25].name, "ALL");
    assert_eq!(list[25].flag.bits(), u64::MAX);
}

#[test]
fn atomic_registry_has_no_union() {
    let list = atomic_permission_list();
    assert_eq!(list.len(), 16);
    for entry in &list {
        assert_eq!(entry.flag.bits().count_ones(), 1);
        assert!(entry.flag.is_atomic());
    }
    let union = list.iter().fold(0u64, |acc, e| acc | e.flag.bits());
    assert_eq!(union.count_ones() as usize, list.len());
}

#[test]
fn lookup_by_name() {
    assert_eq!(Permission::from_name("WRITE_ARTICLE"), Some(Permission::from_bits(2)));
    assert_eq!(Permission::from_name("ALL"), Some(Permission::from_bits(u64::MAX)));
    assert_eq!(Permission::from_name("NONE"), None);
    assert_eq!(Permission::from_name("write_article"), None);
}
