use audit_userspace_rs::auparse::types::{
    Type, AUDIT_CWD, AUDIT_PATH, AUDIT_PROCTITLE, AUDIT_SYSCALL, AUDIT_SYSTEM_BOOT,
};

#[test]
fn known_codes_map_to_their_variants() {
    assert_eq!(Type::from(1300u32), Type::Syscall);
    assert_eq!(Type::from(1307u32), Type::Cwd);
    assert_eq!(Type::from(1302u32), Type::Path);
    assert_eq!(Type::from(1327u32), Type::Proctitle);
    assert_eq!(Type::from(1127u32), Type::SystemBoot);
}

#[test]
fn other_codes_map_to_unknown() {
    assert_eq!(Type::from(0u32), Type::Unknown(0));
    assert_eq!(Type::from(1128u32), Type::Unknown(1128));
    assert_eq!(Type::from(u32::MAX), Type::Unknown(u32::MAX));
}

#[test]
fn variants_map_to_their_codes() {
    assert_eq!(u32::from(Type::Syscall), AUDIT_SYSCALL);
    assert_eq!(u32::from(Type::Cwd), AUDIT_CWD);
    assert_eq!(u32::from(Type::Path), AUDIT_PATH);
    assert_eq!(u32::from(Type::Proctitle), AUDIT_PROCTITLE);
    assert_eq!(u32::from(Type::SystemBoot), AUDIT_SYSTEM_BOOT);
    assert_eq!(u32::from(Type::Unknown(42)), 42);
}

#[test]
fn code_round_trip_on_samples() {
    for v in [0u32, 1, 1127, 1128, 1300, 1301, 1302, 1307, 1327, 99999, u32::MAX] {
        assert_eq!(u32::from(Type::from(v)), v);
    }
}

#[test]
fn type_round_trip_on_canonical_types() {
    let types = vec![
        Type::Syscall,
        Type::Cwd,
        Type::Path,
        Type::Proctitle,
        Type::SystemBoot,
        Type::Unknown(7),
    ];
    for t in types {
        let again = Type::from(u32::from(match &t {
            Type::Unknown(v) => Type::Unknown(*v),
            Type::Syscall => Type::Syscall,
            Type::Cwd => Type::Cwd,
            Type::Path => Type::Path,
            Type::Proctitle => Type::Proctitle,
            Type::SystemBoot => Type::SystemBoot,
        }));
        assert_eq!(again, t);
    }
}

#[test]
fn non_canonical_unknown_does_not_round_trip() {
    assert_eq!(Type::from(u32::from(Type::Unknown(1300))), Type::Syscall);
}
