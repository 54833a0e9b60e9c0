use vstd::prelude::*;

verus! {

/// Record type number of a syscall event.
pub const AUDIT_SYSCALL: u32 = 1300;

/// Record type number of a path record.
pub const AUDIT_PATH: u32 = 1302;

/// Record type number of a current-working-directory record.
pub const AUDIT_CWD: u32 = 1307;

/// Record type number of a process title record.
pub const AUDIT_PROCTITLE: u32 = 1327;

/// Record type number of a system boot record.
pub const AUDIT_SYSTEM_BOOT: u32 = 1127;

/// The kind of an audit event, as far as this library tells them apart.
#[derive(Debug, PartialEq, Eq, Structural)]
pub enum Type {
    Unknown(u32),
    Syscall,
    Cwd,
    Path,
    Proctitle,
    SystemBoot,
}

/// Whether `v` is one of the record type numbers that have a variant of their own.
pub open spec fn is_known_code(v: u32) -> bool {
    v == AUDIT_SYSCALL || v == AUDIT_CWD || v == AUDIT_PATH || v == AUDIT_PROCTITLE
        || v == AUDIT_SYSTEM_BOOT
}

/// The type that a record type number stands for.
pub open spec fn type_of_code(v: u32) -> Type {
    if v == AUDIT_SYSCALL {
        Type::Syscall
    } else if v == AUDIT_CWD {
        Type::Cwd
    } else if v == AUDIT_PATH {
        Type::Path
    } else if v == AUDIT_PROCTITLE {
        Type::Proctitle
    } else if v == AUDIT_SYSTEM_BOOT {
        Type::SystemBoot
    } else {
        Type::Unknown(v)
    }
}

/// The record type number of a type.
pub open spec fn code_of_type(t: Type) -> u32 {
    match t {
        Type::Unknown(v) => v,
        Type::Syscall => AUDIT_SYSCALL,
        Type::Cwd => AUDIT_CWD,
        Type::Path => AUDIT_PATH,
        Type::Proctitle => AUDIT_PROCTITLE,
        Type::SystemBoot => AUDIT_SYSTEM_BOOT,
    }
}

/// A type is canonical when it is the one that its own number maps to:
/// every named variant is, and `Unknown(v)` is exactly when `v` has no variant of its own.
pub open spec fn is_canonical(t: Type) -> bool {
    match t {
        Type::Unknown(v) => !is_known_code(v),
        _ => true,
    }
}

impl From<u32> for Type {
    /// The variant named for `v`, or `Unknown(v)` carrying `v` itself when `v` has none.
    fn from(v: u32) -> (t: Self)
        ensures
            v == AUDIT_SYSCALL ==> t == Type::Syscall,
            v == AUDIT_CWD ==> t == Type::Cwd,
            v == AUDIT_PATH ==> t == Type::Path,
            v == AUDIT_PROCTITLE ==> t == Type::Proctitle,
            v == AUDIT_SYSTEM_BOOT ==> t == Type::SystemBoot,
            v != AUDIT_SYSCALL && v != AUDIT_CWD && v != AUDIT_PATH && v != AUDIT_PROCTITLE
                && v != AUDIT_SYSTEM_BOOT ==> t == Type::Unknown(v),
    {
        if v == AUDIT_SYSCALL {
            Type::Syscall
        } else if v == AUDIT_CWD {
            Type::Cwd
        } else if v == AUDIT_PATH {
            Type::Path
        } else if v == AUDIT_PROCTITLE {
            Type::Proctitle
        } else if v == AUDIT_SYSTEM_BOOT {
            Type::SystemBoot
        } else {
            Type::Unknown(v)
        }
    }
}

impl vstd::std_specs::convert::FromSpecImpl<u32> for Type {
    open spec fn obeys_from_spec() -> bool {
        true
    }

    open spec fn from_spec(v: u32) -> Self {
        type_of_code(v)
    }
}

impl From<Type> for u32 {
    /// The number of the named variant, or the number that `Unknown` carries.
    fn from(t: Type) -> (v: Self)
        ensures
            t matches Type::Unknown(n) ==> v == n,
            t is Syscall ==> v == AUDIT_SYSCALL,
            t is Cwd ==> v == AUDIT_CWD,
            t is Path ==> v == AUDIT_PATH,
            t is Proctitle ==> v == AUDIT_PROCTITLE,
            t is SystemBoot ==> v == AUDIT_SYSTEM_BOOT,
    {
        match t {
            Type::Unknown(v) => v,
            Type::Syscall => AUDIT_SYSCALL,
            Type::Cwd => AUDIT_CWD,
            Type::Path => AUDIT_PATH,
            Type::Proctitle => AUDIT_PROCTITLE,
            Type::SystemBoot => AUDIT_SYSTEM_BOOT,
        }
    }
}

impl vstd::std_specs::convert::FromSpecImpl<Type> for u32 {
    open spec fn obeys_from_spec() -> bool {
        true
    }

    open spec fn from_spec(t: Type) -> Self {
        code_of_type(t)
    }
}

/// A number without a variant of its own becomes `Unknown` of that very number; each named
/// number becomes its own variant.
pub proof fn lemma_type_of_code_payload(v: u32)
    ensures
        v != AUDIT_SYSCALL && v != AUDIT_CWD && v != AUDIT_PATH && v != AUDIT_PROCTITLE
            && v != AUDIT_SYSTEM_BOOT ==> type_of_code(v) == Type::Unknown(v),
        v == AUDIT_SYSCALL ==> type_of_code(v) == Type::Syscall,
        v == AUDIT_CWD ==> type_of_code(v) == Type::Cwd,
        v == AUDIT_PATH ==> type_of_code(v) == Type::Path,
        v == AUDIT_PROCTITLE ==> type_of_code(v) == Type::Proctitle,
        v == AUDIT_SYSTEM_BOOT ==> type_of_code(v) == Type::SystemBoot,
{
}

/// `Unknown(n)` gives back the number `n` it carries, whatever `n` is; each named variant gives
/// its own number.
pub proof fn lemma_code_of_type_payload(n: u32)
    ensures
        code_of_type(Type::Unknown(n)) == n,
        code_of_type(Type::Syscall) == AUDIT_SYSCALL,
        code_of_type(Type::Cwd) == AUDIT_CWD,
        code_of_type(Type::Path) == AUDIT_PATH,
        code_of_type(Type::Proctitle) == AUDIT_PROCTITLE,
        code_of_type(Type::SystemBoot) == AUDIT_SYSTEM_BOOT,
{
}

/// Mapping a record type number to its type and back gives the number again, for every number.
pub proof fn lemma_code_round_trip(v: u32)
    ensures
        code_of_type(type_of_code(v)) == v,
{
}

/// Mapping a canonical type to its number and back gives the type again.
pub proof fn lemma_type_round_trip(t: Type)
    requires
        is_canonical(t),
    ensures
        type_of_code(code_of_type(t)) == t,
{
}

/// Every number maps to a canonical type, and it maps to `Unknown` exactly when it has no
/// variant of its own.
pub proof fn lemma_type_of_code_canonical(v: u32)
    ensures
        is_canonical(type_of_code(v)),
        (type_of_code(v) is Unknown) <==> !is_known_code(v),
{
}

/// Two numbers map to the same type only when they are equal.
pub proof fn lemma_type_of_code_injective(v: u32, w: u32)
    requires
        type_of_code(v) == type_of_code(w),
    ensures
        v == w,
{
    lemma_code_round_trip(v);
    lemma_code_round_trip(w);
}

} // verus!
