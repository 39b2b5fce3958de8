//! Typed capability range descriptors (CRDs) and their permission sets.
//!
//! A CRD packs `{kind, permissions, order, base}` into one `u64` exactly as
//! the kernel's wire format demands: bits `[0,2)` hold the kind tag, bits
//! `[2,7)` the permission bits, bits `[7,12)` the order, and bits `[12,64)`
//! the base. Each capability family gets its own permission type and its own
//! constructor, so permission bits of one family can never be read with the
//! vocabulary of another.

use core::marker::PhantomData;
use vstd::prelude::*;

verus! {

/// Generic capability selector. It indexes into the capability space of a
/// protection domain, similar to a file descriptor in UNIX.
pub type CapSel = u64;

/// Highest possible order of a CRD: the order field has exactly 5 bits.
pub const MAX_CRD_ORDER: u8 = 0x1f;

/// Highest possible base of a CRD: the base field has exactly 52 bits.
pub const MAX_CRD_BASE: u64 = 0x000f_ffff_ffff_ffff;

/// The kind tag stored in the two lowest bits of an encoded CRD.
pub open spec fn crd_kind_bits(w: u64) -> u64 {
    w & 0b11
}

/// The permission bits stored in bits `[2,7)` of an encoded CRD.
pub open spec fn crd_permission_bits(w: u64) -> u64 {
    (w & 0x7c) >> 2
}

/// The order stored in bits `[7,12)` of an encoded CRD.
pub open spec fn crd_order_bits(w: u64) -> u64 {
    (w & 0xf80) >> 7
}

/// The base stored in bits `[12,64)` of an encoded CRD.
pub open spec fn crd_base_bits(w: u64) -> u64 {
    (w & 0xffff_ffff_ffff_f000) >> 12
}

/// The encoded word a CRD with the given fields carries: each field is
/// shifted to its offset and masked to its width.
pub open spec fn crd_word(kind: u64, base: u64, order: u64, permissions: u64) -> u64
    recommends
        kind <= 0b11,
        base <= MAX_CRD_BASE,
        order <= MAX_CRD_ORDER,
        permissions <= 0x1f,
{
    (kind & 0b11) | ((permissions << 2) & 0x7c) | ((order << 7) & 0xf80) | ((base << 12)
        & 0xffff_ffff_ffff_f000)
}

/// Decoding an encoded CRD recovers every field exactly: the codec loses no
/// information on legal inputs.
pub proof fn lemma_crd_round_trip(kind: u64, base: u64, order: u64, permissions: u64)
    by (bit_vector)
    requires
        kind <= 0b11,
        base <= 0x000f_ffff_ffff_ffff,
        order <= 0x1f,
        permissions <= 0x1f,
    ensures
        crd_kind_bits(crd_word(kind, base, order, permissions)) == kind,
        crd_permission_bits(crd_word(kind, base, order, permissions)) == permissions,
        crd_order_bits(crd_word(kind, base, order, permissions)) == order,
        crd_base_bits(crd_word(kind, base, order, permissions)) == base,
{
}

/// Masking a byte with anything never exceeds the mask.
proof fn lemma_u8_and_le(a: u8, m: u8)
    by (bit_vector)
    ensures
        a & m <= m,
{
}

/// The union of two values confined to a mask is confined to it as well.
proof fn lemma_u8_or_preserves_mask(a: u8, b: u8, m: u8)
    by (bit_vector)
    requires
        a & m == a,
        b & m == b,
    ensures
        (a | b) & m == (a | b),
{
}

/// Zero is confined to every mask.
proof fn lemma_u8_zero_masked(m: u8)
    by (bit_vector)
    ensures
        0u8 & m == 0u8,
{
}

/// Each named flag value is confined to the mask of its permission family.
proof fn lemma_permission_flag_constants()
    by (bit_vector)
    ensures
        1u8 & 0b111u8 == 1u8,
        2u8 & 0b111u8 == 2u8,
        4u8 & 0b111u8 == 4u8,
        1u8 & 0b1u8 == 1u8,
        1u8 & 0b1101u8 == 1u8,
        4u8 & 0b1101u8 == 4u8,
        8u8 & 0b1101u8 == 8u8,
        1u8 & 0b11u8 == 1u8,
        2u8 & 0b11u8 == 2u8,
{
}

/// The permission and order fields of an encoded CRD fit into five bits, and
/// the kind tag into two.
proof fn lemma_crd_fields_fit(w: u64)
    by (bit_vector)
    ensures
        w & 0b11 <= 3,
        (w & 0x7c) >> 2 <= 0x1f,
        (w & 0xf80) >> 7 <= 0x1f,
{
}

/// Defines the kind of capability a CRD refers to, stored in the first two
/// bits of the encoded word.
#[derive(Debug, Copy, Clone, PartialEq, Eq, Structural)]
pub enum CrdKind {
    /// Null capability. Default value of each index in the capability space
    /// for each PD in the kernel. Usually not needed in userspace.
    Null,
    /// Capability refers to memory, therefore a page or a range of memory
    /// pages in the (virtual) address space.
    Memory,
    /// Capability refers to an x86 I/O port.
    PortIo,
    /// Capability refers to a kernel object. Which kernel object depends
    /// purely on the syscall the CRD is used with.
    Object,
}

impl CrdKind {
    /// The raw tag value of this kind.
    pub open spec fn spec_val(self) -> u8 {
        match self {
            CrdKind::Null => 0,
            CrdKind::Memory => 1,
            CrdKind::PortIo => 2,
            CrdKind::Object => 3,
        }
    }

    /// Returns the raw unsigned integer value.
    pub fn val(self) -> (r: u8)
        ensures
            r == self.spec_val(),
    {
        match self {
            CrdKind::Null => 0,
            CrdKind::Memory => 1,
            CrdKind::PortIo => 2,
            CrdKind::Object => 3,
        }
    }

    /// The kind whose tag is the given value.
    pub open spec fn spec_from_val(val: u8) -> CrdKind
        recommends
            val <= 3,
    {
        if val == 0 {
            CrdKind::Null
        } else if val == 1 {
            CrdKind::Memory
        } else if val == 2 {
            CrdKind::PortIo
        } else {
            CrdKind::Object
        }
    }

    /// Creates a `CrdKind` from its raw tag value.
    pub fn from_val(val: u8) -> (r: CrdKind)
        requires
            val <= 3,
        ensures
            r == CrdKind::spec_from_val(val),
            r.spec_val() == val,
    {
        if val == 0 {
            CrdKind::Null
        } else if val == 1 {
            CrdKind::Memory
        } else if val == 2 {
            CrdKind::PortIo
        } else {
            CrdKind::Object
        }
    }
}

/// Shared interface of all permission-set implementations.
///
/// Every family is a collection of at most five flag bits confined to the
/// family's legal mask. A set is closed under union, empty by default, and
/// convertible from and to its raw bits.
pub trait CrdPermissions: Sized + Copy {
    /// The mask of the bits this family may legally carry.
    spec fn spec_mask() -> u8;

    /// The raw flag bits this set carries.
    spec fn spec_bits(self) -> u8;

    /// Returns a raw unsigned integer with the permission bits. Every value
    /// of the family is confined to the family's mask, and the mask itself
    /// fits the five-bit permission field of a CRD.
    fn val(self) -> (r: u8)
        ensures
            r == self.spec_bits(),
            self.spec_bits() & Self::spec_mask() == self.spec_bits(),
            Self::spec_mask() <= 0x1f,
    ;

    /// Constructs the set carrying exactly the given legal bits.
    fn from_val(v: u8) -> (r: Self)
        requires
            v & Self::spec_mask() == v,
        ensures
            r.spec_bits() == v,
    ;

    /// The empty set, the default of every family.
    fn empty() -> (r: Self)
        ensures
            r.spec_bits() == 0,
    ;
}

/// Permissions of a null capability. Only used to round out the type
/// structure of this module: no flag is legal.
#[derive(Debug, Copy, Clone, PartialEq, Eq, Structural)]
pub struct NullCapPermissions {
    bits: u8,
}

impl NullCapPermissions {
    #[verifier::type_invariant]
    spec fn inv(self) -> bool {
        self.bits & 0u8 == self.bits
    }

    /// Constructs a set from raw bits; fails iff a bit outside the legal
    /// mask of this family is set.
    pub fn from_bits(v: u8) -> (r: Option<Self>)
        ensures
            r is Some <==> v & Self::spec_mask() == v,
            r is Some ==> r->0.spec_bits() == v,
    {
        if v & 0u8 == v {
            Some(NullCapPermissions { bits: v })
        } else {
            None
        }
    }

    /// The union of two sets.
    pub fn union(self, other: Self) -> (r: Self)
        ensures
            r.spec_bits() == self.spec_bits() | other.spec_bits(),
    {
        proof {
            use_type_invariant(self);
            use_type_invariant(other);
            lemma_u8_or_preserves_mask(self.bits, other.bits, 0u8);
        }
        NullCapPermissions { bits: self.bits | other.bits }
    }
}

impl CrdPermissions for NullCapPermissions {
    open spec fn spec_mask() -> u8 {
        0
    }

    closed spec fn spec_bits(self) -> u8 {
        self.bits
    }

    fn val(self) -> u8 {
        proof {
            use_type_invariant(self);
        }
        self.bits
    }

    fn from_val(v: u8) -> Self {
        NullCapPermissions { bits: v }
    }

    fn empty() -> Self {
        proof {
            lemma_u8_zero_masked(0u8);
        }
        NullCapPermissions { bits: 0 }
    }
}

/// Permissions of a capability for a memory page. Corresponds to the flags
/// in the page table: READ is bit 0, WRITE bit 1, EXECUTE bit 2.
#[derive(Debug, Copy, Clone, PartialEq, Eq, Structural)]
pub struct MemCapPermissions {
    bits: u8,
}

/// The CRD memory-permission bits an ELF segment-permission triple maps to.
///
/// The ELF triple uses a different bit assignment than the CRD encoding:
/// ELF bit 0 (execute) maps to EXECUTE (bit 2), ELF bit 1 (write) to WRITE
/// (bit 1), and ELF bit 2 (read) to READ (bit 0); the flags combine by union.
pub open spec fn elf_permission_bits(bits: u8) -> u8 {
    (if bits & 0b001 == 0b001 {
        4u8
    } else {
        0u8
    }) | (if bits & 0b010 == 0b010 {
        2u8
    } else {
        0u8
    }) | (if bits & 0b100 == 0b100 {
        1u8
    } else {
        0u8
    })
}

impl MemCapPermissions {
    #[verifier::type_invariant]
    spec fn inv(self) -> bool {
        self.bits & 0b111u8 == self.bits
    }

    /// Read access to the page range.
    pub fn read() -> (r: Self)
        ensures
            r.spec_bits() == 1,
    {
        proof {
            lemma_permission_flag_constants();
        }
        MemCapPermissions { bits: 1 }
    }

    /// Write access to the page range.
    pub fn write() -> (r: Self)
        ensures
            r.spec_bits() == 2,
    {
        proof {
            lemma_permission_flag_constants();
        }
        MemCapPermissions { bits: 2 }
    }

    /// Execute rights on the page range.
    pub fn execute() -> (r: Self)
        ensures
            r.spec_bits() == 4,
    {
        proof {
            lemma_permission_flag_constants();
        }
        MemCapPermissions { bits: 4 }
    }

    /// Constructs a set from raw bits; fails iff a bit outside the legal
    /// mask of this family is set.
    pub fn from_bits(v: u8) -> (r: Option<Self>)
        ensures
            r is Some <==> v & Self::spec_mask() == v,
            r is Some ==> r->0.spec_bits() == v,
    {
        if v & 0b111u8 == v {
            Some(MemCapPermissions { bits: v })
        } else {
            None
        }
    }

    /// The union of two sets.
    pub fn union(self, other: Self) -> (r: Self)
        ensures
            r.spec_bits() == self.spec_bits() | other.spec_bits(),
    {
        proof {
            use_type_invariant(self);
            use_type_invariant(other);
            lemma_u8_or_preserves_mask(self.bits, other.bits, 0b111u8);
        }
        MemCapPermissions { bits: self.bits | other.bits }
    }

    /// Constructor from ELF segment permissions, which keep read in bit 2
    /// and execute in bit 0: the triple is translated, never reinterpreted.
    pub fn from_elf_segment_permissions(bits: u8) -> (r: Self)
        ensures
            r.spec_bits() == elf_permission_bits(bits),
    {
        let execute: u8 = if bits & 0b001 == 0b001 {
            4
        } else {
            0
        };
        let write: u8 = if bits & 0b010 == 0b010 {
            2
        } else {
            0
        };
        let read: u8 = if bits & 0b100 == 0b100 {
            1
        } else {
            0
        };
        proof {
            assert((execute | write | read) & 0b111u8 == (execute | write | read))
                by (bit_vector)
                requires
                    execute == 0 || execute == 4,
                    write == 0 || write == 2,
                    read == 0 || read == 1,
            ;
        }
        MemCapPermissions { bits: execute | write | read }
    }
}

impl CrdPermissions for MemCapPermissions {
    open spec fn spec_mask() -> u8 {
        0b111
    }

    closed spec fn spec_bits(self) -> u8 {
        self.bits
    }

    fn val(self) -> u8 {
        proof {
            use_type_invariant(self);
        }
        self.bits
    }

    fn from_val(v: u8) -> Self {
        MemCapPermissions { bits: v }
    }

    fn empty() -> Self {
        proof {
            lemma_u8_zero_masked(0b111u8);
        }
        MemCapPermissions { bits: 0 }
    }
}

/// Permissions of a capability for an x86 I/O port: a single read/write flag.
#[derive(Debug, Copy, Clone, PartialEq, Eq, Structural)]
pub struct PortIOCapPermissions {
    bits: u8,
}

impl PortIOCapPermissions {
    #[verifier::type_invariant]
    spec fn inv(self) -> bool {
        self.bits & 0b1u8 == self.bits
    }

    /// Read and write access to the port range.
    pub fn read_write() -> (r: Self)
        ensures
            r.spec_bits() == 1,
    {
        proof {
            lemma_permission_flag_constants();
        }
        PortIOCapPermissions { bits: 1 }
    }

    /// Constructs a set from raw bits; fails iff a bit outside the legal
    /// mask of this family is set.
    pub fn from_bits(v: u8) -> (r: Option<Self>)
        ensures
            r is Some <==> v & Self::spec_mask() == v,
            r is Some ==> r->0.spec_bits() == v,
    {
        if v & 0b1u8 == v {
            Some(PortIOCapPermissions { bits: v })
        } else {
            None
        }
    }

    /// The union of two sets.
    pub fn union(self, other: Self) -> (r: Self)
        ensures
            r.spec_bits() == self.spec_bits() | other.spec_bits(),
    {
        proof {
            use_type_invariant(self);
            use_type_invariant(other);
            lemma_u8_or_preserves_mask(self.bits, other.bits, 0b1u8);
        }
        PortIOCapPermissions { bits: self.bits | other.bits }
    }
}

impl CrdPermissions for PortIOCapPermissions {
    open spec fn spec_mask() -> u8 {
        0b1
    }

    closed spec fn spec_bits(self) -> u8 {
        self.bits
    }

    fn val(self) -> u8 {
        proof {
            use_type_invariant(self);
        }
        self.bits
    }

    fn from_val(v: u8) -> Self {
        PortIOCapPermissions { bits: v }
    }

    fn empty() -> Self {
        proof {
            lemma_u8_zero_masked(0b1u8);
        }
        PortIOCapPermissions { bits: 0 }
    }
}

/// Permissions of a capability for a `PD` object.
#[derive(Debug, Copy, Clone, PartialEq, Eq, Structural)]
pub struct PDCapPermissions {
    bits: u8,
}

impl PDCapPermissions {
    #[verifier::type_invariant]
    spec fn inv(self) -> bool {
        self.bits & 0b1u8 == self.bits
    }

    /// The target PD can execute the syscalls to create further PD, SM, EC,
    /// SC, or PT objects.
    pub fn create_kobjects() -> (r: Self)
        ensures
            r.spec_bits() == 1,
    {
        proof {
            lemma_permission_flag_constants();
        }
        PDCapPermissions { bits: 1 }
    }

    /// Constructs a set from raw bits; fails iff a bit outside the legal
    /// mask of this family is set.
    pub fn from_bits(v: u8) -> (r: Option<Self>)
        ensures
            r is Some <==> v & Self::spec_mask() == v,
            r is Some ==> r->0.spec_bits() == v,
    {
        if v & 0b1u8 == v {
            Some(PDCapPermissions { bits: v })
        } else {
            None
        }
    }

    /// The union of two sets.
    pub fn union(self, other: Self) -> (r: Self)
        ensures
            r.spec_bits() == self.spec_bits() | other.spec_bits(),
    {
        proof {
            use_type_invariant(self);
            use_type_invariant(other);
            lemma_u8_or_preserves_mask(self.bits, other.bits, 0b1u8);
        }
        PDCapPermissions { bits: self.bits | other.bits }
    }
}

impl CrdPermissions for PDCapPermissions {
    open spec fn spec_mask() -> u8 {
        0b1
    }

    closed spec fn spec_bits(self) -> u8 {
        self.bits
    }

    fn val(self) -> u8 {
        proof {
            use_type_invariant(self);
        }
        self.bits
    }

    fn from_val(v: u8) -> Self {
        PDCapPermissions { bits: v }
    }

    fn empty() -> Self {
        proof {
            lemma_u8_zero_masked(0b1u8);
        }
        PDCapPermissions { bits: 0 }
    }
}

/// Permissions of a capability for an `EC` object.
#[derive(Debug, Copy, Clone, PartialEq, Eq, Structural)]
pub struct ECCapPermissions {
    bits: u8,
}

impl ECCapPermissions {
    #[verifier::type_invariant]
    spec fn inv(self) -> bool {
        self.bits & 0b1101u8 == self.bits
    }

    /// The target PD can execute the `ec_ctrl` syscall on the given
    /// execution context.
    pub fn ec_ctrl() -> (r: Self)
        ensures
            r.spec_bits() == 1,
    {
        proof {
            lemma_permission_flag_constants();
        }
        ECCapPermissions { bits: 1 }
    }

    /// The target PD can execute the `create_sc` syscall on the given
    /// execution context.
    pub fn create_sc() -> (r: Self)
        ensures
            r.spec_bits() == 4,
    {
        proof {
            lemma_permission_flag_constants();
        }
        ECCapPermissions { bits: 4 }
    }

    /// The target PD can execute the `create_pt` syscall on the given
    /// execution context.
    pub fn create_pt() -> (r: Self)
        ensures
            r.spec_bits() == 8,
    {
        proof {
            lemma_permission_flag_constants();
        }
        ECCapPermissions { bits: 8 }
    }

    /// Constructs a set from raw bits; fails iff a bit outside the legal
    /// mask of this family is set.
    pub fn from_bits(v: u8) -> (r: Option<Self>)
        ensures
            r is Some <==> v & Self::spec_mask() == v,
            r is Some ==> r->0.spec_bits() == v,
    {
        if v & 0b1101u8 == v {
            Some(ECCapPermissions { bits: v })
        } else {
            None
        }
    }

    /// The union of two sets.
    pub fn union(self, other: Self) -> (r: Self)
        ensures
            r.spec_bits() == self.spec_bits() | other.spec_bits(),
    {
        proof {
            use_type_invariant(self);
            use_type_invariant(other);
            lemma_u8_or_preserves_mask(self.bits, other.bits, 0b1101u8);
        }
        ECCapPermissions { bits: self.bits | other.bits }
    }
}

impl CrdPermissions for ECCapPermissions {
    open spec fn spec_mask() -> u8 {
        0b1101
    }

    closed spec fn spec_bits(self) -> u8 {
        self.bits
    }

    fn val(self) -> u8 {
        proof {
            use_type_invariant(self);
        }
        self.bits
    }

    fn from_val(v: u8) -> Self {
        ECCapPermissions { bits: v }
    }

    fn empty() -> Self {
        proof {
            lemma_u8_zero_masked(0b1101u8);
        }
        ECCapPermissions { bits: 0 }
    }
}

/// Permissions of a capability for an `SC` object.
#[derive(Debug, Copy, Clone, PartialEq, Eq, Structural)]
pub struct SCCapPermissions {
    bits: u8,
}

impl SCCapPermissions {
    #[verifier::type_invariant]
    spec fn inv(self) -> bool {
        self.bits & 0b1u8 == self.bits
    }

    /// The target PD can execute the `sc_ctrl` syscall on the given
    /// scheduling context.
    pub fn sc_ctrl() -> (r: Self)
        ensures
            r.spec_bits() == 1,
    {
        proof {
            lemma_permission_flag_constants();
        }
        SCCapPermissions { bits: 1 }
    }

    /// Constructs a set from raw bits; fails iff a bit outside the legal
    /// mask of this family is set.
    pub fn from_bits(v: u8) -> (r: Option<Self>)
        ensures
            r is Some <==> v & Self::spec_mask() == v,
            r is Some ==> r->0.spec_bits() == v,
    {
        if v & 0b1u8 == v {
            Some(SCCapPermissions { bits: v })
        } else {
            None
        }
    }

    /// The union of two sets.
    pub fn union(self, other: Self) -> (r: Self)
        ensures
            r.spec_bits() == self.spec_bits() | other.spec_bits(),
    {
        proof {
            use_type_invariant(self);
            use_type_invariant(other);
            lemma_u8_or_preserves_mask(self.bits, other.bits, 0b1u8);
        }
        SCCapPermissions { bits: self.bits | other.bits }
    }
}

impl CrdPermissions for SCCapPermissions {
    open spec fn spec_mask() -> u8 {
        0b1
    }

    closed spec fn spec_bits(self) -> u8 {
        self.bits
    }

    fn val(self) -> u8 {
        proof {
            use_type_invariant(self);
        }
        self.bits
    }

    fn from_val(v: u8) -> Self {
        SCCapPermissions { bits: v }
    }

    fn empty() -> Self {
        proof {
            lemma_u8_zero_masked(0b1u8);
        }
        SCCapPermissions { bits: 0 }
    }
}

/// Permissions of a capability for a `PT` object.
#[derive(Debug, Copy, Clone, PartialEq, Eq, Structural)]
pub struct PTCapPermissions {
    bits: u8,
}

impl PTCapPermissions {
    #[verifier::type_invariant]
    spec fn inv(self) -> bool {
        self.bits & 0b11u8 == self.bits
    }

    /// The target PD can execute the `pt_ctrl` syscall on the given portal.
    pub fn pt_ctrl() -> (r: Self)
        ensures
            r.spec_bits() == 1,
    {
        proof {
            lemma_permission_flag_constants();
        }
        PTCapPermissions { bits: 1 }
    }

    /// The target PD can execute the `call` syscall on the given portal, and
    /// the portal can be called by the kernel for exception handling.
    pub fn call() -> (r: Self)
        ensures
            r.spec_bits() == 2,
    {
        proof {
            lemma_permission_flag_constants();
        }
        PTCapPermissions { bits: 2 }
    }

    /// Constructs a set from raw bits; fails iff a bit outside the legal
    /// mask of this family is set.
    pub fn from_bits(v: u8) -> (r: Option<Self>)
        ensures
            r is Some <==> v & Self::spec_mask() == v,
            r is Some ==> r->0.spec_bits() == v,
    {
        if v & 0b11u8 == v {
            Some(PTCapPermissions { bits: v })
        } else {
            None
        }
    }

    /// The union of two sets.
    pub fn union(self, other: Self) -> (r: Self)
        ensures
            r.spec_bits() == self.spec_bits() | other.spec_bits(),
    {
        proof {
            use_type_invariant(self);
            use_type_invariant(other);
            lemma_u8_or_preserves_mask(self.bits, other.bits, 0b11u8);
        }
        PTCapPermissions { bits: self.bits | other.bits }
    }
}

impl CrdPermissions for PTCapPermissions {
    open spec fn spec_mask() -> u8 {
        0b11
    }

    closed spec fn spec_bits(self) -> u8 {
        self.bits
    }

    fn val(self) -> u8 {
        proof {
            use_type_invariant(self);
        }
        self.bits
    }

    fn from_val(v: u8) -> Self {
        PTCapPermissions { bits: v }
    }

    fn empty() -> Self {
        proof {
            lemma_u8_zero_masked(0b11u8);
        }
        PTCapPermissions { bits: 0 }
    }
}

/// Permissions of a capability for an `SM` object.
#[derive(Debug, Copy, Clone, PartialEq, Eq, Structural)]
pub struct SMCapPermissions {
    bits: u8,
}

impl SMCapPermissions {
    #[verifier::type_invariant]
    spec fn inv(self) -> bool {
        self.bits & 0b11u8 == self.bits
    }

    /// The target PD can execute the `UP` operation via the `sm_ctrl`
    /// syscall.
    pub fn up() -> (r: Self)
        ensures
            r.spec_bits() == 1,
    {
        proof {
            lemma_permission_flag_constants();
        }
        SMCapPermissions { bits: 1 }
    }

    /// The target PD can execute the `DOWN` operation via the `sm_ctrl`
    /// syscall.
    pub fn down() -> (r: Self)
        ensures
            r.spec_bits() == 2,
    {
        proof {
            lemma_permission_flag_constants();
        }
        SMCapPermissions { bits: 2 }
    }

    /// Constructs a set from raw bits; fails iff a bit outside the legal
    /// mask of this family is set.
    pub fn from_bits(v: u8) -> (r: Option<Self>)
        ensures
            r is Some <==> v & Self::spec_mask() == v,
            r is Some ==> r->0.spec_bits() == v,
    {
        if v & 0b11u8 == v {
            Some(SMCapPermissions { bits: v })
        } else {
            None
        }
    }

    /// The union of two sets.
    pub fn union(self, other: Self) -> (r: Self)
        ensures
            r.spec_bits() == self.spec_bits() | other.spec_bits(),
    {
        proof {
            use_type_invariant(self);
            use_type_invariant(other);
            lemma_u8_or_preserves_mask(self.bits, other.bits, 0b11u8);
        }
        SMCapPermissions { bits: self.bits | other.bits }
    }
}

impl CrdPermissions for SMCapPermissions {
    open spec fn spec_mask() -> u8 {
        0b11
    }

    closed spec fn spec_bits(self) -> u8 {
        self.bits
    }

    fn val(self) -> u8 {
        proof {
            use_type_invariant(self);
        }
        self.bits
    }

    fn from_val(v: u8) -> Self {
        SMCapPermissions { bits: v }
    }

    fn empty() -> Self {
        proof {
            lemma_u8_zero_masked(0b11u8);
        }
        SMCapPermissions { bits: 0 }
    }
}

/// Enables specialisation of the generic [`Crd`].
#[derive(Debug, Copy, Clone)]
pub struct CrdTypeNull;

/// Enables specialisation of the generic [`Crd`].
#[derive(Debug, Copy, Clone)]
pub struct CrdTypeMem;

/// Enables specialisation of the generic [`Crd`].
#[derive(Debug, Copy, Clone)]
pub struct CrdTypePortIO;

/// Enables specialisation of the generic [`Crd`].
#[derive(Debug, Copy, Clone)]
pub struct CrdTypeObject;

/// Enables specialisation of the generic [`Crd`].
#[derive(Debug, Copy, Clone)]
pub struct CrdTypeObjectPT;

/// Enables specialisation of the generic [`Crd`].
#[derive(Debug, Copy, Clone)]
pub struct CrdTypeObjectPD;

/// Enables specialisation of the generic [`Crd`].
#[derive(Debug, Copy, Clone)]
pub struct CrdTypeObjectSM;

/// Enables specialisation of the generic [`Crd`].
#[derive(Debug, Copy, Clone)]
pub struct CrdTypeObjectSC;

/// Enables specialisation of the generic [`Crd`].
#[derive(Debug, Copy, Clone)]
pub struct CrdTypeObjectEC;

/// A capability range descriptor: one encoded machine word that names a
/// range of capabilities by kind, base, order, and permissions.
///
/// With a `Crd` you refer to a base, for example the number of a page or of
/// an I/O port, and the order extends it to the selector range
/// `base..base + 2^order`. The phantom parameters specialise the descriptor
/// per capability family, so a descriptor of one family can never be passed
/// where another family is expected. Don't use the raw type directly but
/// rather [`CrdNull`], [`CrdMem`], [`CrdPortIO`], [`CrdObjEC`], [`CrdObjSC`],
/// [`CrdObjSM`], [`CrdObjPD`], or [`CrdObjPT`].
#[derive(Debug, Copy)]
pub struct Crd<Permissions, Specialization, ObjectSpecialization> {
    val: u64,
    _zst1: PhantomData<Permissions>,
    _zst2: PhantomData<Specialization>,
    _zst3: PhantomData<ObjectSpecialization>,
}

/// Refers to a null capability.
pub type CrdNull = Crd<NullCapPermissions, CrdTypeNull, ()>;

/// CRD referring to memory (page) capabilities.
pub type CrdMem = Crd<MemCapPermissions, CrdTypeMem, ()>;

/// CRD referring to x86 Port I/O capabilities.
pub type CrdPortIO = Crd<PortIOCapPermissions, CrdTypePortIO, ()>;

/// CRD referring to capabilities for EC objects.
pub type CrdObjEC = Crd<ECCapPermissions, CrdTypeObject, CrdTypeObjectEC>;

/// CRD referring to capabilities for SC objects.
pub type CrdObjSC = Crd<SCCapPermissions, CrdTypeObject, CrdTypeObjectSC>;

/// CRD referring to capabilities for SM objects.
pub type CrdObjSM = Crd<SMCapPermissions, CrdTypeObject, CrdTypeObjectSM>;

/// CRD referring to capabilities for PD objects.
pub type CrdObjPD = Crd<PDCapPermissions, CrdTypeObject, CrdTypeObjectPD>;

/// CRD referring to capabilities for PT objects.
pub type CrdObjPT = Crd<PTCapPermissions, CrdTypeObject, CrdTypeObjectPT>;

impl<Permissions, Specialization, ObjectSpecialization> View for Crd<
    Permissions,
    Specialization,
    ObjectSpecialization,
> {
    type V = u64;

    closed spec fn view(&self) -> u64 {
        self.val
    }
}

/// The kind a CRD's encoded word carries in its tag bits.
pub open spec fn spec_crd_kind(w: u64) -> CrdKind {
    CrdKind::spec_from_val(crd_kind_bits(w) as u8)
}

impl<Permissions, Specialization, ObjectSpecialization> Crd<
    Permissions,
    Specialization,
    ObjectSpecialization,
> {
    /// Generic constructor used by the specialisations, whose arguments
    /// carry stronger types and context-aware names.
    fn new_generic(kind: CrdKind, base: u64, order: u8, permissions: u8) -> (r: Self)
        requires
            base <= MAX_CRD_BASE,
            order <= MAX_CRD_ORDER,
            permissions <= 0x1f,
        ensures
            r@ == crd_word(kind.spec_val() as u64, base, order as u64, permissions as u64),
    {
        let val = (kind.val() as u64 & 0b11) | (((permissions as u64) << 2) & 0x7c) | (((
        order as u64) << 7) & 0xf80) | ((base << 12) & 0xffff_ffff_ffff_f000);
        Crd { val, _zst1: PhantomData, _zst2: PhantomData, _zst3: PhantomData }
    }

    /// Returns the `Crd` as encoded u64 value, the transfer type handed to
    /// the kernel: every field sits at its wire-format offset.
    pub fn val(self) -> (r: u64)
        ensures
            r == self@,
    {
        self.val
    }

    /// Returns the [`CrdKind`] of this CRD.
    pub fn kind(self) -> (r: CrdKind)
        ensures
            r == spec_crd_kind(self@),
    {
        proof {
            lemma_crd_fields_fit(self.val);
        }
        CrdKind::from_val((self.val & 0b11) as u8)
    }

    /// Returns the order of this CRD: `2^order` consecutive selectors are
    /// covered, starting at the base.
    pub fn order(self) -> (r: u8)
        ensures
            r == crd_order_bits(self@),
    {
        proof {
            lemma_crd_fields_fit(self.val);
        }
        ((self.val & 0xf80) >> 7) as u8
    }

    /// Returns the base of this CRD: the number of an I/O port or a
    /// (virtual) page number, according to the specialisation.
    pub fn base(self) -> (r: u64)
        ensures
            r == crd_base_bits(self@),
    {
        (self.val & 0xffff_ffff_ffff_f000) >> 12
    }

    /// Returns the untyped permission bits. Internal API.
    fn gen_permissions(self) -> (r: u8)
        ensures
            r == crd_permission_bits(self@),
    {
        proof {
            lemma_crd_fields_fit(self.val);
        }
        ((self.val & 0x7c) >> 2) as u8
    }
}

impl<Permissions: CrdPermissions, Specialization, ObjectSpecialization> Crd<
    Permissions,
    Specialization,
    ObjectSpecialization,
> {
    /// The permission bits of the word are confined to the mask of the
    /// family the descriptor is specialised to, so they decode as a
    /// permission set of exactly that family.
    pub open spec fn wf(self) -> bool {
        (crd_permission_bits(self@) as u8) & Permissions::spec_mask() == (crd_permission_bits(
            self@,
        ) as u8)
    }

    /// Returns the typed permission set of this CRD.
    pub fn permissions(self) -> (r: Permissions)
        requires
            self.wf(),
        ensures
            r.spec_bits() == crd_permission_bits(self@),
    {
        Permissions::from_val(self.gen_permissions())
    }
}

impl<Permissions, Specialization, ObjectSpecialization> Clone for Crd<
    Permissions,
    Specialization,
    ObjectSpecialization,
> {
    /// A clone carries the same encoded word.
    fn clone(&self) -> (r: Self)
        ensures
            r@ == self@,
    {
        Crd { val: self.val, _zst1: PhantomData, _zst2: PhantomData, _zst3: PhantomData }
    }
}

impl<Permissions, Specialization, ObjectSpecialization> PartialEq for Crd<
    Permissions,
    Specialization,
    ObjectSpecialization,
> {
    /// Two CRDs are equal iff their encoded words are: equality is
    /// structural on the wire format.
    fn eq(&self, other: &Self) -> (r: bool) {
        self.val == other.val
    }
}

impl<Permissions, Specialization, ObjectSpecialization> vstd::std_specs::cmp::PartialEqSpecImpl for Crd<
    Permissions,
    Specialization,
    ObjectSpecialization,
> {
    open spec fn obeys_eq_spec() -> bool {
        true
    }

    closed spec fn eq_spec(&self, other: &Self) -> bool {
        self.val == other.val
    }
}

impl<Permissions: CrdPermissions, Specialization, ObjectSpecialization> Default for Crd<
    Permissions,
    Specialization,
    ObjectSpecialization,
> {
    /// The null descriptor: kind `Null`, base 0, order 0, empty permissions.
    fn default() -> (r: Self)
        ensures
            r@ == crd_word(0, 0, 0, 0),
            r.wf(),
    {
        proof {
            lemma_crd_round_trip(0, 0, 0, 0);
            lemma_u8_zero_masked(Permissions::spec_mask());
        }
        Self::new_generic(CrdKind::Null, 0, 0, Permissions::empty().val())
    }
}

impl CrdNull {
    /// Creates the null CRD: every field zero.
    pub fn new() -> (r: Self)
        ensures
            r@ == crd_word(0, 0, 0, 0),
            r.wf(),
    {
        proof {
            lemma_crd_round_trip(0, 0, 0, 0);
            lemma_u8_zero_masked(NullCapPermissions::spec_mask());
        }
        Self::new_generic(CrdKind::Null, 0, 0, NullCapPermissions::empty().val())
    }
}

impl CrdMem {
    /// Creates the CRD to request or alter memory mappings.
    pub fn new(memory_page_num: u64, order: u8, permissions: MemCapPermissions) -> (r: Self)
        requires
            memory_page_num <= MAX_CRD_BASE,
            order <= MAX_CRD_ORDER,
        ensures
            r@ == crd_word(1, memory_page_num, order as u64, permissions.spec_bits() as u64),
            r.wf(),
            spec_crd_kind(r@) == CrdKind::Memory,
            crd_base_bits(r@) == memory_page_num,
            crd_order_bits(r@) == order as u64,
            crd_permission_bits(r@) == permissions.spec_bits() as u64,
    {
        let bits = permissions.val();
        proof {
            lemma_u8_and_le(bits, MemCapPermissions::spec_mask());
            lemma_crd_round_trip(1, memory_page_num, order as u64, bits as u64);
        }
        Self::new_generic(CrdKind::Memory, memory_page_num, order, bits)
    }
}

impl CrdPortIO {
    /// Creates the CRD to request access to the `2^order` I/O ports
    /// starting at the given port number.
    pub fn new(port: u16, order: u8, permissions: PortIOCapPermissions) -> (r: Self)
        requires
            order <= MAX_CRD_ORDER,
        ensures
            r@ == crd_word(2, port as u64, order as u64, permissions.spec_bits() as u64),
            r.wf(),
            spec_crd_kind(r@) == CrdKind::PortIo,
            crd_base_bits(r@) == port as u64,
            crd_order_bits(r@) == order as u64,
            crd_permission_bits(r@) == permissions.spec_bits() as u64,
    {
        let bits = permissions.val();
        proof {
            lemma_u8_and_le(bits, PortIOCapPermissions::spec_mask());
            lemma_crd_round_trip(2, port as u64, order as u64, bits as u64);
        }
        Self::new_generic(CrdKind::PortIo, port as u64, order, bits)
    }
}

impl CrdObjPD {
    /// Creates a CRD for a PD object capability. The CRD is of kind
    /// [`CrdKind::Object`]: it refers to a PD only when used in the right
    /// context, that is, with the right syscall.
    pub fn new(pd_num: u64, order: u8, permissions: PDCapPermissions) -> (r: Self)
        requires
            pd_num <= MAX_CRD_BASE,
            order <= MAX_CRD_ORDER,
        ensures
            r@ == crd_word(3, pd_num, order as u64, permissions.spec_bits() as u64),
            r.wf(),
            spec_crd_kind(r@) == CrdKind::Object,
            crd_base_bits(r@) == pd_num,
            crd_order_bits(r@) == order as u64,
            crd_permission_bits(r@) == permissions.spec_bits() as u64,
    {
        let bits = permissions.val();
        proof {
            lemma_u8_and_le(bits, PDCapPermissions::spec_mask());
            lemma_crd_round_trip(3, pd_num, order as u64, bits as u64);
        }
        Self::new_generic(CrdKind::Object, pd_num, order, bits)
    }
}

impl CrdObjSM {
    /// Creates a CRD for an SM object capability. The CRD is of kind
    /// [`CrdKind::Object`]: it refers to an SM only when used in the right
    /// context, that is, with the right syscall.
    pub fn new(sm_num: u64, order: u8, permissions: SMCapPermissions) -> (r: Self)
        requires
            sm_num <= MAX_CRD_BASE,
            order <= MAX_CRD_ORDER,
        ensures
            r@ == crd_word(3, sm_num, order as u64, permissions.spec_bits() as u64),
            r.wf(),
            spec_crd_kind(r@) == CrdKind::Object,
            crd_base_bits(r@) == sm_num,
            crd_order_bits(r@) == order as u64,
            crd_permission_bits(r@) == permissions.spec_bits() as u64,
    {
        let bits = permissions.val();
        proof {
            lemma_u8_and_le(bits, SMCapPermissions::spec_mask());
            lemma_crd_round_trip(3, sm_num, order as u64, bits as u64);
        }
        Self::new_generic(CrdKind::Object, sm_num, order, bits)
    }
}

impl CrdObjEC {
    /// Creates a CRD for an EC object capability. The CRD is of kind
    /// [`CrdKind::Object`]: it refers to an EC only when used in the right
    /// context, that is, with the right syscall.
    pub fn new(ec_num: u64, order: u8, permissions: ECCapPermissions) -> (r: Self)
        requires
            ec_num <= MAX_CRD_BASE,
            order <= MAX_CRD_ORDER,
        ensures
            r@ == crd_word(3, ec_num, order as u64, permissions.spec_bits() as u64),
            r.wf(),
            spec_crd_kind(r@) == CrdKind::Object,
            crd_base_bits(r@) == ec_num,
            crd_order_bits(r@) == order as u64,
            crd_permission_bits(r@) == permissions.spec_bits() as u64,
    {
        let bits = permissions.val();
        proof {
            lemma_u8_and_le(bits, ECCapPermissions::spec_mask());
            lemma_crd_round_trip(3, ec_num, order as u64, bits as u64);
        }
        Self::new_generic(CrdKind::Object, ec_num, order, bits)
    }
}

impl CrdObjSC {
    /// Creates a CRD for an SC object capability. The CRD is of kind
    /// [`CrdKind::Object`]: it refers to an SC only when used in the right
    /// context, that is, with the right syscall.
    pub fn new(sc_num: u64, order: u8, permissions: SCCapPermissions) -> (r: Self)
        requires
            sc_num <= MAX_CRD_BASE,
            order <= MAX_CRD_ORDER,
        ensures
            r@ == crd_word(3, sc_num, order as u64, permissions.spec_bits() as u64),
            r.wf(),
            spec_crd_kind(r@) == CrdKind::Object,
            crd_base_bits(r@) == sc_num,
            crd_order_bits(r@) == order as u64,
            crd_permission_bits(r@) == permissions.spec_bits() as u64,
    {
        let bits = permissions.val();
        proof {
            lemma_u8_and_le(bits, SCCapPermissions::spec_mask());
            lemma_crd_round_trip(3, sc_num, order as u64, bits as u64);
        }
        Self::new_generic(CrdKind::Object, sc_num, order, bits)
    }
}

impl CrdObjPT {
    /// Creates a CRD for a PT (portal) object capability. The CRD is of
    /// kind [`CrdKind::Object`]: it refers to a PT only when used in the
    /// right context, that is, with the right syscall. For a bulk transfer
    /// the portal selector must be aligned to the order.
    pub fn new(pt_sel: CapSel, order: u8, permissions: PTCapPermissions) -> (r: Self)
        requires
            pt_sel <= MAX_CRD_BASE,
            order <= MAX_CRD_ORDER,
        ensures
            r@ == crd_word(3, pt_sel, order as u64, permissions.spec_bits() as u64),
            r.wf(),
            spec_crd_kind(r@) == CrdKind::Object,
            crd_base_bits(r@) == pt_sel,
            crd_order_bits(r@) == order as u64,
            crd_permission_bits(r@) == permissions.spec_bits() as u64,
    {
        let bits = permissions.val();
        proof {
            lemma_u8_and_le(bits, PTCapPermissions::spec_mask());
            lemma_crd_round_trip(3, pt_sel, order as u64, bits as u64);
        }
        Self::new_generic(CrdKind::Object, pt_sel, order, bits)
    }
}

/// Decoded fields are independent of one another: wherever two legal field
/// tuples agree on a coordinate, their encoded words decode to the same
/// value of that coordinate, however the remaining coordinates differ.
pub proof fn lemma_crd_field_isolation(
    kind1: u64,
    base1: u64,
    order1: u64,
    permissions1: u64,
    kind2: u64,
    base2: u64,
    order2: u64,
    permissions2: u64,
)
    requires
        kind1 <= 0b11,
        base1 <= MAX_CRD_BASE,
        order1 <= MAX_CRD_ORDER,
        permissions1 <= 0x1f,
        kind2 <= 0b11,
        base2 <= MAX_CRD_BASE,
        order2 <= MAX_CRD_ORDER,
        permissions2 <= 0x1f,
    ensures
        kind1 == kind2 ==> crd_kind_bits(crd_word(kind1, base1, order1, permissions1))
            == crd_kind_bits(crd_word(kind2, base2, order2, permissions2)),
        base1 == base2 ==> crd_base_bits(crd_word(kind1, base1, order1, permissions1))
            == crd_base_bits(crd_word(kind2, base2, order2, permissions2)),
        order1 == order2 ==> crd_order_bits(crd_word(kind1, base1, order1, permissions1))
            == crd_order_bits(crd_word(kind2, base2, order2, permissions2)),
        permissions1 == permissions2 ==> crd_permission_bits(
            crd_word(kind1, base1, order1, permissions1),
        ) == crd_permission_bits(crd_word(kind2, base2, order2, permissions2)),
{
    lemma_crd_round_trip(kind1, base1, order1, permissions1);
    lemma_crd_round_trip(kind2, base2, order2, permissions2);
}

} // verus!
