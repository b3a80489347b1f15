use crate::constant_pool::types::{ConstantPoolEntryView, Version};
use crate::constant_pool::ConstantPool;
use vstd::prelude::*;

verus! {

/// Every flag bit the format defines for a class or interface, or-ed
/// together; a flag word carrying any bit outside this mask is invalid.
pub const FLAG_MASK: u16 = 0x0001 | 0x0010 | 0x0020 | 0x0200 | 0x0400 | 0x1000 | 0x2000
    | 0x4000;

/// True when `bits` sets no flag outside the recognized mask.
pub open spec fn spec_valid_flags(bits: u16) -> bool {
    bits & !FLAG_MASK == 0
}

/// True when every bit of `flags` is set in `bits`.
pub open spec fn spec_contains_flags(bits: u16, flags: u16) -> bool {
    bits & flags == flags
}

/// Access permissions to and properties of a class or interface: a set of
/// bits over the fixed enumeration below, holding only recognized bits.
#[derive(Debug, Clone, Copy, PartialEq, Eq, Structural)]
pub struct AccessFlags {
    bits: u16,
}

impl View for AccessFlags {
    type V = u16;

    closed spec fn view(&self) -> u16 {
        self.bits
    }
}

impl AccessFlags {
    /// Declared public; may be accessed from outside its package.
    pub const ACC_PUBLIC: u16 = 0x0001;

    /// Declared final; no subclasses allowed.
    pub const ACC_FINAL: u16 = 0x0010;

    /// Treat superclass methods specially under `invokespecial`.
    pub const ACC_SUPER: u16 = 0x0020;

    /// Is an interface, not a class.
    pub const ACC_INTERFACE: u16 = 0x0200;

    /// Declared abstract; must not be instantiated.
    pub const ACC_ABSTRACT: u16 = 0x0400;

    /// Declared synthetic; not present in the source code.
    pub const ACC_SYNTHETIC: u16 = 0x1000;

    /// Declared as an annotation type.
    pub const ACC_ANNOTATION: u16 = 0x2000;

    /// Declared as an enum type.
    pub const ACC_ENUM: u16 = 0x4000;

    /// Wraps a flag word, accepting it exactly when it holds no bit
    /// outside the recognized set.
    pub fn from_bits(bits: u16) -> (r: Option<AccessFlags>)
        ensures
            r is Some <==> spec_valid_flags(bits),
            (r matches Some(f) ==> f@ == bits),
    {
        if bits & !FLAG_MASK == 0 {
            Some(AccessFlags { bits })
        } else {
            None
        }
    }

    /// True when every bit of `flags` is set in this value.
    pub fn contains(&self, flags: u16) -> (r: bool)
        ensures
            r == spec_contains_flags(self@, flags),
    {
        self.bits & flags == flags
    }

    /// The raw flag word.
    pub fn bits(&self) -> (r: u16)
        ensures
            r == self@,
    {
        self.bits
    }
}

/// The class header: the pool index of the class being described, the pool
/// index of its immediate superclass, and its interfaces in declaration
/// order. Each interface slot has already been resolved through the pool:
/// the stored value is the index of the `String` entry holding the
/// interface's name.
pub struct ClassDefinition {
    pub this_idx: usize,
    pub super_idx: usize,
    pub interfaces: Vec<usize>,
}

/// The mathematical shape of a [`ClassDefinition`].
#[verifier::ext_equal]
pub struct ClassDefinitionView {
    pub this_idx: usize,
    pub super_idx: usize,
    pub interfaces: Seq<usize>,
}

impl View for ClassDefinition {
    type V = ClassDefinitionView;

    open spec fn view(&self) -> ClassDefinitionView {
        ClassDefinitionView {
            this_idx: self.this_idx,
            super_idx: self.super_idx,
            interfaces: self.interfaces@,
        }
    }
}

/// A decoded class file: the validated version pair, the constant pool,
/// the validated access flags and the class header.
pub struct ClassFile {
    pub version: Version,
    pub constant_pool: ConstantPool,
    pub access_flags: AccessFlags,
    pub class: ClassDefinition,
}

/// The mathematical shape of a [`ClassFile`]; the access flags stand as
/// their raw word.
#[verifier::ext_equal]
pub struct ClassFileView {
    pub version: Version,
    pub constant_pool: Seq<ConstantPoolEntryView>,
    pub access_flags: u16,
    pub class: ClassDefinitionView,
}

impl View for ClassFile {
    type V = ClassFileView;

    open spec fn view(&self) -> ClassFileView {
        ClassFileView {
            version: self.version,
            constant_pool: self.constant_pool@,
            access_flags: self.access_flags@,
            class: self.class@,
        }
    }
}

} // verus!
