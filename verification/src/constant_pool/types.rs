use vstd::prelude::*;

verus! {

/// One entry of the constant pool, discriminated on disk by a one-byte tag.
///
/// Only the four tags this decoder understands carry a payload; the other
/// variants stand for tags the format defines but this decoder does not
/// read yet, kept distinct from one another and from `Empty` so that adding
/// one later does not disturb the rest.
#[derive(Debug)]
pub enum ConstantPoolEntry {
    /// An entry holding text (tag 1).
    String(String),
    /// An entry holding an `int`.
    Integer(),
    /// An entry holding a `float`.
    Float(),
    /// An entry holding a `long`.
    Long(),
    /// An entry holding a `double`.
    Double(),
    /// A reference to a class (tag 7): the pool index of the `String` entry
    /// holding the binary name of the class.
    ClassRef(u16),
    /// A reference to a `String` entry.
    StringRef(),
    /// A reference to a field in a class.
    FieldRef(),
    /// A reference to a method in a class (tag 10).
    MethodRef(MethodRef),
    /// A reference to a method in an interface.
    InterfaceMethodRef(),
    /// A name paired with a type descriptor (tag 12).
    NameTypeDescriptor(NameTypeDescriptor),
    /// An entry holding a method handle.
    MethodHandle(),
    /// An entry holding the type description of a method.
    MethodType(),
    /// An entry holding a dynamically computed constant.
    Dynamic(),
    /// An entry holding a bootstrap method for `invokedynamic`.
    InvokeDynamic(),
    /// An entry holding a module identification.
    Module(),
    /// An entry holding a package identification.
    Package(),
    /// Placeholder for empty or unimplemented constant pool entries.
    Empty(),
}

/// The minor and major version read from bytes 4 to 7 of a class file.
#[derive(Debug, Clone, Copy, PartialEq, Eq, Structural)]
pub struct Version {
    pub major: u16,
    pub minor: u16,
}

/// Payload of a method reference entry: the pool index of the class it
/// belongs to and the pool index of its name-and-type descriptor.
#[derive(Debug, Clone, Copy, PartialEq, Eq, Structural)]
pub struct MethodRef {
    pub class_ref: u16,
    pub name_type_ref: u16,
}

/// Payload of a name-and-type entry: the pool index of the name and the
/// pool index of the type descriptor, both expected to be `String` entries.
#[derive(Debug, Clone, Copy, PartialEq, Eq, Structural)]
pub struct NameTypeDescriptor {
    pub name_ref: u16,
    pub type_descriptor_ref: u16,
}

/// The mathematical shape of a [`ConstantPoolEntry`]: the same variants,
/// with text held as a sequence of characters.
pub enum ConstantPoolEntryView {
    String(Seq<char>),
    Integer(),
    Float(),
    Long(),
    Double(),
    ClassRef(u16),
    StringRef(),
    FieldRef(),
    MethodRef(MethodRef),
    InterfaceMethodRef(),
    NameTypeDescriptor(NameTypeDescriptor),
    MethodHandle(),
    MethodType(),
    Dynamic(),
    InvokeDynamic(),
    Module(),
    Package(),
    Empty(),
}

impl View for ConstantPoolEntry {
    type V = ConstantPoolEntryView;

    open spec fn view(&self) -> ConstantPoolEntryView {
        match self {
            ConstantPoolEntry::String(s) => ConstantPoolEntryView::String(s@),
            ConstantPoolEntry::Integer() => ConstantPoolEntryView::Integer(),
            ConstantPoolEntry::Float() => ConstantPoolEntryView::Float(),
            ConstantPoolEntry::Long() => ConstantPoolEntryView::Long(),
            ConstantPoolEntry::Double() => ConstantPoolEntryView::Double(),
            ConstantPoolEntry::ClassRef(i) => ConstantPoolEntryView::ClassRef(*i),
            ConstantPoolEntry::StringRef() => ConstantPoolEntryView::StringRef(),
            ConstantPoolEntry::FieldRef() => ConstantPoolEntryView::FieldRef(),
            ConstantPoolEntry::MethodRef(m) => ConstantPoolEntryView::MethodRef(*m),
            ConstantPoolEntry::InterfaceMethodRef() => ConstantPoolEntryView::InterfaceMethodRef(),
            ConstantPoolEntry::NameTypeDescriptor(n) => {
                ConstantPoolEntryView::NameTypeDescriptor(*n)
            },
            ConstantPoolEntry::MethodHandle() => ConstantPoolEntryView::MethodHandle(),
            ConstantPoolEntry::MethodType() => ConstantPoolEntryView::MethodType(),
            ConstantPoolEntry::Dynamic() => ConstantPoolEntryView::Dynamic(),
            ConstantPoolEntry::InvokeDynamic() => ConstantPoolEntryView::InvokeDynamic(),
            ConstantPoolEntry::Module() => ConstantPoolEntryView::Module(),
            ConstantPoolEntry::Package() => ConstantPoolEntryView::Package(),
            ConstantPoolEntry::Empty() => ConstantPoolEntryView::Empty(),
        }
    }
}

} // verus!
