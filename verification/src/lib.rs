//! Decoder for the binary class file format used by the Java virtual
//! machine: magic number, version, constant pool, access flags and the
//! class header (this-class, super-class and interface list).
//!
//! Decoding is a single pass over an immutable byte buffer. Each step
//! consumes a byte offset produced by the step before it and returns the
//! offset to resume from; the first failure short-circuits the rest, so no
//! partial result is ever returned. What every step yields is pinned down
//! by a specification function over the byte sequence, and each reader is
//! proved to return exactly that.

pub mod constant_pool;
pub mod errors;
pub mod shared;
pub mod types;
pub mod version;

use vstd::prelude::*;

use constant_pool::types::ConstantPoolEntryView;
use constant_pool::{spec_read_pool, ConstantPool};
use shared::u16_be;
use version::spec_read_version;

pub use constant_pool::ConstantPoolEntry;
pub use errors::ClassFileError;
pub use shared::to_u16;
pub use types::{AccessFlags, ClassDefinition, ClassFile};
pub use version::read_version;

use types::{spec_valid_flags, ClassDefinitionView, ClassFileView};

verus! {

/// The magic number every class file begins with.
pub const CAFEBABE: u32 = 0xcafe_babe;

/// The big-endian 32-bit value encoded by four bytes.
pub open spec fn u32_be(b0: u8, b1: u8, b2: u8, b3: u8) -> u32 {
    ((b0 as int) * 0x1000000 + (b1 as int) * 0x10000 + (b2 as int) * 0x100 + (b3 as int)) as u32
}

/// What checking the magic number of `data` yields: the first four bytes
/// must encode [`CAFEBABE`]. A buffer too short to hold them is a fault,
/// kept apart from a mismatch.
pub open spec fn spec_read_magic(data: Seq<u8>) -> Result<(), ClassFileError> {
    if data.len() < 4 {
        Err(ClassFileError::Unknown)
    } else if u32_be(data[0], data[1], data[2], data[3]) == CAFEBABE {
        Ok(())
    } else {
        Err(ClassFileError::InvalidMagicNumber)
    }
}

/// What reading the access flags at `p` yields: one 2-byte word that may
/// set only recognized flag bits, and the offset just past it.
pub open spec fn spec_read_access_flags(data: Seq<u8>, p: int) -> Result<
    (u16, int),
    ClassFileError,
> {
    if p + 2 > data.len() {
        Err(ClassFileError::Unknown)
    } else {
        let word = u16_be(data[p], data[p + 1]);
        if spec_valid_flags(word) {
            Ok((word, p + 2))
        } else {
            Err(ClassFileError::InvalidAccessFlags)
        }
    }
}

/// What resolving the interface slots between `p` and `endp` yields: each
/// slot holds a pool index that must reference a `ClassRef` entry, and the
/// value resolved from each slot is that entry's referenced index — the
/// `String` entry holding the interface's name. A slot whose index lies
/// outside the pool is a fault.
pub open spec fn spec_read_interfaces(
    data: Seq<u8>,
    p: int,
    endp: int,
    pool: Seq<ConstantPoolEntryView>,
) -> Result<Seq<usize>, ClassFileError>
    decreases endp - p,
{
    if p + 2 > endp {
        Ok(Seq::empty())
    } else {
        let index = u16_be(data[p], data[p + 1]) as int;
        if !(1 <= index <= pool.len()) {
            Err(ClassFileError::Unknown)
        } else {
            match pool[index - 1] {
                ConstantPoolEntryView::ClassRef(name_idx) => {
                    match spec_read_interfaces(data, p + 2, endp, pool) {
                        Ok(rest) => Ok(seq![name_idx as usize] + rest),
                        Err(e) => Err(e),
                    }
                },
                _ => Err(ClassFileError::UnexpectedConstantPoolType),
            }
        }
    }
}

/// What reading the class header at `p` yields: the this-class index, the
/// super-class index, the interface count and then that many interface
/// slots, each resolved through the pool; and the offset just past the
/// interface list.
pub open spec fn spec_read_class_definition(
    data: Seq<u8>,
    p: int,
    pool: Seq<ConstantPoolEntryView>,
) -> Result<(ClassDefinitionView, int), ClassFileError> {
    if p + 6 > data.len() {
        Err(ClassFileError::Unknown)
    } else {
        let this_idx = u16_be(data[p], data[p + 1]);
        let super_idx = u16_be(data[p + 2], data[p + 3]);
        let interface_count = u16_be(data[p + 4], data[p + 5]);
        let endp = p + 6 + 2 * (interface_count as int);
        if endp > data.len() {
            Err(ClassFileError::Unknown)
        } else {
            match spec_read_interfaces(data, p + 6, endp, pool) {
                Ok(interfaces) => Ok(
                    (
                        ClassDefinitionView {
                            this_idx: this_idx as usize,
                            super_idx: super_idx as usize,
                            interfaces,
                        },
                        endp,
                    ),
                ),
                Err(e) => Err(e),
            }
        }
    }
}

/// What decoding a whole class file yields: the magic number is checked
/// first, then the version, then the constant pool starting at byte 10,
/// then the access flags just past the pool, then the class header just
/// past the flags. The first failure is the result; no partial class file
/// exists.
pub open spec fn spec_read_class_data(data: Seq<u8>) -> Result<ClassFileView, ClassFileError> {
    match spec_read_magic(data) {
        Err(e) => Err(e),
        Ok(_) => match spec_read_version(data) {
            Err(e) => Err(e),
            Ok(version) => match spec_read_pool(data) {
                Err(e) => Err(e),
                Ok((pool, pool_end)) => match spec_read_access_flags(data, pool_end) {
                    Err(e) => Err(e),
                    Ok((flags, flags_end)) => match spec_read_class_definition(
                        data,
                        flags_end,
                        pool,
                    ) {
                        Err(e) => Err(e),
                        Ok((class, _)) => Ok(
                            ClassFileView {
                                version,
                                constant_pool: pool,
                                access_flags: flags,
                                class,
                            },
                        ),
                    },
                },
            },
        },
    }
}

/// Law: a class file that decodes successfully carries the major version
/// encoded at bytes 6 and 7 of the input, and the minor version at bytes
/// 4 and 5.
pub proof fn lemma_version_matches_bytes(data: Seq<u8>, class_file: ClassFileView)
    requires
        spec_read_class_data(data) == Ok::<ClassFileView, ClassFileError>(class_file),
    ensures
        data.len() >= 8,
        class_file.version.major == u16_be(data[6], data[7]),
        class_file.version.minor == u16_be(data[4], data[5]),
{
}

/// Law: when the magic number and the version are in order but some pool
/// entry carries an unrecognized tag — the first `i` entries decode
/// cleanly and the tag byte just after them is outside the recognized set
/// — decoding the class file fails with `UnknownConstantPoolEntryTag`, so
/// no class file is produced.
pub proof fn lemma_unknown_tag_yields_no_class_file(
    data: Seq<u8>,
    i: nat,
    prefix: Seq<ConstantPoolEntryView>,
    bad_pos: int,
)
    requires
        spec_read_magic(data) is Ok,
        spec_read_version(data) is Ok,
        data.len() >= 10,
        u16_be(data[8], data[9]) >= 1,
        i < u16_be(data[8], data[9]) - 1,
        constant_pool::spec_pool_entries(data, 10, i) == Ok::<
            (Seq<ConstantPoolEntryView>, int),
            ClassFileError,
        >((prefix, bad_pos)),
        0 <= bad_pos < data.len(),
        !constant_pool::recognized_tag(data[bad_pos]),
    ensures
        spec_read_class_data(data) == Err::<ClassFileView, ClassFileError>(
            ClassFileError::UnknownConstantPoolEntryTag,
        ),
{
    constant_pool::lemma_unknown_tag_stops_pool(
        data,
        10,
        (u16_be(data[8], data[9]) - 1) as nat,
        i,
        prefix,
        bad_pos,
    );
}

/// Checks that the buffer begins with the magic number.
fn read_magic_number(data: &[u8]) -> (r: Result<(), ClassFileError>)
    ensures
        (match spec_read_magic(data@) {
            Ok(_) => r is Ok,
            Err(e) => r matches Err(re) && re == e,
        }),
{
    if data.len() < 4 {
        return Err(ClassFileError::Unknown);
    }
    let magic_number = (data[0] as u32) * 0x1000000 + (data[1] as u32) * 0x10000 + (data[2]
        as u32) * 0x100 + (data[3] as u32);

    if magic_number == CAFEBABE {
        Ok(())
    } else {
        Err(ClassFileError::InvalidMagicNumber)
    }
}

/// Reads and validates the 2-byte access flag word at `start_idx`.
fn read_access_flags(data: &[u8], start_idx: usize) -> (r: Result<
    (AccessFlags, usize),
    ClassFileError,
>)
    ensures
        (match spec_read_access_flags(data@, start_idx as int) {
            Ok((word, next)) => r matches Ok(p) && p.0@ == word && p.1 == next,
            Err(e) => r matches Err(re) && re == e,
        }),
{
    if data.len() < 2 || start_idx > data.len() - 2 {
        return Err(ClassFileError::Unknown);
    }
    let access_flags = to_u16(data, start_idx, start_idx + 1);
    match AccessFlags::from_bits(access_flags) {
        Some(access_flags) => Ok((access_flags, start_idx + 2)),
        None => Err(ClassFileError::InvalidAccessFlags),
    }
}

/// Resolves the interface slots between `start_idx` and `end_idx` through
/// the pool, in declaration order.
fn read_interfaces(
    data: &[u8],
    start_idx: usize,
    end_idx: usize,
    constant_pool: &ConstantPool,
) -> (r: Result<Vec<usize>, ClassFileError>)
    requires
        end_idx <= data@.len(),
    ensures
        (match spec_read_interfaces(data@, start_idx as int, end_idx as int, constant_pool@) {
            Ok(interfaces) => r matches Ok(v) && v@ == interfaces,
            Err(e) => r matches Err(re) && re == e,
        }),
{
    let mut result: Vec<usize> = Vec::new();
    let mut current_idx = start_idx;

    while current_idx < end_idx && end_idx - current_idx >= 2
        invariant
            end_idx <= data@.len(),
            start_idx <= current_idx,
            (match spec_read_interfaces(data@, current_idx as int, end_idx as int, constant_pool@) {
                Ok(rest) => spec_read_interfaces(
                    data@,
                    start_idx as int,
                    end_idx as int,
                    constant_pool@,
                ) matches Ok(all) && all == result@ + rest,
                Err(e) => spec_read_interfaces(
                    data@,
                    start_idx as int,
                    end_idx as int,
                    constant_pool@,
                ) == Err::<Seq<usize>, _>(e),
            }),
        decreases end_idx - current_idx,
    {
        let iface_name_idx = to_u16(data, current_idx, current_idx + 1);
        if iface_name_idx == 0 || iface_name_idx as usize > constant_pool.len() as usize {
            return Err(ClassFileError::Unknown);
        }
        let class_name_idx = match constant_pool.class_ref_entry(iface_name_idx as usize) {
            Ok(value) => value as usize,
            Err(error) => {
                return Err(error);
            },
        };
        proof {
            match spec_read_interfaces(
                data@,
                current_idx as int + 2,
                end_idx as int,
                constant_pool@,
            ) {
                Ok(rest) => {
                    assert(result@ + (seq![class_name_idx] + rest) =~= result@.push(class_name_idx)
                        + rest);
                },
                Err(_) => {},
            }
        }
        result.push(class_name_idx);
        current_idx = current_idx + 2;
    }
    proof {
        assert(result@ + Seq::<usize>::empty() =~= result@);
    }
    Ok(result)
}

/// Reads the class header at `start_idx`: this-class, super-class,
/// interface count and the interface list, resolved through the pool.
fn read_class_definition(
    data: &[u8],
    start_idx: usize,
    constant_pool: &ConstantPool,
) -> (r: Result<(ClassDefinition, usize), ClassFileError>)
    ensures
        (match spec_read_class_definition(data@, start_idx as int, constant_pool@) {
            Ok((class, next)) => r matches Ok(p) && p.0@ == class && p.1 == next,
            Err(e) => r matches Err(re) && re == e,
        }),
{
    if data.len() < 6 || start_idx > data.len() - 6 {
        return Err(ClassFileError::Unknown);
    }
    let this_idx = to_u16(data, start_idx, start_idx + 1);
    let super_idx = to_u16(data, start_idx + 2, start_idx + 3);
    let interface_count = to_u16(data, start_idx + 4, start_idx + 5);
    let interface_bytes: usize = 2 * (interface_count as usize);
    if interface_bytes > data.len() - (start_idx + 6) {
        return Err(ClassFileError::Unknown);
    }
    let interface_end_idx = start_idx + 6 + interface_bytes;
    let interfaces = match read_interfaces(data, start_idx + 6, interface_end_idx, constant_pool) {
        Ok(value) => value,
        Err(error) => {
            return Err(error);
        },
    };

    let class_definition = ClassDefinition {
        this_idx: this_idx as usize,
        super_idx: super_idx as usize,
        interfaces,
    };
    Ok((class_definition, interface_end_idx))
}

/// Decodes one complete class file from `data`, or reports the first
/// failure met along the way.
pub fn read_class_data(data: &[u8]) -> (r: Result<ClassFile, ClassFileError>)
    ensures
        (match spec_read_class_data(data@) {
            Ok(class_file) => r matches Ok(cf) && cf@ == class_file,
            Err(e) => r matches Err(re) && re == e,
        }),
{
    if let Err(error) = read_magic_number(data) {
        return Err(error);
    }
    let version = match read_version(data) {
        Ok(value) => value,
        Err(error) => {
            return Err(error);
        },
    };
    let constant_pool = match constant_pool::read_constant_pool(data) {
        Ok(value) => value,
        Err(error) => {
            return Err(error);
        },
    };
    let access_flags = match read_access_flags(data, constant_pool.1) {
        Ok(value) => value,
        Err(error) => {
            return Err(error);
        },
    };
    let class_definition = match read_class_definition(data, access_flags.1, &constant_pool.0) {
        Ok(value) => value,
        Err(error) => {
            return Err(error);
        },
    };

    Ok(
        ClassFile {
            version,
            constant_pool: constant_pool.0,
            access_flags: access_flags.0,
            class: class_definition.0,
        },
    )
}

} // verus!
