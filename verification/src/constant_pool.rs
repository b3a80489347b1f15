use crate::errors::ClassFileError;
use crate::shared::{to_u16, u16_be};
use vstd::prelude::*;
use vstd::slice::slice_subrange;
use vstd::utf8::{decode_utf8, valid_utf8};

pub mod types;

pub use types::ConstantPoolEntry;
use types::{ConstantPoolEntryView, MethodRef, NameTypeDescriptor};

verus! {

/// Tag of an entry holding text.
pub const TAG_STRING: u8 = 1;

/// Tag of a class reference entry.
pub const TAG_CLASS_REF: u8 = 7;

/// Tag of a method reference entry.
pub const TAG_METHOD_REF: u8 = 10;

/// Tag of a name-and-type descriptor entry.
pub const TAG_NAME_TYPE_DESCRIPTOR: u8 = 12;

/// The most entries a pool can hold: the declared count is a 16-bit field
/// counting one reserved slot that is never materialized.
pub const POOL_MAX_LEN: usize = 0xfffe;

/// The view of a sequence of decoded entries.
pub open spec fn pool_entries_view(items: Seq<ConstantPoolEntry>) -> Seq<ConstantPoolEntryView> {
    items.map_values(|e: ConstantPoolEntry| e@)
}

/// The constant pool: an immutable, 1-indexed lookup table over the
/// decoded entries. Index 0 is reserved by the format and never
/// materialized, so entry `i` of the file sits at position `i - 1`; the
/// accessors take the 1-based on-disk index and convert internally.
pub struct ConstantPool {
    items: Vec<ConstantPoolEntry>,
}

impl View for ConstantPool {
    type V = Seq<ConstantPoolEntryView>;

    closed spec fn view(&self) -> Seq<ConstantPoolEntryView> {
        pool_entries_view(self.items@)
    }
}

impl ConstantPool {
    #[verifier::type_invariant]
    spec fn wf(self) -> bool {
        self.items@.len() <= POOL_MAX_LEN
    }

    /// The entry at the 1-based index `index`; the index must be in range,
    /// which only its caller can know.
    pub fn get_entry(&self, index: u16) -> (r: &ConstantPoolEntry)
        requires
            1 <= index <= self@.len(),
        ensures
            r@ == self@[index - 1],
    {
        &self.items[(index - 1) as usize]
    }

    /// All entries, in pool order.
    pub fn items(&self) -> (r: &Vec<ConstantPoolEntry>)
        ensures
            r@.len() == self@.len(),
            forall|i: int| 0 <= i < r@.len() ==> r@[i]@ == self@[i],
    {
        &self.items
    }

    /// How many entries the pool holds: one less than the count the file
    /// declared.
    pub fn len(&self) -> (r: u16)
        ensures
            r == self@.len(),
    {
        proof {
            use_type_invariant(self);
        }
        self.items.len() as u16
    }

    /// True when the pool holds no entry.
    pub fn is_empty(&self) -> (r: bool)
        ensures
            r == (self@.len() == 0),
    {
        self.len() == 0
    }

    /// The text of the `String` entry at the 1-based index `index`, or
    /// `UnexpectedConstantPoolType` when the entry there is of any other
    /// kind.
    pub fn string_entry(&self, index: u16) -> (r: Result<&String, ClassFileError>)
        requires
            1 <= index <= self@.len(),
        ensures
            (match self@[index - 1] {
                ConstantPoolEntryView::String(s) => r matches Ok(v) && v@ == s,
                _ => r matches Err(e) && e == ClassFileError::UnexpectedConstantPoolType,
            }),
    {
        match self.get_entry(index) {
            ConstantPoolEntry::String(value) => Ok(value),
            _ => Err(ClassFileError::UnexpectedConstantPoolType),
        }
    }

    /// The referenced index of the `ClassRef` entry at the 1-based index
    /// `index`, or `UnexpectedConstantPoolType` when the entry there is of
    /// any other kind.
    pub fn class_ref_entry(&self, index: usize) -> (r: Result<u16, ClassFileError>)
        requires
            1 <= index <= self@.len(),
        ensures
            (match self@[index - 1] {
                ConstantPoolEntryView::ClassRef(v) => r matches Ok(x) && x == v,
                _ => r matches Err(e) && e == ClassFileError::UnexpectedConstantPoolType,
            }),
    {
        proof {
            use_type_invariant(self);
        }
        match self.get_entry(index as u16) {
            ConstantPoolEntry::ClassRef(value) => Ok(*value),
            _ => Err(ClassFileError::UnexpectedConstantPoolType),
        }
    }

    /// The name-and-type descriptor at the 1-based index `index`, or
    /// `UnexpectedConstantPoolType` when the entry there is of any other
    /// kind.
    pub fn name_type_entry(&self, index: usize) -> (r: Result<
        NameTypeDescriptor,
        ClassFileError,
    >)
        requires
            1 <= index <= self@.len(),
        ensures
            (match self@[index - 1] {
                ConstantPoolEntryView::NameTypeDescriptor(n) => r matches Ok(x) && x == n,
                _ => r matches Err(e) && e == ClassFileError::UnexpectedConstantPoolType,
            }),
    {
        proof {
            use_type_invariant(self);
        }
        match self.get_entry(index as u16) {
            ConstantPoolEntry::NameTypeDescriptor(value) => Ok(*value),
            _ => Err(ClassFileError::UnexpectedConstantPoolType),
        }
    }
}

/// Relies on `str::from_utf8`: it returns `Ok` exactly when the bytes are
/// a valid UTF-8 encoding, and the string slice it returns holds those
/// bytes, so its characters are their decoding.
#[verifier::external_body]
fn utf8_from(bytes: &[u8]) -> (r: Option<&str>)
    ensures
        r is Some <==> valid_utf8(bytes@),
        (r matches Some(s) ==> s@ == decode_utf8(bytes@)),
{
    core::str::from_utf8(bytes).ok()
}

/// What decoding a text entry's payload at `p` yields: a 2-byte length,
/// then that many bytes of UTF-8 text, and the offset just past them.
pub open spec fn spec_string_at(data: Seq<u8>, p: int) -> Result<
    (ConstantPoolEntryView, int),
    ClassFileError,
> {
    if p + 2 > data.len() {
        Err(ClassFileError::Unknown)
    } else {
        let size = u16_be(data[p], data[p + 1]) as int;
        if p + 2 + size > data.len() {
            Err(ClassFileError::Unknown)
        } else {
            let content = data.subrange(p + 2, p + 2 + size);
            if valid_utf8(content) {
                Ok((ConstantPoolEntryView::String(decode_utf8(content)), p + 2 + size))
            } else {
                Err(ClassFileError::InvalidConstantPoolContent)
            }
        }
    }
}

/// What decoding a class reference's payload at `p` yields: one 2-byte
/// pool index, and the offset just past it.
pub open spec fn spec_class_ref_at(data: Seq<u8>, p: int) -> Result<
    (ConstantPoolEntryView, int),
    ClassFileError,
> {
    if p + 2 > data.len() {
        Err(ClassFileError::Unknown)
    } else {
        Ok((ConstantPoolEntryView::ClassRef(u16_be(data[p], data[p + 1])), p + 2))
    }
}

/// What decoding a method reference's payload at `p` yields: a class
/// reference index, then a name-and-type index, and the offset just past
/// them.
pub open spec fn spec_method_ref_at(data: Seq<u8>, p: int) -> Result<
    (ConstantPoolEntryView, int),
    ClassFileError,
> {
    if p + 4 > data.len() {
        Err(ClassFileError::Unknown)
    } else {
        Ok(
            (
                ConstantPoolEntryView::MethodRef(
                    MethodRef {
                        class_ref: u16_be(data[p], data[p + 1]),
                        name_type_ref: u16_be(data[p + 2], data[p + 3]),
                    },
                ),
                p + 4,
            ),
        )
    }
}

/// What decoding a name-and-type descriptor's payload at `p` yields: a
/// name index, then a type descriptor index, and the offset just past
/// them.
pub open spec fn spec_name_type_at(data: Seq<u8>, p: int) -> Result<
    (ConstantPoolEntryView, int),
    ClassFileError,
> {
    if p + 4 > data.len() {
        Err(ClassFileError::Unknown)
    } else {
        Ok(
            (
                ConstantPoolEntryView::NameTypeDescriptor(
                    NameTypeDescriptor {
                        name_ref: u16_be(data[p], data[p + 1]),
                        type_descriptor_ref: u16_be(data[p + 2], data[p + 3]),
                    },
                ),
                p + 4,
            ),
        )
    }
}

/// True of the tag bytes this decoder understands.
pub open spec fn recognized_tag(tag: u8) -> bool {
    tag == TAG_STRING || tag == TAG_CLASS_REF || tag == TAG_METHOD_REF
        || tag == TAG_NAME_TYPE_DESCRIPTOR
}

/// What decoding one entry whose tag byte sits at `p` yields: the entry
/// and the offset of the next one. An unrecognized tag is fatal, since the
/// payload length of such an entry is unknown and the cursor would no
/// longer be trustworthy.
pub open spec fn spec_entry_at(data: Seq<u8>, p: int) -> Result<
    (ConstantPoolEntryView, int),
    ClassFileError,
> {
    if !(0 <= p < data.len()) {
        Err(ClassFileError::Unknown)
    } else {
        let tag = data[p];
        if tag == TAG_STRING {
            spec_string_at(data, p + 1)
        } else if tag == TAG_CLASS_REF {
            spec_class_ref_at(data, p + 1)
        } else if tag == TAG_METHOD_REF {
            spec_method_ref_at(data, p + 1)
        } else if tag == TAG_NAME_TYPE_DESCRIPTOR {
            spec_name_type_at(data, p + 1)
        } else {
            Err(ClassFileError::UnknownConstantPoolEntryTag)
        }
    }
}

/// What decoding `n` entries one after another from `p` yields: each
/// entry's end offset is the start of the next, and the first failure
/// stops the walk.
pub open spec fn spec_pool_entries(data: Seq<u8>, p: int, n: nat) -> Result<
    (Seq<ConstantPoolEntryView>, int),
    ClassFileError,
>
    decreases n,
{
    if n == 0 {
        Ok((Seq::empty(), p))
    } else {
        match spec_entry_at(data, p) {
            Ok((entry, next)) => match spec_pool_entries(data, next, (n - 1) as nat) {
                Ok((rest, endp)) => Ok((seq![entry] + rest, endp)),
                Err(e) => Err(e),
            },
            Err(e) => Err(e),
        }
    }
}

/// `r` with `prefix` prepended to its entries when it succeeded.
pub open spec fn spec_append_entries(
    prefix: Seq<ConstantPoolEntryView>,
    r: Result<(Seq<ConstantPoolEntryView>, int), ClassFileError>,
) -> Result<(Seq<ConstantPoolEntryView>, int), ClassFileError> {
    match r {
        Ok((rest, endp)) => Ok((prefix + rest, endp)),
        Err(e) => Err(e),
    }
}

/// What decoding the whole pool of `data` yields: the declared count sits
/// at bytes 8 and 9, the entries start at byte 10, and `count - 1` of them
/// are decoded in sequence. A buffer too short for the count, or a count
/// of zero (which the format reserves), is a fault.
pub open spec fn spec_read_pool(data: Seq<u8>) -> Result<
    (Seq<ConstantPoolEntryView>, int),
    ClassFileError,
> {
    if data.len() < 10 {
        Err(ClassFileError::Unknown)
    } else {
        let count = u16_be(data[8], data[9]);
        if count == 0 {
            Err(ClassFileError::Unknown)
        } else {
            spec_pool_entries(data, 10, (count - 1) as nat)
        }
    }
}

/// A successful walk over `n` entries yields exactly `n` of them.
proof fn lemma_pool_entries_len(data: Seq<u8>, p: int, n: nat)
    ensures
        (spec_pool_entries(data, p, n) matches Ok((entries, _)) ==> entries.len() == n),
    decreases n,
{
    if n > 0 {
        match spec_entry_at(data, p) {
            Ok((entry, next)) => {
                lemma_pool_entries_len(data, next, (n - 1) as nat);
            },
            Err(_) => {},
        }
    }
}

/// Law: every decoded pool holds exactly one entry fewer than the count
/// the file declares at bytes 8 and 9, mirroring the reserved slot the
/// format counts but never materializes.
pub proof fn lemma_pool_len_is_declared_count_minus_one(
    data: Seq<u8>,
    entries: Seq<ConstantPoolEntryView>,
    next: int,
)
    requires
        spec_read_pool(data) == Ok::<(Seq<ConstantPoolEntryView>, int), ClassFileError>(
            (entries, next),
        ),
    ensures
        data.len() >= 10,
        u16_be(data[8], data[9]) >= 1,
        entries.len() == u16_be(data[8], data[9]) - 1,
{
    let count = u16_be(data[8], data[9]);
    lemma_pool_entries_len(data, 10, (count - 1) as nat);
}

/// Law: a pool whose first `i` entries decode cleanly, with the tag byte
/// of the entry after them unrecognized, fails to decode as a whole with
/// `UnknownConstantPoolEntryTag`, whenever more than `i` entries are
/// asked for.
pub proof fn lemma_unknown_tag_stops_pool(
    data: Seq<u8>,
    p: int,
    n: nat,
    i: nat,
    prefix: Seq<ConstantPoolEntryView>,
    bad_pos: int,
)
    requires
        i < n,
        spec_pool_entries(data, p, i) == Ok::<(Seq<ConstantPoolEntryView>, int), ClassFileError>(
            (prefix, bad_pos),
        ),
        0 <= bad_pos < data.len(),
        !recognized_tag(data[bad_pos]),
    ensures
        spec_pool_entries(data, p, n) == Err::<(Seq<ConstantPoolEntryView>, int), ClassFileError>(
            ClassFileError::UnknownConstantPoolEntryTag,
        ),
    decreases i,
{
    if i == 0 {
        assert(bad_pos == p);
    } else {
        match spec_entry_at(data, p) {
            Ok((entry, next)) => {
                match spec_pool_entries(data, next, (i - 1) as nat) {
                    Ok((rest, endp)) => {
                        lemma_unknown_tag_stops_pool(
                            data,
                            next,
                            (n - 1) as nat,
                            (i - 1) as nat,
                            rest,
                            bad_pos,
                        );
                    },
                    Err(_) => {
                        assert(false);
                    },
                }
            },
            Err(_) => {
                assert(false);
            },
        }
    }
}

/// Decodes a text entry's payload: length, then that many bytes of UTF-8.
fn read_constant_pool_entry_string(data: &[u8], from_idx: usize) -> (r: Result<
    (ConstantPoolEntry, usize),
    ClassFileError,
>)
    ensures
        (match spec_string_at(data@, from_idx as int) {
            Ok((entry, next)) => r matches Ok(p) && p.0@ == entry && p.1 == next,
            Err(e) => r matches Err(re) && re == e,
        }),
{
    if data.len() < 2 || from_idx > data.len() - 2 {
        return Err(ClassFileError::Unknown);
    }
    let size = to_u16(data, from_idx, from_idx + 1) as usize;
    if size > data.len() - (from_idx + 2) {
        return Err(ClassFileError::Unknown);
    }
    let content = slice_subrange(data, from_idx + 2, from_idx + 2 + size);
    match utf8_from(content) {
        Some(value) => Ok((ConstantPoolEntry::String(value.to_owned()), from_idx + 2 + size)),
        None => Err(ClassFileError::InvalidConstantPoolContent),
    }
}

/// Decodes a class reference's payload: one 2-byte pool index.
fn read_constant_pool_entry_class_ref(data: &[u8], from_idx: usize) -> (r: Result<
    (ConstantPoolEntry, usize),
    ClassFileError,
>)
    ensures
        (match spec_class_ref_at(data@, from_idx as int) {
            Ok((entry, next)) => r matches Ok(p) && p.0@ == entry && p.1 == next,
            Err(e) => r matches Err(re) && re == e,
        }),
{
    if data.len() < 2 || from_idx > data.len() - 2 {
        return Err(ClassFileError::Unknown);
    }
    let class_ref = to_u16(data, from_idx, from_idx + 1);
    Ok((ConstantPoolEntry::ClassRef(class_ref), from_idx + 2))
}

/// Decodes a method reference's payload: a class reference index, then a
/// name-and-type index.
fn read_constant_pool_entry_method_ref(data: &[u8], from_idx: usize) -> (r: Result<
    (ConstantPoolEntry, usize),
    ClassFileError,
>)
    ensures
        (match spec_method_ref_at(data@, from_idx as int) {
            Ok((entry, next)) => r matches Ok(p) && p.0@ == entry && p.1 == next,
            Err(e) => r matches Err(re) && re == e,
        }),
{
    if data.len() < 4 || from_idx > data.len() - 4 {
        return Err(ClassFileError::Unknown);
    }
    let class_ref = to_u16(data, from_idx, from_idx + 1);
    let name_type_ref = to_u16(data, from_idx + 2, from_idx + 3);

    let method_ref = MethodRef { class_ref, name_type_ref };
    Ok((ConstantPoolEntry::MethodRef(method_ref), from_idx + 4))
}

/// Decodes a name-and-type descriptor's payload: a name index, then a
/// type descriptor index.
fn read_constant_pool_entry_name_type_descriptor(data: &[u8], from_idx: usize) -> (r: Result<
    (ConstantPoolEntry, usize),
    ClassFileError,
>)
    ensures
        (match spec_name_type_at(data@, from_idx as int) {
            Ok((entry, next)) => r matches Ok(p) && p.0@ == entry && p.1 == next,
            Err(e) => r matches Err(re) && re == e,
        }),
{
    if data.len() < 4 || from_idx > data.len() - 4 {
        return Err(ClassFileError::Unknown);
    }
    let name_ref = to_u16(data, from_idx, from_idx + 1);
    let type_descriptor_ref = to_u16(data, from_idx + 2, from_idx + 3);

    let descriptor = NameTypeDescriptor { name_ref, type_descriptor_ref };
    Ok((ConstantPoolEntry::NameTypeDescriptor(descriptor), from_idx + 4))
}

/// Decodes one entry whose tag byte sits at `from_idx`, dispatching on the
/// tag to the decoder that knows the payload's length.
fn read_constant_pool_entry(data: &[u8], from_idx: usize) -> (r: Result<
    (ConstantPoolEntry, usize),
    ClassFileError,
>)
    ensures
        (match spec_entry_at(data@, from_idx as int) {
            Ok((entry, next)) => r matches Ok(p) && p.0@ == entry && p.1 == next
                && from_idx < next <= data@.len(),
            Err(e) => r matches Err(re) && re == e,
        }),
{
    if from_idx >= data.len() {
        return Err(ClassFileError::Unknown);
    }
    let tag = data[from_idx];
    match tag {
        TAG_STRING => read_constant_pool_entry_string(data, from_idx + 1),
        TAG_CLASS_REF => read_constant_pool_entry_class_ref(data, from_idx + 1),
        TAG_METHOD_REF => read_constant_pool_entry_method_ref(data, from_idx + 1),
        TAG_NAME_TYPE_DESCRIPTOR => read_constant_pool_entry_name_type_descriptor(
            data,
            from_idx + 1,
        ),
        _ => Err(ClassFileError::UnknownConstantPoolEntryTag),
    }
}

/// Decodes the whole constant pool of `data` and returns it with the
/// offset just past its last entry, where the access flags begin.
pub fn read_constant_pool(data: &[u8]) -> (r: Result<(ConstantPool, usize), ClassFileError>)
    ensures
        (match spec_read_pool(data@) {
            Ok((entries, next)) => r matches Ok(p) && p.0@ == entries && p.1 == next,
            Err(e) => r matches Err(re) && re == e,
        }),
{
    if data.len() < 10 {
        return Err(ClassFileError::Unknown);
    }
    let pool_size = to_u16(data, 8, 9);
    if pool_size == 0 {
        return Err(ClassFileError::Unknown);
    }
    let n: usize = (pool_size - 1) as usize;

    let mut items: Vec<ConstantPoolEntry> = Vec::new();
    let mut from_idx: usize = 10;
    let mut i: usize = 0;

    proof {
        match spec_pool_entries(data@, 10, n as nat) {
            Ok((entries, endp)) => {
                assert(pool_entries_view(items@) + entries =~= entries);
            },
            Err(_) => {},
        }
    }
    while i < n
        invariant
            i <= n,
            n <= POOL_MAX_LEN,
            items@.len() == i,
            spec_read_pool(data@) == spec_pool_entries(data@, 10, n as nat),
            spec_read_pool(data@) == spec_append_entries(
                pool_entries_view(items@),
                spec_pool_entries(data@, from_idx as int, (n - i) as nat),
            ),
        decreases n - i,
    {
        let ghost rem = (n - i) as nat;
        match read_constant_pool_entry(data, from_idx) {
            Ok(item) => {
                proof {
                    let prefix = pool_entries_view(items@);
                    let (entry, next) = spec_entry_at(data@, from_idx as int)->Ok_0;
                    match spec_pool_entries(data@, next, (rem - 1) as nat) {
                        Ok((rest, endp)) => {
                            assert(spec_pool_entries(data@, from_idx as int, rem) == Ok::<
                                _,
                                ClassFileError,
                            >((seq![entry] + rest, endp)));
                            assert(prefix + (seq![entry] + rest) =~= pool_entries_view(
                                items@.push(item.0),
                            ) + rest);
                        },
                        Err(e) => {
                            assert(spec_pool_entries(data@, from_idx as int, rem) == Err::<
                                (Seq<ConstantPoolEntryView>, int),
                                _,
                            >(e));
                        },
                    }
                }
                items.push(item.0);
                from_idx = item.1;
                i = i + 1;
            },
            Err(error) => {
                return Err(error);
            },
        }
    }
    proof {
        assert(spec_pool_entries(data@, from_idx as int, 0) == Ok::<_, ClassFileError>((
            Seq::<ConstantPoolEntryView>::empty(),
            from_idx as int,
        )));
        assert(pool_entries_view(items@) + Seq::<ConstantPoolEntryView>::empty()
            =~= pool_entries_view(items@));
    }
    Ok((ConstantPool { items }, from_idx))
}

} // verus!
