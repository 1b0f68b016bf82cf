//! Enumerations: their records in foreign memory and their decoded
//! description.

use vstd::prelude::*;
use crate::address::ForeignAddress;
use crate::error::ProcessMemoryError;
use crate::layout::{address_at, le_address, le_u32, le_u64, u32_at, u64_at, FixedLayout};
use crate::memory::{
    decode_all, deep_ok, exact_answer, lemma_decode_all_step, prepend, text_in, Memory, STRING_WINDOW,
};
use crate::reader::{answer_view, ProcessMemoryReader};
use crate::type_info::TypeInfoGenerated;

verus! {

/// A decoded enumeration.
#[derive(Debug, PartialEq, Eq)]
pub struct Enum {
    pub name: String,
    pub hash: u32,
    pub values: Vec<EnumValue>,
}

/// A decoded value of an enumeration.
#[derive(Debug, PartialEq, Eq)]
pub struct EnumValue {
    pub name: String,
    /// The stored 64 bits, whatever width the enumeration is declared with.
    pub value: u64,
    pub hash: u64,
}

/// What an `Enum` holds, as mathematical values.
pub struct EnumView {
    pub name: Seq<char>,
    pub hash: u32,
    pub values: Seq<EnumValueView>,
}

/// What an `EnumValue` holds, as mathematical values.
pub struct EnumValueView {
    pub name: Seq<char>,
    pub value: u64,
    pub hash: u64,
}

impl DeepView for EnumValue {
    type V = EnumValueView;

    open spec fn deep_view(&self) -> EnumValueView {
        EnumValueView { name: self.name@, value: self.value, hash: self.hash }
    }
}

impl DeepView for Enum {
    type V = EnumView;

    open spec fn deep_view(&self) -> EnumView {
        EnumView { name: self.name@, hash: self.hash, values: self.values.deep_view() }
    }
}

/// The integer type that an enumeration is declared with.
#[derive(Clone, Copy, Debug, PartialEq, Eq, Structural)]
pub enum EnumType {
    EnumS8,
    EnumU8,
    EnumS16,
    EnumU16,
    EnumS32,
    EnumU32,
    EnumS64,
    EnumU64,
}

impl EnumType {
    /// The type that the stored tag `tag` names; none for a tag above 7.
    pub open spec fn spec_from_tag(tag: u32) -> Option<EnumType> {
        if tag == 0 {
            Some(EnumType::EnumS8)
        } else if tag == 1 {
            Some(EnumType::EnumU8)
        } else if tag == 2 {
            Some(EnumType::EnumS16)
        } else if tag == 3 {
            Some(EnumType::EnumU16)
        } else if tag == 4 {
            Some(EnumType::EnumS32)
        } else if tag == 5 {
            Some(EnumType::EnumU32)
        } else if tag == 6 {
            Some(EnumType::EnumS64)
        } else if tag == 7 {
            Some(EnumType::EnumU64)
        } else {
            None
        }
    }

    #[verifier::when_used_as_spec(spec_from_tag)]
    pub fn from_tag(tag: u32) -> (r: Option<EnumType>)
        ensures
            r == EnumType::spec_from_tag(tag),
    {
        if tag == 0 {
            Some(EnumType::EnumS8)
        } else if tag == 1 {
            Some(EnumType::EnumU8)
        } else if tag == 2 {
            Some(EnumType::EnumS16)
        } else if tag == 3 {
            Some(EnumType::EnumU16)
        } else if tag == 4 {
            Some(EnumType::EnumS32)
        } else if tag == 5 {
            Some(EnumType::EnumU32)
        } else if tag == 6 {
            Some(EnumType::EnumS64)
        } else if tag == 7 {
            Some(EnumType::EnumU64)
        } else {
            None
        }
    }
}

/// One entry of the enum table.
///
/// `enum_type` is the stored tag of the declared integer type. It is read and
/// kept, and the values are 64 bits wide whatever it says.
#[derive(Clone, Copy, Debug, PartialEq, Eq)]
pub struct EnumTypeInfo {
    pub name: ForeignAddress,
    pub flags: u64,
    pub enum_type: u32,
    pub name_hash: u32,
    /// Number of entries of `values` and of `value_name_hashes`.
    pub value_index_length: u32,
    pub values: ForeignAddress,
    pub value_name_hashes: ForeignAddress,
    pub enum_checksum: u64,
    pub value_index: ForeignAddress,
}

/// One entry of an enum's table of values.
#[derive(Clone, Copy, Debug, PartialEq, Eq)]
pub struct EnumValueInfo {
    pub name: ForeignAddress,
    pub value: u64,
}

impl FixedLayout for EnumTypeInfo {
    open spec fn spec_size() -> nat {
        64
    }

    open spec fn spec_decode(bytes: Seq<u8>, at: int) -> EnumTypeInfo {
        EnumTypeInfo {
            name: le_address(bytes, at),
            flags: le_u64(bytes, at + 8),
            enum_type: le_u32(bytes, at + 16),
            name_hash: le_u32(bytes, at + 20),
            value_index_length: le_u32(bytes, at + 24),
            values: le_address(bytes, at + 32),
            value_name_hashes: le_address(bytes, at + 40),
            enum_checksum: le_u64(bytes, at + 48),
            value_index: le_address(bytes, at + 56),
        }
    }

    fn size() -> (r: usize) {
        64
    }

    fn decode(bytes: &[u8], at: usize) -> (r: EnumTypeInfo) {
        EnumTypeInfo {
            name: address_at(bytes, at),
            flags: u64_at(bytes, at + 8),
            enum_type: u32_at(bytes, at + 16),
            name_hash: u32_at(bytes, at + 20),
            value_index_length: u32_at(bytes, at + 24),
            values: address_at(bytes, at + 32),
            value_name_hashes: address_at(bytes, at + 40),
            enum_checksum: u64_at(bytes, at + 48),
            value_index: address_at(bytes, at + 56),
        }
    }
}

impl FixedLayout for EnumValueInfo {
    open spec fn spec_size() -> nat {
        16
    }

    open spec fn spec_decode(bytes: Seq<u8>, at: int) -> EnumValueInfo {
        EnumValueInfo { name: le_address(bytes, at), value: le_u64(bytes, at + 8) }
    }

    fn size() -> (r: usize) {
        16
    }

    fn decode(bytes: &[u8], at: usize) -> (r: EnumValueInfo) {
        EnumValueInfo { name: address_at(bytes, at), value: u64_at(bytes, at + 8) }
    }
}

/// The value of the entry `info` whose name was read as `name`, with `hash`
/// for the hash of the name.
pub open spec fn named_value(name: Result<Seq<char>, ProcessMemoryError>, info: EnumValueInfo, hash: u64) -> Result<
    EnumValueView,
    ProcessMemoryError,
> {
    match name {
        Err(e) => Err(e),
        Ok(name) => Ok(EnumValueView { name, value: info.value, hash }),
    }
}

impl Memory {
    /// The value that `info` describes, with `hash` for the hash of its name.
    pub open spec fn enum_value(self, info: EnumValueInfo, hash: u64) -> Result<EnumValueView, ProcessMemoryError> {
        named_value(self.cstring(info.name), info, hash)
    }

    /// The values that decode, in the order of their entries, each entry
    /// paired with the hash at its index. An entry that does not decode is
    /// left out and the others stay.
    pub open spec fn kept_values(self, infos: Seq<EnumValueInfo>, hashes: Seq<u64>) -> Seq<EnumValueView>
        decreases infos.len(),
    {
        if infos.len() == 0 || hashes.len() == 0 {
            Seq::empty()
        } else {
            match self.enum_value(infos[0], hashes[0]) {
                Ok(value) => seq![value] + self.kept_values(infos.drop_first(), hashes.drop_first()),
                Err(_) => self.kept_values(infos.drop_first(), hashes.drop_first()),
            }
        }
    }

    /// The values of an enum: `value_index_length` entries and as many name
    /// hashes are read, each table in one read, and the values that decode
    /// are kept. A table that cannot be read is a failure.
    pub open spec fn enum_values(self, info: EnumTypeInfo) -> Result<Seq<EnumValueView>, ProcessMemoryError> {
        match self.records::<EnumValueInfo>(info.values, info.value_index_length as usize) {
            Err(e) => Err(e),
            Ok(infos) => match self.records::<u64>(info.value_name_hashes, info.value_index_length as usize) {
                Err(e) => Err(e),
                Ok(hashes) => Ok(self.kept_values(infos, hashes)),
            },
        }
    }

    /// The enum that `info` describes: its name, which is required, then its
    /// values.
    #[verifier::opaque]
    pub open spec fn enumeration(self, info: EnumTypeInfo) -> Result<EnumView, ProcessMemoryError> {
        match self.cstring(info.name) {
            Err(e) => Err(e),
            Ok(name) => match self.enum_values(info) {
                Err(e) => Err(e),
                Ok(values) => Ok(EnumView { name, hash: info.name_hash, values }),
            },
        }
    }

    /// `enumeration`, as a function of the entry.
    pub open spec fn enum_decoder(self) -> spec_fn(EnumTypeInfo) -> Result<EnumView, ProcessMemoryError> {
        |info: EnumTypeInfo| self.enumeration(info)
    }

    /// The enums of the table that `root` points to. The stored count
    /// includes the entry that closes the table, so one entry less is read
    /// and decoded; a count below one is `InvalidCount`. One enum that fails
    /// is the failure of all.
    pub open spec fn enums(self, root: TypeInfoGenerated) -> Result<Seq<EnumView>, ProcessMemoryError> {
        if root.num_enums < 1 {
            Err(ProcessMemoryError::InvalidCount { count: root.num_enums })
        } else {
            match self.records::<EnumTypeInfo>(root.enums, (root.num_enums - 1) as usize) {
                Err(e) => Err(e),
                Ok(infos) => decode_all(infos, self.enum_decoder()),
            }
        }
    }
}

/// Where every entry decodes, every value is kept, each at the index of its
/// entry.
pub proof fn lemma_all_values_kept(mem: Memory, infos: Seq<EnumValueInfo>, hashes: Seq<u64>)
    requires
        infos.len() == hashes.len(),
        forall|i: int| 0 <= i < infos.len() ==> (#[trigger] mem.enum_value(infos[i], hashes[i])) is Ok,
    ensures
        mem.kept_values(infos, hashes).len() == infos.len(),
        forall|i: int|
            0 <= i < infos.len() ==> #[trigger] mem.kept_values(infos, hashes)[i] == mem.enum_value(
                infos[i],
                hashes[i],
            )->Ok_0,
    decreases infos.len(),
{
    if infos.len() != 0 {
        lemma_all_values_kept(mem, infos.drop_first(), hashes.drop_first());
    }
}

/// An entry that does not decode is left out and changes nothing else: the
/// values kept are those that are kept of the table without that entry.
pub proof fn lemma_failed_value_left_out(mem: Memory, infos: Seq<EnumValueInfo>, hashes: Seq<u64>, index: int)
    requires
        infos.len() == hashes.len(),
        0 <= index < infos.len(),
        mem.enum_value(infos[index], hashes[index]) is Err,
    ensures
        mem.kept_values(infos, hashes) == mem.kept_values(infos.remove(index), hashes.remove(index)),
    decreases index,
{
    if index > 0 {
        lemma_failed_value_left_out(mem, infos.drop_first(), hashes.drop_first(), index - 1);
        assert(infos.remove(index).drop_first() =~= infos.drop_first().remove(index - 1));
        assert(hashes.remove(index).drop_first() =~= hashes.drop_first().remove(index - 1));
    }
}

/// Decodes the value that `enum_value_info` describes, with
/// `enum_value_hash` for the hash of its name. The name is required.
pub fn read_enum_value<F: Fn(u64, usize) -> Result<Vec<u8>, i32>>(
    reader: &ProcessMemoryReader<F>,
    enum_value_info: &EnumValueInfo,
    enum_value_hash: u64,
) -> (r: Result<EnumValue, ProcessMemoryError>)
    ensures
        enum_value_info.name.is_null() ==> r == Err::<EnumValue, ProcessMemoryError>(ProcessMemoryError::EmptyString),
        !enum_value_info.name.is_null() ==> exists|raw: Result<Vec<u8>, i32>| #[trigger]
            reader.source().ensures((enum_value_info.name.0, STRING_WINDOW), raw) && deep_ok(r) == named_value(
                text_in(exact_answer(answer_view(raw), STRING_WINDOW)),
                *enum_value_info,
                enum_value_hash,
            ),
        r matches Ok(value) ==> value.value == enum_value_info.value && value.hash == enum_value_hash,
        forall|mem: Memory| #[trigger]
            reader.reads_from(mem) ==> deep_ok(r) == mem.enum_value(*enum_value_info, enum_value_hash),
{
    match reader.read_cstring(enum_value_info.name) {
        Ok(name) => Ok(EnumValue { name, value: enum_value_info.value, hash: enum_value_hash }),
        Err(e) => Err(e),
    }
}

/// Pairs each entry of `values` with the hash at its index and keeps the
/// values that decode, in order. A value that does not decode is left out;
/// it fails nothing.
pub fn keep_enum_values<F: Fn(u64, usize) -> Result<Vec<u8>, i32>>(
    reader: &ProcessMemoryReader<F>,
    values: &Vec<EnumValueInfo>,
    hashes: &Vec<u64>,
) -> (r: Vec<EnumValue>)
    ensures
        r@.len() <= values@.len(),
        r@.len() <= hashes@.len(),
        forall|mem: Memory| #[trigger] reader.reads_from(mem) ==> r.deep_view() == mem.kept_values(values@, hashes@),
{
    let mut result: Vec<EnumValue> = Vec::new();
    let mut i: usize = 0;
    assert(values@.skip(0) =~= values@);
    assert(hashes@.skip(0) =~= hashes@);
    while i < values.len() && i < hashes.len()
        invariant
            i <= values@.len(),
            i <= hashes@.len(),
            result@.len() <= i,
            forall|mem: Memory| #[trigger]
                reader.reads_from(mem) ==> mem.kept_values(values@, hashes@) == result.deep_view() + mem.kept_values(
                    values@.skip(i as int),
                    hashes@.skip(i as int),
                ),
        decreases values@.len() - i,
    {
        let decoded = read_enum_value(reader, &values[i], hashes[i]);
        proof {
            assert(values@.skip(i as int).drop_first() =~= values@.skip(i + 1));
            assert(hashes@.skip(i as int).drop_first() =~= hashes@.skip(i + 1));
        }
        if let Ok(value) = decoded {
            result.push(value);
        }
        i += 1;
    }
    result
}

/// Decodes the values of the enum that `enum_type_info` describes.
///
/// `value_index_length` is the number of entries as it stands. That many
/// entries and that many name hashes are read, each table in one read: a
/// table that cannot be read fails the call. The values that decode are
/// kept, in order.
pub fn read_enum_values<F: Fn(u64, usize) -> Result<Vec<u8>, i32>>(
    reader: &ProcessMemoryReader<F>,
    enum_type_info: &EnumTypeInfo,
) -> (r: Result<Vec<EnumValue>, ProcessMemoryError>)
    ensures
        r matches Ok(values) ==> values@.len() <= enum_type_info.value_index_length,
        forall|mem: Memory| #[trigger] reader.reads_from(mem) ==> deep_ok(r) == mem.enum_values(*enum_type_info),
{
    let count: usize = enum_type_info.value_index_length as usize;
    let values: Vec<EnumValueInfo> = match reader.read_structs::<EnumValueInfo>(enum_type_info.values, count) {
        Ok(values) => values,
        Err(e) => {
            return Err(e);
        },
    };
    let hashes: Vec<u64> = match reader.read_structs::<u64>(enum_type_info.value_name_hashes, count) {
        Ok(hashes) => hashes,
        Err(e) => {
            return Err(e);
        },
    };
    Ok(keep_enum_values(reader, &values, &hashes))
}

/// Decodes the enum that `enum_type_info` describes. The name is required.
pub fn read_enum<F: Fn(u64, usize) -> Result<Vec<u8>, i32>>(
    reader: &ProcessMemoryReader<F>,
    enum_type_info: &EnumTypeInfo,
) -> (r: Result<Enum, ProcessMemoryError>)
    ensures
        enum_type_info.name.is_null() ==> r == Err::<Enum, ProcessMemoryError>(ProcessMemoryError::EmptyString),
        r matches Ok(decoded) ==> decoded.hash == enum_type_info.name_hash && decoded.values@.len()
            <= enum_type_info.value_index_length,
        forall|mem: Memory| #[trigger] reader.reads_from(mem) ==> deep_ok(r) == mem.enumeration(*enum_type_info),
{
    proof {
        reveal(Memory::enumeration);
    }
    let name: String = match reader.read_cstring(enum_type_info.name) {
        Ok(name) => name,
        Err(e) => {
            return Err(e);
        },
    };
    match read_enum_values(reader, enum_type_info) {
        Ok(values) => Ok(Enum { name, hash: enum_type_info.name_hash, values }),
        Err(e) => Err(e),
    }
}

/// Decodes every entry of `infos`, in order. The first enum that fails is
/// the failure of the call.
pub fn read_enum_entries<F: Fn(u64, usize) -> Result<Vec<u8>, i32>>(
    reader: &ProcessMemoryReader<F>,
    infos: &Vec<EnumTypeInfo>,
) -> (r: Result<Vec<Enum>, ProcessMemoryError>)
    ensures
        infos@.len() == 0 ==> r is Ok,
        r matches Ok(enums) ==> enums@.len() == infos@.len(),
        forall|mem: Memory| #[trigger] reader.reads_from(mem) ==> deep_ok(r) == decode_all(infos@, mem.enum_decoder()),
{
    let mut result: Vec<Enum> = Vec::new();
    let mut i: usize = 0;
    assert(infos@.skip(0) =~= infos@);
    while i < infos.len()
        invariant
            i <= infos@.len(),
            result@.len() == i,
            forall|mem: Memory| #[trigger]
                reader.reads_from(mem) ==> decode_all(infos@, mem.enum_decoder()) == prepend(
                    result.deep_view(),
                    decode_all(infos@.skip(i as int), mem.enum_decoder()),
                ),
        decreases infos@.len() - i,
    {
        let decoded: Enum = match read_enum(reader, &infos[i]) {
            Ok(decoded) => decoded,
            Err(e) => {
                return Err(e);
            },
        };
        let ghost before = result.deep_view();
        result.push(decoded);
        assert(result.deep_view() =~= before.push(decoded.deep_view()));
        assert forall|mem: Memory| #[trigger] reader.reads_from(mem) implies decode_all(infos@, mem.enum_decoder())
            == prepend(result.deep_view(), decode_all(infos@.skip(i + 1), mem.enum_decoder())) by {
            lemma_decode_all_step(infos@, mem.enum_decoder(), i as int);
            let rest = decode_all(infos@.skip(i + 1), mem.enum_decoder());
            if rest is Ok {
                assert(before + (seq![decoded.deep_view()] + rest->Ok_0) =~= before.push(decoded.deep_view())
                    + rest->Ok_0);
            }
        }
        i += 1;
    }
    Ok(result)
}

/// Decodes the enums of the table that `type_info_generated` points to.
///
/// The stored count includes the entry that closes the table: one entry less
/// is read, in one read, and each is decoded. A count below one is
/// `InvalidCount`. The first enum that fails is the failure of the call.
pub fn read_enums<F: Fn(u64, usize) -> Result<Vec<u8>, i32>>(
    reader: &ProcessMemoryReader<F>,
    type_info_generated: &TypeInfoGenerated,
) -> (r: Result<Vec<Enum>, ProcessMemoryError>)
    ensures
        type_info_generated.num_enums < 1 ==> r == Err::<Vec<Enum>, ProcessMemoryError>(
            ProcessMemoryError::InvalidCount { count: type_info_generated.num_enums },
        ),
        r matches Ok(enums) ==> enums@.len() == type_info_generated.num_enums - 1,
        forall|mem: Memory| #[trigger] reader.reads_from(mem) ==> deep_ok(r) == mem.enums(*type_info_generated),
{
    if type_info_generated.num_enums < 1 {
        return Err(ProcessMemoryError::InvalidCount { count: type_info_generated.num_enums });
    }
    let count: usize = (type_info_generated.num_enums - 1) as usize;
    match reader.read_structs::<EnumTypeInfo>(type_info_generated.enums, count) {
        Ok(infos) => read_enum_entries(reader, &infos),
        Err(e) => Err(e),
    }
}

} // verus!
