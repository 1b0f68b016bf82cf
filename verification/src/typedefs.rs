//! Typedef aliases: their records in foreign memory and their decoded
//! description.

use vstd::prelude::*;
use crate::address::ForeignAddress;
use crate::error::ProcessMemoryError;
use crate::layout::{address_at, le_address, le_u32, u32_at, FixedLayout};
use crate::memory::{decode_all, deep_ok, lemma_decode_all_step, prepend, Memory};
use crate::reader::ProcessMemoryReader;
use crate::type_info::TypeInfoGenerated;

verus! {

/// A decoded typedef.
#[derive(Debug, PartialEq, Eq)]
pub struct TypeDef {
    /// The alias.
    pub name: String,
    /// The type that the alias stands for, as the foreign text spells it.
    pub aliased_type: String,
    pub ops: Option<String>,
    pub size: u32,
}

/// What a `TypeDef` holds, as mathematical values.
pub struct TypeDefView {
    pub name: Seq<char>,
    pub aliased_type: Seq<char>,
    pub ops: Option<Seq<char>>,
    pub size: u32,
}

impl DeepView for TypeDef {
    type V = TypeDefView;

    open spec fn deep_view(&self) -> TypeDefView {
        TypeDefView {
            name: self.name@,
            aliased_type: self.aliased_type@,
            ops: self.ops.deep_view(),
            size: self.size,
        }
    }
}

/// One entry of the typedef table.
#[derive(Clone, Copy, Debug, PartialEq, Eq)]
pub struct TypeDefInfo {
    pub name: ForeignAddress,
    pub aliased_type: ForeignAddress,
    pub ops: ForeignAddress,
    pub size: u32,
}

impl FixedLayout for TypeDefInfo {
    open spec fn spec_size() -> nat {
        32
    }

    open spec fn spec_decode(bytes: Seq<u8>, at: int) -> TypeDefInfo {
        TypeDefInfo {
            name: le_address(bytes, at),
            aliased_type: le_address(bytes, at + 8),
            ops: le_address(bytes, at + 16),
            size: le_u32(bytes, at + 24),
        }
    }

    fn size() -> (r: usize) {
        32
    }

    fn decode(bytes: &[u8], at: usize) -> (r: TypeDefInfo) {
        TypeDefInfo {
            name: address_at(bytes, at),
            aliased_type: address_at(bytes, at + 8),
            ops: address_at(bytes, at + 16),
            size: u32_at(bytes, at + 24),
        }
    }
}

impl Memory {
    /// The typedef that `info` describes. The alias and the aliased type are
    /// required; `ops` is absent where it cannot be had.
    #[verifier::opaque]
    pub open spec fn typedef(self, info: TypeDefInfo) -> Result<TypeDefView, ProcessMemoryError> {
        match self.cstring(info.name) {
            Err(e) => Err(e),
            Ok(name) => match self.cstring(info.aliased_type) {
                Err(e) => Err(e),
                Ok(aliased_type) => Ok(
                    TypeDefView { name, aliased_type, ops: self.optional_cstring(info.ops), size: info.size },
                ),
            },
        }
    }

    /// `typedef`, as a function of the entry.
    pub open spec fn typedef_decoder(self) -> spec_fn(TypeDefInfo) -> Result<TypeDefView, ProcessMemoryError> {
        |info: TypeDefInfo| self.typedef(info)
    }

    /// The typedefs of the table that `root` points to. The stored count is
    /// the number of entries as it stands; a negative one is `InvalidCount`.
    /// One typedef that fails is the failure of all.
    pub open spec fn typedefs(self, root: TypeInfoGenerated) -> Result<Seq<TypeDefView>, ProcessMemoryError> {
        if root.num_typedefs < 0 {
            Err(ProcessMemoryError::InvalidCount { count: root.num_typedefs })
        } else {
            match self.records::<TypeDefInfo>(root.typedefs, root.num_typedefs as usize) {
                Err(e) => Err(e),
                Ok(infos) => decode_all(infos, self.typedef_decoder()),
            }
        }
    }
}

/// Decodes the typedef that `info` describes.
pub fn read_typedef<F: Fn(u64, usize) -> Result<Vec<u8>, i32>>(
    reader: &ProcessMemoryReader<F>,
    info: &TypeDefInfo,
) -> (r: Result<TypeDef, ProcessMemoryError>)
    ensures
        info.name.is_null() ==> r == Err::<TypeDef, ProcessMemoryError>(ProcessMemoryError::EmptyString),
        info.aliased_type.is_null() ==> r is Err,
        r matches Ok(typedef) ==> typedef.size == info.size && (info.ops.is_null() ==> typedef.ops is None),
        forall|mem: Memory| #[trigger] reader.reads_from(mem) ==> deep_ok(r) == mem.typedef(*info),
{
    proof {
        reveal(Memory::typedef);
    }
    let name: String = match reader.read_cstring(info.name) {
        Ok(name) => name,
        Err(e) => {
            return Err(e);
        },
    };
    let aliased_type: String = match reader.read_cstring(info.aliased_type) {
        Ok(aliased_type) => aliased_type,
        Err(e) => {
            return Err(e);
        },
    };
    let ops: Option<String> = reader.read_optional_cstring(info.ops);
    Ok(TypeDef { name, aliased_type, ops, size: info.size })
}

/// Decodes every entry of `infos`, in order. The first typedef that fails is
/// the failure of the call.
pub fn read_typedef_entries<F: Fn(u64, usize) -> Result<Vec<u8>, i32>>(
    reader: &ProcessMemoryReader<F>,
    infos: &Vec<TypeDefInfo>,
) -> (r: Result<Vec<TypeDef>, ProcessMemoryError>)
    ensures
        infos@.len() == 0 ==> r is Ok,
        r matches Ok(typedefs) ==> typedefs@.len() == infos@.len(),
        forall|mem: Memory| #[trigger]
            reader.reads_from(mem) ==> deep_ok(r) == decode_all(infos@, mem.typedef_decoder()),
{
    let mut result: Vec<TypeDef> = Vec::new();
    let mut i: usize = 0;
    assert(infos@.skip(0) =~= infos@);
    while i < infos.len()
        invariant
            i <= infos@.len(),
            result@.len() == i,
            forall|mem: Memory| #[trigger]
                reader.reads_from(mem) ==> decode_all(infos@, mem.typedef_decoder()) == prepend(
                    result.deep_view(),
                    decode_all(infos@.skip(i as int), mem.typedef_decoder()),
                ),
        decreases infos@.len() - i,
    {
        let typedef: TypeDef = match read_typedef(reader, &infos[i]) {
            Ok(typedef) => typedef,
            Err(e) => {
                return Err(e);
            },
        };
        let ghost before = result.deep_view();
        result.push(typedef);
        assert(result.deep_view() =~= before.push(typedef.deep_view()));
        assert forall|mem: Memory| #[trigger] reader.reads_from(mem) implies decode_all(
            infos@,
            mem.typedef_decoder(),
        ) == prepend(result.deep_view(), decode_all(infos@.skip(i + 1), mem.typedef_decoder())) by {
            lemma_decode_all_step(infos@, mem.typedef_decoder(), i as int);
            let rest = decode_all(infos@.skip(i + 1), mem.typedef_decoder());
            if rest is Ok {
                assert(before + (seq![typedef.deep_view()] + rest->Ok_0) =~= before.push(typedef.deep_view())
                    + rest->Ok_0);
            }
        }
        i += 1;
    }
    Ok(result)
}

/// Decodes the typedefs of the table that `type_info_generated` points to.
///
/// The stored count is the number of entries as it stands: that many are
/// read, in one read, and each is decoded. A negative count is
/// `InvalidCount`. The first typedef that fails is the failure of the call.
pub fn read_typedefs<F: Fn(u64, usize) -> Result<Vec<u8>, i32>>(
    reader: &ProcessMemoryReader<F>,
    type_info_generated: &TypeInfoGenerated,
) -> (r: Result<Vec<TypeDef>, ProcessMemoryError>)
    ensures
        type_info_generated.num_typedefs < 0 ==> r == Err::<Vec<TypeDef>, ProcessMemoryError>(
            ProcessMemoryError::InvalidCount { count: type_info_generated.num_typedefs },
        ),
        r matches Ok(typedefs) ==> typedefs@.len() == type_info_generated.num_typedefs,
        forall|mem: Memory| #[trigger] reader.reads_from(mem) ==> deep_ok(r) == mem.typedefs(*type_info_generated),
{
    if type_info_generated.num_typedefs < 0 {
        return Err(ProcessMemoryError::InvalidCount { count: type_info_generated.num_typedefs });
    }
    let count: usize = type_info_generated.num_typedefs as usize;
    match reader.read_structs::<TypeDefInfo>(type_info_generated.typedefs, count) {
        Ok(infos) => read_typedef_entries(reader, &infos),
        Err(e) => Err(e),
    }
}

} // verus!
