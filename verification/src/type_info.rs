//! The root of one reflection table, and the snapshot decoded from it.

use vstd::prelude::*;
use crate::address::ForeignAddress;
use crate::classes::{read_classes, Class, ClassTypeInfo, ClassView};
use crate::enums::{read_enums, Enum, EnumTypeInfo, EnumView};
use crate::error::ProcessMemoryError;
use crate::layout::{address_at, i32_at, le_address, le_i32, FixedLayout};
use crate::memory::{decode_all, deep_ok, lemma_decode_all_len, lemma_decode_all_step, prepend, Memory};
use crate::reader::ProcessMemoryReader;
use crate::typedefs::{TypeDef, TypeDefInfo, TypeDefView};

verus! {

/// The root record: where the tables lie and how many entries each reports.
///
/// The counts of classes and of enums include one closing entry that is not
/// a class or an enum; the count of typedefs is the number of typedefs.
#[derive(Clone, Copy, Debug, PartialEq, Eq)]
pub struct TypeInfoGenerated {
    pub project_name: ForeignAddress,
    pub enums: ForeignAddress,
    pub num_enums: i32,
    pub classes: ForeignAddress,
    pub num_classes: i32,
    pub typedefs: ForeignAddress,
    pub num_typedefs: i32,
    pub render_model_ctors: ForeignAddress,
    pub num_render_model_ctors: i32,
    pub logic_custom_event_declarations: ForeignAddress,
    pub num_logic_custom_event_declarations: i32,
}

impl FixedLayout for TypeInfoGenerated {
    open spec fn spec_size() -> nat {
        88
    }

    open spec fn spec_decode(bytes: Seq<u8>, at: int) -> TypeInfoGenerated {
        TypeInfoGenerated {
            project_name: le_address(bytes, at),
            enums: le_address(bytes, at + 8),
            num_enums: le_i32(bytes, at + 16),
            classes: le_address(bytes, at + 24),
            num_classes: le_i32(bytes, at + 32),
            typedefs: le_address(bytes, at + 40),
            num_typedefs: le_i32(bytes, at + 48),
            render_model_ctors: le_address(bytes, at + 56),
            num_render_model_ctors: le_i32(bytes, at + 64),
            logic_custom_event_declarations: le_address(bytes, at + 72),
            num_logic_custom_event_declarations: le_i32(bytes, at + 80),
        }
    }

    fn size() -> (r: usize) {
        88
    }

    fn decode(bytes: &[u8], at: usize) -> (r: TypeInfoGenerated) {
        TypeInfoGenerated {
            project_name: address_at(bytes, at),
            enums: address_at(bytes, at + 8),
            num_enums: i32_at(bytes, at + 16),
            classes: address_at(bytes, at + 24),
            num_classes: i32_at(bytes, at + 32),
            typedefs: address_at(bytes, at + 40),
            num_typedefs: i32_at(bytes, at + 48),
            render_model_ctors: address_at(bytes, at + 56),
            num_render_model_ctors: i32_at(bytes, at + 64),
            logic_custom_event_declarations: address_at(bytes, at + 72),
            num_logic_custom_event_declarations: i32_at(bytes, at + 80),
        }
    }
}

/// The snapshot decoded from one root: a project's classes and enums.
///
/// `typedefs` is there for the typedef table, which the composer does not
/// decode: it is always empty.
#[derive(Debug, PartialEq, Eq)]
pub struct TypeInfo {
    pub project_name: String,
    pub classes: Vec<Class>,
    pub enums: Vec<Enum>,
    pub typedefs: Vec<TypeDef>,
}

/// What a `TypeInfo` holds, as mathematical values.
pub struct TypeInfoView {
    pub project_name: Seq<char>,
    pub classes: Seq<ClassView>,
    pub enums: Seq<EnumView>,
    pub typedefs: Seq<TypeDefView>,
}

impl DeepView for TypeInfo {
    type V = TypeInfoView;

    open spec fn deep_view(&self) -> TypeInfoView {
        TypeInfoView {
            project_name: self.project_name@,
            classes: self.classes.deep_view(),
            enums: self.enums.deep_view(),
            typedefs: self.typedefs.deep_view(),
        }
    }
}

impl Memory {
    /// The snapshot of the root at `address`: the root record, the project
    /// name, which is required, the classes, the enums, and no typedefs. The
    /// first failure is the result.
    #[verifier::opaque]
    pub open spec fn type_info(self, address: ForeignAddress) -> Result<TypeInfoView, ProcessMemoryError> {
        match self.record::<TypeInfoGenerated>(address) {
            Err(e) => Err(e),
            Ok(root) => match self.cstring(root.project_name) {
                Err(e) => Err(e),
                Ok(project_name) => match self.classes(root) {
                    Err(e) => Err(e),
                    Ok(classes) => match self.enums(root) {
                        Err(e) => Err(e),
                        Ok(enums) => Ok(TypeInfoView { project_name, classes, enums, typedefs: Seq::empty() }),
                    },
                },
            },
        }
    }

    /// `type_info`, as a function of the root's address.
    pub open spec fn type_info_decoder(self) -> spec_fn(ForeignAddress) -> Result<TypeInfoView, ProcessMemoryError> {
        |address: ForeignAddress| self.type_info(address)
    }
}

/// Whether `result` is the snapshot of the root at `address` in every memory
/// that `reader` reads from.
pub open spec fn is_type_info<F: Fn(u64, usize) -> Result<Vec<u8>, i32>>(
    reader: &ProcessMemoryReader<F>,
    address: ForeignAddress,
    result: Result<TypeInfo, ProcessMemoryError>,
) -> bool {
    forall|mem: Memory| #[trigger] reader.reads_from(mem) ==> deep_ok(result) == mem.type_info(address)
}

/// Whether `result` holds the snapshots of the roots at `addresses` in every
/// memory that `reader` reads from.
pub open spec fn are_type_infos<F: Fn(u64, usize) -> Result<Vec<u8>, i32>>(
    reader: &ProcessMemoryReader<F>,
    addresses: Seq<ForeignAddress>,
    result: Result<Vec<TypeInfo>, ProcessMemoryError>,
) -> bool {
    forall|mem: Memory| #[trigger]
        reader.reads_from(mem) ==> deep_ok(result) == decode_all(addresses, mem.type_info_decoder())
}

/// Decodes the snapshot of the root at `address`.
///
/// Reads the root record and the project name, then decodes the classes and
/// the enums. Whatever fails, fails the snapshot: there is no partial one.
pub fn read_type_info<F: Fn(u64, usize) -> Result<Vec<u8>, i32>>(
    reader: &ProcessMemoryReader<F>,
    address: ForeignAddress,
) -> (r: Result<TypeInfo, ProcessMemoryError>)
    ensures
        r matches Ok(info) ==> info.typedefs@.len() == 0,
        is_type_info(reader, address, r),
{
    proof {
        reveal(Memory::type_info);
    }
    let type_info_generated: TypeInfoGenerated = match reader.read_struct::<TypeInfoGenerated>(address) {
        Ok(root) => root,
        Err(e) => {
            return Err(e);
        },
    };
    let project_name: String = match reader.read_cstring(type_info_generated.project_name) {
        Ok(project_name) => project_name,
        Err(e) => {
            return Err(e);
        },
    };
    let classes: Vec<Class> = match read_classes(reader, &type_info_generated) {
        Ok(classes) => classes,
        Err(e) => {
            return Err(e);
        },
    };
    let enums: Vec<Enum> = match read_enums(reader, &type_info_generated) {
        Ok(enums) => enums,
        Err(e) => {
            return Err(e);
        },
    };
    let typedefs: Vec<TypeDef> = Vec::new();
    assert(typedefs.deep_view() =~= Seq::<TypeDefView>::empty());
    Ok(TypeInfo { project_name, classes, enums, typedefs })
}

/// Decodes the snapshots of the roots at `addresses`, in order. The first
/// snapshot that fails is the failure of the call.
pub fn read_type_infos<F: Fn(u64, usize) -> Result<Vec<u8>, i32>>(
    reader: &ProcessMemoryReader<F>,
    addresses: &Vec<ForeignAddress>,
) -> (r: Result<Vec<TypeInfo>, ProcessMemoryError>)
    ensures
        addresses@.len() == 0 ==> r is Ok,
        r matches Ok(infos) ==> infos@.len() == addresses@.len(),
        are_type_infos(reader, addresses@, r),
{
    let mut result: Vec<TypeInfo> = Vec::new();
    let mut i: usize = 0;
    assert(addresses@.skip(0) =~= addresses@);
    while i < addresses.len()
        invariant
            i <= addresses@.len(),
            result@.len() == i,
            forall|mem: Memory| #[trigger]
                reader.reads_from(mem) ==> decode_all(addresses@, mem.type_info_decoder()) == prepend(
                    result.deep_view(),
                    decode_all(addresses@.skip(i as int), mem.type_info_decoder()),
                ),
        decreases addresses@.len() - i,
    {
        let info: TypeInfo = match read_type_info(reader, addresses[i]) {
            Ok(info) => info,
            Err(e) => {
                proof {
                    assert forall|mem: Memory| #[trigger] reader.reads_from(mem) implies decode_all(
                        addresses@,
                        mem.type_info_decoder(),
                    ) == Err::<Seq<TypeInfoView>, ProcessMemoryError>(e) by {
                        lemma_decode_all_step(addresses@, mem.type_info_decoder(), i as int);
                    }
                }
                return Err(e);
            },
        };
        let ghost before = result.deep_view();
        result.push(info);
        assert(result.deep_view() =~= before.push(info.deep_view()));
        assert forall|mem: Memory| #[trigger] reader.reads_from(mem) implies decode_all(
            addresses@,
            mem.type_info_decoder(),
        ) == prepend(result.deep_view(), decode_all(addresses@.skip(i + 1), mem.type_info_decoder())) by {
            lemma_decode_all_step(addresses@, mem.type_info_decoder(), i as int);
            let rest = decode_all(addresses@.skip(i + 1), mem.type_info_decoder());
            if rest is Ok {
                assert(before + (seq![info.deep_view()] + rest->Ok_0) =~= before.push(info.deep_view()) + rest->Ok_0);
            }
        }
        i += 1;
    }
    Ok(result)
}

/// The stored counts of classes and of enums include one closing entry, that
/// of typedefs does not: a root that stores the count `n` has `n - 1`
/// classes, or `n - 1` enums, and `n` typedefs.
pub proof fn lemma_stored_counts(mem: Memory, root: TypeInfoGenerated)
    ensures
        mem.classes(root) matches Ok(classes) ==> classes.len() == root.num_classes - 1,
        mem.enums(root) matches Ok(enums) ==> enums.len() == root.num_enums - 1,
        mem.typedefs(root) matches Ok(typedefs) ==> typedefs.len() == root.num_typedefs,
{
    if root.num_classes >= 1 {
        let infos = mem.records::<ClassTypeInfo>(root.classes, (root.num_classes - 1) as usize);
        if infos is Ok {
            lemma_decode_all_len(infos->Ok_0, mem.class_decoder());
        }
    }
    if root.num_enums >= 1 {
        let infos = mem.records::<EnumTypeInfo>(root.enums, (root.num_enums - 1) as usize);
        if infos is Ok {
            lemma_decode_all_len(infos->Ok_0, mem.enum_decoder());
        }
    }
    if root.num_typedefs >= 0 {
        let infos = mem.records::<TypeDefInfo>(root.typedefs, root.num_typedefs as usize);
        if infos is Ok {
            lemma_decode_all_len(infos->Ok_0, mem.typedef_decoder());
        }
    }
}

/// Decoding is deterministic: two calls of `read_type_info` on the same root,
/// through a reader that answers as one unchanged memory does, give the same
/// snapshot, or the same failure.
pub proof fn lemma_read_type_info_deterministic<F: Fn(u64, usize) -> Result<Vec<u8>, i32>>(
    reader: &ProcessMemoryReader<F>,
    mem: Memory,
    address: ForeignAddress,
    first: Result<TypeInfo, ProcessMemoryError>,
    second: Result<TypeInfo, ProcessMemoryError>,
)
    requires
        reader.reads_from(mem),
        call_ensures(read_type_info::<F>, (reader, address), first),
        call_ensures(read_type_info::<F>, (reader, address), second),
    ensures
        deep_ok(first) == deep_ok(second),
        deep_ok(first) == mem.type_info(address),
{
}

/// The same of a list of roots: two calls of `read_type_infos` on the same
/// addresses, through a reader that answers as one unchanged memory does,
/// give the same snapshots, or the same failure.
pub proof fn lemma_read_type_infos_deterministic<F: Fn(u64, usize) -> Result<Vec<u8>, i32>>(
    reader: &ProcessMemoryReader<F>,
    mem: Memory,
    addresses: &Vec<ForeignAddress>,
    first: Result<Vec<TypeInfo>, ProcessMemoryError>,
    second: Result<Vec<TypeInfo>, ProcessMemoryError>,
)
    requires
        reader.reads_from(mem),
        call_ensures(read_type_infos::<F>, (reader, addresses), first),
        call_ensures(read_type_infos::<F>, (reader, addresses), second),
    ensures
        deep_ok(first) == deep_ok(second),
        deep_ok(first) == decode_all(addresses@, mem.type_info_decoder()),
{
}

} // verus!
