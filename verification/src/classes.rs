//! Classes: their records in foreign memory and their decoded description.

use vstd::prelude::*;
use crate::address::ForeignAddress;
use crate::error::ProcessMemoryError;
use crate::layout::{address_at, le_address, le_u32, le_u64, u32_at, u64_at, FixedLayout};
use crate::memory::{decode_all, deep_ok, lemma_decode_all_step, prepend, Memory};
use crate::reader::ProcessMemoryReader;
use crate::type_info::TypeInfoGenerated;

verus! {

/// Number of bytes of one `ClassVariableInfo`.
pub const VARIABLE_INFO_SIZE: u64 = 88;

/// Number of bytes of one entry of a table of name hashes.
pub const NAME_HASH_SIZE: u64 = 8;

/// A decoded class.
#[derive(Debug, PartialEq, Eq)]
pub struct Class {
    pub name: String,
    /// Name of the superclass; `None` where the class has none, or where its
    /// name cannot be had.
    pub super_type: Option<String>,
    pub hash: u32,
    pub size: u32,
    pub template_parms: Vec<ClassVariable>,
    pub variables: Vec<ClassVariable>,
    pub checksum: u64,
    pub meta_data: Option<String>,
}

/// A decoded field of a class, or one of its template parameters.
#[derive(Debug, PartialEq, Eq)]
pub struct ClassVariable {
    /// The declared type, as the foreign text spells it.
    pub declared_type: String,
    pub name: String,
    pub ops: Option<String>,
    pub offset: u32,
    pub size: u32,
    /// Copied through; the decoder reads no meaning into it.
    pub flags: u64,
    pub comment: Option<String>,
    /// Hash of the name: present for a field, absent for a template parameter.
    pub hash: Option<u64>,
}

/// What a `Class` holds, as mathematical values.
pub struct ClassView {
    pub name: Seq<char>,
    pub super_type: Option<Seq<char>>,
    pub hash: u32,
    pub size: u32,
    pub template_parms: Seq<ClassVariableView>,
    pub variables: Seq<ClassVariableView>,
    pub checksum: u64,
    pub meta_data: Option<Seq<char>>,
}

/// What a `ClassVariable` holds, as mathematical values.
pub struct ClassVariableView {
    pub declared_type: Seq<char>,
    pub name: Seq<char>,
    pub ops: Option<Seq<char>>,
    pub offset: u32,
    pub size: u32,
    pub flags: u64,
    pub comment: Option<Seq<char>>,
    pub hash: Option<u64>,
}

impl DeepView for ClassVariable {
    type V = ClassVariableView;

    open spec fn deep_view(&self) -> ClassVariableView {
        ClassVariableView {
            declared_type: self.declared_type@,
            name: self.name@,
            ops: self.ops.deep_view(),
            offset: self.offset,
            size: self.size,
            flags: self.flags,
            comment: self.comment.deep_view(),
            hash: self.hash,
        }
    }
}

impl DeepView for Class {
    type V = ClassView;

    open spec fn deep_view(&self) -> ClassView {
        ClassView {
            name: self.name@,
            super_type: self.super_type.deep_view(),
            hash: self.hash,
            size: self.size,
            template_parms: self.template_parms.deep_view(),
            variables: self.variables.deep_view(),
            checksum: self.checksum,
            meta_data: self.meta_data.deep_view(),
        }
    }
}

/// One entry of the class table.
///
/// `create_instance` and `placement_create_instance` are addresses of code in
/// the foreign process. They are kept as numbers and never called.
#[derive(Clone, Copy, Debug, PartialEq, Eq)]
pub struct ClassTypeInfo {
    pub name: ForeignAddress,
    pub super_type: ForeignAddress,
    pub super_type_type_info_tools_index: u32,
    pub name_hash: u32,
    pub size: u32,
    pub template_parms: ForeignAddress,
    pub variables: ForeignAddress,
    pub variable_name_hashes: ForeignAddress,
    pub class_checksum: u64,
    pub create_instance: u64,
    pub placement_create_instance: u64,
    pub meta_data: ForeignAddress,
}

/// One entry of a class's table of fields or of template parameters. An entry
/// whose `declared_type` is null closes the table.
///
/// `get`, `set`, `reallocate` and `merge` are addresses of code in the
/// foreign process. They are kept as numbers and never called.
#[derive(Clone, Copy, Debug, PartialEq, Eq)]
pub struct ClassVariableInfo {
    pub declared_type: ForeignAddress,
    pub ops: ForeignAddress,
    pub name: ForeignAddress,
    pub offset: u32,
    pub size: u32,
    pub class_type_info_tools_index: u32,
    pub enum_type_info_tools_index: u32,
    pub flags: u64,
    pub comment: ForeignAddress,
    pub get: u64,
    pub set: u64,
    pub reallocate: u64,
    pub merge: u64,
}

/// The record that a class entry's `meta_data` points to.
#[derive(Clone, Copy, Debug, PartialEq, Eq)]
pub struct ClassMetaDataInfo {
    pub meta_data: ForeignAddress,
}

impl FixedLayout for ClassTypeInfo {
    open spec fn spec_size() -> nat {
        88
    }

    open spec fn spec_decode(bytes: Seq<u8>, at: int) -> ClassTypeInfo {
        ClassTypeInfo {
            name: le_address(bytes, at),
            super_type: le_address(bytes, at + 8),
            super_type_type_info_tools_index: le_u32(bytes, at + 16),
            name_hash: le_u32(bytes, at + 20),
            size: le_u32(bytes, at + 24),
            template_parms: le_address(bytes, at + 32),
            variables: le_address(bytes, at + 40),
            variable_name_hashes: le_address(bytes, at + 48),
            class_checksum: le_u64(bytes, at + 56),
            create_instance: le_u64(bytes, at + 64),
            placement_create_instance: le_u64(bytes, at + 72),
            meta_data: le_address(bytes, at + 80),
        }
    }

    fn size() -> (r: usize) {
        88
    }

    fn decode(bytes: &[u8], at: usize) -> (r: ClassTypeInfo) {
        ClassTypeInfo {
            name: address_at(bytes, at),
            super_type: address_at(bytes, at + 8),
            super_type_type_info_tools_index: u32_at(bytes, at + 16),
            name_hash: u32_at(bytes, at + 20),
            size: u32_at(bytes, at + 24),
            template_parms: address_at(bytes, at + 32),
            variables: address_at(bytes, at + 40),
            variable_name_hashes: address_at(bytes, at + 48),
            class_checksum: u64_at(bytes, at + 56),
            create_instance: u64_at(bytes, at + 64),
            placement_create_instance: u64_at(bytes, at + 72),
            meta_data: address_at(bytes, at + 80),
        }
    }
}

impl FixedLayout for ClassVariableInfo {
    open spec fn spec_size() -> nat {
        VARIABLE_INFO_SIZE as nat
    }

    open spec fn spec_decode(bytes: Seq<u8>, at: int) -> ClassVariableInfo {
        ClassVariableInfo {
            declared_type: le_address(bytes, at),
            ops: le_address(bytes, at + 8),
            name: le_address(bytes, at + 16),
            offset: le_u32(bytes, at + 24),
            size: le_u32(bytes, at + 28),
            class_type_info_tools_index: le_u32(bytes, at + 32),
            enum_type_info_tools_index: le_u32(bytes, at + 36),
            flags: le_u64(bytes, at + 40),
            comment: le_address(bytes, at + 48),
            get: le_u64(bytes, at + 56),
            set: le_u64(bytes, at + 64),
            reallocate: le_u64(bytes, at + 72),
            merge: le_u64(bytes, at + 80),
        }
    }

    fn size() -> (r: usize) {
        88
    }

    fn decode(bytes: &[u8], at: usize) -> (r: ClassVariableInfo) {
        ClassVariableInfo {
            declared_type: address_at(bytes, at),
            ops: address_at(bytes, at + 8),
            name: address_at(bytes, at + 16),
            offset: u32_at(bytes, at + 24),
            size: u32_at(bytes, at + 28),
            class_type_info_tools_index: u32_at(bytes, at + 32),
            enum_type_info_tools_index: u32_at(bytes, at + 36),
            flags: u64_at(bytes, at + 40),
            comment: address_at(bytes, at + 48),
            get: u64_at(bytes, at + 56),
            set: u64_at(bytes, at + 64),
            reallocate: u64_at(bytes, at + 72),
            merge: u64_at(bytes, at + 80),
        }
    }
}

impl FixedLayout for ClassMetaDataInfo {
    open spec fn spec_size() -> nat {
        8
    }

    open spec fn spec_decode(bytes: Seq<u8>, at: int) -> ClassMetaDataInfo {
        ClassMetaDataInfo { meta_data: le_address(bytes, at) }
    }

    fn size() -> (r: usize) {
        8
    }

    fn decode(bytes: &[u8], at: usize) -> (r: ClassMetaDataInfo) {
        ClassMetaDataInfo { meta_data: address_at(bytes, at) }
    }
}

impl Memory {
    /// The field that `info` describes, with `hash` for the hash of its name.
    ///
    /// Its type and its name are required; `ops` and `comment` are absent
    /// where they cannot be had.
    pub open spec fn class_variable(self, info: ClassVariableInfo, hash: Option<u64>) -> Result<
        ClassVariableView,
        ProcessMemoryError,
    > {
        match self.cstring(info.declared_type) {
            Err(e) => Err(e),
            Ok(declared_type) => match self.cstring(info.name) {
                Err(e) => Err(e),
                Ok(name) => Ok(
                    ClassVariableView {
                        declared_type,
                        name,
                        ops: self.optional_cstring(info.ops),
                        offset: info.offset,
                        size: info.size,
                        flags: info.flags,
                        comment: self.optional_cstring(info.comment),
                        hash,
                    },
                ),
            },
        }
    }

    /// The name hash that goes with entry `index` of a table of fields: none
    /// for a table without hashes, else entry `index` of the table `hashes`.
    pub open spec fn name_hash(self, hashes: Option<ForeignAddress>, index: u64) -> Result<
        Option<u64>,
        ProcessMemoryError,
    > {
        match hashes {
            None => Ok(None),
            Some(table) => match table.spec_element(index, NAME_HASH_SIZE) {
                None => Err(ProcessMemoryError::AddressOverflow),
                Some(address) => match self.record::<u64>(address) {
                    Err(e) => Err(e),
                    Ok(hash) => Ok(Some(hash)),
                },
            },
        }
    }

    /// Entry `index` of the table of fields at `table`.
    pub open spec fn field_entry(self, table: ForeignAddress, index: u64) -> Result<
        ClassVariableInfo,
        ProcessMemoryError,
    > {
        match table.spec_element(index, VARIABLE_INFO_SIZE) {
            None => Err(ProcessMemoryError::AddressOverflow),
            Some(address) => self.record::<ClassVariableInfo>(address),
        }
    }

    /// The field that entry `index` of the table at `table` describes: the
    /// entry is read, then its name hash, then its strings.
    pub open spec fn field_at(self, table: ForeignAddress, hashes: Option<ForeignAddress>, index: u64) -> Result<
        ClassVariableView,
        ProcessMemoryError,
    > {
        match self.field_entry(table, index) {
            Err(e) => Err(e),
            Ok(info) => match self.name_hash(hashes, index) {
                Err(e) => Err(e),
                Ok(hash) => self.class_variable(info, hash),
            },
        }
    }

    /// The fields that the table at `table` holds from entry `index` on, up
    /// to the entry that closes it: the first one whose declared type is
    /// null. That entry is no field.
    ///
    /// Entry after entry is decoded as `field_at` says; the first failure is
    /// the result.
    pub open spec fn fields_from(self, table: ForeignAddress, hashes: Option<ForeignAddress>, index: u64) -> Result<
        Seq<ClassVariableView>,
        ProcessMemoryError,
    >
        decreases u64::MAX - index,
    {
        match self.field_entry(table, index) {
            Err(e) => Err(e),
            Ok(info) => if info.declared_type.is_null() {
                Ok(Seq::empty())
            } else {
                match self.field_at(table, hashes, index) {
                    Err(e) => Err(e),
                    Ok(variable) => prepend(seq![variable], self.fields_from(table, hashes, (index + 1) as u64)),
                }
            },
        }
    }

    /// The template parameters of a class: none where it has no table of
    /// them, else the fields of that table, without name hashes.
    pub open spec fn template_parms(self, info: ClassTypeInfo) -> Result<Seq<ClassVariableView>, ProcessMemoryError> {
        if info.template_parms.is_null() {
            Ok(Seq::empty())
        } else {
            self.fields_from(info.template_parms, None, 0)
        }
    }

    /// The fields of a class: none where it has no table of them, else the
    /// fields of that table, each with the name hash at its index.
    pub open spec fn variables(self, info: ClassTypeInfo) -> Result<Seq<ClassVariableView>, ProcessMemoryError> {
        if info.variables.is_null() {
            Ok(Seq::empty())
        } else {
            self.fields_from(info.variables, Some(info.variable_name_hashes), 0)
        }
    }

    /// The free text that goes with a class, two addresses away: absent
    /// where `address` is null, where the record there holds a null address,
    /// and where the text is not valid UTF-8. A read that fails is a failure.
    pub open spec fn meta_data(self, address: ForeignAddress) -> Result<Option<Seq<char>>, ProcessMemoryError> {
        if address.is_null() {
            Ok(None)
        } else {
            match self.record::<ClassMetaDataInfo>(address) {
                Err(e) => Err(e),
                Ok(record) => if record.meta_data.is_null() {
                    Ok(None)
                } else {
                    match self.cstring(record.meta_data) {
                        Ok(text) => Ok(Some(text)),
                        Err(ProcessMemoryError::InvalidString) => Ok(None),
                        Err(e) => Err(e),
                    }
                },
            }
        }
    }

    /// The class that `info` describes.
    ///
    /// Its parts are read in this order, and the first failure is the
    /// result: the free text, the template parameters, the fields, the name.
    /// The superclass name is absent where it cannot be had.
    #[verifier::opaque]
    pub open spec fn class(self, info: ClassTypeInfo) -> Result<ClassView, ProcessMemoryError> {
        match self.meta_data(info.meta_data) {
            Err(e) => Err(e),
            Ok(meta_data) => match self.template_parms(info) {
                Err(e) => Err(e),
                Ok(template_parms) => match self.variables(info) {
                    Err(e) => Err(e),
                    Ok(variables) => match self.cstring(info.name) {
                        Err(e) => Err(e),
                        Ok(name) => Ok(
                            ClassView {
                                name,
                                super_type: self.optional_cstring(info.super_type),
                                hash: info.name_hash,
                                size: info.size,
                                template_parms,
                                variables,
                                checksum: info.class_checksum,
                                meta_data,
                            },
                        ),
                    },
                },
            },
        }
    }

    /// `class`, as a function of the entry.
    pub open spec fn class_decoder(self) -> spec_fn(ClassTypeInfo) -> Result<ClassView, ProcessMemoryError> {
        |info: ClassTypeInfo| self.class(info)
    }

    /// The classes of the table that `root` points to. The stored count
    /// includes the entry that closes the table, so one entry less is read
    /// and decoded; a count below one is `InvalidCount`. One class that
    /// fails is the failure of all.
    pub open spec fn classes(self, root: TypeInfoGenerated) -> Result<Seq<ClassView>, ProcessMemoryError> {
        if root.num_classes < 1 {
            Err(ProcessMemoryError::InvalidCount { count: root.num_classes })
        } else {
            match self.records::<ClassTypeInfo>(root.classes, (root.num_classes - 1) as usize) {
                Err(e) => Err(e),
                Ok(infos) => decode_all(infos, self.class_decoder()),
            }
        }
    }
}

/// What `lemma_fields_before_sentinel` states, from entry `start` on.
proof fn lemma_fields_from(mem: Memory, table: ForeignAddress, hashes: Option<ForeignAddress>, count: u64, start: u64)
    requires
        start <= count,
        forall|i: u64|
            i < count ==> (#[trigger] mem.field_entry(table, i) matches Ok(info) && !info.declared_type.is_null())
                && mem.field_at(table, hashes, i) is Ok,
        mem.field_entry(table, count) matches Ok(info) && info.declared_type.is_null(),
    ensures
        mem.fields_from(table, hashes, start) matches Ok(fields) && fields.len() == count - start && forall|k: int|
            0 <= k < count - start ==> #[trigger] fields[k] == mem.field_at(table, hashes, (start + k) as u64)->Ok_0,
    decreases count - start,
{
    if start < count {
        lemma_fields_from(mem, table, hashes, count, (start + 1) as u64);
    }
}

/// A table of `count` entries that are fields and decode, followed by one
/// entry whose declared type is null, gives exactly those `count` fields, in
/// the order of their entries: the closing entry is none of them, and none
/// is lost.
pub proof fn lemma_fields_before_sentinel(
    mem: Memory,
    table: ForeignAddress,
    hashes: Option<ForeignAddress>,
    count: u64,
)
    requires
        forall|i: u64|
            i < count ==> (#[trigger] mem.field_entry(table, i) matches Ok(info) && !info.declared_type.is_null())
                && mem.field_at(table, hashes, i) is Ok,
        mem.field_entry(table, count) matches Ok(info) && info.declared_type.is_null(),
    ensures
        mem.fields_from(table, hashes, 0) matches Ok(fields) && fields.len() == count && forall|i: u64|
            i < count ==> #[trigger] fields[i as int] == mem.field_at(table, hashes, i)->Ok_0,
{
    lemma_fields_from(mem, table, hashes, count, 0);
}

/// The superclass name is optional and the class's own name is not. A class
/// whose superclass address is null, or whose superclass name cannot be read
/// or decoded, has no superclass name, and decodes exactly where it would
/// with any other superclass address. A class whose own name address is null
/// does not decode.
pub proof fn lemma_optional_super_type(mem: Memory, info: ClassTypeInfo, other: ForeignAddress)
    ensures
        mem.class(info) matches Ok(class) ==> class.super_type == mem.optional_cstring(info.super_type),
        info.super_type.is_null() || mem.cstring(info.super_type) is Err ==> (mem.class(info) matches Ok(class)
            ==> class.super_type is None),
        mem.class(info) is Ok <==> mem.class(ClassTypeInfo { super_type: other, ..info }) is Ok,
        info.name.is_null() ==> mem.class(info) is Err,
{
    reveal(Memory::class);
}

/// Calls `if_null` where `ptr` is null, and `if_not_null` on `ptr` where it
/// is not.
pub fn ptr_or_else<R, F1, F2>(ptr: ForeignAddress, if_null: F1, if_not_null: F2) -> (r: R) where
    F1: FnOnce() -> R,
    F2: FnOnce(ForeignAddress) -> R,

    requires
        ptr.is_null() ==> if_null.requires(()),
        !ptr.is_null() ==> if_not_null.requires((ptr,)),
    ensures
        ptr.is_null() ==> if_null.ensures((), r),
        !ptr.is_null() ==> if_not_null.ensures((ptr,), r),
{
    if ptr.is_null() {
        if_null()
    } else {
        if_not_null(ptr)
    }
}

/// Decodes the field that `info` describes, with `hash` for the hash of its
/// name.
pub fn read_class_variable<F: Fn(u64, usize) -> Result<Vec<u8>, i32>>(
    reader: &ProcessMemoryReader<F>,
    info: &ClassVariableInfo,
    hash: Option<u64>,
) -> (r: Result<ClassVariable, ProcessMemoryError>)
    ensures
        info.declared_type.is_null() ==> r == Err::<ClassVariable, ProcessMemoryError>(
            ProcessMemoryError::EmptyString,
        ),
        info.name.is_null() ==> r is Err,
        r matches Ok(variable) ==> variable.offset == info.offset && variable.size == info.size && variable.flags
            == info.flags && variable.hash == hash && (info.ops.is_null() ==> variable.ops is None) && (
        info.comment.is_null() ==> variable.comment is None),
        forall|mem: Memory| #[trigger] reader.reads_from(mem) ==> deep_ok(r) == mem.class_variable(*info, hash),
{
    let declared_type: String = match reader.read_cstring(info.declared_type) {
        Ok(text) => text,
        Err(e) => {
            return Err(e);
        },
    };
    let name: String = match reader.read_cstring(info.name) {
        Ok(text) => text,
        Err(e) => {
            return Err(e);
        },
    };
    let ops: Option<String> = reader.read_optional_cstring(info.ops);
    let comment: Option<String> = reader.read_optional_cstring(info.comment);
    Ok(
        ClassVariable {
            declared_type,
            name,
            ops,
            offset: info.offset,
            size: info.size,
            flags: info.flags,
            comment,
            hash,
        },
    )
}

/// Decodes the template parameters in the table that `class_type_info`
/// points to: every entry before the first one whose declared type is null.
/// None of them has a name hash.
pub fn read_class_template_parms<F: Fn(u64, usize) -> Result<Vec<u8>, i32>>(
    reader: &ProcessMemoryReader<F>,
    class_type_info: &ClassTypeInfo,
) -> (r: Result<Vec<ClassVariable>, ProcessMemoryError>)
    ensures
        r matches Ok(variables) ==> forall|i: int| 0 <= i < variables@.len() ==> (#[trigger] variables@[i]).hash is None,
        forall|mem: Memory| #[trigger]
            reader.reads_from(mem) ==> deep_ok(r) == mem.fields_from(class_type_info.template_parms, None, 0),
{
    let table: ForeignAddress = class_type_info.template_parms;
    let mut result: Vec<ClassVariable> = Vec::new();
    let mut i: u64 = 0;
    loop
        invariant
            table == class_type_info.template_parms,
            forall|k: int| 0 <= k < result@.len() ==> (#[trigger] result@[k]).hash is None,
            forall|mem: Memory| #[trigger]
                reader.reads_from(mem) ==> mem.fields_from(table, None, 0) == prepend(
                    result.deep_view(),
                    mem.fields_from(table, None, i),
                ),
        ensures
            forall|mem: Memory| #[trigger]
                reader.reads_from(mem) ==> mem.fields_from(table, None, 0) == Ok::<
                    Seq<ClassVariableView>,
                    ProcessMemoryError,
                >(result.deep_view()),
        decreases u64::MAX - i,
    {
        let address: ForeignAddress = match table.element(i, VARIABLE_INFO_SIZE) {
            Some(address) => address,
            None => {
                return Err(ProcessMemoryError::AddressOverflow);
            },
        };
        let info: ClassVariableInfo = match reader.read_struct::<ClassVariableInfo>(address) {
            Ok(info) => info,
            Err(e) => {
                return Err(e);
            },
        };
        if info.declared_type.is_null() {
            break;
        }
        let variable: ClassVariable = match read_class_variable(reader, &info, None) {
            Ok(variable) => variable,
            Err(e) => {
                return Err(e);
            },
        };
        let ghost before = result.deep_view();
        result.push(variable);
        assert(result.deep_view() =~= before.push(variable.deep_view()));
        assert forall|mem: Memory| #[trigger] reader.reads_from(mem) implies mem.fields_from(table, None, 0)
            == prepend(result.deep_view(), mem.fields_from(table, None, (i + 1) as u64)) by {
            let rest = mem.fields_from(table, None, (i + 1) as u64);
            if rest is Ok {
                assert(before + (seq![variable.deep_view()] + rest->Ok_0) =~= before.push(variable.deep_view())
                    + rest->Ok_0);
            }
        }
        i += 1;
    }
    Ok(result)
}

/// Decodes the fields in the table that `class_type_info` points to: every
/// entry before the first one whose declared type is null, each with the
/// name hash that stands at its index in the table of name hashes.
///
/// A name hash that cannot be read fails the whole table.
pub fn read_class_variables<F: Fn(u64, usize) -> Result<Vec<u8>, i32>>(
    reader: &ProcessMemoryReader<F>,
    class_type_info: &ClassTypeInfo,
) -> (r: Result<Vec<ClassVariable>, ProcessMemoryError>)
    ensures
        r matches Ok(variables) ==> forall|i: int| 0 <= i < variables@.len() ==> (#[trigger] variables@[i]).hash is Some,
        forall|mem: Memory| #[trigger]
            reader.reads_from(mem) ==> deep_ok(r) == mem.fields_from(
                class_type_info.variables,
                Some(class_type_info.variable_name_hashes),
                0,
            ),
{
    let table: ForeignAddress = class_type_info.variables;
    let hashes: ForeignAddress = class_type_info.variable_name_hashes;
    let mut result: Vec<ClassVariable> = Vec::new();
    let mut i: u64 = 0;
    loop
        invariant
            table == class_type_info.variables,
            hashes == class_type_info.variable_name_hashes,
            forall|k: int| 0 <= k < result@.len() ==> (#[trigger] result@[k]).hash is Some,
            forall|mem: Memory| #[trigger]
                reader.reads_from(mem) ==> mem.fields_from(table, Some(hashes), 0) == prepend(
                    result.deep_view(),
                    mem.fields_from(table, Some(hashes), i),
                ),
        ensures
            forall|mem: Memory| #[trigger]
                reader.reads_from(mem) ==> mem.fields_from(table, Some(hashes), 0) == Ok::<
                    Seq<ClassVariableView>,
                    ProcessMemoryError,
                >(result.deep_view()),
        decreases u64::MAX - i,
    {
        let address: ForeignAddress = match table.element(i, VARIABLE_INFO_SIZE) {
            Some(address) => address,
            None => {
                return Err(ProcessMemoryError::AddressOverflow);
            },
        };
        let info: ClassVariableInfo = match reader.read_struct::<ClassVariableInfo>(address) {
            Ok(info) => info,
            Err(e) => {
                return Err(e);
            },
        };
        if info.declared_type.is_null() {
            break;
        }
        let hash_address: ForeignAddress = match hashes.element(i, NAME_HASH_SIZE) {
            Some(address) => address,
            None => {
                return Err(ProcessMemoryError::AddressOverflow);
            },
        };
        let hash: u64 = match reader.read_struct::<u64>(hash_address) {
            Ok(hash) => hash,
            Err(e) => {
                return Err(e);
            },
        };
        let variable: ClassVariable = match read_class_variable(reader, &info, Some(hash)) {
            Ok(variable) => variable,
            Err(e) => {
                return Err(e);
            },
        };
        let ghost before = result.deep_view();
        result.push(variable);
        assert(result.deep_view() =~= before.push(variable.deep_view()));
        assert forall|mem: Memory| #[trigger] reader.reads_from(mem) implies mem.fields_from(table, Some(hashes), 0)
            == prepend(result.deep_view(), mem.fields_from(table, Some(hashes), (i + 1) as u64)) by {
            let rest = mem.fields_from(table, Some(hashes), (i + 1) as u64);
            if rest is Ok {
                assert(before + (seq![variable.deep_view()] + rest->Ok_0) =~= before.push(variable.deep_view())
                    + rest->Ok_0);
            }
        }
        i += 1;
    }
    Ok(result)
}

/// Decodes the class that `class_type_info` describes.
///
/// The name is required: where it cannot be had the class fails. The
/// superclass name is optional: a null address, and a name that cannot be
/// read or decoded, leave it out and fail nothing. A null address in place
/// of a table gives an empty list.
pub fn read_class<F: Fn(u64, usize) -> Result<Vec<u8>, i32>>(
    reader: &ProcessMemoryReader<F>,
    class_type_info: &ClassTypeInfo,
) -> (r: Result<Class, ProcessMemoryError>)
    ensures
        class_type_info.name.is_null() ==> r is Err,
        r matches Ok(class) ==> {
            &&& class.hash == class_type_info.name_hash
            &&& class.size == class_type_info.size
            &&& class.checksum == class_type_info.class_checksum
            &&& class_type_info.super_type.is_null() ==> class.super_type is None
            &&& class_type_info.meta_data.is_null() ==> class.meta_data is None
            &&& class_type_info.template_parms.is_null() ==> class.template_parms@.len() == 0
            &&& class_type_info.variables.is_null() ==> class.variables@.len() == 0
            &&& forall|i: int| 0 <= i < class.template_parms@.len() ==> (#[trigger] class.template_parms@[i]).hash is None
            &&& forall|i: int| 0 <= i < class.variables@.len() ==> (#[trigger] class.variables@[i]).hash is Some
        },
        forall|mem: Memory| #[trigger] reader.reads_from(mem) ==> deep_ok(r) == mem.class(*class_type_info),
{
    proof {
        reveal(Memory::class);
    }
    let meta_data: Option<String> = if class_type_info.meta_data.is_null() {
        None
    } else {
        let record: ClassMetaDataInfo = match reader.read_struct::<ClassMetaDataInfo>(class_type_info.meta_data) {
            Ok(record) => record,
            Err(e) => {
                return Err(e);
            },
        };
        if record.meta_data.is_null() {
            None
        } else {
            match reader.read_cstring(record.meta_data) {
                Ok(text) => Some(text),
                Err(ProcessMemoryError::InvalidString) => None,
                Err(e) => {
                    return Err(e);
                },
            }
        }
    };

    let template_parms: Vec<ClassVariable> = if class_type_info.template_parms.is_null() {
        Vec::new()
    } else {
        match read_class_template_parms(reader, class_type_info) {
            Ok(template_parms) => template_parms,
            Err(e) => {
                return Err(e);
            },
        }
    };

    let variables: Vec<ClassVariable> = if class_type_info.variables.is_null() {
        Vec::new()
    } else {
        match read_class_variables(reader, class_type_info) {
            Ok(variables) => variables,
            Err(e) => {
                return Err(e);
            },
        }
    };

    let name: String = match reader.read_cstring(class_type_info.name) {
        Ok(name) => name,
        Err(e) => {
            return Err(e);
        },
    };
    let super_type: Option<String> = reader.read_optional_cstring(class_type_info.super_type);
    assert(class_type_info.template_parms.is_null() ==> template_parms.deep_view() =~= Seq::empty());
    assert(class_type_info.variables.is_null() ==> variables.deep_view() =~= Seq::empty());
    Ok(
        Class {
            name,
            super_type,
            hash: class_type_info.name_hash,
            size: class_type_info.size,
            template_parms,
            variables,
            checksum: class_type_info.class_checksum,
            meta_data,
        },
    )
}

/// Decodes every entry of `infos`, in order. The first class that fails is
/// the failure of the call.
pub fn read_class_entries<F: Fn(u64, usize) -> Result<Vec<u8>, i32>>(
    reader: &ProcessMemoryReader<F>,
    infos: &Vec<ClassTypeInfo>,
) -> (r: Result<Vec<Class>, ProcessMemoryError>)
    ensures
        infos@.len() == 0 ==> r is Ok,
        r matches Ok(classes) ==> classes@.len() == infos@.len(),
        forall|mem: Memory| #[trigger]
            reader.reads_from(mem) ==> deep_ok(r) == decode_all(infos@, mem.class_decoder()),
{
    let mut result: Vec<Class> = Vec::new();
    let mut i: usize = 0;
    assert(infos@.skip(0) =~= infos@);
    while i < infos.len()
        invariant
            i <= infos@.len(),
            result@.len() == i,
            forall|mem: Memory| #[trigger]
                reader.reads_from(mem) ==> decode_all(infos@, mem.class_decoder()) == prepend(
                    result.deep_view(),
                    decode_all(infos@.skip(i as int), mem.class_decoder()),
                ),
        decreases infos@.len() - i,
    {
        let class: Class = match read_class(reader, &infos[i]) {
            Ok(class) => class,
            Err(e) => {
                return Err(e);
            },
        };
        let ghost before = result.deep_view();
        result.push(class);
        assert(result.deep_view() =~= before.push(class.deep_view()));
        assert forall|mem: Memory| #[trigger] reader.reads_from(mem) implies decode_all(infos@, mem.class_decoder())
            == prepend(result.deep_view(), decode_all(infos@.skip(i + 1), mem.class_decoder())) by {
            lemma_decode_all_step(infos@, mem.class_decoder(), i as int);
            let rest = decode_all(infos@.skip(i + 1), mem.class_decoder());
            if rest is Ok {
                assert(before + (seq![class.deep_view()] + rest->Ok_0) =~= before.push(class.deep_view())
                    + rest->Ok_0);
            }
        }
        i += 1;
    }
    Ok(result)
}

/// Decodes the classes of the table that `type_info_generated` points to.
///
/// The stored count includes the entry that closes the table: one entry less
/// is read, in one read, and each is decoded. A count below one is
/// `InvalidCount`. The first class that fails is the failure of the call.
pub fn read_classes<F: Fn(u64, usize) -> Result<Vec<u8>, i32>>(
    reader: &ProcessMemoryReader<F>,
    type_info_generated: &TypeInfoGenerated,
) -> (r: Result<Vec<Class>, ProcessMemoryError>)
    ensures
        type_info_generated.num_classes < 1 ==> r == Err::<Vec<Class>, ProcessMemoryError>(
            ProcessMemoryError::InvalidCount { count: type_info_generated.num_classes },
        ),
        r matches Ok(classes) ==> classes@.len() == type_info_generated.num_classes - 1,
        forall|mem: Memory| #[trigger] reader.reads_from(mem) ==> deep_ok(r) == mem.classes(*type_info_generated),
{
    if type_info_generated.num_classes < 1 {
        return Err(ProcessMemoryError::InvalidCount { count: type_info_generated.num_classes });
    }
    let count: usize = (type_info_generated.num_classes - 1) as usize;
    match reader.read_structs::<ClassTypeInfo>(type_info_generated.classes, count) {
        Ok(infos) => read_class_entries(reader, &infos),
        Err(e) => Err(e),
    }
}

} // verus!
