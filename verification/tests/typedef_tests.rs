use idlib_typeinfo::address::ForeignAddress;
use idlib_typeinfo::error::ProcessMemoryError;
use idlib_typeinfo::image::{MemoryImage, UNMAPPED};
use idlib_typeinfo::reader::ProcessMemoryReader;
use idlib_typeinfo::type_info::TypeInfoGenerated;
use idlib_typeinfo::typedefs::{read_typedef, read_typedef_entries, read_typedefs, TypeDef, TypeDefInfo};

const STRINGS: u64 = 0x10_0000;
const TYPEDEFS: u64 = 0x20_0000;
const NOWHERE: u64 = 0x7000_0000;

struct Strings {
    base: u64,
    bytes: Vec<u8>,
}

impl Strings {
    fn new(base: u64) -> Strings {
        Strings { base, bytes: Vec::new() }
    }

    fn add(&mut self, text: &[u8]) -> u64 {
        let address = self.base + self.bytes.len() as u64;
        self.bytes.extend_from_slice(text);
        self.bytes.push(0);
        address
    }

    fn map_into(mut self, image: &mut MemoryImage) {
        self.bytes.extend_from_slice(&[0; 1024]);
        image.map(self.base, self.bytes);
    }
}

fn typedef_info(name: u64, aliased_type: u64, ops: u64, size: u32) -> TypeDefInfo {
    TypeDefInfo {
        name: ForeignAddress(name),
        aliased_type: ForeignAddress(aliased_type),
        ops: ForeignAddress(ops),
        size,
    }
}

fn typedef_entry(info: &TypeDefInfo) -> Vec<u8> {
    let mut record = vec![0xcc; 32];
    record[0..8].copy_from_slice(&info.name.0.to_le_bytes());
    record[8..16].copy_from_slice(&info.aliased_type.0.to_le_bytes());
    record[16..24].copy_from_slice(&info.ops.0.to_le_bytes());
    record[24..28].copy_from_slice(&info.size.to_le_bytes());
    record
}

fn root_with_typedefs(typedefs: u64, num_typedefs: i32) -> TypeInfoGenerated {
    TypeInfoGenerated {
        project_name: ForeignAddress(0),
        enums: ForeignAddress(0),
        num_enums: 0,
        classes: ForeignAddress(0),
        num_classes: 0,
        typedefs: ForeignAddress(typedefs),
        num_typedefs,
        render_model_ctors: ForeignAddress(0),
        num_render_model_ctors: 0,
        logic_custom_event_declarations: ForeignAddress(0),
        num_logic_custom_event_declarations: 0,
    }
}

/// The strings `handle_t`, `unsigned int` and `*`.
fn image_with_names() -> (MemoryImage, u64, u64, u64) {
    let mut image = MemoryImage::new();
    let mut strings = Strings::new(STRINGS);
    let name = strings.add(b"handle_t");
    let aliased = strings.add(b"unsigned int");
    let ops = strings.add(b"*");
    strings.map_into(&mut image);
    (image, name, aliased, ops)
}

#[test]
fn typedef_decodes_alias_type_ops_and_size() {
    let (image, name, aliased, ops) = image_with_names();
    let reader = ProcessMemoryReader::new(|address, size| image.read(address, size));
    assert_eq!(
        read_typedef(&reader, &typedef_info(name, aliased, ops, 4)),
        Ok(TypeDef {
            name: String::from("handle_t"),
            aliased_type: String::from("unsigned int"),
            ops: Some(String::from("*")),
            size: 4,
        })
    );
}

#[test]
fn typedef_ops_is_optional() {
    let (image, name, aliased, _) = image_with_names();
    let reader = ProcessMemoryReader::new(|address, size| image.read(address, size));
    for ops in [0, NOWHERE] {
        let typedef = read_typedef(&reader, &typedef_info(name, aliased, ops, 4)).unwrap();
        assert_eq!(typedef.ops, None);
        assert_eq!(typedef.name, "handle_t");
    }
}

#[test]
fn typedef_alias_and_type_are_required() {
    let (image, name, aliased, ops) = image_with_names();
    let reader = ProcessMemoryReader::new(|address, size| image.read(address, size));
    assert_eq!(
        read_typedef(&reader, &typedef_info(0, aliased, ops, 4)),
        Err(ProcessMemoryError::EmptyString)
    );
    assert_eq!(
        read_typedef(&reader, &typedef_info(name, 0, ops, 4)),
        Err(ProcessMemoryError::EmptyString)
    );
    assert_eq!(
        read_typedef(&reader, &typedef_info(name, NOWHERE, ops, 4)),
        Err(ProcessMemoryError::CouldNotReadProcessMemory { code: UNMAPPED })
    );
}

#[test]
fn stored_typedef_count_of_five_decodes_five_typedefs() {
    let (mut image, name, aliased, _) = image_with_names();
    let mut table = Vec::new();
    for i in 0..5u32 {
        table.extend_from_slice(&typedef_entry(&typedef_info(name + i as u64, aliased, 0, i)));
    }
    image.map(TYPEDEFS, table);
    let reader = ProcessMemoryReader::new(|address, size| image.read(address, size));
    let typedefs = read_typedefs(&reader, &root_with_typedefs(TYPEDEFS, 5)).unwrap();
    assert_eq!(typedefs.len(), 5);
    let names: Vec<&str> = typedefs.iter().map(|typedef| typedef.name.as_str()).collect();
    assert_eq!(names, vec!["handle_t", "andle_t", "ndle_t", "dle_t", "le_t"]);
    let sizes: Vec<u32> = typedefs.iter().map(|typedef| typedef.size).collect();
    assert_eq!(sizes, vec![0, 1, 2, 3, 4]);
    assert_eq!(read_typedefs(&reader, &root_with_typedefs(TYPEDEFS, 0)), Ok(vec![]));
    assert_eq!(
        read_typedefs(&reader, &root_with_typedefs(TYPEDEFS, 6)),
        Err(ProcessMemoryError::CouldNotReadProcessMemory { code: UNMAPPED })
    );
}

#[test]
fn negative_typedef_count_is_invalid() {
    let (image, _, _, _) = image_with_names();
    let reader = ProcessMemoryReader::new(|address, size| image.read(address, size));
    for count in [-1, i32::MIN] {
        assert_eq!(
            read_typedefs(&reader, &root_with_typedefs(TYPEDEFS, count)),
            Err(ProcessMemoryError::InvalidCount { count })
        );
    }
}

#[test]
fn one_typedef_that_fails_is_the_failure_of_the_table() {
    let (image, name, aliased, _) = image_with_names();
    let reader = ProcessMemoryReader::new(|address, size| image.read(address, size));
    let infos = vec![typedef_info(name, aliased, 0, 4), typedef_info(name, 0, 0, 4)];
    assert_eq!(read_typedef_entries(&reader, &infos), Err(ProcessMemoryError::EmptyString));
    assert_eq!(read_typedef_entries(&reader, &infos[..1].to_vec()).unwrap().len(), 1);
}
