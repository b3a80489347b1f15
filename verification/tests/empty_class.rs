use cafebabe::constant_pool::{ConstantPool, ConstantPoolEntry};
use cafebabe::{read_class_data, AccessFlags, ClassFile};

fn push_u16(data: &mut Vec<u8>, value: u16) {
    data.push((value >> 8) as u8);
    data.push(value as u8);
}

fn push_string_entry(data: &mut Vec<u8>, text: &str) {
    data.push(1);
    push_u16(data, text.len() as u16);
    data.extend_from_slice(text.as_bytes());
}

fn push_class_ref_entry(data: &mut Vec<u8>, name_idx: u16) {
    data.push(7);
    push_u16(data, name_idx);
}

fn push_method_ref_entry(data: &mut Vec<u8>, class_ref: u16, name_type_ref: u16) {
    data.push(10);
    push_u16(data, class_ref);
    push_u16(data, name_type_ref);
}

fn push_name_type_entry(data: &mut Vec<u8>, name_ref: u16, type_descriptor_ref: u16) {
    data.push(12);
    push_u16(data, name_ref);
    push_u16(data, type_descriptor_ref);
}

/// The bytes a compiler emits for a public class with no declared members,
/// up to the end of the interface list: a twelve-entry constant pool
/// carrying the constructor's method reference and the class names.
fn empty_class_data(major: u16) -> Vec<u8> {
    let mut data: Vec<u8> = Vec::new();
    push_u16(&mut data, 0xcafe);
    push_u16(&mut data, 0xbabe);
    push_u16(&mut data, 0); // minor version
    push_u16(&mut data, major);
    push_u16(&mut data, 13); // constant pool count: 12 entries
    push_method_ref_entry(&mut data, 3, 10); // 1
    push_class_ref_entry(&mut data, 11); // 2
    push_class_ref_entry(&mut data, 12); // 3
    push_string_entry(&mut data, "<init>"); // 4
    push_string_entry(&mut data, "()V"); // 5
    push_string_entry(&mut data, "Code"); // 6
    push_string_entry(&mut data, "LineNumberTable"); // 7
    push_string_entry(&mut data, "SourceFile"); // 8
    push_string_entry(&mut data, "EmptyClass.java"); // 9
    push_name_type_entry(&mut data, 4, 5); // 10
    push_string_entry(&mut data, "examples/EmptyClass"); // 11
    push_string_entry(&mut data, "java/lang/Object"); // 12
    push_u16(&mut data, 0x0021); // access flags: public, super
    push_u16(&mut data, 2); // this class
    push_u16(&mut data, 3); // super class
    push_u16(&mut data, 0); // interface count
    data
}

#[test]
fn reads_java8_empty_class() {
    let class_file = read_class_data(&empty_class_data(52)).expect("Can't parse class file");
    assert_eq!(class_file.version.major, 52);
    validate_constant_pool(&class_file);
    validate_access_flags(&class_file);
    validate_class_name(&class_file, "examples/EmptyClass");
    validate_super_class_name(&class_file);
    validate_no_interfaces(&class_file);
}

#[test]
fn reads_java11_empty_class() {
    let class_file = read_class_data(&empty_class_data(55)).expect("Can't parse class file");
    assert_eq!(class_file.version.major, 55);
    validate_constant_pool(&class_file);
    validate_access_flags(&class_file);
    validate_class_name(&class_file, "examples/EmptyClass");
    validate_super_class_name(&class_file);
    validate_no_interfaces(&class_file);
}

#[test]
fn reads_java17_empty_class() {
    let class_file = read_class_data(&empty_class_data(61)).expect("Can't parse class file");
    assert_eq!(class_file.version.major, 61);
    validate_constant_pool(&class_file);
    validate_access_flags(&class_file);
    validate_class_name(&class_file, "examples/EmptyClass");
    validate_super_class_name(&class_file);
    validate_no_interfaces(&class_file);
}

#[test]
fn reads_java21_empty_class() {
    let class_file = read_class_data(&empty_class_data(65)).expect("Can't parse class file");
    assert_eq!(class_file.version.major, 65);
    validate_constant_pool(&class_file);
    validate_access_flags(&class_file);
    validate_class_name(&class_file, "examples/EmptyClass");
    validate_super_class_name(&class_file);
    validate_no_interfaces(&class_file);
}

fn validate_constant_pool(class_file: &ClassFile) {
    let pool = &class_file.constant_pool;

    assert_eq!(pool.len(), 12);

    for item in pool.items() {
        match item {
            ConstantPoolEntry::String(value) => {
                assert_eq!(
                    value.len() > 0,
                    true,
                    "Unexpected empty string in constant pool"
                )
            }
            ConstantPoolEntry::MethodRef(method_ref) => {
                let class_idx = pool.class_ref_entry(method_ref.class_ref as usize).unwrap();
                assert_string_class_name(&pool, class_idx);

                let name_type_ref_idx = pool
                    .name_type_entry(method_ref.name_type_ref as usize)
                    .unwrap();
                assert_string_method_name(&pool, name_type_ref_idx.name_ref);
                assert_type_descriptor(&pool, name_type_ref_idx.type_descriptor_ref);
            }
            ConstantPoolEntry::ClassRef(class_ref) => {
                assert_string_class_name(&pool, *class_ref);
            }
            ConstantPoolEntry::NameTypeDescriptor(name_type_descriptor) => {
                assert_string_method_name(&pool, name_type_descriptor.name_ref);
                assert_type_descriptor(&pool, name_type_descriptor.type_descriptor_ref);
            }
            _ => (),
        }
    }
}

fn validate_access_flags(class_file: &ClassFile) {
    assert_eq!(
        true,
        class_file.access_flags.contains(AccessFlags::ACC_PUBLIC),
        "Expect class to be public"
    );
}

fn validate_class_name(class_file: &ClassFile, expected_class_name: &str) {
    let class_ref_idx = class_file.class.this_idx;
    let class_name_idx = class_file
        .constant_pool
        .class_ref_entry(class_ref_idx)
        .unwrap();
    let class_name = class_file
        .constant_pool
        .string_entry(class_name_idx)
        .unwrap();
    assert_eq!(class_name, expected_class_name, "Expect class to be valid");
}

fn validate_super_class_name(class_file: &ClassFile) {
    let class_ref_idx = class_file.class.super_idx;
    let class_name_idx = class_file
        .constant_pool
        .class_ref_entry(class_ref_idx)
        .unwrap();
    let class_name = class_file
        .constant_pool
        .string_entry(class_name_idx)
        .unwrap();
    assert_eq!(
        class_name, "java/lang/Object",
        "Expect super class to be java/lang/Object"
    );
}

fn validate_no_interfaces(class_file: &ClassFile) {
    let interfaces = &class_file.class.interfaces;
    assert_eq!(interfaces.len(), 0);
}

fn assert_type_descriptor(pool: &ConstantPool, idx: u16) -> () {
    let type_descriptor = pool.string_entry(idx).unwrap();
    assert_eq!(
        type_descriptor.contains("("),
        true,
        "Method descriptor points to string in unexpected format"
    );
    assert_eq!(
        type_descriptor.contains(")"),
        true,
        "Method descriptor points to string in unexpected format"
    );
}

fn assert_string_method_name(pool: &ConstantPool, idx: u16) -> () {
    let method_name = pool.string_entry(idx).unwrap();
    let is_constructor = "<init>".eq(method_name);

    assert_eq!(
        is_constructor, true,
        "Method name ref points to string in unexpected format"
    );
}

fn assert_string_class_name(pool: &ConstantPool, idx: u16) -> () {
    let class_name = pool.string_entry(idx).unwrap();
    assert_eq!(
        class_name.contains('/'),
        true,
        "Class ref points to string in unexpected format"
    );
}
