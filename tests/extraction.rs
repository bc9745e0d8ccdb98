use dicom_json::extract::{DataElement, DecodedObject, DicomProcessor};
use dicom_json::model::DicomInstance;
use dicom_json::options::{OutputFormat, ProcessorConfig};
use dicom_json::tag::{Attribute, Tag};
use dicom_json::value::{
    convert_primitive_value, decimal, extract_element_value, sequence_item_label, ElementValue,
    JsonScalar, JsonValue, PrimitiveValue,
};

fn text_element(group: u16, element: u16, vr: &str, text: &str) -> DataElement {
    DataElement {
        tag: Tag::new(group, element),
        vr: vr.to_string(),
        value: ElementValue::Primitive(PrimitiveValue::Str(text.to_string())),
        text: Some(text.to_string()),
        debug: format!("Str({:?})", text),
    }
}

fn processor(include_private: bool, format: OutputFormat) -> DicomProcessor {
    DicomProcessor::new(ProcessorConfig { include_private, format })
}

fn sample_object() -> DecodedObject {
    let mut obj = DecodedObject::new("1.2.840.10008.1.2.1".to_string());
    obj.put(text_element(0x0008, 0x0016, "UI", "1.2.840.10008.5.1.4.1.1.2"));
    obj.put(text_element(0x0008, 0x0018, "UI", "1.2.3.4.5"));
    obj.put(text_element(0x0009, 0x0010, "LO", "VENDOR"));
    obj.put(text_element(0x0010, 0x0010, "PN", "Doe^Jane"));
    obj.put(text_element(0x0020, 0x0013, "IS", "7"));
    obj
}

fn find<'a>(inst: &'a DicomInstance, key: &str) -> Option<&'a dicom_json::model::TagInfo> {
    inst.metadata.tags.iter().find(|t| t.tag == key)
}

#[test]
fn tag_keys_are_upper_case_hex() {
    assert_eq!(Tag::new(0x0008, 0x0060).key(), "(0008,0060)");
    assert_eq!(Tag::new(0x7FE0, 0x0010).key(), "(7FE0,0010)");
    assert_eq!(Tag::new(0xabcd, 0x00ef).key(), "(ABCD,00EF)");
    assert_eq!(Attribute::PixelData.tag(), Tag::new(0x7FE0, 0x0010));
}

#[test]
fn tag_keys_of_an_instance_have_the_canonical_shape() {
    let inst = processor(true, OutputFormat::Basic).process_file("a.dcm".to_string(), &sample_object());
    for t in &inst.metadata.tags {
        let b = t.tag.as_bytes();
        assert_eq!(b.len(), 11);
        assert_eq!(b[0], b'(');
        assert_eq!(b[5], b',');
        assert_eq!(b[10], b')');
        for i in [1, 2, 3, 4, 6, 7, 8, 9] {
            assert!(b[i].is_ascii_digit() || (b'A'..=b'F').contains(&b[i]));
        }
    }
}

#[test]
fn single_item_is_scalar_and_many_items_are_an_array() {
    let dbg = "dump".to_string();
    assert_eq!(
        convert_primitive_value(&PrimitiveValue::U16(vec![512]), &dbg),
        JsonValue::Scalar(JsonScalar::UInt(512))
    );
    assert_eq!(
        convert_primitive_value(&PrimitiveValue::I32(vec![-1, 2, -3]), &dbg),
        JsonValue::Array(vec![JsonScalar::Int(-1), JsonScalar::Int(2), JsonScalar::Int(-3)])
    );
    assert_eq!(
        convert_primitive_value(&PrimitiveValue::Strs(vec!["DERIVED".to_string()]), &dbg),
        JsonValue::Scalar(JsonScalar::Str("DERIVED".to_string()))
    );
    assert_eq!(
        convert_primitive_value(&PrimitiveValue::Strs(vec!["A".to_string(), "B".to_string()]), &dbg),
        JsonValue::Array(vec![JsonScalar::Str("A".to_string()), JsonScalar::Str("B".to_string())])
    );
    assert_eq!(
        convert_primitive_value(&PrimitiveValue::F64(vec![1.5f64.to_bits()]), &dbg),
        JsonValue::Scalar(JsonScalar::F64Bits(1.5f64.to_bits()))
    );
    assert_eq!(
        convert_primitive_value(&PrimitiveValue::Date(vec!["2024-01-02".to_string(), "2024-02-03".to_string()]), &dbg),
        JsonValue::Array(vec![
            JsonScalar::Str("2024-01-02".to_string()),
            JsonScalar::Str("2024-02-03".to_string())
        ])
    );
}

#[test]
fn tag_references_render_canonically() {
    let dbg = "dump".to_string();
    assert_eq!(
        convert_primitive_value(&PrimitiveValue::Tags(vec![Tag::new(0x0010, 0x0020)]), &dbg),
        JsonValue::Scalar(JsonScalar::Str("(0010,0020)".to_string()))
    );
    assert_eq!(
        convert_primitive_value(&PrimitiveValue::Tags(vec![Tag::new(0x0010, 0x0020), Tag::new(0x7fe0, 0x0010)]), &dbg),
        JsonValue::Array(vec![
            JsonScalar::Str("(0010,0020)".to_string()),
            JsonScalar::Str("(7FE0,0010)".to_string())
        ])
    );
}

#[test]
fn empty_primitive_falls_back_to_its_dump() {
    let dbg = "Empty".to_string();
    assert_eq!(
        convert_primitive_value(&PrimitiveValue::Empty, &dbg),
        JsonValue::Scalar(JsonScalar::Str("Empty".to_string()))
    );
}

#[test]
fn sequences_render_as_placeholders() {
    assert_eq!(decimal(0), "0");
    assert_eq!(decimal(1907), "1907");
    assert_eq!(sequence_item_label(12), "Sequence Item 12");
    let (v, raw) = extract_element_value(
        &ElementValue::Sequence { items: 3 },
        &None,
        &"Sequence".to_string(),
        OutputFormat::Comprehensive,
    );
    assert_eq!(
        v,
        JsonValue::Array(vec![
            JsonScalar::Str("Sequence Item 1".to_string()),
            JsonScalar::Str("Sequence Item 2".to_string()),
            JsonScalar::Str("Sequence Item 3".to_string())
        ])
    );
    assert_eq!(raw, None);
}

#[test]
fn native_text_wins_and_raw_format_dumps() {
    let value = ElementValue::Primitive(PrimitiveValue::U16(vec![1, 2]));
    let (v, raw) = extract_element_value(&value, &Some("1\\2".to_string()), &"U16([1, 2])".to_string(), OutputFormat::Medical);
    assert_eq!(v, JsonValue::Scalar(JsonScalar::Str("1\\2".to_string())));
    assert_eq!(raw, Some("1\\2".to_string()));
    let (v, raw) = extract_element_value(&value, &None, &"U16([1, 2])".to_string(), OutputFormat::Basic);
    assert_eq!(v, JsonValue::Array(vec![JsonScalar::UInt(1), JsonScalar::UInt(2)]));
    assert_eq!(raw, None);
    let (v, raw) = extract_element_value(&value, &Some("1\\2".to_string()), &"U16([1, 2])".to_string(), OutputFormat::Raw);
    assert_eq!(v, JsonValue::Scalar(JsonScalar::Str("U16([1, 2])".to_string())));
    assert_eq!(raw, Some("U16([1, 2])".to_string()));
}

#[test]
fn private_tags_follow_the_flag() {
    let obj = sample_object();
    let without = processor(false, OutputFormat::Comprehensive).process_file("a.dcm".to_string(), &obj);
    assert!(find(&without, "(0009,0010)").is_none());
    assert!(without.metadata.tags.iter().all(|t| !t.is_private));
    assert_eq!(without.metadata.tags.len(), 4);
    let with = processor(true, OutputFormat::Comprehensive).process_file("a.dcm".to_string(), &obj);
    let private = find(&with, "(0009,0010)").unwrap();
    assert!(private.is_private);
    assert_eq!(with.metadata.tags.len(), 5);
}

#[test]
fn instance_fields_come_from_the_dataset() {
    let inst = processor(false, OutputFormat::Basic).process_file("dir/a.dcm".to_string(), &sample_object());
    assert_eq!(inst.sop_instance_uid, "1.2.3.4.5");
    assert_eq!(inst.instance_number, Some("7".to_string()));
    assert_eq!(inst.file_path, "dir/a.dcm");
    assert_eq!(inst.metadata.transfer_syntax, Some("1.2.840.10008.1.2.1".to_string()));
    assert_eq!(inst.metadata.sop_class_uid, Some("1.2.840.10008.5.1.4.1.1.2".to_string()));
    assert!(inst.metadata.file_meta_information.is_empty());
    let keys: Vec<&str> = inst.metadata.tags.iter().map(|t| t.tag.as_str()).collect();
    assert_eq!(keys, vec!["(0008,0016)", "(0008,0018)", "(0010,0010)", "(0020,0013)"]);
}

#[test]
fn missing_uid_defaults_to_unknown() {
    let mut obj = DecodedObject::new("1.2.840.10008.1.2".to_string());
    obj.put(text_element(0x0010, 0x0010, "PN", "Doe^John"));
    let inst = processor(false, OutputFormat::Basic).process_file("b.dcm".to_string(), &obj);
    assert_eq!(inst.sop_instance_uid, "unknown");
    assert_eq!(inst.instance_number, None);
}

#[test]
fn pixel_data_presence_decides_the_flag() {
    let obj = sample_object();
    let inst = processor(false, OutputFormat::Basic).process_file("a.dcm".to_string(), &obj);
    assert!(!inst.has_pixel_data);
    let mut obj = sample_object();
    obj.put(DataElement {
        tag: Tag::new(0x7FE0, 0x0010),
        vr: "OB".to_string(),
        value: ElementValue::Other,
        text: None,
        debug: "PixelSequence".to_string(),
    });
    let inst = processor(false, OutputFormat::Basic).process_file("a.dcm".to_string(), &obj);
    assert!(inst.has_pixel_data);
}

#[test]
fn names_only_in_named_formats_and_absent_without_entry() {
    let mut obj = sample_object();
    obj.put(text_element(0x0008, 0xFFF0, "LO", "odd"));
    let inst = processor(false, OutputFormat::Comprehensive).process_file("a.dcm".to_string(), &obj);
    assert_eq!(find(&inst, "(0010,0010)").unwrap().name, Some("PatientName".to_string()));
    let unknown = find(&inst, "(0008,FFF0)").unwrap();
    assert_eq!(unknown.name, None);
    assert_eq!(unknown.value, JsonValue::Scalar(JsonScalar::Str("odd".to_string())));
    let basic = processor(false, OutputFormat::Basic).process_file("a.dcm".to_string(), &obj);
    assert_eq!(find(&basic, "(0010,0010)").unwrap().name, None);
}

#[test]
fn extraction_is_repeatable() {
    let p = processor(true, OutputFormat::Medical);
    let a = p.process_file("a.dcm".to_string(), &sample_object());
    let b = p.process_file("a.dcm".to_string(), &sample_object());
    assert_eq!(format!("{:?}", a), format!("{:?}", b));
}

#[test]
fn put_replaces_an_element_with_the_same_tag() {
    let mut obj = sample_object();
    obj.put(text_element(0x0010, 0x0010, "PN", "Roe^Richard"));
    assert_eq!(obj.elements().len(), 5);
    let inst = processor(false, OutputFormat::Basic).process_file("a.dcm".to_string(), &obj);
    assert_eq!(find(&inst, "(0010,0010)").unwrap().raw_value, Some("Roe^Richard".to_string()));
}
