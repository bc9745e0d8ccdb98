use dicom_json::discovery::{
    equals_ignore_ascii_case, is_likely_dicom_file, plan_root, require_candidates, select_candidates,
    DiscoveryError, RootKind, RootPlan, WalkEntry,
};
use dicom_json::extract::{DataElement, DecodedObject, DicomProcessor};
use dicom_json::hierarchy::{organize_by_hierarchy, sanitize_filename, study_directory_name};
use dicom_json::model::DicomInstance;
use dicom_json::options::{OutputFormat, ProcessorConfig};
use dicom_json::render::{create_basic_output, create_medical_output, create_raw_output};
use dicom_json::scheduler::collect_results;
use dicom_json::study_output::{
    create_basic_study_output, create_medical_study_output, create_raw_study_output,
};
use dicom_json::summary::ProcessingInfo;
use dicom_json::tag::Tag;
use dicom_json::value::{ElementValue, JsonScalar, JsonValue, PrimitiveValue};

fn text_element(group: u16, element: u16, text: &str) -> DataElement {
    DataElement {
        tag: Tag::new(group, element),
        vr: "LO".to_string(),
        value: ElementValue::Primitive(PrimitiveValue::Str(text.to_string())),
        text: Some(text.to_string()),
        debug: text.to_string(),
    }
}

fn instance(path: &str, study: Option<&str>, series: Option<&str>, modality: &str, pixels: bool) -> DicomInstance {
    let mut obj = DecodedObject::new("1.2.840.10008.1.2".to_string());
    obj.put(text_element(0x0008, 0x0018, path));
    obj.put(text_element(0x0008, 0x0020, "20240102"));
    obj.put(text_element(0x0008, 0x0060, modality));
    obj.put(text_element(0x0010, 0x0020, "PID-1"));
    if let Some(s) = study {
        obj.put(text_element(0x0020, 0x000D, s));
    }
    if let Some(s) = series {
        obj.put(text_element(0x0020, 0x000E, s));
    }
    if pixels {
        obj.put(DataElement {
            tag: Tag::new(0x7FE0, 0x0010),
            vr: "OW".to_string(),
            value: ElementValue::Primitive(PrimitiveValue::U16(vec![0, 1])),
            text: None,
            debug: "U16([0, 1])".to_string(),
        });
    }
    let p = DicomProcessor::new(ProcessorConfig { include_private: false, format: OutputFormat::Medical });
    p.process_file(path.to_string(), &obj)
}

fn entry(path: &str, ext: Option<&str>, signed: bool) -> WalkEntry {
    let mut header = vec![0u8; 132];
    if signed {
        header[128..132].copy_from_slice(b"DICM");
    }
    WalkEntry { path: path.to_string(), is_file: true, extension: ext.map(|e| e.to_string()), header: Some(header) }
}

fn stamp(results: &Vec<DicomInstance>) -> ProcessingInfo {
    ProcessingInfo::for_results(results, "run-1".to_string(), "2024-01-01T00:00:00Z".to_string())
}

#[test]
fn signature_without_known_extension_is_found() {
    let entries = vec![entry("d/a.bin", Some("bin"), true), entry("d/b.raw", Some("raw"), true), entry("d/c", None, true)];
    assert_eq!(select_candidates(&entries), vec!["d/a.bin", "d/b.raw", "d/c"]);
}

#[test]
fn files_with_neither_extension_nor_signature_are_excluded() {
    let entries = vec![
        entry("d/a.txt", Some("txt"), false),
        entry("d/b.DCM", Some("DCM"), false),
        entry("d/c.bin", Some("bin"), true),
        WalkEntry { path: "d/sub".to_string(), is_file: false, extension: None, header: None },
        WalkEntry { path: "d/locked.bin".to_string(), is_file: true, extension: Some("bin".to_string()), header: None },
        WalkEntry { path: "d/short".to_string(), is_file: true, extension: None, header: Some(b"DICM".to_vec()) },
    ];
    assert_eq!(select_candidates(&entries), vec!["d/b.DCM", "d/c.bin"]);
}

#[test]
fn known_extensions_in_any_case() {
    for ext in ["dcm", "DICOM", "Ima", "img"] {
        assert!(is_likely_dicom_file(&Some(ext.to_string()), &None));
    }
    assert!(!is_likely_dicom_file(&Some("dcmx".to_string()), &None));
    assert!(!is_likely_dicom_file(&None, &None));
    assert!(equals_ignore_ascii_case("ZiP", "zip"));
    assert!(!equals_ignore_ascii_case("zap", "zip"));
}

#[test]
fn root_plans() {
    assert_eq!(plan_root(RootKind::File, &Some("ZIP".to_string())), Ok(RootPlan::Archive));
    assert_eq!(plan_root(RootKind::File, &Some("txt".to_string())), Ok(RootPlan::Single));
    assert_eq!(plan_root(RootKind::File, &None), Ok(RootPlan::Single));
    assert_eq!(plan_root(RootKind::Directory, &None), Ok(RootPlan::Walk));
    assert_eq!(plan_root(RootKind::Missing, &None), Err(DiscoveryError::InputMissing));
    assert_eq!(require_candidates(vec![]), Err(DiscoveryError::NoCandidates));
    assert_eq!(require_candidates(vec!["a".to_string()]), Ok(vec!["a".to_string()]));
}

#[test]
fn shared_study_with_two_series() {
    let results = vec![
        instance("a", Some("1.1"), Some("1.1.1"), "CT", true),
        instance("b", Some("1.1"), Some("1.1.2"), "MR", false),
        instance("c", Some("1.1"), Some("1.1.1"), "CT", true),
    ];
    let info = stamp(&results);
    let studies = organize_by_hierarchy(results, &info);
    assert_eq!(studies.len(), 1);
    let st = &studies[0];
    assert_eq!(st.study_instance_uid, "1.1");
    assert_eq!(st.series.len(), 2);
    assert_eq!(st.series[0].series_instance_uid, "1.1.1");
    assert_eq!(st.series[0].instances.len(), 2);
    assert_eq!(st.series[0].modality, Some("CT".to_string()));
    assert_eq!(st.series[1].series_instance_uid, "1.1.2");
    assert_eq!(st.series[1].instances[0].file_path, "b");
    assert_eq!(st.patient_info.patient_id, Some("PID-1".to_string()));
    assert_eq!(st.processing_info.total_files, 3);
}

#[test]
fn missing_study_uids_share_one_bucket() {
    let results = vec![
        instance("a", None, None, "CT", false),
        instance("b", Some("2.2"), Some("2.2.1"), "CT", false),
        instance("c", None, Some("9.9"), "CT", false),
        instance("d", None, None, "CT", false),
    ];
    let info = stamp(&results);
    let studies = organize_by_hierarchy(results, &info);
    assert_eq!(studies.len(), 2);
    assert_eq!(studies[0].study_instance_uid, "unknown_study");
    assert_eq!(studies[0].series.len(), 2);
    assert_eq!(studies[0].series[0].series_instance_uid, "unknown_series");
    assert_eq!(studies[0].series[0].instances.len(), 2);
    assert_eq!(studies[1].study_instance_uid, "2.2");
}

#[test]
fn first_seen_fields_win() {
    let mut first = instance("a", Some("1"), Some("1.1"), "CT", false);
    first.metadata.tags.retain(|t| t.tag != "(0008,0020)");
    let results = vec![first, instance("b", Some("1"), Some("1.1"), "MR", false)];
    let info = stamp(&results);
    let studies = organize_by_hierarchy(results, &info);
    assert_eq!(studies[0].study_date, None);
    assert_eq!(studies[0].series[0].modality, Some("CT".to_string()));
}

#[test]
fn basic_output_caps_tags_at_ten() {
    let mut obj = DecodedObject::new("1.2.840.10008.1.2".to_string());
    for e in 0..50u16 {
        obj.put(text_element(0x0008, 0x1000 + e, "v"));
    }
    obj.put(text_element(0x0009, 0x0001, "private"));
    let p = DicomProcessor::new(ProcessorConfig { include_private: true, format: OutputFormat::Basic });
    let inst = p.process_file("x".to_string(), &obj);
    assert_eq!(inst.metadata.tags.len(), 51);
    let out = create_basic_output(&vec![inst]);
    assert_eq!(out.total_files, 1);
    assert_eq!(out.instances[0].tags.len(), 10);
    assert_eq!(out.instances[0].tags[0].key, "(0008,1000)");
    assert_eq!(out.instances[0].tags[9].key, "(0008,1009)");
    assert_eq!(out.instances[0].sop_instance_uid, "unknown");
}

#[test]
fn basic_output_skips_private_tags() {
    let mut obj = DecodedObject::new("1.2.840.10008.1.2".to_string());
    obj.put(text_element(0x0008, 0x0060, "CT"));
    obj.put(text_element(0x0009, 0x0001, "private"));
    let p = DicomProcessor::new(ProcessorConfig { include_private: true, format: OutputFormat::Basic });
    let out = create_basic_output(&vec![p.process_file("x".to_string(), &obj)]);
    assert_eq!(out.instances[0].tags.len(), 1);
    assert_eq!(out.instances[0].tags[0].value, JsonValue::Scalar(JsonScalar::Str("CT".to_string())));
}

#[test]
fn raw_output_lists_every_tag() {
    let inst = instance("a", Some("1"), Some("1.1"), "CT", false);
    let n = inst.metadata.tags.len();
    let out = create_raw_output(&vec![inst]);
    assert_eq!(out[0].file, "a");
    assert_eq!(out[0].tags.len(), n);
    assert_eq!(out[0].tags[0].key, "(0008,0018)");
    assert_eq!(out[0].tags[0].vr, "LO");
    assert_eq!(out[0].tags[0].raw, Some("a".to_string()));
    assert!(!out[0].tags[0].private);
}

#[test]
fn medical_output_reads_well_known_tags() {
    let results = vec![instance("a", Some("1"), Some("1.1"), "CT", true), instance("b", Some("1"), Some("1.2"), "MR", false), instance("c", None, None, "CT", false)];
    let out = create_medical_output(&results);
    assert_eq!(out.summary.total_instances, 3);
    assert_eq!(out.summary.files_with_images, 1);
    assert_eq!(out.summary.unique_modalities, vec!["CT", "MR"]);
    let m = &out.instances[0];
    assert_eq!(m.patient.patient_id, Some("PID-1".to_string()));
    assert_eq!(m.study.uid, Some("1".to_string()));
    assert_eq!(m.study.date, Some("20240102".to_string()));
    assert_eq!(m.series.modality, Some("CT".to_string()));
    assert_eq!(m.instance.uid, "a");
    assert!(m.instance.has_pixel_data);
    assert_eq!(m.imaging.rows, None);
    assert_eq!(m.imaging.transfer_syntax, Some("1.2.840.10008.1.2".to_string()));
    assert_eq!(out.instances[2].study.uid, None);
}

#[test]
fn study_outputs_summarize() {
    let results = vec![
        instance("a", Some("1"), Some("1.1"), "CT", true),
        instance("b", Some("1"), Some("1.2"), "MR", false),
        instance("c", Some("1"), Some("1.1"), "CT", false),
    ];
    let tags_total: usize = results.iter().map(|r| r.metadata.tags.len()).sum();
    let info = stamp(&results);
    let studies = organize_by_hierarchy(results, &info);
    let basic = create_basic_study_output(&studies[0]);
    assert_eq!(basic.study_uid, "1");
    assert_eq!(basic.study_date, Some("20240102".to_string()));
    assert_eq!(basic.series_count, 2);
    assert_eq!(basic.total_instances, 3);
    assert_eq!(basic.modalities, vec!["CT", "MR"]);
    let medical = create_medical_study_output(&studies[0]);
    assert_eq!(medical.total_series, 2);
    assert_eq!(medical.total_instances, 3);
    assert_eq!(medical.imaging_instances, 1);
    assert_eq!(medical.series[0].instance_count, 2);
    assert!(medical.series[0].has_images);
    assert!(!medical.series[1].has_images);
    assert_eq!(medical.patient.patient_id, Some("PID-1".to_string()));
    let raw = create_raw_study_output(&studies[0]);
    assert_eq!(raw.files, vec!["a", "c", "b"]);
    assert_eq!(raw.tag_count, tags_total);
}

#[test]
fn processing_info_totals() {
    let results = vec![instance("a", None, None, "CT", true), instance("b", None, None, "US", false), instance("c", None, None, "CT", true)];
    let info = stamp(&results);
    assert_eq!(info.processing_id, "run-1");
    assert_eq!(info.version, "1.0.0");
    assert_eq!(info.total_files, 3);
    assert_eq!(info.successful_files, 3);
    assert_eq!(info.failed_files, 0);
    assert_eq!(info.extraction_summary.files_with_pixel_data, 2);
    assert_eq!(info.extraction_summary.unique_modalities, vec!["CT", "US"]);
    assert!(info.extraction_summary.date_range.is_none());
    let fresh = ProcessingInfo::stamped(&results);
    assert_eq!(fresh.processing_id.len(), 36);
    assert_eq!(fresh.total_files, 3);
    let copy = fresh.duplicate();
    assert_eq!(copy.processing_id, fresh.processing_id);
    assert_eq!(copy.timestamp, fresh.timestamp);
}

#[test]
fn failures_are_dropped_in_order() {
    let outcomes = vec![
        Ok(instance("a", None, None, "CT", false)),
        Err("unreadable".to_string()),
        Ok(instance("b", None, None, "CT", false)),
    ];
    let kept = collect_results(outcomes);
    let paths: Vec<&str> = kept.iter().map(|i| i.file_path.as_str()).collect();
    assert_eq!(paths, vec!["a", "b"]);
}

#[test]
fn any_order_gives_the_same_set() {
    let forward = collect_results(vec![
        Ok(instance("a", None, None, "CT", false)),
        Err("bad".to_string()),
        Ok(instance("b", None, None, "CT", false)),
        Ok(instance("c", None, None, "CT", false)),
    ]);
    let shuffled = collect_results(vec![
        Ok(instance("c", None, None, "CT", false)),
        Ok(instance("a", None, None, "CT", false)),
        Err("bad".to_string()),
        Ok(instance("b", None, None, "CT", false)),
    ]);
    let mut x: Vec<String> = forward.iter().map(|i| format!("{:?}", i)).collect();
    let mut y: Vec<String> = shuffled.iter().map(|i| format!("{:?}", i)).collect();
    x.sort();
    y.sort();
    assert_eq!(x, y);
}

#[test]
fn sanitized_study_directories() {
    assert_eq!(sanitize_filename("1.2.840/a b"), "1_2_840_a_b");
    assert_eq!(sanitize_filename("ok-name_9"), "ok-name_9");
    assert_eq!(sanitize_filename("Äbc"), "Äbc");
    assert_eq!(study_directory_name(&"1.2.3".to_string()), "study_1_2_3");
}
