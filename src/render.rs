//! Projections of extracted instances into the flat output shapes.
use crate::model::{
    attribute_value, clone_opt, extract_patient_info, patient_spec, tags_view, DicomInstance,
    InstanceView, PatientInfo, TagInfoView,
};
use crate::summary::{count_pixel_data, instances_view, pixel_count, strings_view, unique_modalities, unique_modalities_spec};
use crate::tag::Attribute;
use crate::value::{opt_view, JsonValue};
use vstd::prelude::*;

verus! {

/// The most tags the basic shape lists per instance.
pub const BASIC_TAG_LIMIT: usize = 10;

/// The non-private records of a tag map, in order.
pub open spec fn public_tags(tags: Seq<TagInfoView>) -> Seq<TagInfoView> {
    tags.filter(|t: TagInfoView| !t.is_private)
}

/// The records the basic shape lists: the first ten non-private ones.
pub open spec fn basic_tags(tags: Seq<TagInfoView>) -> Seq<TagInfoView> {
    let p = public_tags(tags);
    if p.len() <= BASIC_TAG_LIMIT {
        p
    } else {
        p.take(BASIC_TAG_LIMIT as int)
    }
}

/// One tag of the basic shape: its key and value.
#[derive(Debug)]
pub struct BasicTag {
    pub key: String,
    pub value: JsonValue,
}

/// One instance of the basic shape.
#[derive(Debug)]
pub struct BasicInstance {
    pub file_path: String,
    pub sop_instance_uid: String,
    pub tags: Vec<BasicTag>,
}

/// The basic shape: a few tags of each instance.
#[derive(Debug)]
pub struct BasicOutput {
    pub total_files: usize,
    pub instances: Vec<BasicInstance>,
}

pub open spec fn basic_tags_match(out: Seq<BasicTag>, tags: Seq<TagInfoView>) -> bool {
    &&& out.len() == tags.len()
    &&& forall|j: int|
        0 <= j < out.len() ==> (#[trigger] out[j]).key@ == tags[j].tag && out[j].value@ == tags[j].value
}

pub open spec fn basic_instance_matches(b: BasicInstance, iv: InstanceView) -> bool {
    &&& b.file_path@ == iv.file_path
    &&& b.sop_instance_uid@ == iv.sop_instance_uid
    &&& basic_tags_match(b.tags@, basic_tags(iv.tags))
}

/// At most ten tags of any instance appear in the basic shape, however many
/// it has, and none of them is private.
pub proof fn lemma_basic_tag_cap(tags: Seq<TagInfoView>)
    ensures
        basic_tags(tags).len() <= BASIC_TAG_LIMIT,
        forall|j: int| 0 <= j < basic_tags(tags).len() ==> !(#[trigger] basic_tags(tags)[j]).is_private,
{
    let pred = |t: TagInfoView| !t.is_private;
    assert forall|j: int| 0 <= j < basic_tags(tags).len() implies !(#[trigger] basic_tags(tags)[j]).is_private by {
        tags.lemma_filter_pred(pred, j);
    }
}

fn basic_instance(inst: &DicomInstance) -> (r: BasicInstance)
    ensures
        basic_instance_matches(r, inst@),
{
    let tags = &inst.metadata.tags;
    let ghost all = tags_view(tags@);
    let ghost pred = |t: TagInfoView| !t.is_private;
    let mut out: Vec<BasicTag> = Vec::new();
    let mut i: usize = 0;
    while i < tags.len()
        invariant
            i <= tags@.len(),
            all == tags_view(tags@),
            pred == (|t: TagInfoView| !t.is_private),
            basic_tags_match(out@, basic_tags(all.subrange(0, i as int))),
        decreases tags@.len() - i,
    {
        let ghost prefix = all.subrange(0, i as int);
        let ghost p = prefix.filter(pred);
        proof {
            reveal_with_fuel(Seq::filter, 1);
            assert(all.subrange(0, i + 1).drop_last() =~= prefix);
            assert(all.subrange(0, i + 1).last() == tags@[i as int]@);
        }
        let t = &tags[i];
        if !t.is_private {
            assert(all.subrange(0, i + 1).filter(pred) == p.push(t@));
            if out.len() < BASIC_TAG_LIMIT {
                assert(p.len() <= BASIC_TAG_LIMIT);
                out.push(BasicTag { key: t.tag.clone(), value: t.value.duplicate() });
                assert(p.push(t@).len() <= BASIC_TAG_LIMIT ==> basic_tags(
                    all.subrange(0, i + 1),
                ) == p.push(t@));
                assert(p.push(t@).len() > BASIC_TAG_LIMIT ==> p.push(t@).take(BASIC_TAG_LIMIT as int)
                    =~= p.push(t@));
            } else {
                assert(p.take(BASIC_TAG_LIMIT as int) =~= p.push(t@).take(BASIC_TAG_LIMIT as int));
            }
        } else {
            assert(all.subrange(0, i + 1).filter(pred) == p);
        }
        i += 1;
    }
    assert(all.subrange(0, all.len() as int) =~= all);
    BasicInstance {
        file_path: inst.file_path.clone(),
        sop_instance_uid: inst.sop_instance_uid.clone(),
        tags: out,
    }
}

/// The basic shape of `results`: for each instance its path, its SOP
/// instance UID and its first ten non-private tags.
pub fn create_basic_output(results: &Vec<DicomInstance>) -> (r: BasicOutput)
    ensures
        r.total_files == results@.len(),
        r.instances@.len() == results@.len(),
        forall|i: int|
            0 <= i < results@.len() ==> basic_instance_matches(#[trigger] r.instances@[i], results@[i]@),
{
    let mut out: Vec<BasicInstance> = Vec::new();
    let mut i: usize = 0;
    while i < results.len()
        invariant
            i <= results@.len(),
            out@.len() == i,
            forall|j: int| 0 <= j < i ==> basic_instance_matches(#[trigger] out@[j], results@[j]@),
        decreases results@.len() - i,
    {
        out.push(basic_instance(&results[i]));
        i += 1;
    }
    BasicOutput { total_files: results.len(), instances: out }
}

/// One tag of the raw shape: no computed value, only VR, raw text and
/// privacy flag.
#[derive(Debug)]
pub struct RawTag {
    pub key: String,
    pub vr: String,
    pub raw: Option<String>,
    pub private: bool,
}

/// One instance of the raw shape.
#[derive(Debug)]
pub struct RawInstance {
    pub file: String,
    pub tags: Vec<RawTag>,
}

pub open spec fn raw_tag_matches(r: RawTag, t: TagInfoView) -> bool {
    &&& r.key@ == t.tag
    &&& r.vr@ == t.vr
    &&& opt_view(r.raw) == t.raw_value
    &&& r.private == t.is_private
}

pub open spec fn raw_instance_matches(r: RawInstance, iv: InstanceView) -> bool {
    &&& r.file@ == iv.file_path
    &&& r.tags@.len() == iv.tags.len()
    &&& forall|j: int| 0 <= j < r.tags@.len() ==> raw_tag_matches(#[trigger] r.tags@[j], iv.tags[j])
}

fn raw_instance(inst: &DicomInstance) -> (r: RawInstance)
    ensures
        raw_instance_matches(r, inst@),
{
    let tags = &inst.metadata.tags;
    let mut out: Vec<RawTag> = Vec::new();
    let mut i: usize = 0;
    while i < tags.len()
        invariant
            i <= tags@.len(),
            out@.len() == i,
            forall|j: int| 0 <= j < i ==> raw_tag_matches(#[trigger] out@[j], tags@[j]@),
        decreases tags@.len() - i,
    {
        let t = &tags[i];
        out.push(RawTag { key: t.tag.clone(), vr: t.vr.clone(), raw: clone_opt(&t.raw_value), private: t.is_private });
        i += 1;
    }
    RawInstance { file: inst.file_path.clone(), tags: out }
}

/// The raw shape of `results`: every tag of every instance, with its VR,
/// raw text and privacy flag.
pub fn create_raw_output(results: &Vec<DicomInstance>) -> (r: Vec<RawInstance>)
    ensures
        r@.len() == results@.len(),
        forall|i: int| 0 <= i < results@.len() ==> raw_instance_matches(#[trigger] r@[i], results@[i]@),
{
    let mut out: Vec<RawInstance> = Vec::new();
    let mut i: usize = 0;
    while i < results.len()
        invariant
            i <= results@.len(),
            out@.len() == i,
            forall|j: int| 0 <= j < i ==> raw_instance_matches(#[trigger] out@[j], results@[j]@),
        decreases results@.len() - i,
    {
        out.push(raw_instance(&results[i]));
        i += 1;
    }
    out
}

/// The study fields of an instance or a study.
#[derive(Debug)]
pub struct StudyFields {
    pub uid: Option<String>,
    pub date: Option<String>,
    pub time: Option<String>,
    pub description: Option<String>,
}

/// The series fields of an instance.
#[derive(Debug)]
pub struct SeriesFields {
    pub uid: Option<String>,
    pub number: Option<String>,
    pub description: Option<String>,
    pub modality: Option<String>,
}

/// The fields of an instance itself.
#[derive(Debug)]
pub struct InstanceFields {
    pub uid: String,
    pub number: Option<String>,
    pub has_pixel_data: bool,
}

/// The image description of an instance.
#[derive(Debug)]
pub struct ImagingFields {
    pub rows: Option<String>,
    pub columns: Option<String>,
    pub bits_allocated: Option<String>,
    pub photometric_interpretation: Option<String>,
    pub transfer_syntax: Option<String>,
}

/// One instance of the medical shape.
#[derive(Debug)]
pub struct MedicalInstance {
    pub file_path: String,
    pub patient: PatientInfo,
    pub study: StudyFields,
    pub series: SeriesFields,
    pub instance: InstanceFields,
    pub imaging: ImagingFields,
}

/// Totals over all instances of the medical shape.
#[derive(Debug)]
pub struct MedicalSummary {
    pub total_instances: usize,
    pub files_with_images: usize,
    pub unique_modalities: Vec<String>,
}

/// The medical shape: a summary and the clinical fields of each instance.
#[derive(Debug)]
pub struct MedicalOutput {
    pub summary: MedicalSummary,
    pub instances: Vec<MedicalInstance>,
}

pub open spec fn medical_instance_matches(m: MedicalInstance, iv: InstanceView) -> bool {
    &&& m.file_path@ == iv.file_path
    &&& m.patient@ == patient_spec(iv)
    &&& opt_view(m.study.uid) == attribute_value(iv, Attribute::StudyInstanceUid)
    &&& opt_view(m.study.date) == attribute_value(iv, Attribute::StudyDate)
    &&& opt_view(m.study.time) == attribute_value(iv, Attribute::StudyTime)
    &&& opt_view(m.study.description) == attribute_value(iv, Attribute::StudyDescription)
    &&& opt_view(m.series.uid) == attribute_value(iv, Attribute::SeriesInstanceUid)
    &&& opt_view(m.series.number) == attribute_value(iv, Attribute::SeriesNumber)
    &&& opt_view(m.series.description) == attribute_value(iv, Attribute::SeriesDescription)
    &&& opt_view(m.series.modality) == attribute_value(iv, Attribute::Modality)
    &&& m.instance.uid@ == iv.sop_instance_uid
    &&& opt_view(m.instance.number) == iv.instance_number
    &&& m.instance.has_pixel_data == iv.has_pixel_data
    &&& opt_view(m.imaging.rows) == attribute_value(iv, Attribute::Rows)
    &&& opt_view(m.imaging.columns) == attribute_value(iv, Attribute::Columns)
    &&& opt_view(m.imaging.bits_allocated) == attribute_value(iv, Attribute::BitsAllocated)
    &&& opt_view(m.imaging.photometric_interpretation) == attribute_value(iv, Attribute::PhotometricInterpretation)
    &&& opt_view(m.imaging.transfer_syntax) == iv.transfer_syntax
}

fn medical_instance(inst: &DicomInstance) -> (r: MedicalInstance)
    ensures
        medical_instance_matches(r, inst@),
{
    MedicalInstance {
        file_path: inst.file_path.clone(),
        patient: extract_patient_info(inst),
        study: StudyFields {
            uid: inst.attribute(Attribute::StudyInstanceUid),
            date: inst.attribute(Attribute::StudyDate),
            time: inst.attribute(Attribute::StudyTime),
            description: inst.attribute(Attribute::StudyDescription),
        },
        series: SeriesFields {
            uid: inst.attribute(Attribute::SeriesInstanceUid),
            number: inst.attribute(Attribute::SeriesNumber),
            description: inst.attribute(Attribute::SeriesDescription),
            modality: inst.attribute(Attribute::Modality),
        },
        instance: InstanceFields {
            uid: inst.sop_instance_uid.clone(),
            number: clone_opt(&inst.instance_number),
            has_pixel_data: inst.has_pixel_data,
        },
        imaging: ImagingFields {
            rows: inst.attribute(Attribute::Rows),
            columns: inst.attribute(Attribute::Columns),
            bits_allocated: inst.attribute(Attribute::BitsAllocated),
            photometric_interpretation: inst.attribute(Attribute::PhotometricInterpretation),
            transfer_syntax: clone_opt(&inst.metadata.transfer_syntax),
        },
    }
}

/// The medical shape of `results`: totals, the distinct modalities, and the
/// patient, study, series, instance and imaging fields of each instance.
pub fn create_medical_output(results: &Vec<DicomInstance>) -> (r: MedicalOutput)
    ensures
        r.summary.total_instances == results@.len(),
        r.summary.files_with_images == pixel_count(instances_view(results@)),
        strings_view(r.summary.unique_modalities@) == unique_modalities_spec(instances_view(results@)),
        r.instances@.len() == results@.len(),
        forall|i: int|
            0 <= i < results@.len() ==> medical_instance_matches(#[trigger] r.instances@[i], results@[i]@),
{
    let mut out: Vec<MedicalInstance> = Vec::new();
    let mut i: usize = 0;
    while i < results.len()
        invariant
            i <= results@.len(),
            out@.len() == i,
            forall|j: int| 0 <= j < i ==> medical_instance_matches(#[trigger] out@[j], results@[j]@),
        decreases results@.len() - i,
    {
        out.push(medical_instance(&results[i]));
        i += 1;
    }
    MedicalOutput {
        summary: MedicalSummary {
            total_instances: results.len(),
            files_with_images: count_pixel_data(results),
            unique_modalities: unique_modalities(results),
        },
        instances: out,
    }
}

} // verus!
