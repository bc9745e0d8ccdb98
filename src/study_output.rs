//! Projections of one aggregated study into the study-shaped outputs.
use crate::hierarchy::{series_view, DicomSeries, DicomStudy, SeriesView};
use crate::model::{clone_opt, InstanceView, PatientInfo};
use crate::render::StudyFields;
use crate::summary::{contains_string, count_pixel_data, dedup, instances_view, pixel_count, strings_view};
use crate::value::opt_view;
use vstd::prelude::*;

verus! {

/// How many instances the series hold together.
pub open spec fn instance_total(s: Seq<SeriesView>) -> nat
    decreases s.len(),
{
    if s.len() == 0 {
        0
    } else {
        instance_total(s.drop_last()) + s.last().instances.len()
    }
}

/// How many instances of the series carry pixel data.
pub open spec fn imaging_total(s: Seq<SeriesView>) -> nat
    decreases s.len(),
{
    if s.len() == 0 {
        0
    } else {
        imaging_total(s.drop_last()) + pixel_count(s.last().instances)
    }
}

/// How many tags the instances hold together.
pub open spec fn tag_count(s: Seq<InstanceView>) -> nat
    decreases s.len(),
{
    if s.len() == 0 {
        0
    } else {
        tag_count(s.drop_last()) + s.last().tags.len()
    }
}

/// How many tags the instances of the series hold together.
pub open spec fn tag_total(s: Seq<SeriesView>) -> nat
    decreases s.len(),
{
    if s.len() == 0 {
        0
    } else {
        tag_total(s.drop_last()) + tag_count(s.last().instances)
    }
}

/// The file paths of the instances of the series, series by series.
pub open spec fn study_files(s: Seq<SeriesView>) -> Seq<Seq<char>>
    decreases s.len(),
{
    if s.len() == 0 {
        Seq::empty()
    } else {
        study_files(s.drop_last()) + s.last().instances.map_values(|x: InstanceView| x.file_path)
    }
}

/// The modality of each series that has one, in order.
pub open spec fn series_modalities(s: Seq<SeriesView>) -> Seq<Seq<char>>
    decreases s.len(),
{
    if s.len() == 0 {
        Seq::empty()
    } else {
        match s.last().modality {
            Some(m) => series_modalities(s.drop_last()).push(m),
            None => series_modalities(s.drop_last()),
        }
    }
}

pub proof fn lemma_instance_total_prefix(s: Seq<SeriesView>, i: int)
    requires
        0 <= i <= s.len(),
    ensures
        instance_total(s.subrange(0, i)) <= instance_total(s),
    decreases s.len(),
{
    if i < s.len() {
        lemma_instance_total_prefix(s.drop_last(), i);
        assert(s.drop_last().subrange(0, i) =~= s.subrange(0, i));
    } else {
        assert(s.subrange(0, i) =~= s);
    }
}

pub proof fn lemma_pixel_count_bound(s: Seq<InstanceView>)
    ensures
        pixel_count(s) <= s.len(),
    decreases s.len(),
{
    if s.len() > 0 {
        lemma_pixel_count_bound(s.drop_last());
    }
}

pub proof fn lemma_imaging_bound(s: Seq<SeriesView>)
    ensures
        imaging_total(s) <= instance_total(s),
    decreases s.len(),
{
    if s.len() > 0 {
        lemma_imaging_bound(s.drop_last());
        lemma_pixel_count_bound(s.last().instances);
    }
}

pub proof fn lemma_tag_count_prefix(s: Seq<InstanceView>, i: int)
    requires
        0 <= i <= s.len(),
    ensures
        tag_count(s.subrange(0, i)) <= tag_count(s),
    decreases s.len(),
{
    if i < s.len() {
        lemma_tag_count_prefix(s.drop_last(), i);
        assert(s.drop_last().subrange(0, i) =~= s.subrange(0, i));
    } else {
        assert(s.subrange(0, i) =~= s);
    }
}

pub proof fn lemma_tag_total_prefix(s: Seq<SeriesView>, i: int)
    requires
        0 <= i <= s.len(),
    ensures
        tag_total(s.subrange(0, i)) <= tag_total(s),
    decreases s.len(),
{
    if i < s.len() {
        lemma_tag_total_prefix(s.drop_last(), i);
        assert(s.drop_last().subrange(0, i) =~= s.subrange(0, i));
    } else {
        assert(s.subrange(0, i) =~= s);
    }
}

/// Counts the instances of all series.
pub fn count_instances(series: &Vec<DicomSeries>) -> (r: usize)
    requires
        instance_total(series_view(series@)) <= usize::MAX,
    ensures
        r == instance_total(series_view(series@)),
{
    let ghost all = series_view(series@);
    let mut n: usize = 0;
    let mut i: usize = 0;
    while i < series.len()
        invariant
            i <= series@.len(),
            all == series_view(series@),
            instance_total(all) <= usize::MAX,
            n == instance_total(all.subrange(0, i as int)),
        decreases series@.len() - i,
    {
        proof {
            assert(all.subrange(0, i + 1).drop_last() =~= all.subrange(0, i as int));
            lemma_instance_total_prefix(all, i + 1);
        }
        n = n + series[i].instances.len();
        i += 1;
    }
    assert(all.subrange(0, all.len() as int) =~= all);
    n
}

/// Counts the instances of all series that carry pixel data.
pub fn count_imaging(series: &Vec<DicomSeries>) -> (r: usize)
    requires
        instance_total(series_view(series@)) <= usize::MAX,
    ensures
        r == imaging_total(series_view(series@)),
{
    let ghost all = series_view(series@);
    let mut n: usize = 0;
    let mut i: usize = 0;
    while i < series.len()
        invariant
            i <= series@.len(),
            all == series_view(series@),
            instance_total(all) <= usize::MAX,
            n == imaging_total(all.subrange(0, i as int)),
        decreases series@.len() - i,
    {
        proof {
            assert(all.subrange(0, i + 1).drop_last() =~= all.subrange(0, i as int));
            lemma_instance_total_prefix(all, i + 1);
            lemma_imaging_bound(all.subrange(0, i + 1));
        }
        n = n + count_pixel_data(&series[i].instances);
        i += 1;
    }
    assert(all.subrange(0, all.len() as int) =~= all);
    n
}

/// Counts the tags of all instances of all series.
pub fn count_tags(series: &Vec<DicomSeries>) -> (r: usize)
    requires
        tag_total(series_view(series@)) <= usize::MAX,
    ensures
        r == tag_total(series_view(series@)),
{
    let ghost all = series_view(series@);
    let mut n: usize = 0;
    let mut i: usize = 0;
    while i < series.len()
        invariant
            i <= series@.len(),
            all == series_view(series@),
            tag_total(all) <= usize::MAX,
            n == tag_total(all.subrange(0, i as int)),
        decreases series@.len() - i,
    {
        proof {
            assert(all.subrange(0, i + 1).drop_last() =~= all.subrange(0, i as int));
            lemma_tag_total_prefix(all, i + 1);
        }
        let insts = &series[i].instances;
        let ghost iv = instances_view(insts@);
        let mut k: usize = 0;
        while k < insts.len()
            invariant
                k <= insts@.len(),
                iv == instances_view(insts@),
                iv == all[i as int].instances,
                tag_total(all.subrange(0, i as int)) + tag_count(iv) <= usize::MAX,
                n == tag_total(all.subrange(0, i as int)) + tag_count(iv.subrange(0, k as int)),
            decreases insts@.len() - k,
        {
            proof {
                assert(iv.subrange(0, k + 1).drop_last() =~= iv.subrange(0, k as int));
                lemma_tag_count_prefix(iv, k + 1);
            }
            n = n + insts[k].metadata.tags.len();
            k += 1;
        }
        assert(iv.subrange(0, iv.len() as int) =~= iv);
        i += 1;
    }
    assert(all.subrange(0, all.len() as int) =~= all);
    n
}

/// The paths of all instances of all series, series by series.
pub fn collect_files(series: &Vec<DicomSeries>) -> (r: Vec<String>)
    ensures
        strings_view(r@) == study_files(series_view(series@)),
{
    let ghost all = series_view(series@);
    let mut out: Vec<String> = Vec::new();
    let mut i: usize = 0;
    while i < series.len()
        invariant
            i <= series@.len(),
            all == series_view(series@),
            strings_view(out@) == study_files(all.subrange(0, i as int)),
        decreases series@.len() - i,
    {
        assert(all.subrange(0, i + 1).drop_last() =~= all.subrange(0, i as int));
        let insts = &series[i].instances;
        let ghost iv = instances_view(insts@);
        let ghost base = strings_view(out@);
        let mut k: usize = 0;
        while k < insts.len()
            invariant
                k <= insts@.len(),
                iv == instances_view(insts@),
                iv == all[i as int].instances,
                strings_view(out@) == base + iv.subrange(0, k as int).map_values(|x: InstanceView| x.file_path),
            decreases insts@.len() - k,
        {
            let ghost before = out@;
            out.push(insts[k].file_path.clone());
            assert(strings_view(out@) =~= strings_view(before).push(iv[k as int].file_path));
            assert(iv.subrange(0, k + 1).map_values(|x: InstanceView| x.file_path) =~= iv.subrange(
                0,
                k as int,
            ).map_values(|x: InstanceView| x.file_path).push(iv[k as int].file_path));
            k += 1;
        }
        assert(iv.subrange(0, iv.len() as int) =~= iv);
        i += 1;
    }
    assert(all.subrange(0, all.len() as int) =~= all);
    out
}

/// The distinct modalities of the series, each at its first occurrence.
pub fn distinct_series_modalities(series: &Vec<DicomSeries>) -> (r: Vec<String>)
    ensures
        strings_view(r@) == dedup(series_modalities(series_view(series@))),
{
    let ghost all = series_view(series@);
    let mut out: Vec<String> = Vec::new();
    let mut i: usize = 0;
    while i < series.len()
        invariant
            i <= series@.len(),
            all == series_view(series@),
            strings_view(out@) == dedup(series_modalities(all.subrange(0, i as int))),
        decreases series@.len() - i,
    {
        let ghost prefix = all.subrange(0, i as int);
        assert(all.subrange(0, i + 1).drop_last() =~= prefix);
        assert(all.subrange(0, i + 1).last() == series@[i as int]@);
        match &series[i].modality {
            Some(m) => {
                assert(series_modalities(prefix).push(m@).drop_last() =~= series_modalities(prefix));
                if !contains_string(&out, m) {
                    let ghost before = out@;
                    out.push(m.clone());
                    assert(strings_view(out@) =~= strings_view(before).push(m@));
                }
            },
            None => {},
        }
        i += 1;
    }
    assert(all.subrange(0, all.len() as int) =~= all);
    out
}

/// The basic shape of a study: counts and modalities.
#[derive(Debug)]
pub struct BasicStudyOutput {
    pub study_uid: String,
    pub study_date: Option<String>,
    pub series_count: usize,
    pub total_instances: usize,
    pub modalities: Vec<String>,
}

/// One series of the medical shape of a study.
#[derive(Debug)]
pub struct SeriesSummary {
    pub uid: String,
    pub number: Option<String>,
    pub description: Option<String>,
    pub modality: Option<String>,
    pub instance_count: usize,
    pub has_images: bool,
}

/// The medical shape of a study.
#[derive(Debug)]
pub struct MedicalStudyOutput {
    pub study: StudyFields,
    pub patient: PatientInfo,
    pub series: Vec<SeriesSummary>,
    pub total_series: usize,
    pub total_instances: usize,
    pub imaging_instances: usize,
}

/// The raw shape of a study: its files and how many tags they hold.
#[derive(Debug)]
pub struct RawStudyOutput {
    pub study_uid: String,
    pub files: Vec<String>,
    pub tag_count: usize,
}

/// Whether any of the instances carries pixel data.
pub open spec fn any_pixel_data(s: Seq<InstanceView>) -> bool {
    exists|i: int| 0 <= i < s.len() && s[i].has_pixel_data
}

pub open spec fn series_summary_matches(m: SeriesSummary, s: SeriesView) -> bool {
    &&& m.uid@ == s.uid
    &&& opt_view(m.number) == s.number
    &&& opt_view(m.description) == s.description
    &&& opt_view(m.modality) == s.modality
    &&& m.instance_count == s.instances.len()
    &&& m.has_images == any_pixel_data(s.instances)
}

/// The basic shape of `study`.
pub fn create_basic_study_output(study: &DicomStudy) -> (r: BasicStudyOutput)
    requires
        instance_total(study@.series) <= usize::MAX,
    ensures
        r.study_uid@ == study@.uid,
        opt_view(r.study_date) == study@.date,
        r.series_count == study@.series.len(),
        r.total_instances == instance_total(study@.series),
        strings_view(r.modalities@) == dedup(series_modalities(study@.series)),
{
    BasicStudyOutput {
        study_uid: study.study_instance_uid.clone(),
        study_date: clone_opt(&study.study_date),
        series_count: study.series.len(),
        total_instances: count_instances(&study.series),
        modalities: distinct_series_modalities(&study.series),
    }
}

fn any_has_pixel_data(v: &Vec<crate::model::DicomInstance>) -> (r: bool)
    ensures
        r == any_pixel_data(instances_view(v@)),
{
    let mut i: usize = 0;
    while i < v.len()
        invariant
            i <= v@.len(),
            forall|j: int| 0 <= j < i ==> !v@[j].has_pixel_data,
        decreases v@.len() - i,
    {
        if v[i].has_pixel_data {
            assert(instances_view(v@)[i as int].has_pixel_data);
            return true;
        }
        i += 1;
    }
    false
}

fn copy_patient(p: &PatientInfo) -> (r: PatientInfo)
    ensures
        r@ == p@,
{
    PatientInfo {
        patient_id: clone_opt(&p.patient_id),
        patient_name: clone_opt(&p.patient_name),
        patient_birth_date: clone_opt(&p.patient_birth_date),
        patient_sex: clone_opt(&p.patient_sex),
        patient_age: clone_opt(&p.patient_age),
    }
}

/// The medical shape of `study`: its fields, its patient, a summary of each
/// series and totals.
pub fn create_medical_study_output(study: &DicomStudy) -> (r: MedicalStudyOutput)
    requires
        instance_total(study@.series) <= usize::MAX,
    ensures
        opt_view(r.study.uid) == Some(study@.uid),
        opt_view(r.study.date) == study@.date,
        opt_view(r.study.time) == study@.time,
        opt_view(r.study.description) == study@.description,
        r.patient@ == study@.patient,
        r.series@.len() == study@.series.len(),
        forall|i: int|
            0 <= i < r.series@.len() ==> series_summary_matches(#[trigger] r.series@[i], study@.series[i]),
        r.total_series == study@.series.len(),
        r.total_instances == instance_total(study@.series),
        r.imaging_instances == imaging_total(study@.series),
{
    let series = &study.series;
    let mut out: Vec<SeriesSummary> = Vec::new();
    let mut i: usize = 0;
    while i < series.len()
        invariant
            i <= series@.len(),
            out@.len() == i,
            forall|j: int| 0 <= j < i ==> series_summary_matches(#[trigger] out@[j], series@[j]@),
        decreases series@.len() - i,
    {
        let s = &series[i];
        out.push(SeriesSummary {
            uid: s.series_instance_uid.clone(),
            number: clone_opt(&s.series_number),
            description: clone_opt(&s.series_description),
            modality: clone_opt(&s.modality),
            instance_count: s.instances.len(),
            has_images: any_has_pixel_data(&s.instances),
        });
        i += 1;
    }
    MedicalStudyOutput {
        study: StudyFields {
            uid: Some(study.study_instance_uid.clone()),
            date: clone_opt(&study.study_date),
            time: clone_opt(&study.study_time),
            description: clone_opt(&study.study_description),
        },
        patient: copy_patient(&study.patient_info),
        series: out,
        total_series: series.len(),
        total_instances: count_instances(series),
        imaging_instances: count_imaging(series),
    }
}

/// The raw shape of `study`.
pub fn create_raw_study_output(study: &DicomStudy) -> (r: RawStudyOutput)
    requires
        tag_total(study@.series) <= usize::MAX,
    ensures
        r.study_uid@ == study@.uid,
        strings_view(r.files@) == study_files(study@.series),
        r.tag_count == tag_total(study@.series),
{
    RawStudyOutput {
        study_uid: study.study_instance_uid.clone(),
        files: collect_files(&study.series),
        tag_count: count_tags(&study.series),
    }
}

} // verus!
