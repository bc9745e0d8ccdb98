//! Run-level metadata: totals, pixel-data count and the set of modalities.
use crate::model::{attribute_value, DicomInstance, InstanceView};
use crate::tag::Attribute;
use vstd::prelude::*;

verus! {

pub open spec fn strings_view(v: Seq<String>) -> Seq<Seq<char>> {
    v.map_values(|s: String| s@)
}

pub open spec fn instances_view(v: Seq<DicomInstance>) -> Seq<InstanceView> {
    v.map_values(|x: DicomInstance| x@)
}

/// How many instances carry pixel data.
pub open spec fn pixel_count(s: Seq<InstanceView>) -> nat
    decreases s.len(),
{
    if s.len() == 0 {
        0
    } else {
        pixel_count(s.drop_last()) + if s.last().has_pixel_data {
            1nat
        } else {
            0nat
        }
    }
}

/// The modality of each instance that has one, in order.
pub open spec fn modality_list(s: Seq<InstanceView>) -> Seq<Seq<char>>
    decreases s.len(),
{
    if s.len() == 0 {
        Seq::empty()
    } else {
        match attribute_value(s.last(), Attribute::Modality) {
            Some(m) => modality_list(s.drop_last()).push(m),
            None => modality_list(s.drop_last()),
        }
    }
}

/// The distinct items of `s`, each at its first occurrence.
pub open spec fn dedup(s: Seq<Seq<char>>) -> Seq<Seq<char>>
    decreases s.len(),
{
    if s.len() == 0 {
        Seq::empty()
    } else if dedup(s.drop_last()).contains(s.last()) {
        dedup(s.drop_last())
    } else {
        dedup(s.drop_last()).push(s.last())
    }
}

pub open spec fn unique_modalities_spec(s: Seq<InstanceView>) -> Seq<Seq<char>> {
    dedup(modality_list(s))
}

/// Counts the instances that carry pixel data.
pub fn count_pixel_data(results: &Vec<DicomInstance>) -> (r: usize)
    ensures
        r == pixel_count(instances_view(results@)),
{
    let ghost all = instances_view(results@);
    let mut n: usize = 0;
    let mut i: usize = 0;
    while i < results.len()
        invariant
            i <= results@.len(),
            all == instances_view(results@),
            n == pixel_count(all.subrange(0, i as int)),
            n <= i,
        decreases results@.len() - i,
    {
        assert(all.subrange(0, i + 1).drop_last() =~= all.subrange(0, i as int));
        if results[i].has_pixel_data {
            n += 1;
        }
        i += 1;
    }
    assert(all.subrange(0, all.len() as int) =~= all);
    n
}

/// Whether `v` holds a string equal to `s`.
pub fn contains_string(v: &Vec<String>, s: &String) -> (r: bool)
    ensures
        r == strings_view(v@).contains(s@),
{
    let mut i: usize = 0;
    while i < v.len()
        invariant
            i <= v@.len(),
            forall|j: int| 0 <= j < i ==> v@[j]@ != s@,
        decreases v@.len() - i,
    {
        if v[i] == *s {
            assert(strings_view(v@)[i as int] == s@);
            return true;
        }
        i += 1;
    }
    false
}

/// The distinct modalities of the instances, each at its first occurrence.
pub fn unique_modalities(results: &Vec<DicomInstance>) -> (r: Vec<String>)
    ensures
        strings_view(r@) == unique_modalities_spec(instances_view(results@)),
{
    let ghost all = instances_view(results@);
    let mut out: Vec<String> = Vec::new();
    let mut i: usize = 0;
    while i < results.len()
        invariant
            i <= results@.len(),
            all == instances_view(results@),
            strings_view(out@) == dedup(modality_list(all.subrange(0, i as int))),
        decreases results@.len() - i,
    {
        let ghost prefix = all.subrange(0, i as int);
        assert(all.subrange(0, i + 1).drop_last() =~= prefix);
        assert(all.subrange(0, i + 1).last() == results@[i as int]@);
        match results[i].attribute(Attribute::Modality) {
            Some(m) => {
                assert(modality_list(prefix).push(m@).drop_last() =~= modality_list(prefix));
                if !contains_string(&out, &m) {
                    let ghost before = out@;
                    out.push(m);
                    assert(strings_view(out@) =~= strings_view(before).push(m@));
                }
            },
            None => {},
        }
        i += 1;
    }
    assert(all.subrange(0, all.len() as int) =~= all);
    out
}

pub fn clone_strings(v: &Vec<String>) -> (r: Vec<String>)
    ensures
        strings_view(r@) == strings_view(v@),
{
    let mut out: Vec<String> = Vec::new();
    let mut i: usize = 0;
    while i < v.len()
        invariant
            i <= v@.len(),
            out@.len() == i,
            forall|j: int| 0 <= j < i ==> #[trigger] out@[j]@ == v@[j]@,
        decreases v@.len() - i,
    {
        out.push(v[i].clone());
        i += 1;
    }
    assert(strings_view(out@) =~= strings_view(v@));
    out
}

/// Aggregate facts about the extracted instances.
#[derive(Debug)]
pub struct ExtractionSummary {
    pub files_with_pixel_data: usize,
    pub unique_modalities: Vec<String>,
    pub date_range: Option<(String, String)>,
}

/// Run-level metadata.
#[derive(Debug)]
pub struct ProcessingInfo {
    pub processing_id: String,
    /// The time of the run, as RFC 3339 text in UTC.
    pub timestamp: String,
    pub version: String,
    pub total_files: usize,
    pub successful_files: usize,
    pub failed_files: usize,
    pub extraction_summary: ExtractionSummary,
}

pub struct ProcessingInfoView {
    pub processing_id: Seq<char>,
    pub timestamp: Seq<char>,
    pub version: Seq<char>,
    pub total_files: usize,
    pub successful_files: usize,
    pub failed_files: usize,
    pub files_with_pixel_data: usize,
    pub unique_modalities: Seq<Seq<char>>,
    pub has_date_range: bool,
}

impl View for ProcessingInfo {
    type V = ProcessingInfoView;

    open spec fn view(&self) -> ProcessingInfoView {
        ProcessingInfoView {
            processing_id: self.processing_id@,
            timestamp: self.timestamp@,
            version: self.version@,
            total_files: self.total_files,
            successful_files: self.successful_files,
            failed_files: self.failed_files,
            files_with_pixel_data: self.extraction_summary.files_with_pixel_data,
            unique_modalities: strings_view(self.extraction_summary.unique_modalities@),
            has_date_range: self.extraction_summary.date_range is Some,
        }
    }
}

/// The metadata of a run over `s`, stamped with `id` and `time`.
pub open spec fn processing_info_spec(s: Seq<InstanceView>, id: Seq<char>, time: Seq<char>) -> ProcessingInfoView {
    ProcessingInfoView {
        processing_id: id,
        timestamp: time,
        version: "1.0.0"@,
        total_files: s.len() as usize,
        successful_files: s.len() as usize,
        failed_files: 0,
        files_with_pixel_data: pixel_count(s) as usize,
        unique_modalities: unique_modalities_spec(s),
        has_date_range: false,
    }
}

/// Relies on `uuid::Uuid::new_v4` and its `Display`, which writes the
/// hyphenated form of 36 characters.
#[verifier::external_body]
fn fresh_identifier() -> (r: String)
    ensures
        r@.len() == 36,
{
    uuid::Uuid::new_v4().to_string()
}

/// Relies on `chrono::Utc::now` and `DateTime::to_rfc3339_opts`: the current
/// time as RFC 3339 text.
#[verifier::external_body]
fn current_timestamp() -> (r: String) {
    chrono::Utc::now().to_rfc3339_opts(chrono::SecondsFormat::AutoSi, true)
}

impl ProcessingInfo {
    /// The metadata of a run over `results`, stamped with the given
    /// identifier and time.
    pub fn for_results(results: &Vec<DicomInstance>, processing_id: String, timestamp: String) -> (r: ProcessingInfo)
        ensures
            r@ == processing_info_spec(instances_view(results@), processing_id@, timestamp@),
    {
        proof {
            reveal_strlit("1.0.0");
        }
        ProcessingInfo {
            processing_id,
            timestamp,
            version: String::from_str("1.0.0"),
            total_files: results.len(),
            successful_files: results.len(),
            failed_files: 0,
            extraction_summary: ExtractionSummary {
                files_with_pixel_data: count_pixel_data(results),
                unique_modalities: unique_modalities(results),
                date_range: None,
            },
        }
    }

    /// The metadata of a run over `results`, stamped with a fresh random
    /// identifier and the current time.
    pub fn stamped(results: &Vec<DicomInstance>) -> (r: ProcessingInfo)
        ensures
            r@ == processing_info_spec(instances_view(results@), r@.processing_id, r@.timestamp),
            r@.processing_id.len() == 36,
    {
        ProcessingInfo::for_results(results, fresh_identifier(), current_timestamp())
    }

    pub fn duplicate(&self) -> (r: ProcessingInfo)
        ensures
            r@ == self@,
    {
        let date_range = match &self.extraction_summary.date_range {
            Some((a, b)) => Some((a.clone(), b.clone())),
            None => None,
        };
        ProcessingInfo {
            processing_id: self.processing_id.clone(),
            timestamp: self.timestamp.clone(),
            version: self.version.clone(),
            total_files: self.total_files,
            successful_files: self.successful_files,
            failed_files: self.failed_files,
            extraction_summary: ExtractionSummary {
                files_with_pixel_data: self.extraction_summary.files_with_pixel_data,
                unique_modalities: clone_strings(&self.extraction_summary.unique_modalities),
                date_range,
            },
        }
    }
}

} // verus!
