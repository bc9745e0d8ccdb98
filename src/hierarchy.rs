//! Grouping of instances into series within studies.
use crate::model::{attribute_value, extract_patient_info, patient_spec, DicomInstance, InstanceView, PatientInfo, PatientView};
use crate::summary::{instances_view, ProcessingInfo};
use crate::tag::{string_from_chars, Attribute};
use crate::value::opt_view;
use vstd::prelude::*;

verus! {

/// The instances of one acquisition run, in the order they were seen.
#[derive(Debug)]
pub struct DicomSeries {
    pub series_instance_uid: String,
    pub series_number: Option<String>,
    pub series_description: Option<String>,
    pub modality: Option<String>,
    pub instances: Vec<DicomInstance>,
}

pub struct SeriesView {
    pub uid: Seq<char>,
    pub number: Option<Seq<char>>,
    pub description: Option<Seq<char>>,
    pub modality: Option<Seq<char>>,
    pub instances: Seq<InstanceView>,
}

impl View for DicomSeries {
    type V = SeriesView;

    open spec fn view(&self) -> SeriesView {
        SeriesView {
            uid: self.series_instance_uid@,
            number: opt_view(self.series_number),
            description: opt_view(self.series_description),
            modality: opt_view(self.modality),
            instances: instances_view(self.instances@),
        }
    }
}

pub open spec fn series_view(v: Seq<DicomSeries>) -> Seq<SeriesView> {
    v.map_values(|s: DicomSeries| s@)
}

/// One clinical encounter: its series, keyed by series UID.
#[derive(Debug)]
pub struct DicomStudy {
    pub study_instance_uid: String,
    pub study_date: Option<String>,
    pub study_time: Option<String>,
    pub study_description: Option<String>,
    pub patient_info: PatientInfo,
    pub series: Vec<DicomSeries>,
    pub processing_info: ProcessingInfo,
}

pub struct StudyView {
    pub uid: Seq<char>,
    pub date: Option<Seq<char>>,
    pub time: Option<Seq<char>>,
    pub description: Option<Seq<char>>,
    pub patient: PatientView,
    pub series: Seq<SeriesView>,
}

impl View for DicomStudy {
    type V = StudyView;

    open spec fn view(&self) -> StudyView {
        StudyView {
            uid: self.study_instance_uid@,
            date: opt_view(self.study_date),
            time: opt_view(self.study_time),
            description: opt_view(self.study_description),
            patient: self.patient_info@,
            series: series_view(self.series@),
        }
    }
}

pub open spec fn studies_view(v: Seq<DicomStudy>) -> Seq<StudyView> {
    v.map_values(|s: DicomStudy| s@)
}

/// The study an instance belongs to; `unknown_study` without a study UID.
pub open spec fn study_key(iv: InstanceView) -> Seq<char> {
    match attribute_value(iv, Attribute::StudyInstanceUid) {
        Some(u) => u,
        None => "unknown_study"@,
    }
}

/// The series an instance belongs to; `unknown_series` without a series UID.
pub open spec fn series_key(iv: InstanceView) -> Seq<char> {
    match attribute_value(iv, Attribute::SeriesInstanceUid) {
        Some(u) => u,
        None => "unknown_series"@,
    }
}

/// The position of the series with UID `k`, or the length when there is none.
pub open spec fn series_index(s: Seq<SeriesView>, k: Seq<char>) -> int {
    if exists|i: int| 0 <= i < s.len() && s[i].uid == k {
        choose|i: int| 0 <= i < s.len() && s[i].uid == k
    } else {
        s.len() as int
    }
}

/// The position of the study with UID `k`, or the length when there is none.
pub open spec fn study_index(s: Seq<StudyView>, k: Seq<char>) -> int {
    if exists|i: int| 0 <= i < s.len() && s[i].uid == k {
        choose|i: int| 0 <= i < s.len() && s[i].uid == k
    } else {
        s.len() as int
    }
}

/// A series as first created from instance `iv`, before any instance is added.
pub open spec fn new_series(iv: InstanceView) -> SeriesView {
    SeriesView {
        uid: series_key(iv),
        number: attribute_value(iv, Attribute::SeriesNumber),
        description: attribute_value(iv, Attribute::SeriesDescription),
        modality: attribute_value(iv, Attribute::Modality),
        instances: Seq::empty(),
    }
}

/// A study as first created from instance `iv`, before any series is added.
pub open spec fn new_study(iv: InstanceView) -> StudyView {
    StudyView {
        uid: study_key(iv),
        date: attribute_value(iv, Attribute::StudyDate),
        time: attribute_value(iv, Attribute::StudyTime),
        description: attribute_value(iv, Attribute::StudyDescription),
        patient: patient_spec(iv),
        series: Seq::empty(),
    }
}

pub open spec fn append_instance(s: SeriesView, iv: InstanceView) -> SeriesView {
    SeriesView { instances: s.instances.push(iv), ..s }
}

/// Adds `iv` to its series, creating the series on first sight; the stored
/// fields of an existing series are kept.
pub open spec fn add_to_study(st: StudyView, iv: InstanceView) -> StudyView {
    let i = series_index(st.series, series_key(iv));
    if i < st.series.len() {
        StudyView { series: st.series.update(i, append_instance(st.series[i], iv)), ..st }
    } else {
        StudyView { series: st.series.push(append_instance(new_series(iv), iv)), ..st }
    }
}

/// Adds `iv` to its study, creating the study on first sight; the stored
/// fields of an existing study are kept.
pub open spec fn add_instance(g: Seq<StudyView>, iv: InstanceView) -> Seq<StudyView> {
    let i = study_index(g, study_key(iv));
    if i < g.len() {
        g.update(i, add_to_study(g[i], iv))
    } else {
        g.push(add_to_study(new_study(iv), iv))
    }
}

/// The studies made from the instances `s`, in order of first sight.
pub open spec fn group_spec(s: Seq<InstanceView>) -> Seq<StudyView>
    decreases s.len(),
{
    if s.len() == 0 {
        Seq::empty()
    } else {
        add_instance(group_spec(s.drop_last()), s.last())
    }
}

pub open spec fn series_distinct(s: Seq<SeriesView>) -> bool {
    forall|i: int, j: int| 0 <= i < j < s.len() ==> s[i].uid != s[j].uid
}

/// No two studies share a UID, and within a study no two series do.
pub open spec fn grouping_wf(g: Seq<StudyView>) -> bool {
    &&& forall|i: int, j: int| 0 <= i < j < g.len() ==> g[i].uid != g[j].uid
    &&& forall|i: int| 0 <= i < g.len() ==> series_distinct(#[trigger] g[i].series)
}

/// Instance `x` stands in the series of its series key inside the study of
/// its study key.
pub open spec fn placed(g: Seq<StudyView>, x: InstanceView) -> bool {
    exists|i: int, p: int|
        0 <= i < g.len() && 0 <= p < g[i].series.len() && #[trigger] g[i].uid == study_key(x)
            && #[trigger] g[i].series[p].uid == series_key(x) && g[i].series[p].instances.contains(x)
}

pub proof fn lemma_add_to_study_wf(st: StudyView, iv: InstanceView)
    requires
        series_distinct(st.series),
    ensures
        series_distinct(add_to_study(st, iv).series),
        add_to_study(st, iv).uid == st.uid,
        forall|p: int| 0 <= p < st.series.len() ==> (#[trigger] add_to_study(st, iv).series[p]).uid == st.series[p].uid,
{
}

/// Grouping never gives two studies one UID, nor two series of a study one UID.
pub proof fn lemma_group_wf(s: Seq<InstanceView>)
    ensures
        grouping_wf(group_spec(s)),
    decreases s.len(),
{
    if s.len() > 0 {
        lemma_group_wf(s.drop_last());
        let g = group_spec(s.drop_last());
        let x = s.last();
        let i = study_index(g, study_key(x));
        if i < g.len() {
            lemma_add_to_study_wf(g[i], x);
        } else {
            lemma_add_to_study_wf(new_study(x), x);
        }
    }
}

pub proof fn lemma_add_keeps_placed(g: Seq<StudyView>, x: InstanceView, y: InstanceView)
    requires
        placed(g, x),
    ensures
        placed(add_instance(g, y), x),
{
    let (i, p) = choose|i: int, p: int|
        0 <= i < g.len() && 0 <= p < g[i].series.len() && #[trigger] g[i].uid == study_key(x)
            && #[trigger] g[i].series[p].uid == series_key(x) && g[i].series[p].instances.contains(x);
    let h = add_instance(g, y);
    let k = study_index(g, study_key(y));
    if k == i {
        let st = g[i];
        let q = series_index(st.series, series_key(y));
        if q == p {
            let inst = st.series[p].instances;
            let j = choose|j: int| 0 <= j < inst.len() && inst[j] == x;
            assert(h[i].series[p].instances[j] == x);
        }
        assert(h[i].series[p].instances.contains(x));
    }
    assert(h[i].uid == study_key(x) && h[i].series[p].uid == series_key(x));
}

pub proof fn lemma_add_places(g: Seq<StudyView>, y: InstanceView)
    ensures
        placed(add_instance(g, y), y),
{
    let h = add_instance(g, y);
    let k = study_index(g, study_key(y));
    let st = if k < g.len() { g[k] } else { new_study(y) };
    let q = series_index(st.series, series_key(y));
    let hs = h[k].series;
    assert(hs[q].instances.last() == y);
    assert(hs[q].instances.contains(y));
    if k < g.len() {
        assert(g[k].uid == study_key(y));
    }
    if q < st.series.len() {
        assert(st.series[q].uid == series_key(y));
    }
    assert(h[k].uid == study_key(y) && hs[q].uid == series_key(y));
}

/// Every instance is placed in the grouping of a sequence that holds it.
pub proof fn lemma_group_places(s: Seq<InstanceView>, a: int)
    requires
        0 <= a < s.len(),
    ensures
        placed(group_spec(s), s[a]),
    decreases s.len(),
{
    if a == s.len() - 1 {
        lemma_add_places(group_spec(s.drop_last()), s.last());
    } else {
        lemma_group_places(s.drop_last(), a);
        lemma_add_keeps_placed(group_spec(s.drop_last()), s[a], s.last());
    }
}

/// Instances with the same study key share one study record, the only one
/// with that UID (so all instances without a study UID share the single
/// `unknown_study` record); where their series keys differ they stand in two
/// distinct series records of it.
pub proof fn lemma_shared_study(s: Seq<InstanceView>, a: int, b: int)
    requires
        0 <= a < s.len(),
        0 <= b < s.len(),
        study_key(s[a]) == study_key(s[b]),
    ensures
        exists|i: int|
            0 <= i < group_spec(s).len() && #[trigger] group_spec(s)[i].uid == study_key(s[a])
                && (forall|j: int|
                0 <= j < group_spec(s).len() && #[trigger] group_spec(s)[j].uid == study_key(s[a])
                    ==> j == i) && (series_key(s[a]) != series_key(s[b]) ==> exists|p: int, q: int|
                0 <= p < group_spec(s)[i].series.len() && 0 <= q < group_spec(s)[i].series.len()
                    && p != q && group_spec(s)[i].series[p].instances.contains(s[a])
                    && group_spec(s)[i].series[q].instances.contains(s[b])),
{
    let g = group_spec(s);
    lemma_group_wf(s);
    lemma_group_places(s, a);
    lemma_group_places(s, b);
    let (i, p) = choose|i: int, p: int|
        0 <= i < g.len() && 0 <= p < g[i].series.len() && #[trigger] g[i].uid == study_key(s[a])
            && #[trigger] g[i].series[p].uid == series_key(s[a]) && g[i].series[p].instances.contains(s[a]);
    let (i2, q) = choose|i: int, p: int|
        0 <= i < g.len() && 0 <= p < g[i].series.len() && #[trigger] g[i].uid == study_key(s[b])
            && #[trigger] g[i].series[p].uid == series_key(s[b]) && g[i].series[p].instances.contains(s[b]);
    assert(i2 == i);
    assert forall|j: int| 0 <= j < g.len() && #[trigger] g[j].uid == study_key(s[a]) implies j == i by {
        if j != i {
            if j < i {
                assert(g[j].uid != g[i].uid);
            } else {
                assert(g[i].uid != g[j].uid);
            }
        }
    }
    if series_key(s[a]) != series_key(s[b]) {
        assert(p != q);
    }
}

/// The study key of an instance.
pub fn study_key_of(inst: &DicomInstance) -> (r: String)
    ensures
        r@ == study_key(inst@),
{
    match inst.attribute(Attribute::StudyInstanceUid) {
        Some(u) => u,
        None => {
            proof {
                reveal_strlit("unknown_study");
            }
            String::from_str("unknown_study")
        },
    }
}

/// The series key of an instance.
pub fn series_key_of(inst: &DicomInstance) -> (r: String)
    ensures
        r@ == series_key(inst@),
{
    match inst.attribute(Attribute::SeriesInstanceUid) {
        Some(u) => u,
        None => {
            proof {
                reveal_strlit("unknown_series");
            }
            String::from_str("unknown_series")
        },
    }
}

fn find_series(series: &Vec<DicomSeries>, k: &String) -> (r: usize)
    requires
        series_distinct(series_view(series@)),
    ensures
        r == series_index(series_view(series@), k@),
{
    let ghost sv = series_view(series@);
    let mut i: usize = 0;
    while i < series.len()
        invariant
            i <= series@.len(),
            sv == series_view(series@),
            series_distinct(sv),
            forall|j: int| 0 <= j < i ==> sv[j].uid != k@,
        decreases series@.len() - i,
    {
        if series[i].series_instance_uid == *k {
            assert(sv[i as int].uid == k@);
            let ghost c = series_index(sv, k@);
            assert(sv[c].uid == k@);
            assert(c == i) by {
                assert(0 <= c < sv.len());
                if c < i {
                    assert(sv[c].uid != sv[i as int].uid);
                } else if c > i {
                    assert(0 <= i < c < sv.len());
                    assert(sv[i as int].uid != sv[c].uid);
                }
            }
            return i;
        }
        i += 1;
    }
    i
}

fn find_study(studies: &Vec<DicomStudy>, k: &String) -> (r: usize)
    requires
        grouping_wf(studies_view(studies@)),
    ensures
        r == study_index(studies_view(studies@), k@),
{
    let ghost sv = studies_view(studies@);
    let mut i: usize = 0;
    while i < studies.len()
        invariant
            i <= studies@.len(),
            sv == studies_view(studies@),
            grouping_wf(sv),
            forall|j: int| 0 <= j < i ==> sv[j].uid != k@,
        decreases studies@.len() - i,
    {
        if studies[i].study_instance_uid == *k {
            assert(sv[i as int].uid == k@);
            let ghost c = study_index(sv, k@);
            assert(sv[c].uid == k@);
            assert(c == i) by {
                assert(0 <= c < sv.len());
                if c < i {
                    assert(sv[c].uid != sv[i as int].uid);
                } else if c > i {
                    assert(0 <= i < c < sv.len());
                    assert(sv[i as int].uid != sv[c].uid);
                }
            }
            return i;
        }
        i += 1;
    }
    i
}

impl DicomSeries {
    /// A new, empty series whose fields are read from `inst`.
    pub fn first_seen(inst: &DicomInstance) -> (r: DicomSeries)
        ensures
            r@ == new_series(inst@),
    {
        let r = DicomSeries {
            series_instance_uid: series_key_of(inst),
            series_number: inst.attribute(Attribute::SeriesNumber),
            series_description: inst.attribute(Attribute::SeriesDescription),
            modality: inst.attribute(Attribute::Modality),
            instances: Vec::new(),
        };
        assert(instances_view(r.instances@) =~= Seq::empty());
        r
    }
}

impl DicomStudy {
    /// A new study without series whose fields are read from `inst`.
    pub fn first_seen(inst: &DicomInstance, info: &ProcessingInfo) -> (r: DicomStudy)
        ensures
            r@ == new_study(inst@),
            r.processing_info@ == info@,
    {
        let r = DicomStudy {
            study_instance_uid: study_key_of(inst),
            study_date: inst.attribute(Attribute::StudyDate),
            study_time: inst.attribute(Attribute::StudyTime),
            study_description: inst.attribute(Attribute::StudyDescription),
            patient_info: extract_patient_info(inst),
            series: Vec::new(),
            processing_info: info.duplicate(),
        };
        assert(series_view(r.series@) =~= Seq::empty());
        r
    }

    /// Adds `inst` to the series of its series key, creating that series on
    /// first sight.
    pub fn add_instance(&mut self, inst: DicomInstance)
        requires
            series_distinct(old(self)@.series),
        ensures
            final(self)@ == add_to_study(old(self)@, inst@),
            final(self).processing_info@ == old(self).processing_info@,
    {
        proof {
            lemma_add_to_study_wf(self@, inst@);
        }
        let ghost old_series = series_view(self.series@);
        let k = series_key_of(&inst);
        let mut i = find_series(&self.series, &k);
        if i == self.series.len() {
            let s = DicomSeries::first_seen(&inst);
            self.series.push(s);
            assert(series_view(self.series@) =~= old_series.push(new_series(inst@)));
        }
        let ghost mid = series_view(self.series@);
        let mut s = self.series.remove(i);
        let ghost before = s.instances@;
        s.instances.push(inst);
        assert(instances_view(s.instances@) =~= instances_view(before).push(inst@));
        self.series.insert(i, s);
        assert(series_view(self.series@) =~= mid.update(i as int, append_instance(mid[i as int], inst@)));
        proof {
            if i < old_series.len() {
                assert(mid =~= old_series);
            } else {
                assert(old_series.push(append_instance(new_series(inst@), inst@)) =~= mid.update(
                    i as int,
                    append_instance(mid[i as int], inst@),
                ));
            }
        }
    }
}

/// Groups instances into studies and series, in order of first sight. Each
/// study carries a copy of `info`.
pub fn organize_by_hierarchy(results: Vec<DicomInstance>, info: &ProcessingInfo) -> (r: Vec<DicomStudy>)
    ensures
        studies_view(r@) == group_spec(instances_view(results@)),
        forall|i: int| 0 <= i < r@.len() ==> (#[trigger] r@[i]).processing_info@ == info@,
{
    let ghost all = instances_view(results@);
    let total: usize = results.len();
    assert(all.len() == total);
    let mut rest = results;
    let mut studies: Vec<DicomStudy> = Vec::new();
    let mut n: usize = 0;
    assert(all.subrange(0, 0) =~= Seq::<InstanceView>::empty());
    assert(instances_view(rest@) =~= all.subrange(0, all.len() as int));
    assert(all.len() <= usize::MAX);
    while rest.len() > 0
        invariant
            all.len() <= usize::MAX,
            n + rest@.len() == all.len(),
            instances_view(rest@) == all.subrange(n as int, all.len() as int),
            studies_view(studies@) == group_spec(all.subrange(0, n as int)),
            forall|i: int| 0 <= i < studies@.len() ==> (#[trigger] studies@[i]).processing_info@ == info@,
        decreases rest@.len(),
    {
        let ghost g = studies_view(studies@);
        let ghost rest_before = rest@;
        proof {
            lemma_group_wf(all.subrange(0, n as int));
        }
        let inst = rest.remove(0);
        assert(instances_view(rest_before)[0] == rest_before[0]@);
        assert(all.subrange(n as int, all.len() as int)[0] == all[n as int]);
        assert(inst@ == all[n as int]);
        assert(rest@ =~= rest_before.subrange(1, rest_before.len() as int));
        assert(instances_view(rest@) =~= instances_view(rest_before).subrange(
            1,
            rest_before.len() as int,
        ));
        assert(instances_view(rest@) =~= all.subrange(n + 1, all.len() as int));
        let k = study_key_of(&inst);
        let i = find_study(&studies, &k);
        if i == studies.len() {
            let st = DicomStudy::first_seen(&inst, info);
            studies.push(st);
            assert(studies_view(studies@) =~= g.push(new_study(inst@)));
        }
        let ghost mid = studies_view(studies@);
        let mut st = studies.remove(i);
        assert(st@ == mid[i as int]);
        st.add_instance(inst);
        studies.insert(i, st);
        assert(studies_view(studies@) =~= mid.update(i as int, add_to_study(mid[i as int], inst@)));
        assert(all.subrange(0, n + 1).drop_last() =~= all.subrange(0, n as int));
        assert(all.subrange(0, n + 1).last() == inst@);
        proof {
            if i < g.len() {
                assert(mid =~= g);
            } else {
                assert(g.push(add_to_study(new_study(inst@), inst@)) =~= mid.update(
                    i as int,
                    add_to_study(mid[i as int], inst@),
                ));
            }
        }
        n += 1;
    }
    assert(all.subrange(0, n as int) =~= all);
    studies
}

/// Whether `c` is alphabetic or numeric in Unicode.
pub uninterp spec fn is_alphanumeric_char(c: char) -> bool;

/// Relies on `char::is_alphanumeric`: whether the character is alphabetic
/// or numeric by its Unicode properties.
#[verifier::external_body]
fn alphanumeric(c: char) -> (r: bool)
    ensures
        r == is_alphanumeric_char(c),
{
    c.is_alphanumeric()
}

/// Keeps alphanumeric characters, `-` and `_`; anything else becomes `_`.
pub open spec fn sanitize_char(c: char) -> char {
    if is_alphanumeric_char(c) || c == '-' || c == '_' {
        c
    } else {
        '_'
    }
}

/// Makes a name safe to use as a directory name.
pub fn sanitize_filename(name: &str) -> (r: String)
    ensures
        r@ == name@.map_values(|c: char| sanitize_char(c)),
{
    let n = name.unicode_len();
    let mut out: Vec<char> = Vec::new();
    let mut i: usize = 0;
    while i < n
        invariant
            n == name@.len(),
            i <= n,
            out@.len() == i,
            forall|j: int| 0 <= j < i ==> #[trigger] out@[j] == sanitize_char(name@[j]),
        decreases n - i,
    {
        let c = name.get_char(i);
        let keep = alphanumeric(c) || c == '-' || c == '_';
        out.push(if keep { c } else { '_' });
        i += 1;
    }
    assert(out@ =~= name@.map_values(|c: char| sanitize_char(c)));
    string_from_chars(out)
}

/// The directory that holds the output of the study with UID `uid`.
pub fn study_directory_name(uid: &String) -> (r: String)
    ensures
        r@ == "study_"@ + uid@.map_values(|c: char| sanitize_char(c)),
{
    let prefix = String::from_str("study_");
    let clean = sanitize_filename(uid.as_str());
    prefix.concat(clean.as_str())
}

} // verus!
