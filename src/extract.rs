//! The instance extractor: from a decoded dataset to an [`DicomInstance`].
use crate::model::{tags_view, DicomInstance, DicomMetadata, InstanceView, TagInfo, TagInfoView};
use crate::options::{OutputFormat, ProcessorConfig};
use crate::tag::{lemma_key_injective, Attribute, Tag};
use crate::value::{element_json, extract_element_value, opt_view, ElementValue};
use dicom_core::dictionary::DataDictionary;
use vstd::prelude::*;

verus! {

/// One element as the decoder hands it over.
#[derive(Debug)]
pub struct DataElement {
    pub tag: Tag,
    pub vr: String,
    pub value: ElementValue,
    /// The decoder's string conversion of the value, where it has one.
    pub text: Option<String>,
    /// The decoder's debug-style dump of the value.
    pub debug: String,
}

/// A decoded dataset: its transfer syntax and its elements in the
/// decoder's order, at most one per tag.
#[derive(Debug)]
pub struct DecodedObject {
    transfer_syntax: String,
    elements: Vec<DataElement>,
}

pub open spec fn tags_distinct(s: Seq<DataElement>) -> bool {
    forall|i: int, j: int| 0 <= i < j < s.len() ==> s[i].tag != s[j].tag
}

impl DecodedObject {
    pub closed spec fn spec_transfer_syntax(self) -> Seq<char> {
        self.transfer_syntax@
    }

    pub closed spec fn spec_elements(self) -> Seq<DataElement> {
        self.elements@
    }

    pub open spec fn wf(self) -> bool {
        tags_distinct(self.spec_elements())
    }

    pub fn new(transfer_syntax: String) -> (r: DecodedObject)
        ensures
            r.wf(),
            r.spec_transfer_syntax() == transfer_syntax@,
            r.spec_elements().len() == 0,
    {
        DecodedObject { transfer_syntax, elements: Vec::new() }
    }

    /// Adds an element, replacing the one with the same tag if there is one.
    pub fn put(&mut self, e: DataElement)
        requires
            old(self).wf(),
        ensures
            final(self).wf(),
            final(self).spec_transfer_syntax() == old(self).spec_transfer_syntax(),
            (exists|i: int|
                0 <= i < old(self).spec_elements().len() && old(self).spec_elements()[i].tag
                    == e.tag) ==> (exists|i: int|
                0 <= i < old(self).spec_elements().len() && old(self).spec_elements()[i].tag
                    == e.tag && final(self).spec_elements() == old(self).spec_elements().update(
                    i,
                    e,
                )),
            (forall|i: int|
                0 <= i < old(self).spec_elements().len() ==> old(self).spec_elements()[i].tag
                    != e.tag) ==> final(self).spec_elements() == old(self).spec_elements().push(
                e,
            ),
    {
        let mut i: usize = 0;
        while i < self.elements.len()
            invariant
                i <= self.elements@.len(),
                forall|j: int| 0 <= j < i ==> self.elements@[j].tag != e.tag,
                self.elements@ == old(self).elements@,
                self.transfer_syntax == old(self).transfer_syntax,
                tags_distinct(self.elements@),
            decreases self.elements@.len() - i,
        {
            if self.elements[i].tag == e.tag {
                self.elements.set(i, e);
                assert(forall|j: int|
                    0 <= j < self.elements@.len() ==> self.elements@[j].tag == old(
                        self,
                    ).elements@[j].tag);
                return;
            }
            i += 1;
        }
        self.elements.push(e);
        assert(forall|j: int|
            0 <= j < old(self).elements@.len() ==> self.elements@[j] == old(self).elements@[j]);
    }

    pub fn transfer_syntax(&self) -> (r: &String)
        ensures
            r@ == self.spec_transfer_syntax(),
    {
        &self.transfer_syntax
    }

    pub fn elements(&self) -> (r: &Vec<DataElement>)
        ensures
            r@ == self.spec_elements(),
    {
        &self.elements
    }
}

/// The standard dictionary's alias for a tag, where it has an entry.
pub uninterp spec fn dictionary_alias(group: u16, element: u16) -> Option<Seq<char>>;

/// Relies on `DataDictionary::by_tag` of dicom-dictionary-std's
/// `StandardDataDictionary`: the alias of the entry for the tag, looked up
/// in a fixed table.
#[verifier::external_body]
fn lookup_alias(group: u16, element: u16) -> (r: Option<String>)
    ensures
        opt_view(r) == dictionary_alias(group, element),
{
    dicom_dictionary_std::StandardDataDictionary.by_tag(dicom_core::Tag(group, element)).map(
        |entry| entry.alias.to_string(),
    )
}

/// Whether an element is kept: private ones only on request.
pub open spec fn kept(e: DataElement, include_private: bool) -> bool {
    include_private || !e.tag.spec_is_private()
}

pub open spec fn kept_elements(s: Seq<DataElement>, include_private: bool) -> Seq<DataElement> {
    s.filter(|e: DataElement| kept(e, include_private))
}

/// The record made from one element.
pub open spec fn tag_info_spec(e: DataElement, format: OutputFormat) -> TagInfoView {
    let (value, raw) = element_json(e.value, opt_view(e.text), e.debug@, format);
    TagInfoView {
        tag: e.tag.key_spec(),
        vr: e.vr@,
        name: if format.spec_uses_names() {
            dictionary_alias(e.tag.group, e.tag.element)
        } else {
            None
        },
        value,
        raw_value: raw,
        is_private: e.tag.spec_is_private(),
    }
}

/// The decoder's text of the first element with tag `t`, if there is one
/// and it has a text.
pub open spec fn element_text(s: Seq<DataElement>, t: Tag) -> Option<Seq<char>>
    decreases s.len(),
{
    if s.len() == 0 {
        None
    } else if s[0].tag == t {
        opt_view(s[0].text)
    } else {
        element_text(s.subrange(1, s.len() as int), t)
    }
}

pub open spec fn has_element(s: Seq<DataElement>, t: Tag) -> bool {
    exists|i: int| 0 <= i < s.len() && s[i].tag == t
}

/// The record of a file at `path` decoded into `obj`.
pub open spec fn instance_spec(path: Seq<char>, obj: DecodedObject, config: ProcessorConfig) -> InstanceView {
    let s = obj.spec_elements();
    InstanceView {
        sop_instance_uid: match element_text(s, Attribute::SopInstanceUid.spec_tag()) {
            Some(u) => u,
            None => "unknown"@,
        },
        instance_number: element_text(s, Attribute::InstanceNumber.spec_tag()),
        file_path: path,
        tags: kept_elements(s, config.include_private).map_values(
            |e: DataElement| tag_info_spec(e, config.format),
        ),
        transfer_syntax: Some(obj.spec_transfer_syntax()),
        sop_class_uid: element_text(s, Attribute::SopClassUid.spec_tag()),
        file_meta_information: Seq::empty(),
        has_pixel_data: has_element(s, Attribute::PixelData.spec_tag()),
    }
}

/// Finds the decoder's text of the element with tag `t`.
pub fn find_text(elements: &Vec<DataElement>, t: Tag) -> (r: Option<String>)
    ensures
        opt_view(r) == element_text(elements@, t),
{
    let mut i: usize = 0;
    assert(elements@.subrange(0, elements@.len() as int) =~= elements@);
    while i < elements.len()
        invariant
            i <= elements@.len(),
            element_text(elements@, t) == element_text(
                elements@.subrange(i as int, elements@.len() as int),
                t,
            ),
        decreases elements@.len() - i,
    {
        let ghost rest = elements@.subrange(i as int, elements@.len() as int);
        assert(rest[0] == elements@[i as int]);
        if elements[i].tag == t {
            return match &elements[i].text {
                Some(s) => Some(s.clone()),
                None => None,
            };
        }
        assert(rest.subrange(1, rest.len() as int) =~= elements@.subrange(
            i + 1,
            elements@.len() as int,
        ));
        i += 1;
    }
    None
}

/// Whether an element with tag `t` is present.
pub fn contains_tag(elements: &Vec<DataElement>, t: Tag) -> (r: bool)
    ensures
        r == has_element(elements@, t),
{
    let mut i: usize = 0;
    while i < elements.len()
        invariant
            i <= elements@.len(),
            forall|j: int| 0 <= j < i ==> elements@[j].tag != t,
        decreases elements@.len() - i,
    {
        if elements[i].tag == t {
            return true;
        }
        i += 1;
    }
    false
}

/// Extracts per-file records under one configuration.
#[derive(Clone, Copy, Debug)]
pub struct DicomProcessor {
    pub config: ProcessorConfig,
}

impl DicomProcessor {
    pub fn new(config: ProcessorConfig) -> (r: DicomProcessor)
        ensures
            r.config == config,
    {
        DicomProcessor { config }
    }

    /// Builds the record of one element.
    pub fn create_tag_info(&self, e: &DataElement) -> (r: TagInfo)
        ensures
            r@ == tag_info_spec(*e, self.config.format),
    {
        let name = if self.config.format.uses_names() {
            lookup_alias(e.tag.group, e.tag.element)
        } else {
            None
        };
        let (value, raw_value) = extract_element_value(&e.value, &e.text, &e.debug, self.config.format);
        TagInfo {
            tag: e.tag.key(),
            vr: e.vr.clone(),
            name,
            value,
            raw_value,
            is_private: e.tag.is_private(),
        }
    }

    /// Builds the record of the file at `file_path`, decoded into `obj`.
    pub fn process_file(&self, file_path: String, obj: &DecodedObject) -> (r: DicomInstance)
        ensures
            r@ == instance_spec(file_path@, *obj, self.config),
            obj.wf() ==> forall|i: int, j: int|
                0 <= i < j < r@.tags.len() ==> r@.tags[i].tag != r@.tags[j].tag,
    {
        proof {
            if obj.wf() {
                lemma_keys_unique(file_path@, *obj, self.config);
            }
        }
        let elements = obj.elements();
        let ghost s = elements@;
        let ghost keep = |e: DataElement| kept(e, self.config.include_private);
        let ghost info = |e: DataElement| tag_info_spec(e, self.config.format);
        let mut tags: Vec<TagInfo> = Vec::new();
        let mut i: usize = 0;
        while i < elements.len()
            invariant
                i <= s.len(),
                s == elements@,
                keep == (|e: DataElement| kept(e, self.config.include_private)),
                info == (|e: DataElement| tag_info_spec(e, self.config.format)),
                tags_view(tags@) == s.subrange(0, i as int).filter(keep).map_values(info),
            decreases s.len() - i,
        {
            let e = &elements[i];
            let ghost prefix = s.subrange(0, i as int);
            assert(s.subrange(0, i + 1).drop_last() =~= prefix);
            assert(s.subrange(0, i + 1).last() == *e);
            reveal_with_fuel(Seq::filter, 1);
            if self.config.include_private || !e.tag.is_private() {
                let t = self.create_tag_info(e);
                let ghost before = tags@;
                tags.push(t);
                assert(tags_view(tags@) =~= tags_view(before).push(info(*e)));
                assert(s.subrange(0, i + 1).filter(keep) == prefix.filter(keep).push(*e));
                assert(tags_view(tags@) =~= s.subrange(0, i + 1).filter(keep).map_values(info));
            } else {
                assert(s.subrange(0, i + 1).filter(keep) == prefix.filter(keep));
            }
            i += 1;
        }
        assert(s.subrange(0, s.len() as int) =~= s);
        let sop_instance_uid = match find_text(elements, Attribute::SopInstanceUid.tag()) {
            Some(u) => u,
            None => {
                proof {
                    reveal_strlit("unknown");
                }
                String::from_str("unknown")
            },
        };
        let metadata = DicomMetadata {
            tags,
            transfer_syntax: Some(obj.transfer_syntax().clone()),
            sop_class_uid: find_text(elements, Attribute::SopClassUid.tag()),
            file_meta_information: Vec::new(),
        };
        let r = DicomInstance {
            sop_instance_uid,
            instance_number: find_text(elements, Attribute::InstanceNumber.tag()),
            file_path,
            metadata,
            has_pixel_data: contains_tag(elements, Attribute::PixelData.tag()),
        };
        assert(tags_view(r.metadata.file_meta_information@) =~= Seq::empty());
        r
    }
}

/// Private elements are kept exactly on request: without it a private
/// element has no record under its key, and no record is private; with it,
/// every private element has its record, marked private.
pub proof fn lemma_private_filtering(
    path: Seq<char>,
    obj: DecodedObject,
    config: ProcessorConfig,
    e: DataElement,
)
    requires
        obj.spec_elements().contains(e),
        e.tag.spec_is_private(),
    ensures
        !config.include_private ==> forall|i: int|
            0 <= i < instance_spec(path, obj, config).tags.len()
                ==> !(#[trigger] instance_spec(path, obj, config).tags[i]).is_private
                && instance_spec(path, obj, config).tags[i].tag != e.tag.key_spec(),
        config.include_private ==> exists|i: int|
            0 <= i < instance_spec(path, obj, config).tags.len()
                && #[trigger] instance_spec(path, obj, config).tags[i] == tag_info_spec(e, config.format)
                && instance_spec(path, obj, config).tags[i].is_private,
{
    let s = obj.spec_elements();
    let keep = |x: DataElement| kept(x, config.include_private);
    let tags = instance_spec(path, obj, config).tags;
    assert(kept_elements(s, config.include_private) == s.filter(keep));
    if !config.include_private {
        assert forall|i: int| 0 <= i < tags.len() implies !(#[trigger] tags[i]).is_private
            && tags[i].tag != e.tag.key_spec() by {
            s.lemma_filter_pred(keep, i);
            let f = s.filter(keep)[i];
            if f.tag.key_spec() == e.tag.key_spec() {
                lemma_key_injective(f.tag, e.tag);
            }
        }
    } else {
        let k = choose|k: int| 0 <= k < s.len() && s[k] == e;
        s.lemma_filter_contains(keep, k);
        let j = choose|j: int| 0 <= j < s.filter(keep).len() && s.filter(keep)[j] == e;
        assert(tags[j] == tag_info_spec(e, config.format));
    }
}

/// Extraction depends on its inputs alone: two records made from the same
/// path, decoded dataset and configuration are identical.
pub proof fn lemma_extraction_deterministic(
    a: DicomInstance,
    b: DicomInstance,
    path: Seq<char>,
    obj: DecodedObject,
    config: ProcessorConfig,
)
    requires
        a@ == instance_spec(path, obj, config),
        b@ == instance_spec(path, obj, config),
    ensures
        a@ == b@,
{
}

proof fn lemma_filter_members(s: Seq<DataElement>, p: spec_fn(DataElement) -> bool, i: int)
    requires
        0 <= i < s.filter(p).len(),
    ensures
        exists|k: int| 0 <= k < s.len() && s[k] == s.filter(p)[i],
    decreases s.len(),
{
    reveal(Seq::filter);
    let d = s.drop_last().filter(p);
    if i < d.len() {
        lemma_filter_members(s.drop_last(), p, i);
        let k = choose|k: int| 0 <= k < s.drop_last().len() && s.drop_last()[k] == d[i];
        assert(s[k] == s.filter(p)[i]);
    } else {
        assert(s[s.len() - 1] == s.filter(p)[i]);
    }
}

proof fn lemma_filter_distinct(s: Seq<DataElement>, p: spec_fn(DataElement) -> bool)
    requires
        tags_distinct(s),
    ensures
        tags_distinct(s.filter(p)),
    decreases s.len(),
{
    reveal(Seq::filter);
    if s.len() > 0 {
        let rest = s.drop_last();
        lemma_filter_distinct(rest, p);
        let d = rest.filter(p);
        if p(s.last()) {
            assert forall|i: int| 0 <= i < d.len() implies (#[trigger] d[i]).tag != s.last().tag by {
                lemma_filter_members(rest, p, i);
                let k = choose|k: int| 0 <= k < rest.len() && rest[k] == d[i];
                assert(s[k] == d[i]);
            }
            let f = s.filter(p);
            assert forall|i: int, j: int| 0 <= i < j < f.len() implies f[i].tag != f[j].tag by {
                if j == f.len() - 1 {
                    assert(f[i] == d[i]);
                } else {
                    assert(f[i] == d[i] && f[j] == d[j]);
                }
            }
        }
    }
}

/// Within one instance no two records share a key.
pub proof fn lemma_keys_unique(path: Seq<char>, obj: DecodedObject, config: ProcessorConfig)
    requires
        obj.wf(),
    ensures
        forall|i: int, j: int|
            0 <= i < j < instance_spec(path, obj, config).tags.len() ==> instance_spec(path, obj, config).tags[i].tag
                != instance_spec(path, obj, config).tags[j].tag,
{
    let s = obj.spec_elements();
    let keep = |x: DataElement| kept(x, config.include_private);
    let f = s.filter(keep);
    assert(kept_elements(s, config.include_private) == f);
    lemma_filter_distinct(s, keep);
    let tags = instance_spec(path, obj, config).tags;
    assert forall|i: int, j: int| 0 <= i < j < tags.len() implies tags[i].tag != tags[j].tag by {
        if tags[i].tag == tags[j].tag {
            lemma_key_injective(f[i].tag, f[j].tag);
        }
    }
}

} // verus!
