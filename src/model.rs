//! Per-file metadata records and their mathematical models.
use crate::tag::{Attribute, Tag};
use crate::value::{opt_view, JsonValue, ValueView};
use vstd::prelude::*;

verus! {

/// One extracted tag of an instance.
#[derive(Debug)]
pub struct TagInfo {
    /// The canonical key `(GGGG,EEEE)`.
    pub tag: String,
    pub vr: String,
    /// The dictionary name, looked up only for the named output shapes.
    pub name: Option<String>,
    pub value: JsonValue,
    pub raw_value: Option<String>,
    pub is_private: bool,
}

pub struct TagInfoView {
    pub tag: Seq<char>,
    pub vr: Seq<char>,
    pub name: Option<Seq<char>>,
    pub value: ValueView,
    pub raw_value: Option<Seq<char>>,
    pub is_private: bool,
}

impl View for TagInfo {
    type V = TagInfoView;

    open spec fn view(&self) -> TagInfoView {
        TagInfoView {
            tag: self.tag@,
            vr: self.vr@,
            name: opt_view(self.name),
            value: self.value@,
            raw_value: opt_view(self.raw_value),
            is_private: self.is_private,
        }
    }
}

pub open spec fn tags_view(tags: Seq<TagInfo>) -> Seq<TagInfoView> {
    tags.map_values(|t: TagInfo| t@)
}

/// The metadata of one instance. `tags` holds one record per kept element,
/// in the decoder's order.
#[derive(Debug)]
pub struct DicomMetadata {
    pub tags: Vec<TagInfo>,
    pub transfer_syntax: Option<String>,
    pub sop_class_uid: Option<String>,
    pub file_meta_information: Vec<TagInfo>,
}

/// The record made from one successfully decoded file.
#[derive(Debug)]
pub struct DicomInstance {
    pub sop_instance_uid: String,
    pub instance_number: Option<String>,
    pub file_path: String,
    pub metadata: DicomMetadata,
    pub has_pixel_data: bool,
}

pub struct InstanceView {
    pub sop_instance_uid: Seq<char>,
    pub instance_number: Option<Seq<char>>,
    pub file_path: Seq<char>,
    pub tags: Seq<TagInfoView>,
    pub transfer_syntax: Option<Seq<char>>,
    pub sop_class_uid: Option<Seq<char>>,
    pub file_meta_information: Seq<TagInfoView>,
    pub has_pixel_data: bool,
}

impl View for DicomInstance {
    type V = InstanceView;

    open spec fn view(&self) -> InstanceView {
        InstanceView {
            sop_instance_uid: self.sop_instance_uid@,
            instance_number: opt_view(self.instance_number),
            file_path: self.file_path@,
            tags: tags_view(self.metadata.tags@),
            transfer_syntax: opt_view(self.metadata.transfer_syntax),
            sop_class_uid: opt_view(self.metadata.sop_class_uid),
            file_meta_information: tags_view(self.metadata.file_meta_information@),
            has_pixel_data: self.has_pixel_data,
        }
    }
}

/// The raw text of the first record whose key is `key`, if there is one.
pub open spec fn tag_value(tags: Seq<TagInfoView>, key: Seq<char>) -> Option<Seq<char>>
    decreases tags.len(),
{
    if tags.len() == 0 {
        None
    } else if tags[0].tag == key {
        tags[0].raw_value
    } else {
        tag_value(tags.subrange(1, tags.len() as int), key)
    }
}

/// The raw text of an attribute in an instance's tag map.
pub open spec fn attribute_value(iv: InstanceView, a: Attribute) -> Option<Seq<char>> {
    tag_value(iv.tags, a.spec_tag().key_spec())
}

pub fn clone_opt(o: &Option<String>) -> (r: Option<String>)
    ensures
        opt_view(r) == opt_view(*o),
{
    match o {
        Some(s) => Some(s.clone()),
        None => None,
    }
}

/// Looks up the raw text of tag `t` in a tag map.
pub fn get_tag_value(tags: &Vec<TagInfo>, t: Tag) -> (r: Option<String>)
    ensures
        opt_view(r) == tag_value(tags_view(tags@), t.key_spec()),
{
    let key = t.key();
    let ghost all = tags_view(tags@);
    let mut i: usize = 0;
    assert(all.subrange(0, all.len() as int) =~= all);
    while i < tags.len()
        invariant
            i <= tags@.len(),
            all == tags_view(tags@),
            key@ == t.key_spec(),
            tag_value(all, key@) == tag_value(all.subrange(i as int, all.len() as int), key@),
        decreases tags@.len() - i,
    {
        let ghost rest = all.subrange(i as int, all.len() as int);
        assert(rest[0] == tags@[i as int]@);
        if tags[i].tag == key {
            return clone_opt(&tags[i].raw_value);
        }
        assert(rest.subrange(1, rest.len() as int) =~= all.subrange(i + 1, all.len() as int));
        i += 1;
    }
    None
}

/// The patient fields of an instance.
#[derive(Debug)]
pub struct PatientInfo {
    pub patient_id: Option<String>,
    pub patient_name: Option<String>,
    pub patient_birth_date: Option<String>,
    pub patient_sex: Option<String>,
    pub patient_age: Option<String>,
}

pub struct PatientView {
    pub id: Option<Seq<char>>,
    pub name: Option<Seq<char>>,
    pub birth_date: Option<Seq<char>>,
    pub sex: Option<Seq<char>>,
    pub age: Option<Seq<char>>,
}

impl View for PatientInfo {
    type V = PatientView;

    open spec fn view(&self) -> PatientView {
        PatientView {
            id: opt_view(self.patient_id),
            name: opt_view(self.patient_name),
            birth_date: opt_view(self.patient_birth_date),
            sex: opt_view(self.patient_sex),
            age: opt_view(self.patient_age),
        }
    }
}

pub open spec fn patient_spec(iv: InstanceView) -> PatientView {
    PatientView {
        id: attribute_value(iv, Attribute::PatientId),
        name: attribute_value(iv, Attribute::PatientName),
        birth_date: attribute_value(iv, Attribute::PatientBirthDate),
        sex: attribute_value(iv, Attribute::PatientSex),
        age: attribute_value(iv, Attribute::PatientAge),
    }
}

impl DicomInstance {
    /// The raw text of a well-known attribute of this instance.
    pub fn attribute(&self, a: Attribute) -> (r: Option<String>)
        ensures
            opt_view(r) == attribute_value(self@, a),
    {
        get_tag_value(&self.metadata.tags, a.tag())
    }
}

/// Reads the patient fields from an instance's tag map.
pub fn extract_patient_info(instance: &DicomInstance) -> (r: PatientInfo)
    ensures
        r@ == patient_spec(instance@),
{
    PatientInfo {
        patient_id: instance.attribute(Attribute::PatientId),
        patient_name: instance.attribute(Attribute::PatientName),
        patient_birth_date: instance.attribute(Attribute::PatientBirthDate),
        patient_sex: instance.attribute(Attribute::PatientSex),
        patient_age: instance.attribute(Attribute::PatientAge),
    }
}

} // verus!
