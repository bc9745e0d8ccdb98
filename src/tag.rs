//! Data-element tags and their canonical `(GGGG,EEEE)` text form.
use vstd::prelude::*;

verus! {

/// A data-element tag: a group number and an element number.
#[derive(Clone, Copy, Debug, PartialEq, Eq, Structural)]
pub struct Tag {
    pub group: u16,
    pub element: u16,
}

/// The sixteen upper-case hexadecimal digits, in order of value.
pub open spec fn hex_digits() -> Seq<char> {
    seq!['0', '1', '2', '3', '4', '5', '6', '7', '8', '9', 'A', 'B', 'C', 'D', 'E', 'F']
}

/// Whether `c` is an upper-case hexadecimal digit.
pub open spec fn is_upper_hex(c: char) -> bool {
    ('0' <= c && c <= '9') || ('A' <= c && c <= 'F')
}

/// Four hexadecimal digits of `n`, most significant first.
pub open spec fn hex4(n: u16) -> Seq<char> {
    seq![
        hex_digits()[(n / 4096) as int],
        hex_digits()[((n / 256) % 16) as int],
        hex_digits()[((n / 16) % 16) as int],
        hex_digits()[(n % 16) as int],
    ]
}

impl Tag {
    /// The canonical key `(GGGG,EEEE)` of the tag.
    pub open spec fn key_spec(self) -> Seq<char> {
        seq!['('] + hex4(self.group) + seq![','] + hex4(self.element) + seq![')']
    }

    /// An odd group number marks a private (vendor-specific) tag.
    pub open spec fn spec_is_private(self) -> bool {
        self.group % 2 == 1
    }

    pub fn new(group: u16, element: u16) -> (t: Tag)
        ensures
            t.group == group,
            t.element == element,
    {
        Tag { group, element }
    }

    pub fn is_private(&self) -> (r: bool)
        ensures
            r == self.spec_is_private(),
    {
        self.group % 2 == 1
    }

    /// Renders the canonical key, e.g. `(0008,0060)`.
    pub fn key(&self) -> (r: String)
        ensures
            r@ == self.key_spec(),
    {
        let mut out: Vec<char> = Vec::new();
        out.push('(');
        push_hex4(&mut out, self.group);
        out.push(',');
        push_hex4(&mut out, self.element);
        out.push(')');
        assert(out@ =~= self.key_spec());
        string_from_chars(out)
    }
}

/// The upper-case hexadecimal digit of `d`.
pub fn hex_digit(d: u16) -> (c: char)
    requires
        d < 16,
    ensures
        c == hex_digits()[d as int],
{
    if d < 10 {
        let c = ('0' as u8 + d as u8) as char;
        assert(c == hex_digits()[d as int]) by {
            assert(d == 0 || d == 1 || d == 2 || d == 3 || d == 4 || d == 5 || d == 6 || d == 7
                || d == 8 || d == 9);
        }
        c
    } else {
        let c = ('A' as u8 + (d - 10) as u8) as char;
        assert(c == hex_digits()[d as int]) by {
            assert(d == 10 || d == 11 || d == 12 || d == 13 || d == 14 || d == 15);
        }
        c
    }
}

fn push_hex4(out: &mut Vec<char>, n: u16)
    ensures
        final(out)@ == old(out)@ + hex4(n),
{
    out.push(hex_digit(n / 4096));
    out.push(hex_digit((n / 256) % 16));
    out.push(hex_digit((n / 16) % 16));
    out.push(hex_digit(n % 16));
    assert(final(out)@ =~= old(out)@ + hex4(n));
}

/// Relies on `String::from_iter` over `char`s: the string holds exactly the
/// given characters, in order.
#[verifier::external_body]
pub(crate) fn string_from_chars(chars: Vec<char>) -> (r: String)
    ensures
        r@ == chars@,
{
    String::from_iter(chars)
}

/// Every canonical key is `(`, four upper-case hexadecimal digits, `,`, four
/// more such digits and `)`.
pub proof fn lemma_key_shape(t: Tag)
    ensures
        t.key_spec().len() == 11,
        t.key_spec()[0] == '(',
        t.key_spec()[5] == ',',
        t.key_spec()[10] == ')',
        forall|i: int| 1 <= i <= 4 ==> is_upper_hex(#[trigger] t.key_spec()[i]),
        forall|i: int| 6 <= i <= 9 ==> is_upper_hex(#[trigger] t.key_spec()[i]),
{
    assert forall|k: int| 0 <= k < 16 implies is_upper_hex(#[trigger] hex_digits()[k]) by {
        assert(k == 0 || k == 1 || k == 2 || k == 3 || k == 4 || k == 5 || k == 6 || k == 7 || k
            == 8 || k == 9 || k == 10 || k == 11 || k == 12 || k == 13 || k == 14 || k == 15);
    }
    let k = t.key_spec();
    assert(k[1] == hex4(t.group)[0]);
    assert(k[2] == hex4(t.group)[1]);
    assert(k[3] == hex4(t.group)[2]);
    assert(k[4] == hex4(t.group)[3]);
    assert(k[6] == hex4(t.element)[0]);
    assert(k[7] == hex4(t.element)[1]);
    assert(k[8] == hex4(t.element)[2]);
    assert(k[9] == hex4(t.element)[3]);
}

/// The well-known attributes that the extractor and the renderers read.
#[derive(Clone, Copy, Debug, PartialEq, Eq, Structural)]
pub enum Attribute {
    SopClassUid,
    SopInstanceUid,
    StudyDate,
    StudyTime,
    Modality,
    StudyDescription,
    SeriesDescription,
    PatientName,
    PatientId,
    PatientBirthDate,
    PatientSex,
    PatientAge,
    StudyInstanceUid,
    SeriesInstanceUid,
    SeriesNumber,
    InstanceNumber,
    PhotometricInterpretation,
    Rows,
    Columns,
    BitsAllocated,
    PixelData,
}

impl Attribute {
    /// The attribute's tag in the standard data dictionary.
    pub open spec fn spec_tag(self) -> Tag {
        match self {
            Attribute::SopClassUid => Tag { group: 0x0008, element: 0x0016 },
            Attribute::SopInstanceUid => Tag { group: 0x0008, element: 0x0018 },
            Attribute::StudyDate => Tag { group: 0x0008, element: 0x0020 },
            Attribute::StudyTime => Tag { group: 0x0008, element: 0x0030 },
            Attribute::Modality => Tag { group: 0x0008, element: 0x0060 },
            Attribute::StudyDescription => Tag { group: 0x0008, element: 0x1030 },
            Attribute::SeriesDescription => Tag { group: 0x0008, element: 0x103E },
            Attribute::PatientName => Tag { group: 0x0010, element: 0x0010 },
            Attribute::PatientId => Tag { group: 0x0010, element: 0x0020 },
            Attribute::PatientBirthDate => Tag { group: 0x0010, element: 0x0030 },
            Attribute::PatientSex => Tag { group: 0x0010, element: 0x0040 },
            Attribute::PatientAge => Tag { group: 0x0010, element: 0x1010 },
            Attribute::StudyInstanceUid => Tag { group: 0x0020, element: 0x000D },
            Attribute::SeriesInstanceUid => Tag { group: 0x0020, element: 0x000E },
            Attribute::SeriesNumber => Tag { group: 0x0020, element: 0x0011 },
            Attribute::InstanceNumber => Tag { group: 0x0020, element: 0x0013 },
            Attribute::PhotometricInterpretation => Tag { group: 0x0028, element: 0x0004 },
            Attribute::Rows => Tag { group: 0x0028, element: 0x0010 },
            Attribute::Columns => Tag { group: 0x0028, element: 0x0011 },
            Attribute::BitsAllocated => Tag { group: 0x0028, element: 0x0100 },
            Attribute::PixelData => Tag { group: 0x7FE0, element: 0x0010 },
        }
    }

    pub fn tag(self) -> (t: Tag)
        ensures
            t == self.spec_tag(),
    {
        match self {
            Attribute::SopClassUid => Tag { group: 0x0008, element: 0x0016 },
            Attribute::SopInstanceUid => Tag { group: 0x0008, element: 0x0018 },
            Attribute::StudyDate => Tag { group: 0x0008, element: 0x0020 },
            Attribute::StudyTime => Tag { group: 0x0008, element: 0x0030 },
            Attribute::Modality => Tag { group: 0x0008, element: 0x0060 },
            Attribute::StudyDescription => Tag { group: 0x0008, element: 0x1030 },
            Attribute::SeriesDescription => Tag { group: 0x0008, element: 0x103E },
            Attribute::PatientName => Tag { group: 0x0010, element: 0x0010 },
            Attribute::PatientId => Tag { group: 0x0010, element: 0x0020 },
            Attribute::PatientBirthDate => Tag { group: 0x0010, element: 0x0030 },
            Attribute::PatientSex => Tag { group: 0x0010, element: 0x0040 },
            Attribute::PatientAge => Tag { group: 0x0010, element: 0x1010 },
            Attribute::StudyInstanceUid => Tag { group: 0x0020, element: 0x000D },
            Attribute::SeriesInstanceUid => Tag { group: 0x0020, element: 0x000E },
            Attribute::SeriesNumber => Tag { group: 0x0020, element: 0x0011 },
            Attribute::InstanceNumber => Tag { group: 0x0020, element: 0x0013 },
            Attribute::PhotometricInterpretation => Tag { group: 0x0028, element: 0x0004 },
            Attribute::Rows => Tag { group: 0x0028, element: 0x0010 },
            Attribute::Columns => Tag { group: 0x0028, element: 0x0011 },
            Attribute::BitsAllocated => Tag { group: 0x0028, element: 0x0100 },
            Attribute::PixelData => Tag { group: 0x7FE0, element: 0x0010 },
        }
    }
}

/// The value of an upper-case hexadecimal digit.
pub open spec fn digit_value(c: char) -> int {
    if c <= '9' {
        c as int - '0' as int
    } else {
        c as int - 'A' as int + 10
    }
}

proof fn lemma_digit_value(k: int)
    requires
        0 <= k < 16,
    ensures
        digit_value(hex_digits()[k]) == k,
{
    assert(k == 0 || k == 1 || k == 2 || k == 3 || k == 4 || k == 5 || k == 6 || k == 7 || k == 8
        || k == 9 || k == 10 || k == 11 || k == 12 || k == 13 || k == 14 || k == 15);
}

proof fn lemma_hex4_injective(a: u16, b: u16)
    requires
        hex4(a) == hex4(b),
    ensures
        a == b,
{
    assert(hex4(a)[0] == hex4(b)[0]);
    assert(hex4(a)[1] == hex4(b)[1]);
    assert(hex4(a)[2] == hex4(b)[2]);
    assert(hex4(a)[3] == hex4(b)[3]);
    lemma_digit_value((a / 4096) as int);
    lemma_digit_value((b / 4096) as int);
    lemma_digit_value(((a / 256) % 16) as int);
    lemma_digit_value(((b / 256) % 16) as int);
    lemma_digit_value(((a / 16) % 16) as int);
    lemma_digit_value(((b / 16) % 16) as int);
    lemma_digit_value((a % 16) as int);
    lemma_digit_value((b % 16) as int);
    assert(a == (a / 4096) * 4096 + ((a / 256) % 16) * 256 + ((a / 16) % 16) * 16 + a % 16) by (bit_vector);
    assert(b == (b / 4096) * 4096 + ((b / 256) % 16) * 256 + ((b / 16) % 16) * 16 + b % 16) by (bit_vector);
}

/// Distinct tags have distinct keys.
pub proof fn lemma_key_injective(s: Tag, t: Tag)
    requires
        s.key_spec() == t.key_spec(),
    ensures
        s == t,
{
    assert(s.key_spec().subrange(1, 5) =~= hex4(s.group));
    assert(t.key_spec().subrange(1, 5) =~= hex4(t.group));
    assert(s.key_spec().subrange(6, 10) =~= hex4(s.element));
    assert(t.key_spec().subrange(6, 10) =~= hex4(t.element));
    lemma_hex4_injective(s.group, t.group);
    lemma_hex4_injective(s.element, t.element);
}

} // verus!
