//! Which files of an input are candidate datasets.
use crate::summary::strings_view;
use crate::value::opt_view;
use vstd::prelude::*;

verus! {

/// What the input path names.
#[derive(Clone, Copy, Debug, PartialEq, Eq, Structural)]
pub enum RootKind {
    File,
    Directory,
    Missing,
}

/// How the candidates of an input are found.
#[derive(Clone, Copy, Debug, PartialEq, Eq, Structural)]
pub enum RootPlan {
    /// Extract the archive and filter its entries.
    Archive,
    /// The named file is the only candidate, whatever its contents.
    Single,
    /// Walk the directory and filter what is found.
    Walk,
}

/// A fatal discovery failure.
#[derive(Clone, Copy, Debug, PartialEq, Eq, Structural)]
pub enum DiscoveryError {
    /// The input path does not exist.
    InputMissing,
    /// No candidate file was found.
    NoCandidates,
}

/// One file found by a directory walk or in an archive.
#[derive(Debug)]
pub struct WalkEntry {
    pub path: String,
    /// Whether the entry is a regular file (not a directory).
    pub is_file: bool,
    pub extension: Option<String>,
    /// The first bytes of the file (up to 132), or `None` when it could not
    /// be opened.
    pub header: Option<Vec<u8>>,
}

pub open spec fn ascii_lower(c: char) -> char {
    if 'A' <= c && c <= 'Z' {
        ((c as u8) + 32) as char
    } else {
        c
    }
}

/// Equality of two texts up to ASCII case.
pub open spec fn eq_ignore_ascii_case(a: Seq<char>, b: Seq<char>) -> bool {
    &&& a.len() == b.len()
    &&& forall|i: int| 0 <= i < a.len() ==> ascii_lower(#[trigger] a[i]) == ascii_lower(b[i])
}

/// The dataset extensions: `dcm`, `dicom`, `ima` and `img`, in any case.
pub open spec fn known_extension(ext: Option<Seq<char>>) -> bool {
    match ext {
        Some(e) => eq_ignore_ascii_case(e, "dcm"@) || eq_ignore_ascii_case(e, "dicom"@)
            || eq_ignore_ascii_case(e, "ima"@) || eq_ignore_ascii_case(e, "img"@),
        None => false,
    }
}

/// The signature `DICM` at offset 128.
pub open spec fn has_signature(header: Option<Seq<u8>>) -> bool {
    match header {
        Some(b) => b.len() >= 132 && b[128] == 0x44u8 && b[129] == 0x49u8 && b[130] == 0x43u8
            && b[131] == 0x4Du8,
        None => false,
    }
}

pub open spec fn header_view(h: Option<Vec<u8>>) -> Option<Seq<u8>> {
    match h {
        Some(b) => Some(b@),
        None => None,
    }
}

/// Whether a file is a candidate dataset: by its extension, or else by its
/// signature.
pub open spec fn candidate(e: WalkEntry) -> bool {
    e.is_file && (known_extension(opt_view(e.extension)) || has_signature(header_view(e.header)))
}

/// The paths of the candidates among `s`, in order.
pub open spec fn candidates(s: Seq<WalkEntry>) -> Seq<Seq<char>>
    decreases s.len(),
{
    if s.len() == 0 {
        Seq::empty()
    } else if candidate(s.last()) {
        candidates(s.drop_last()).push(s.last().path@)
    } else {
        candidates(s.drop_last())
    }
}

/// The plan for an input: an archive is extracted, another file is taken as
/// it is, a directory is walked.
pub open spec fn plan_spec(kind: RootKind, ext: Option<Seq<char>>) -> Result<RootPlan, DiscoveryError> {
    match kind {
        RootKind::File => match ext {
            Some(e) => if eq_ignore_ascii_case(e, "zip"@) {
                Ok(RootPlan::Archive)
            } else {
                Ok(RootPlan::Single)
            },
            None => Ok(RootPlan::Single),
        },
        RootKind::Directory => Ok(RootPlan::Walk),
        RootKind::Missing => Err(DiscoveryError::InputMissing),
    }
}

fn lower(c: char) -> (r: char)
    ensures
        r == ascii_lower(c),
{
    if 'A' <= c && c <= 'Z' {
        ((c as u8) + 32) as char
    } else {
        c
    }
}

/// Compares two texts up to ASCII case.
pub fn equals_ignore_ascii_case(a: &str, b: &str) -> (r: bool)
    ensures
        r == eq_ignore_ascii_case(a@, b@),
{
    let n = a.unicode_len();
    if n != b.unicode_len() {
        return false;
    }
    let mut i: usize = 0;
    while i < n
        invariant
            n == a@.len(),
            n == b@.len(),
            i <= n,
            forall|j: int| 0 <= j < i ==> ascii_lower(#[trigger] a@[j]) == ascii_lower(b@[j]),
        decreases n - i,
    {
        if lower(a.get_char(i)) != lower(b.get_char(i)) {
            return false;
        }
        i += 1;
    }
    true
}

fn has_known_extension(ext: &Option<String>) -> (r: bool)
    ensures
        r == known_extension(opt_view(*ext)),
{
    match ext {
        Some(e) => {
            let e = e.as_str();
            equals_ignore_ascii_case(e, "dcm") || equals_ignore_ascii_case(e, "dicom")
                || equals_ignore_ascii_case(e, "ima") || equals_ignore_ascii_case(e, "img")
        },
        None => false,
    }
}

fn signature_present(header: &Option<Vec<u8>>) -> (r: bool)
    ensures
        r == has_signature(header_view(*header)),
{
    match header {
        Some(b) => b.len() >= 132 && b[128] == 0x44u8 && b[129] == 0x49u8 && b[130] == 0x43u8
            && b[131] == 0x4Du8,
        None => false,
    }
}

/// Whether a file with this extension and these first bytes is a
/// candidate dataset.
pub fn is_likely_dicom_file(extension: &Option<String>, header: &Option<Vec<u8>>) -> (r: bool)
    ensures
        r == (known_extension(opt_view(*extension)) || has_signature(header_view(*header))),
{
    has_known_extension(extension) || signature_present(header)
}

/// The paths of the candidate files among `entries`, in order.
pub fn select_candidates(entries: &Vec<WalkEntry>) -> (r: Vec<String>)
    ensures
        strings_view(r@) == candidates(entries@),
{
    let mut out: Vec<String> = Vec::new();
    let mut i: usize = 0;
    while i < entries.len()
        invariant
            i <= entries@.len(),
            strings_view(out@) == candidates(entries@.subrange(0, i as int)),
        decreases entries@.len() - i,
    {
        let e = &entries[i];
        assert(entries@.subrange(0, i + 1).drop_last() =~= entries@.subrange(0, i as int));
        assert(entries@.subrange(0, i + 1).last() == *e);
        if e.is_file && is_likely_dicom_file(&e.extension, &e.header) {
            let ghost before = out@;
            out.push(e.path.clone());
            assert(strings_view(out@) =~= strings_view(before).push(e.path@));
        }
        i += 1;
    }
    assert(entries@.subrange(0, entries@.len() as int) =~= entries@);
    out
}

/// Decides how the candidates of an input are found.
pub fn plan_root(kind: RootKind, extension: &Option<String>) -> (r: Result<RootPlan, DiscoveryError>)
    ensures
        r == plan_spec(kind, opt_view(*extension)),
{
    match kind {
        RootKind::File => match extension {
            Some(e) => if equals_ignore_ascii_case(e.as_str(), "zip") {
                Ok(RootPlan::Archive)
            } else {
                Ok(RootPlan::Single)
            },
            None => Ok(RootPlan::Single),
        },
        RootKind::Directory => Ok(RootPlan::Walk),
        RootKind::Missing => Err(DiscoveryError::InputMissing),
    }
}

/// A run needs at least one candidate.
pub fn require_candidates(files: Vec<String>) -> (r: Result<Vec<String>, DiscoveryError>)
    ensures
        files@.len() == 0 ==> r == Err::<Vec<String>, DiscoveryError>(DiscoveryError::NoCandidates),
        files@.len() > 0 ==> (r matches Ok(v) && v@ == files@),
{
    if files.len() == 0 {
        Err(DiscoveryError::NoCandidates)
    } else {
        Ok(files)
    }
}

/// A regular file without a dataset extension is a candidate exactly when
/// its signature is present.
pub proof fn lemma_signature_decides(e: WalkEntry)
    requires
        e.is_file,
        !known_extension(opt_view(e.extension)),
    ensures
        candidate(e) == has_signature(header_view(e.header)),
        candidates(seq![e]) == (if has_signature(header_view(e.header)) {
            seq![e.path@]
        } else {
            Seq::empty()
        }),
{
    assert(seq![e].drop_last() =~= Seq::<WalkEntry>::empty());
    assert(seq![e].last() == e);
    assert(candidates(Seq::<WalkEntry>::empty()) == Seq::<Seq<char>>::empty());
    assert(Seq::<Seq<char>>::empty().push(e.path@) =~= seq![e.path@]);
}

} // verus!
