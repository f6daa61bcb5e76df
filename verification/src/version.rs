use std::str::FromStr;

use vstd::prelude::*;
use vstd::string::*;

use crate::process::{out_text, CompletedProgram, RunOutcome};

verus! {

/// A PEP 440 version, held as what the program reads of it: its
/// normalized spelling, and whether it is a final release (neither a pre-
/// nor a development release).
#[derive(Debug, Clone)]
pub struct PyVersion {
    pub text: String,
    pub stable: bool,
}

/// What `pep440_rs` reads from a text: `None` when the text is not a
/// version, else the normalized spelling of the version and whether it is
/// stable.
pub uninterp spec fn pep440_reading(s: Seq<char>) -> Option<(Seq<char>, bool)>;

/// Whether `pep440_rs` holds the versions spelled `a` and `b` equal (for
/// instance, `3.12` and `3.12.0` are).
pub uninterp spec fn pep440_equal(a: Seq<char>, b: Seq<char>) -> bool;

/// Whether the reading `v` of a text is the reading `r`.
pub open spec fn reads_as(v: Option<PyVersion>, r: Option<(Seq<char>, bool)>) -> bool {
    match r {
        None => v is None,
        Some(t) => v matches Some(x) && x.text@ == t.0 && x.stable == t.1,
    }
}

/// Parses a version with `pep440_rs::Version::from_str`. The contract
/// claims that the result is a function of the text alone, given by
/// `pep440_reading`; the rules of PEP 440 are not written out here.
#[verifier::external_body]
fn read_pep440(s: &str) -> (r: Option<PyVersion>)
    ensures
        reads_as(r, pep440_reading(s@)),
{
    match pep440_rs::Version::from_str(s) {
        Ok(v) => Some(PyVersion { text: v.to_string(), stable: v.is_stable() }),
        Err(_) => None,
    }
}

/// Compares two versions with `pep440_rs::Version`'s equality, after
/// reading each from its normalized spelling. The contract claims that the
/// answer is a function of the two spellings, named `pep440_equal`; that a
/// text which is not a version equals nothing; and that a version equals
/// itself. The rules of PEP 440 equality are not written out.
#[verifier::external_body]
fn pep440_same(a: &str, b: &str) -> (r: bool)
    ensures
        r == pep440_equal(a@, b@),
        pep440_reading(a@) is None ==> !r,
        (a@ == b@ && pep440_reading(a@) is Some) ==> r,
{
    match (pep440_rs::Version::from_str(a), pep440_rs::Version::from_str(b)) {
        (Ok(x), Ok(y)) => x == y,
        _ => false,
    }
}

impl PyVersion {
    /// Reads a version from its text.
    pub fn parse(s: &str) -> (r: Option<PyVersion>)
        ensures
            reads_as(r, pep440_reading(s@)),
    {
        read_pep440(s)
    }

    /// A copy of this version.
    pub fn duplicate(&self) -> (r: PyVersion)
        ensures
            r == *self,
    {
        PyVersion { text: self.text.clone(), stable: self.stable }
    }

    /// The normalized spelling of this version.
    pub fn to_string(&self) -> (r: String)
        ensures
            r@ == self.text@,
    {
        self.text.clone()
    }

    /// Whether the two versions are equal as PEP 440 versions.
    pub fn same_as(&self, other: &PyVersion) -> (r: bool)
        ensures
            r == pep440_equal(self.text@, other.text@),
            pep440_reading(self.text@) is None ==> !r,
            (self.text@ == other.text@ && pep440_reading(self.text@) is Some) ==> r,
    {
        pep440_same(self.text.as_str(), other.text.as_str())
    }
}

/// One entry of `uv python list --output-format json`: a version, where it
/// can be downloaded from, and where it is installed, if it is.
#[derive(Debug, Clone)]
pub struct UVRawVersionOutput {
    pub version: String,
    pub url: Option<String>,
    pub path: Option<String>,
}

/// What uv reports of Python versions: the newest stable version it offers
/// and the version that is installed, when these are known.
#[derive(Debug, Clone)]
pub struct CurrentReleaseData {
    pub latest_release: Option<PyVersion>,
    pub current_version: Option<PyVersion>,
}

/// The reading of the first entry, from index `i` on, whose version reads
/// as a stable version.
pub open spec fn first_stable_from(out: Seq<UVRawVersionOutput>, i: int) -> Option<(Seq<char>, bool)>
    decreases out.len() - i,
{
    if i < 0 || i >= out.len() {
        None
    } else {
        match pep440_reading(out[i].version@) {
            Some(t) => if t.1 {
                Some(t)
            } else {
                first_stable_from(out, i + 1)
            },
            None => first_stable_from(out, i + 1),
        }
    }
}

/// The reading of the version of the first entry, from index `i` on, that
/// is installed (has a path); `None` if there is none or its version does
/// not read.
pub open spec fn first_installed_from(out: Seq<UVRawVersionOutput>, i: int) -> Option<(Seq<char>, bool)>
    decreases out.len() - i,
{
    if i < 0 || i >= out.len() {
        None
    } else if out[i].path is Some {
        pep440_reading(out[i].version@)
    } else {
        first_installed_from(out, i + 1)
    }
}

/// The entry that the search for a stable version finds is stable.
pub proof fn lemma_first_stable_is_stable(out: Seq<UVRawVersionOutput>, i: int)
    ensures
        first_stable_from(out, i) matches Some(t) ==> t.1,
    decreases out.len() - i,
{
    if 0 <= i < out.len() {
        lemma_first_stable_is_stable(out, i + 1);
    }
}

impl CurrentReleaseData {
    /// Reads uv's list of versions: the latest release is the first entry
    /// whose version reads as stable; the current version is the version of
    /// the first installed entry.
    pub fn from_uv_raw_version_output(output: Vec<UVRawVersionOutput>) -> (r: CurrentReleaseData)
        ensures
            reads_as(r.latest_release, first_stable_from(output@, 0)),
            reads_as(r.current_version, first_installed_from(output@, 0)),
            r.latest_release matches Some(v) ==> v.stable,
    {
        proof {
            lemma_first_stable_is_stable(output@, 0);
        }
        let n = output.len();
        let mut latest: Option<PyVersion> = None;
        let mut i: usize = 0;
        while i < n
            invariant_except_break
                i <= n,
                latest is None,
                first_stable_from(output@, 0) == first_stable_from(output@, i as int),
            invariant
                n == output@.len(),
            ensures
                reads_as(latest, first_stable_from(output@, 0)),
            decreases n - i,
        {
            match read_pep440(output[i].version.as_str()) {
                Some(v) => {
                    if v.stable {
                        latest = Some(v);
                        break;
                    }
                },
                None => {},
            }
            i = i + 1;
        }
        let mut current: Option<PyVersion> = None;
        let mut j: usize = 0;
        while j < n
            invariant_except_break
                j <= n,
                current is None,
                first_installed_from(output@, 0) == first_installed_from(output@, j as int),
            invariant
                n == output@.len(),
            ensures
                reads_as(current, first_installed_from(output@, 0)),
            decreases n - j,
        {
            if output[j].path.is_some() {
                current = read_pep440(output[j].version.as_str());
                break;
            }
            j = j + 1;
        }
        CurrentReleaseData { latest_release: latest, current_version: current }
    }
}

/// Why a program's output does not give a version.
#[derive(Debug, Clone, Copy, PartialEq, Eq, Structural)]
pub enum VersionError {
    /// The output is not a version.
    NotAVersion,
    /// Running the interpreter failed.
    RunFailed,
}

/// The version that a Python interpreter printed as its first line: none
/// when it printed nothing, an error when the line is not a version.
pub fn version_from_output(prog: &CompletedProgram) -> (r: Result<Option<PyVersion>, VersionError>)
    ensures
        prog.messages@.len() == 0 ==> r matches Ok(None),
        prog.messages@.len() > 0 ==> match pep440_reading(out_text(prog.messages@[0])) {
            None => r == Err::<Option<PyVersion>, VersionError>(VersionError::NotAVersion),
            Some(t) => r matches Ok(Some(v)) && v.text@ == t.0 && v.stable == t.1,
        },
{
    if prog.messages.len() == 0 {
        return Ok(None);
    }
    match read_pep440(prog.messages[0].text()) {
        Some(v) => Ok(Some(v)),
        None => Err(VersionError::NotAVersion),
    }
}

}

verus! {

/// What running the Python found on the search path says of its version: a
/// missing executable means there is no Python; a run that failed otherwise
/// is an error; a finished run gives the version it printed.
pub fn python_probe_outcome(run: &RunOutcome) -> (r: Result<Option<PyVersion>, VersionError>)
    ensures
        run is NotFound ==> r matches Ok(None),
        run is Failed ==> r == Err::<Option<PyVersion>, VersionError>(VersionError::RunFailed),
        run matches RunOutcome::Finished(p) ==> (p.messages@.len() == 0 ==> r matches Ok(None)),
        run matches RunOutcome::Finished(p) ==> (p.messages@.len() > 0 ==> match pep440_reading(
            out_text(p.messages@[0]),
        ) {
            None => r == Err::<Option<PyVersion>, VersionError>(VersionError::NotAVersion),
            Some(t) => r matches Ok(Some(v)) && v.text@ == t.0 && v.stable == t.1,
        }),
{
    match run {
        RunOutcome::NotFound => Ok(None),
        RunOutcome::Failed => Err(VersionError::RunFailed),
        RunOutcome::Finished(p) => version_from_output(p),
    }
}

/// Whether the version of `o` reads as a stable version.
pub open spec fn reads_stable(o: UVRawVersionOutput) -> bool {
    pep440_reading(o.version@) matches Some(u) && u.1
}

proof fn lemma_first_stable_from_is_first(out: Seq<UVRawVersionOutput>, i: int)
    requires
        0 <= i <= out.len(),
    ensures
        first_stable_from(out, i) matches Some(t) ==> exists|k: int|
            i <= k < out.len() && pep440_reading(#[trigger] out[k].version@) == Some(t) && t.1 && forall|j: int|
                i <= j < k ==> !reads_stable(#[trigger] out[j]),
        first_stable_from(out, i) is None ==> forall|k: int| i <= k < out.len() ==> !reads_stable(#[trigger] out[k]),
    decreases out.len() - i,
{
    if i < out.len() {
        lemma_first_stable_from_is_first(out, i + 1);
        if reads_stable(out[i]) {
            assert(pep440_reading(out[i].version@) == first_stable_from(out, i));
        } else {
            assert(first_stable_from(out, i) == first_stable_from(out, i + 1));
            if first_stable_from(out, i) is None {
                assert forall|k: int| i <= k < out.len() implies !reads_stable(#[trigger] out[k]) by {
                    if k > i {
                    }
                }
            } else {
                let t = first_stable_from(out, i)->0;
                let k = choose|k: int|
                    i + 1 <= k < out.len() && pep440_reading(#[trigger] out[k].version@) == Some(t) && t.1
                        && forall|j: int| i + 1 <= j < k ==> !reads_stable(#[trigger] out[j]);
                assert forall|j: int| i <= j < k implies !reads_stable(#[trigger] out[j]) by {
                    if j > i {
                    }
                }
            }
        }
    }
}

/// The latest release taken from uv's list is the reading of the first
/// entry, in list order, whose version reads as a stable version, whether
/// that entry is installed or not: some entry reads as it, is stable, and
/// no entry before it reads as a stable version. When there is no latest
/// release, no entry reads as a stable version.
pub proof fn lemma_latest_release_is_first_stable(out: Seq<UVRawVersionOutput>)
    ensures
        first_stable_from(out, 0) matches Some(t) ==> exists|k: int|
            0 <= k < out.len() && pep440_reading(#[trigger] out[k].version@) == Some(t) && t.1 && forall|j: int|
                0 <= j < k ==> !reads_stable(#[trigger] out[j]),
        first_stable_from(out, 0) is None ==> forall|k: int| 0 <= k < out.len() ==> !reads_stable(#[trigger] out[k]),
        forall|k: int| 0 <= k < out.len() && reads_stable(#[trigger] out[k]) ==> first_stable_from(out, 0) is Some,
{
    lemma_first_stable_from_is_first(out, 0);
}
}
