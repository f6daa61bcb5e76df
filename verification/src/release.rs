use vstd::prelude::*;
use vstd::string::*;

use crate::text::{
    all_digits, chars_of, decimal, decimal_chars, is_digit, lemma_decimal, lemma_split_on_append,
    lemma_split_on_len, lemma_split_on_no_sep, parse_u64, push_char, push_chars, split_chars, split_on,
    string_of, text_eq, u64_text_value,
};

verus! {

/// A Python release number such as `3.12` or `3.12.4`.
#[derive(Debug, Clone, Copy, PartialEq, Eq, Structural)]
pub struct Release {
    pub major: u64,
    pub minor: u64,
    pub patch: Option<u64>,
}

/// The spelling of a release: `major.minor`, then `.patch` when there is one.
pub open spec fn release_text(r: Release) -> Seq<char> {
    decimal(r.major as nat) + seq!['.'] + decimal(r.minor as nat) + match r.patch {
        Some(p) => seq!['.'] + decimal(p as nat),
        None => Seq::<char>::empty(),
    }
}

/// Why a text is not a release number.
#[derive(Debug, Clone, Copy, PartialEq, Eq, Structural)]
pub enum ReleaseParseError {
    Major,
    Minor,
    Patch,
}

/// The release that a text spells, read as dot-separated pieces: the first
/// is the major number, the second the minor number, and a third, if any,
/// the patch number; pieces after the third are not looked at.
pub open spec fn parse_release(s: Seq<char>) -> Result<Release, ReleaseParseError> {
    let parts = split_on(s, '.');
    match u64_text_value(parts[0]) {
        None => Err(ReleaseParseError::Major),
        Some(major) => if parts.len() < 2 || u64_text_value(parts[1]) is None {
            Err(ReleaseParseError::Minor)
        } else {
            let minor = u64_text_value(parts[1])->0;
            if parts.len() >= 3 {
                match u64_text_value(parts[2]) {
                    Some(patch) => Ok(Release { major, minor, patch: Some(patch) }),
                    None => Err(ReleaseParseError::Patch),
                }
            } else {
                Ok(Release { major, minor, patch: None })
            }
        },
    }
}

/// The message that goes with each parse error.
pub open spec fn release_error_text(e: ReleaseParseError) -> Seq<char> {
    match e {
        ReleaseParseError::Major => "Failed to parse major release value"@,
        ReleaseParseError::Minor => "Failed to parse minor release value"@,
        ReleaseParseError::Patch => "Failed to parse patch release value"@,
    }
}

impl ReleaseParseError {
    /// The message of this error.
    pub fn message(&self) -> (r: String)
        ensures
            r@ == release_error_text(*self),
    {
        match self {
            ReleaseParseError::Major => String::from_str("Failed to parse major release value"),
            ReleaseParseError::Minor => String::from_str("Failed to parse minor release value"),
            ReleaseParseError::Patch => String::from_str("Failed to parse patch release value"),
        }
    }
}

impl Release {
    /// The spelling of this release, such as `3.12.4`.
    pub fn to_string(&self) -> (r: String)
        ensures
            r@ == release_text(*self),
    {
        let mut s = string_of(decimal_chars(self.major).as_slice());
        push_char(&mut s, '.');
        push_chars(&mut s, decimal_chars(self.minor).as_slice());
        match self.patch {
            Some(p) => {
                push_char(&mut s, '.');
                push_chars(&mut s, decimal_chars(p).as_slice());
            },
            None => {},
        }
        assert(s@ =~= release_text(*self));
        s
    }

    /// Reads a release from its text; the error names the first piece that
    /// is missing or not a number.
    pub fn parse(s: &str) -> (r: Result<Release, ReleaseParseError>)
        ensures
            r == parse_release(s@),
    {
        let cs = chars_of(s);
        let parts = split_chars(cs.as_slice(), '.');
        proof {
            lemma_split_on_len(s@, '.');
            assert(parts.deep_view()[0] =~= parts@[0]@);
        }
        let major = match parse_u64(parts[0].as_slice()) {
            Some(v) => v,
            None => return Err(ReleaseParseError::Major),
        };
        if parts.len() < 2 {
            return Err(ReleaseParseError::Minor);
        }
        proof {
            assert(parts.deep_view()[1] =~= parts@[1]@);
        }
        let minor = match parse_u64(parts[1].as_slice()) {
            Some(v) => v,
            None => return Err(ReleaseParseError::Minor),
        };
        if parts.len() >= 3 {
            proof {
                assert(parts.deep_view()[2] =~= parts@[2]@);
            }
            match parse_u64(parts[2].as_slice()) {
                Some(p) => Ok(Release { major, minor, patch: Some(p) }),
                None => Err(ReleaseParseError::Patch),
            }
        } else {
            Ok(Release { major, minor, patch: None })
        }
    }

    /// Reads a release from its text, with the error as a message.
    pub fn try_from(s: String) -> (r: Result<Release, String>)
        ensures
            match parse_release(s@) {
                Ok(rel) => r == Ok::<Release, String>(rel),
                Err(e) => r matches Err(m) && m@ == release_error_text(e),
            },
    {
        match Release::parse(s.as_str()) {
            Ok(rel) => Ok(rel),
            Err(e) => Err(e.message()),
        }
    }
}

/// The text of a number reads back as that number.
pub proof fn lemma_decimal_reads_back(n: u64)
    ensures
        u64_text_value(decimal(n as nat)) == Some(n),
        !decimal(n as nat).contains('.'),
{
    lemma_decimal(n as nat);
    let d = decimal(n as nat);
    assert(d[0] != '+') by {
        assert(is_digit(d[0]));
    }
    if d.contains('.') {
        let i = choose|i: int| 0 <= i < d.len() && d[i] == '.';
        assert(is_digit(d[i]));
    }
}

/// Reading back the spelling of a release gives that release.
pub proof fn lemma_release_text_reads_back(r: Release)
    ensures
        parse_release(release_text(r)) == Ok::<Release, ReleaseParseError>(r),
{
    lemma_decimal_reads_back(r.major);
    lemma_decimal_reads_back(r.minor);
    let a = decimal(r.major as nat);
    let b = decimal(r.minor as nat);
    lemma_split_on_no_sep(a, '.');
    lemma_split_on_append(a, '.', b);
    assert(a + seq!['.'] + b + Seq::<char>::empty() =~= a + seq!['.'] + b);
    match r.patch {
        Some(p) => {
            lemma_decimal_reads_back(p);
            let c = decimal(p as nat);
            lemma_split_on_append(a + seq!['.'] + b, '.', c);
            assert(release_text(r) =~= a + seq!['.'] + b + seq!['.'] + c);
            assert(split_on(release_text(r), '.') =~= seq![a, b, c]);
        },
        None => {
            assert(release_text(r) =~= a + seq!['.'] + b);
            assert(split_on(release_text(r), '.') =~= seq![a, b]);
        },
    }
}

}

verus! {

/// `chrono::NaiveDate`, a calendar date: declared so that release data can
/// carry dates through; nothing is read from or claimed of them.
#[verifier::external_type_specification]
#[verifier::external_body]
pub struct ExNaiveDate(chrono::NaiveDate);

/// A support end that is either a date or a plain yes/no.
#[derive(Debug)]
pub enum DateBool {
    Date(chrono::NaiveDate),
    Bool(bool),
}

/// One release cycle of Python as the release calendar lists it.
#[derive(Debug)]
pub struct PythonReleaseData {
    pub major_release: Release,
    pub release_date: chrono::NaiveDate,
    pub latest_release_date: chrono::NaiveDate,
    pub support_date: DateBool,
    pub eol: chrono::NaiveDate,
    pub latest: Release,
}

impl PythonReleaseData {
    /// The cycle's name, the spelling of its major release.
    pub fn to_string(&self) -> (r: String)
        ensures
            r@ == release_text(self.major_release),
    {
        self.major_release.to_string()
    }
}

/// How an installer for a release is obtained.
#[derive(Debug, Clone)]
pub enum DownloadMethod {
    Official { url: String, filename: String },
    Portable { title: String },
}

/// Why no installer can be chosen.
#[derive(Debug, Clone, Copy, PartialEq, Eq, Structural)]
pub enum DownloadError {
    OutdatedForMacos,
    UnsupportedSystem,
}

impl DownloadError {
    /// The message of this error.
    pub fn message(&self) -> (r: String)
        ensures
            r@ == (match *self {
                DownloadError::OutdatedForMacos => "Outdated python version for macos"@,
                DownloadError::UnsupportedSystem => "Unsupported system"@,
            }),
    {
        match self {
            DownloadError::OutdatedForMacos => String::from_str("Outdated python version for macos"),
            DownloadError::UnsupportedSystem => String::from_str("Unsupported system"),
        }
    }
}

/// The installer's file name for a release and a platform suffix.
pub open spec fn installer_filename(r: Release, suffix: Seq<char>) -> Seq<char> {
    "python-"@ + release_text(r) + suffix
}

/// Where python.org serves an installer file of a release.
pub open spec fn installer_url(r: Release, filename: Seq<char>) -> Seq<char> {
    "https://www.python.org/ftp/python/"@ + release_text(r) + "/"@ + filename
}

/// Whether `m` is the official installer of `r` with the given file suffix.
pub open spec fn is_official(m: DownloadMethod, r: Release, suffix: Seq<char>) -> bool {
    m matches DownloadMethod::Official { url, filename } && filename@ == installer_filename(r, suffix)
        && url@ == installer_url(r, installer_filename(r, suffix))
}

/// Whether `m` is the portable build with the given title.
pub open spec fn is_portable(m: DownloadMethod, title: Seq<char>) -> bool {
    m matches DownloadMethod::Portable { title: t } && t@ == title
}

fn official(r: &Release, suffix: &str) -> (m: DownloadMethod)
    ensures
        is_official(m, *r, suffix@),
{
    let rel = r.to_string();
    let mut filename = String::from_str("python-");
    filename.append(rel.as_str());
    filename.append(suffix);
    let mut url = String::from_str("https://www.python.org/ftp/python/");
    url.append(rel.as_str());
    url.append("/");
    url.append(filename.as_str());
    DownloadMethod::Official { url, filename }
}

/// Chooses how to obtain the installer of `release` on the operating system
/// `os` with processor architecture `arch` (the names of `std::env::consts`):
/// the official installer on Windows and, for releases after 3.10 (as
/// `(major, minor)` pairs are ordered), on macOS; a portable build on Linux.
pub fn get_download_method(release: &Release, os: &str, arch: &str) -> (r: Result<DownloadMethod, DownloadError>)
    ensures
        (os@ == "windows"@ && arch@ == "x86_64"@) ==> (r matches Ok(m) && is_official(m, *release, "-amd64.exe"@)),
        (os@ == "windows"@ && arch@ == "aarch64"@) ==> (r matches Ok(m) && is_official(m, *release, "-aarch64.exe"@)),
        (os@ == "macos"@ && (arch@ == "x86_64"@ || arch@ == "aarch64"@)) ==> if release.major > 3 || (release.major == 3 && release.minor > 10) {
            (r matches Ok(m) && is_official(m, *release, "-macos11.pkg"@))
        } else {
            r == Err::<DownloadMethod, DownloadError>(DownloadError::OutdatedForMacos)
        },
        (os@ == "linux"@ && arch@ == "x86_64"@) ==> (r matches Ok(m) && is_portable(m, "x86_64-unknown-linux-gnu"@)),
        (os@ == "linux"@ && arch@ == "aarch64"@) ==> (r matches Ok(m) && is_portable(m, "aarch64-unknown-linux-gnu"@)),
        !((os@ == "windows"@ && (arch@ == "x86_64"@ || arch@ == "aarch64"@))
            || (os@ == "macos"@ && (arch@ == "x86_64"@ || arch@ == "aarch64"@))
            || (os@ == "linux"@ && (arch@ == "x86_64"@ || arch@ == "aarch64"@)))
            ==> r == Err::<DownloadMethod, DownloadError>(DownloadError::UnsupportedSystem),
{
    proof {
        reveal_strlit("windows");
        reveal_strlit("macos");
        reveal_strlit("linux");
        reveal_strlit("x86_64");
        reveal_strlit("aarch64");
        assert("linux"@[0] != "macos"@[0]);
        assert("linux"@[0] != "windows"@[0]);
        assert("macos"@[0] != "windows"@[0]);
        assert("x86_64"@[0] != "aarch64"@[0]);
    }
    let x86 = text_eq(arch, "x86_64");
    let arm = text_eq(arch, "aarch64");
    if text_eq(os, "windows") && x86 {
        Ok(official(release, "-amd64.exe"))
    } else if text_eq(os, "windows") && arm {
        Ok(official(release, "-aarch64.exe"))
    } else if text_eq(os, "macos") && (x86 || arm) {
        if !(release.major > 3 || (release.major == 3 && release.minor > 10)) {
            return Err(DownloadError::OutdatedForMacos);
        }
        Ok(official(release, "-macos11.pkg"))
    } else if text_eq(os, "linux") && x86 {
        Ok(DownloadMethod::Portable { title: String::from_str("x86_64-unknown-linux-gnu") })
    } else if text_eq(os, "linux") && arm {
        Ok(DownloadMethod::Portable { title: String::from_str("aarch64-unknown-linux-gnu") })
    } else {
        Err(DownloadError::UnsupportedSystem)
    }
}

}
