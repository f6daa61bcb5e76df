use vstd::prelude::*;
use vstd::string::*;

use crate::version::PyVersion;

verus! {

/// The page the main window shows.
#[derive(Debug, Clone, Copy, PartialEq, Eq, Structural)]
pub enum Page {
    Home,
    Dev,
}

/// What is known of the Python on the search path.
#[derive(Debug, Clone)]
pub enum PathPythonState {
    NotFound,
    Version(PyVersion),
    Error,
    Unknown,
}

impl PathPythonState {
    /// The state that a lookup of the Python on the search path gives: its
    /// version when one was found, none found, or an error.
    pub fn from_result<E>(r: Result<Option<PyVersion>, E>) -> (s: PathPythonState)
        ensures
            match r {
                Ok(Some(v)) => s matches PathPythonState::Version(w) && w == v,
                Ok(None) => s is NotFound,
                Err(_) => s is Error,
            },
    {
        match r {
            Ok(o) => match o {
                Some(v) => PathPythonState::Version(v),
                None => PathPythonState::NotFound,
            },
            Err(_) => PathPythonState::Error,
        }
    }
}

/// How the interface names the Python on the search path.
pub open spec fn path_python_text(s: PathPythonState) -> Seq<char> {
    match s {
        PathPythonState::Error => "error (this is a bug)"@,
        PathPythonState::NotFound => "none found"@,
        PathPythonState::Unknown => "loading..."@,
        PathPythonState::Version(v) => v.text@,
    }
}

/// The name of the Python on the search path, as the interface shows it.
pub fn path_python_label(s: &PathPythonState) -> (r: String)
    ensures
        r@ == path_python_text(*s),
{
    match s {
        PathPythonState::Error => String::from_str("error (this is a bug)"),
        PathPythonState::NotFound => String::from_str("none found"),
        PathPythonState::Unknown => String::from_str("loading..."),
        PathPythonState::Version(v) => v.to_string(),
    }
}

}

verus! {

/// A glyph of the icon font.
#[derive(Debug, Clone, Copy)]
pub struct IconChar(pub &'static str);

/// The search on the home page: the text typed and the guides it matches.
#[derive(Debug)]
pub struct LearnData {
    pub home_search: String,
    pub search_match_guide_ids: Vec<u32>,
}

/// Messages of the guide list.
#[derive(Debug)]
pub enum GuideMessage {
    SearchText(String),
    /// Open the guide with this id.
    OpenGuide(u32),
}

/// Messages of the install area of the home page.
#[derive(Debug, Clone, Copy, PartialEq, Eq, Structural)]
pub enum InstallMessage {
    InstallPython,
    Environment,
}

/// Messages of the learning area of the home page.
#[derive(Debug)]
pub enum LearnMessage {
    SearchText(String),
}

/// The dialog that asks which Python manager to install (it has no content yet).
#[derive(Debug, Clone, Copy)]
pub struct PMIModal {}

}

verus! {

/// The line of the home page that names the Python on the search path,
/// with a note when a restart is needed.
pub open spec fn version_line(path: PathPythonState, restart_needed: bool) -> Seq<char> {
    "Python version: "@ + path_python_text(path) + if restart_needed {
        " (Restart needed)"@
    } else {
        Seq::<char>::empty()
    }
}

/// The line of the home page that names the Python on the search path.
pub fn python_version_line(path: &PathPythonState, restart_needed: bool) -> (r: String)
    ensures
        r@ == version_line(*path, restart_needed),
{
    let mut s = String::from_str("Python version: ");
    s.append(path_python_label(path).as_str());
    if restart_needed {
        s.append(" (Restart needed)");
    }
    s
}

}
