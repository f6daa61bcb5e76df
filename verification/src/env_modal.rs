use vstd::prelude::*;
use vstd::string::*;

use crate::gui::PathPythonState;
use crate::paths::{join_path, path_join};
use crate::text::{chars_of, string_of, trim, trim_chars};
use crate::version::PyVersion;

verus! {

/// How far creating the environment has got.
#[derive(Debug, Clone, Copy, PartialEq, Eq, Structural)]
pub enum LoadingState {
    NotLoading,
    Loading,
    Done,
    Error,
}

/// What is known of whether a path exists.
#[derive(Debug, Clone, Copy, PartialEq, Eq, Structural)]
pub enum PathExistState {
    Exists,
    Invalid,
    Loading,
}

impl PathExistState {
    /// The state that an existence check gives.
    pub fn from_bool(b: bool) -> (r: PathExistState)
        ensures
            r == (if b { PathExistState::Exists } else { PathExistState::Invalid }),
    {
        if b {
            PathExistState::Exists
        } else {
            PathExistState::Invalid
        }
    }
}

/// The messages of the virtual environment dialog.
#[derive(Debug)]
pub enum EnvMessage {
    Confirm,
    PathTextEdit(String),
    NameTextEdit(String),
    /// Whether the folder exists.
    PathValidated(bool),
    /// Whether a folder of the project's name already exists there.
    NameValidated(bool),
    /// Whether creating the environment succeeded.
    SetupDone(bool),
    PathPicked(Option<String>),
    PickPath,
    LinkClicked(String),
}

/// The virtual environment dialog: the folder and project name entered,
/// how far creating the environment has got, what is known of the folder
/// and of the project folder, and the status it shows.
#[derive(Debug)]
pub struct EnvModal {
    pub file_path: String,
    pub name: String,
    pub loading_state: LoadingState,
    pub path_exist_state: PathExistState,
    pub name_exist_state: PathExistState,
    pub status_text: Option<String>,
    pub has_python: bool,
    pub continue_ready: bool,
}

/// What the interface is to do after the dialog took a message.
#[derive(Debug)]
pub enum EnvAction {
    Nothing,
    /// Create the project at `path` with this Python; answer with `SetupDone`.
    SetupProject { path: String, version: PyVersion },
    /// Check whether the folder exists; answer with `PathValidated`.
    CheckPath(String),
    /// Check whether the project folder exists; answer with `NameValidated`.
    CheckName(String),
    /// Let the user pick a folder; answer with `PathPicked`.
    PickFolder,
}

/// The status the dialog shows about its entries: whether Python is there,
/// whether the project can be created, and the text (if any).
pub open spec fn env_status(m: EnvModal, path: PathPythonState) -> (bool, bool, Option<Seq<char>>) {
    if !(path is Version) {
        (
            false,
            false,
            Some(
                "Error: Python must be installed to create \
                a virtual environment! Please press the **Install Python** button above first.\n\n \
                If you just installed Python using pancakes, please close and reopen pancakes then \
                try again."@,
            ),
        )
    } else {
        match m.loading_state {
            LoadingState::NotLoading => if trim(m.file_path@).len() > 0 && trim(m.name@).len() > 0 {
                if m.path_exist_state is Exists && m.name_exist_state is Invalid {
                    (
                        true,
                        true,
                        Some(
                            "Creating project `"@ + trim(m.name@) + "` within directory `"@ + m.file_path@
                                + "`"@,
                        ),
                    )
                } else if m.path_exist_state is Invalid {
                    (
                        true,
                        false,
                        Some(
                            "The folder path entered does not exist. Please double \
                            check you have the correct path"@,
                        ),
                    )
                } else if m.name_exist_state is Exists {
                    (
                        true,
                        false,
                        Some(
                            "The project name provided already exists as a folder. \
                            Please provide a name that isn't taken yet!"@,
                        ),
                    )
                } else {
                    (true, false, None)
                }
            } else {
                (true, false, None)
            },
            LoadingState::Loading => (true, false, Some("Loading environment..."@)),
            LoadingState::Done => (true, false, Some("Creation complete! Press Close to finish."@)),
            LoadingState::Error => (
                true,
                false,
                Some(
                    "An interal error occured. This is most likely due to the folder location being malformed \
                or not existing. \
                To try again, please click 'Close' and ensure the path you entered is valid.\n\n \
                **Important:** if you have not yet installed uv with the **Install Python** button above, make \
                to do that first."@,
                ),
            ),
        }
    }
}

/// Whether the dialog's status fields hold the status its entries give.
pub open spec fn status_current(m: EnvModal, path: PathPythonState) -> bool {
    let s = env_status(m, path);
    &&& m.has_python == s.0
    &&& m.continue_ready == s.1
    &&& match s.2 {
        None => m.status_text is None,
        Some(t) => m.status_text matches Some(x) && x@ == t,
    }
}

/// Renews the status the dialog shows.
pub fn status_markdown(modal: &mut EnvModal, path: &PathPythonState)
    ensures
        final(modal).file_path == old(modal).file_path,
        final(modal).name == old(modal).name,
        final(modal).loading_state == old(modal).loading_state,
        final(modal).path_exist_state == old(modal).path_exist_state,
        final(modal).name_exist_state == old(modal).name_exist_state,
        status_current(*final(modal), *path),
{
    let mut has_python = true;
    let mut continue_ready = false;
    let txt: Option<String> = match path {
        PathPythonState::Version(_) => match modal.loading_state {
            LoadingState::NotLoading => {
                let fp = trim_chars(chars_of(modal.file_path.as_str()).as_slice());
                let nm = trim_chars(chars_of(modal.name.as_str()).as_slice());
                if fp.len() > 0 && nm.len() > 0 {
                    match (modal.path_exist_state, modal.name_exist_state) {
                        (PathExistState::Exists, PathExistState::Invalid) => {
                            continue_ready = true;
                            let mut s = String::from_str("Creating project `");
                            s.append(string_of(nm.as_slice()).as_str());
                            s.append("` within directory `");
                            s.append(modal.file_path.as_str());
                            s.append("`");
                            Some(s)
                        },
                        (PathExistState::Invalid, _) => Some(
                            String::from_str(
                                "The folder path entered does not exist. Please double \
                            check you have the correct path",
                            ),
                        ),
                        (_, PathExistState::Exists) => Some(
                            String::from_str(
                                "The project name provided already exists as a folder. \
                            Please provide a name that isn't taken yet!",
                            ),
                        ),
                        _ => None,
                    }
                } else {
                    None
                }
            },
            LoadingState::Loading => Some(String::from_str("Loading environment...")),
            LoadingState::Done => Some(String::from_str("Creation complete! Press Close to finish.")),
            LoadingState::Error => Some(
                String::from_str(
                    "An interal error occured. This is most likely due to the folder location being malformed \
                or not existing. \
                To try again, please click 'Close' and ensure the path you entered is valid.\n\n \
                **Important:** if you have not yet installed uv with the **Install Python** button above, make \
                to do that first.",
                ),
            ),
        },
        _ => {
            has_python = false;
            Some(
                String::from_str(
                    "Error: Python must be installed to create \
                a virtual environment! Please press the **Install Python** button above first.\n\n \
                If you just installed Python using pancakes, please close and reopen pancakes then \
                try again.",
                ),
            )
        },
    };
    modal.has_python = has_python;
    modal.continue_ready = continue_ready;
    modal.status_text = txt;
}

}

verus! {

/// What taking `msg` does to the dialog `old`, giving `new` and the action
/// `r`; `path` is what is known of the Python on the search path and
/// `windows` selects Windows path rules.
pub open spec fn env_step(
    old: EnvModal,
    path: PathPythonState,
    msg: EnvMessage,
    windows: bool,
    new: EnvModal,
    r: EnvAction,
) -> bool {
    match msg {
        EnvMessage::Confirm => {
            &&& new.loading_state == LoadingState::Loading
            &&& new.file_path == old.file_path
            &&& new.name == old.name
            &&& new.path_exist_state == old.path_exist_state
            &&& new.name_exist_state == old.name_exist_state
            &&& new.status_text == old.status_text
            &&& new.has_python == old.has_python
            &&& new.continue_ready == old.continue_ready
            &&& match path {
                PathPythonState::Version(v) => r matches EnvAction::SetupProject { path: p, version }
                    && p@ == join_path(old.file_path@, old.name@, windows) && version == v,
                _ => r is Nothing,
            }
        },
        EnvMessage::NameTextEdit(t) => {
            &&& new.name == t
            &&& new.name_exist_state == PathExistState::Loading
            &&& new.file_path == old.file_path
            &&& new.loading_state == old.loading_state
            &&& new.path_exist_state == old.path_exist_state
            &&& status_current(new, path)
            &&& r matches EnvAction::CheckName(p) && p@ == join_path(old.file_path@, t@, windows)
        },
        EnvMessage::PathTextEdit(t) => {
            &&& new.file_path == t
            &&& new.path_exist_state == PathExistState::Loading
            &&& new.name == old.name
            &&& new.loading_state == old.loading_state
            &&& new.name_exist_state == old.name_exist_state
            &&& status_current(new, path)
            &&& r matches EnvAction::CheckPath(p) && p == t
        },
        EnvMessage::NameValidated(b) => {
            &&& new.name_exist_state == (if b { PathExistState::Exists } else { PathExistState::Invalid })
            &&& new.file_path == old.file_path
            &&& new.name == old.name
            &&& new.loading_state == old.loading_state
            &&& new.path_exist_state == old.path_exist_state
            &&& status_current(new, path)
            &&& r is Nothing
        },
        EnvMessage::PathValidated(b) => {
            &&& new.path_exist_state == (if b { PathExistState::Exists } else { PathExistState::Invalid })
            &&& new.file_path == old.file_path
            &&& new.name == old.name
            &&& new.loading_state == old.loading_state
            &&& new.name_exist_state == old.name_exist_state
            &&& status_current(new, path)
            &&& r is Nothing
        },
        EnvMessage::SetupDone(b) => {
            &&& new.loading_state == (if b { LoadingState::Done } else { LoadingState::Error })
            &&& new.file_path == old.file_path
            &&& new.name == old.name
            &&& new.path_exist_state == old.path_exist_state
            &&& new.name_exist_state == old.name_exist_state
            &&& status_current(new, path)
            &&& r is Nothing
        },
        EnvMessage::PickPath => new == old && r is PickFolder,
        EnvMessage::PathPicked(Some(p)) => {
            &&& new.file_path == p
            &&& new.name == old.name
            &&& new.loading_state == old.loading_state
            &&& new.path_exist_state == old.path_exist_state
            &&& new.name_exist_state == old.name_exist_state
            &&& status_current(new, path)
            &&& r matches EnvAction::CheckPath(q) && q == p
        },
        EnvMessage::PathPicked(None) => new == old && r is Nothing,
        EnvMessage::LinkClicked(_) => new == old && r is Nothing,
    }
}

impl EnvModal {
    /// Whether nothing has been entered in the dialog yet.
    pub open spec fn is_fresh(self) -> bool {
        &&& self.file_path@ == Seq::<char>::empty()
        &&& self.name@ == Seq::<char>::empty()
        &&& self.loading_state == LoadingState::NotLoading
        &&& self.path_exist_state == PathExistState::Invalid
        &&& self.name_exist_state == PathExistState::Invalid
        &&& self.status_text is None
        &&& self.has_python
        &&& !self.continue_ready
    }

    /// A dialog with nothing entered yet.
    pub fn new() -> (r: EnvModal)
        ensures
            r.is_fresh(),
    {
        EnvModal {
            file_path: String::new(),
            name: String::new(),
            loading_state: LoadingState::NotLoading,
            path_exist_state: PathExistState::Invalid,
            name_exist_state: PathExistState::Invalid,
            status_text: None,
            has_python: true,
            continue_ready: false,
        }
    }

    /// Takes a message: records what was entered or learned, renews the
    /// status, and says what the interface is to do. `path` is what is
    /// known of the Python on the search path; `windows` selects Windows path rules.
    pub fn update(&mut self, path: &PathPythonState, message: EnvMessage, windows: bool) -> (r: EnvAction)
        ensures
            env_step(*old(self), *path, message, windows, *final(self), r),
    {
        match message {
            EnvMessage::Confirm => {
                self.loading_state = LoadingState::Loading;
                match path {
                    PathPythonState::Version(v) => {
                        let full = path_join(self.file_path.as_str(), self.name.as_str(), windows);
                        EnvAction::SetupProject { path: full, version: v.duplicate() }
                    },
                    _ => EnvAction::Nothing,
                }
            },
            EnvMessage::NameTextEdit(t) => {
                let target = path_join(self.file_path.as_str(), t.as_str(), windows);
                self.name = t;
                self.name_exist_state = PathExistState::Loading;
                status_markdown(self, path);
                EnvAction::CheckName(target)
            },
            EnvMessage::PathTextEdit(t) => {
                let target = t.clone();
                self.file_path = t;
                self.path_exist_state = PathExistState::Loading;
                status_markdown(self, path);
                EnvAction::CheckPath(target)
            },
            EnvMessage::NameValidated(b) => {
                self.name_exist_state = PathExistState::from_bool(b);
                status_markdown(self, path);
                EnvAction::Nothing
            },
            EnvMessage::PathValidated(b) => {
                self.path_exist_state = PathExistState::from_bool(b);
                status_markdown(self, path);
                EnvAction::Nothing
            },
            EnvMessage::SetupDone(b) => {
                if b {
                    self.loading_state = LoadingState::Done;
                } else {
                    self.loading_state = LoadingState::Error;
                }
                status_markdown(self, path);
                EnvAction::Nothing
            },
            EnvMessage::PickPath => EnvAction::PickFolder,
            EnvMessage::PathPicked(p) => match p {
                Some(p) => {
                    let target = p.clone();
                    self.file_path = p;
                    status_markdown(self, path);
                    EnvAction::CheckPath(target)
                },
                None => EnvAction::Nothing,
            },
            EnvMessage::LinkClicked(_) => EnvAction::Nothing,
        }
    }
}

/// What pressing a button of the dialog sends.
#[derive(Debug)]
pub enum EnvPress {
    Local(EnvMessage),
    HideModal,
}

/// A button of the dialog: its label, whether it is drawn as the main
/// button, and what pressing it sends (`None` when it cannot be pressed).
#[derive(Debug)]
pub struct EnvButton {
    pub label: String,
    pub primary: bool,
    pub on_press: Option<EnvPress>,
}

/// The buttons of the dialog: the one that picks a folder, the cancel
/// button (absent while or after creating), and the confirm button.
#[derive(Debug)]
pub struct EnvButtons {
    pub select: EnvButton,
    pub cancel: Option<EnvButton>,
    pub confirm: EnvButton,
}

/// Whether `b` is a button with this label, look and action.
pub open spec fn is_env_button(b: EnvButton, label: Seq<char>, primary: bool, press: Option<EnvPress>) -> bool {
    b.label@ == label && b.primary == primary && b.on_press == press
}

fn env_button(label: &str, primary: bool, on_press: Option<EnvPress>) -> (b: EnvButton)
    ensures
        is_env_button(b, label@, primary, on_press),
{
    EnvButton { label: String::from_str(label), primary, on_press }
}

impl EnvModal {
    /// The dialog's buttons: confirming is possible only before creating,
    /// with Python present and the entries ready; once created (or failed)
    /// the confirm button closes the dialog.
    pub fn buttons(&self) -> (r: EnvButtons)
        ensures
            is_env_button(r.select, "Select"@, true, Some(EnvPress::Local(EnvMessage::PickPath))),
            self.loading_state is NotLoading ==> (r.cancel matches Some(c) && is_env_button(
                c,
                "Cancel"@,
                false,
                Some(EnvPress::HideModal),
            )),
            !(self.loading_state is NotLoading) ==> r.cancel is None,
            match self.loading_state {
                LoadingState::NotLoading => is_env_button(
                    r.confirm,
                    "Confirm"@,
                    true,
                    if self.continue_ready && self.has_python {
                        Some(EnvPress::Local(EnvMessage::Confirm))
                    } else {
                        None
                    },
                ),
                LoadingState::Loading => is_env_button(r.confirm, "Loading..."@, true, None),
                _ => is_env_button(r.confirm, "Close"@, true, Some(EnvPress::HideModal)),
            },
    {
        let select = env_button("Select", true, Some(EnvPress::Local(EnvMessage::PickPath)));
        let cancel = match self.loading_state {
            LoadingState::NotLoading => Some(env_button("Cancel", false, Some(EnvPress::HideModal))),
            _ => None,
        };
        let confirm = match self.loading_state {
            LoadingState::NotLoading => {
                if self.continue_ready && self.has_python {
                    env_button("Confirm", true, Some(EnvPress::Local(EnvMessage::Confirm)))
                } else {
                    env_button("Confirm", true, None)
                }
            },
            LoadingState::Loading => env_button("Loading...", true, None),
            _ => env_button("Close", true, Some(EnvPress::HideModal)),
        };
        EnvButtons { select, cancel, confirm }
    }
}

}

verus! {

/// Once the status is current, the dialog offers to create the project only
/// when Python is on the search path, nothing is being created, both
/// entries hold more than white space, the folder exists, and the project
/// folder does not.
pub proof fn lemma_ready_means_checked(m: EnvModal, path: PathPythonState)
    requires
        status_current(m, path),
        m.continue_ready,
    ensures
        m.has_python,
        path is Version,
        m.loading_state is NotLoading,
        trim(m.file_path@).len() > 0,
        trim(m.name@).len() > 0,
        m.path_exist_state is Exists,
        m.name_exist_state is Invalid,
{
}

/// Without Python on the search path, the dialog says so and offers
/// nothing, whatever else it holds.
pub proof fn lemma_no_python_blocks(m: EnvModal, path: PathPythonState)
    requires
        status_current(m, path),
        !(path is Version),
    ensures
        !m.has_python,
        !m.continue_ready,
        m.status_text is Some,
{
}

}
