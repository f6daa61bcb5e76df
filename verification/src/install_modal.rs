use vstd::prelude::*;
use vstd::string::*;

use crate::gui::{path_python_label, path_python_text, PathPythonState};
use crate::process::UVVerifyResult;
use crate::version::{pep440_equal, CurrentReleaseData, PyVersion};

verus! {

/// The steps of the Python install dialog.
#[derive(Debug, Clone, Copy, PartialEq, Eq, Structural)]
pub enum Page {
    UVVerify,
    Versions,
    Confirm,
}

/// How far the Python install has got.
#[derive(Debug, Clone, Copy, PartialEq, Eq, Structural)]
pub enum InstallState {
    NotStarted,
    Working,
    Completed,
    Error,
}

/// How far the install of uv has got.
#[derive(Debug, Clone, Copy, PartialEq, Eq, Structural)]
pub enum UVInstallState {
    Idle,
    Loading,
    Complete,
}

/// What is known of uv.
#[derive(Debug, Clone, Copy, PartialEq, Eq, Structural)]
pub enum UVStatus {
    NotChecked,
    Loading,
    Result(UVVerifyResult),
}

impl UVStatus {
    /// The status that a check of uv gives.
    pub fn from(value: UVVerifyResult) -> (r: UVStatus)
        ensures
            r == UVStatus::Result(value),
    {
        UVStatus::Result(value)
    }
}

/// The messages of the Python install dialog.
#[derive(Debug)]
pub enum InstallModalMsg {
    ToVersionsPage,
    ToConfirmPage,
    UVStatusReceived(UVStatus),
    ReleaseDataReceived(CurrentReleaseData),
    InstallPython,
    InstallUV,
    /// Whether the install succeeded.
    PythonInstalled(bool),
    UVInstalled,
}

/// The Python install dialog: which step it shows, what it knows of uv
/// and of the versions, how far the installs have got, and the markdown
/// text it shows on the current step.
#[derive(Debug)]
pub struct InstallModal {
    pub page: Page,
    pub uv_status: UVStatus,
    pub release_data: Option<CurrentReleaseData>,
    pub install_state: InstallState,
    pub uv_install_state: UVInstallState,
    pub content_text: String,
}

/// What the interface is to do after the dialog took a message.
#[derive(Debug)]
pub enum InstallAction {
    /// Nothing.
    Nothing,
    /// Ask uv for the versions it offers, and answer with `ReleaseDataReceived`.
    FetchReleaseData,
    /// Install this version of Python, and answer with `PythonInstalled`.
    InstallPython(PyVersion),
    /// Install uv, answer with `UVStatusReceived`, then send `UVInstalled`.
    InstallUV,
    /// Tell the interface that a restart is needed.
    RestartNeeded,
}

/// The spelling of the version the dialog would install.
pub open spec fn installing_text(d: CurrentReleaseData) -> Seq<char> {
    match d.latest_release {
        Some(v) => v.text@,
        None => "none..? (This is a bug, please report it)"@,
    }
}

/// Whether the version on the search path is the one the dialog would
/// install.
pub open spec fn same_version(path: PathPythonState, d: CurrentReleaseData) -> bool {
    path matches PathPythonState::Version(c) && d.latest_release matches Some(v) && pep440_equal(
        c.text@,
        v.text@,
    )
}

/// The markdown text of the versions step.
pub open spec fn versions_text(m: InstallModal, path: PathPythonState) -> Seq<char> {
    match m.release_data {
        None => "Loading current Python versions.."@,
        Some(d) => "Current Python version: `"@ + path_python_text(path) + "`\n\nInstalling version: `"@
            + installing_text(d) + "`"@ + if same_version(path, d) {
            "\n\nNote: the installing version is the same \
                            as the current version. You can still continue just fine, but \
                            it is likely nothing will change."@
        } else {
            Seq::<char>::empty()
        },
    }
}

/// The markdown text of the confirm step.
pub open spec fn confirm_text(m: InstallModal) -> Seq<char> {
    match m.release_data {
        None => "Somehow, there is no version data avaliable. This is a bug, please report this!"@,
        Some(d) => match m.install_state {
            InstallState::NotStarted => {
                let (shown, cmd) = match d.latest_release {
                    Some(v) => (v.text@, v.text@),
                    None => ("none..? (This is a bug, please report it)"@, "<version>"@),
                };
                "Installing: `Python "@ + shown
                    + "`:\n\nTo do this, the following command will be done:\n\n`uv python install "@ + cmd
                    + " -r --default --preview-features python-install-default`"@
            },
            InstallState::Working => "Downloading python.."@,
            InstallState::Completed => "Downloading complete! \
            Please keep in mind the following:\n \
            1. Due to system limitations, *every* program (such as pancakes, VS Code, or terminal windows) \
            needs to be restarted to see newly installed Python versions.\n\
            2. When installing Python, pancakes does not add pip to the system PATH. This means you will \
            need to run `python -m pip` instead of `pip` anytime you want to use the command. \
            However, for many reasons, it is recommended to never use this command by itself, rather using \
            uv and virtual environments. For more information, please read the guides below."@,
            InstallState::Error => "An error occured while downloading. \
        It's very possible your internet is not working right now. Otherwise, this is likely \
        a problem with pancakes itself. Please check the logs for more information!"@,
        },
    }
}

/// The markdown text that the dialog shows on its current step.
pub open spec fn content_for(m: InstallModal, path: PathPythonState) -> Seq<char> {
    match m.page {
        Page::UVVerify => Seq::<char>::empty(),
        Page::Versions => versions_text(m, path),
        Page::Confirm => confirm_text(m),
    }
}

/// The markdown text of the versions step.
pub fn calculate_versions_text(modal: &InstallModal, path: &PathPythonState) -> (r: String)
    ensures
        r@ == versions_text(*modal, *path),
{
    match &modal.release_data {
        None => String::from_str("Loading current Python versions.."),
        Some(d) => {
            let same = match (path, &d.latest_release) {
                (PathPythonState::Version(c), Some(v)) => c.same_as(v),
                _ => false,
            };
            let mut s = String::from_str("Current Python version: `");
            s.append(path_python_label(path).as_str());
            s.append("`\n\nInstalling version: `");
            match &d.latest_release {
                Some(v) => s.append(v.text.as_str()),
                None => s.append("none..? (This is a bug, please report it)"),
            }
            s.append("`");
            if same {
                s.append(
                    "\n\nNote: the installing version is the same \
                            as the current version. You can still continue just fine, but \
                            it is likely nothing will change.",
                );
            }
            s
        },
    }
}

/// The markdown text of the confirm step.
pub fn calculate_confirm_text(modal: &InstallModal) -> (r: String)
    ensures
        r@ == confirm_text(*modal),
{
    match &modal.release_data {
        None => String::from_str(
            "Somehow, there is no version data avaliable. This is a bug, please report this!",
        ),
        Some(d) => match modal.install_state {
            InstallState::NotStarted => {
                let mut s = String::from_str("Installing: `Python ");
                match &d.latest_release {
                    Some(v) => s.append(v.text.as_str()),
                    None => s.append("none..? (This is a bug, please report it)"),
                }
                s.append("`:\n\nTo do this, the following command will be done:\n\n`uv python install ");
                match &d.latest_release {
                    Some(v) => s.append(v.text.as_str()),
                    None => s.append("<version>"),
                }
                s.append(" -r --default --preview-features python-install-default`");
                s
            },
            InstallState::Working => String::from_str("Downloading python.."),
            InstallState::Completed => String::from_str(
                "Downloading complete! \
            Please keep in mind the following:\n \
            1. Due to system limitations, *every* program (such as pancakes, VS Code, or terminal windows) \
            needs to be restarted to see newly installed Python versions.\n\
            2. When installing Python, pancakes does not add pip to the system PATH. This means you will \
            need to run `python -m pip` instead of `pip` anytime you want to use the command. \
            However, for many reasons, it is recommended to never use this command by itself, rather using \
            uv and virtual environments. For more information, please read the guides below.",
            ),
            InstallState::Error => String::from_str(
                "An error occured while downloading. \
        It's very possible your internet is not working right now. Otherwise, this is likely \
        a problem with pancakes itself. Please check the logs for more information!",
            ),
        },
    }
}

}

verus! {

/// What taking `msg` does to the dialog `old`, giving `new` and the action
/// `r`; `path` is what is known of the Python on the search path.
pub open spec fn install_step(
    old: InstallModal,
    path: PathPythonState,
    msg: InstallModalMsg,
    new: InstallModal,
    r: InstallAction,
) -> bool {
    &&& new.page == (match msg {
        InstallModalMsg::ToVersionsPage => Page::Versions,
        InstallModalMsg::ToConfirmPage => Page::Confirm,
        _ => old.page,
    })
    &&& new.uv_status == (match msg {
        InstallModalMsg::UVStatusReceived(s) => s,
        _ => old.uv_status,
    })
    &&& new.release_data == (match msg {
        InstallModalMsg::ReleaseDataReceived(d) => Some(d),
        _ => old.release_data,
    })
    &&& new.install_state == (match msg {
        InstallModalMsg::InstallPython => InstallState::Working,
        InstallModalMsg::PythonInstalled(ok) => if ok {
            InstallState::Completed
        } else {
            InstallState::Error
        },
        _ => old.install_state,
    })
    &&& new.uv_install_state == (match msg {
        InstallModalMsg::InstallUV => UVInstallState::Loading,
        InstallModalMsg::UVInstalled => UVInstallState::Complete,
        _ => old.uv_install_state,
    })
    &&& new.content_text@ == content_for(new, path)
    &&& match msg {
        InstallModalMsg::ToVersionsPage => r is FetchReleaseData,
        InstallModalMsg::InstallPython => r matches InstallAction::InstallPython(v)
            && v == old.release_data->0.latest_release->0,
        InstallModalMsg::PythonInstalled(_) => r is RestartNeeded,
        InstallModalMsg::InstallUV => r is InstallUV,
        _ => r is Nothing,
    }
}

impl InstallModal {
    /// Whether the dialog is on its first step with nothing known yet.
    pub open spec fn is_fresh(self) -> bool {
        &&& self.page == Page::UVVerify
        &&& self.uv_status == UVStatus::NotChecked
        &&& self.release_data is None
        &&& self.install_state == InstallState::NotStarted
        &&& self.uv_install_state == UVInstallState::Idle
        &&& self.content_text@ == Seq::<char>::empty()
    }

    /// A dialog on its first step, with nothing known yet.
    pub fn new() -> (r: InstallModal)
        ensures
            r.is_fresh(),
    {
        InstallModal {
            page: Page::UVVerify,
            uv_status: UVStatus::NotChecked,
            release_data: None,
            install_state: InstallState::NotStarted,
            uv_install_state: UVInstallState::Idle,
            content_text: String::new(),
        }
    }

    /// Takes a message: moves between steps, records what was learned or
    /// how far an install got, says what the interface is to do, and then
    /// renews the text of the current step (which names `path`, the Python
    /// on the search path).
    pub fn update(&mut self, path: &PathPythonState, message: InstallModalMsg) -> (r: InstallAction)
        requires
            message is InstallPython ==> (old(self).release_data matches Some(d)
                && d.latest_release is Some),
        ensures
            install_step(*old(self), *path, message, *final(self), r),
    {
        let action = match message {
            InstallModalMsg::ToConfirmPage => {
                self.page = Page::Confirm;
                InstallAction::Nothing
            },
            InstallModalMsg::ToVersionsPage => {
                self.page = Page::Versions;
                InstallAction::FetchReleaseData
            },
            InstallModalMsg::ReleaseDataReceived(d) => {
                self.release_data = Some(d);
                InstallAction::Nothing
            },
            InstallModalMsg::UVStatusReceived(s) => {
                self.uv_status = s;
                InstallAction::Nothing
            },
            InstallModalMsg::InstallPython => {
                self.install_state = InstallState::Working;
                let v = match &self.release_data {
                    Some(d) => match &d.latest_release {
                        Some(v) => v.duplicate(),
                        None => {
                            assert(false);
                            PyVersion { text: String::new(), stable: false }
                        },
                    },
                    None => {
                        assert(false);
                        PyVersion { text: String::new(), stable: false }
                    },
                };
                InstallAction::InstallPython(v)
            },
            InstallModalMsg::PythonInstalled(ok) => {
                if ok {
                    self.install_state = InstallState::Completed;
                } else {
                    self.install_state = InstallState::Error;
                }
                InstallAction::RestartNeeded
            },
            InstallModalMsg::InstallUV => {
                self.uv_install_state = UVInstallState::Loading;
                InstallAction::InstallUV
            },
            InstallModalMsg::UVInstalled => {
                self.uv_install_state = UVInstallState::Complete;
                InstallAction::Nothing
            },
        };
        let text = match self.page {
            Page::UVVerify => String::new(),
            Page::Versions => calculate_versions_text(self, path),
            Page::Confirm => calculate_confirm_text(self),
        };
        self.content_text = text;
        action
    }
}

}

verus! {

/// What pressing a button of the dialog sends: a message to the dialog
/// itself, or the request to close it.
#[derive(Debug)]
pub enum InstallPress {
    Local(InstallModalMsg),
    HideModal,
}

/// A button: its label, whether it is drawn as the main button, and what
/// pressing it sends (`None` when it cannot be pressed).
#[derive(Debug)]
pub struct ButtonModel {
    pub label: String,
    pub primary: bool,
    pub on_press: Option<InstallPress>,
}

/// What the dialog shows: a title, its body (plain text, or the markdown
/// text of the step when `text` is `None`), the cancel button and, if there
/// is one, the button that moves on.
#[derive(Debug)]
pub struct InstallView {
    pub title: String,
    pub text: Option<String>,
    pub cancel: ButtonModel,
    pub next: Option<ButtonModel>,
}

/// Whether `b` is a button with this label, look and action.
pub open spec fn is_button(b: ButtonModel, label: Seq<char>, primary: bool, press: Option<InstallPress>) -> bool {
    b.label@ == label && b.primary == primary && b.on_press == press
}

/// The text of the first step, which is about uv.
pub open spec fn uv_step_text(m: InstallModal) -> Seq<char> {
    match m.uv_status {
        UVStatus::NotChecked | UVStatus::Loading => "Checking to see if uv is installed.."@,
        UVStatus::Result(r) => if (r is Error || r is NotFound) && m.uv_install_state is Complete {
            "Installation failed. This is most likely due to not having an internet connection. \
                                To try again, press the Install button below."@
        } else if m.uv_install_state is Complete {
            "Installation complete! Press Next to continue."@
        } else if r is Ready {
            "uv is installed! Press Next to continue."@
        } else if m.uv_install_state is Loading {
            "Installing uv... (this should not take more than a minute)"@
        } else {
            "uv was not found. uv is a custom Python installation \
                                manager and is the core depdendency that pancakes uses. To continue installing Python, \
                                please select Next below to automatically install uv to your system. \
                                Note: uv is quite small, battle tested, and ~10-100x faster than standard Python tools \
                                like pip, but pancakes will install the standard pip too if you prefer. \
                                If you do not wish to install uv to your system, pancakes will be unable to install \
                                Python, but can still provide all the guides listed below."@
        },
    }
}

/// The label and action of the button that moves on from the first step.
pub open spec fn uv_step_next(m: InstallModal) -> (Seq<char>, Option<InstallPress>) {
    match m.uv_status {
        UVStatus::NotChecked | UVStatus::Loading => ("Next"@, None),
        UVStatus::Result(r) => if (r is Error || r is NotFound) && m.uv_install_state is Complete {
            ("Install"@, Some(InstallPress::Local(InstallModalMsg::InstallUV)))
        } else if m.uv_install_state is Complete || r is Ready {
            ("Next"@, Some(InstallPress::Local(InstallModalMsg::ToVersionsPage)))
        } else if m.uv_install_state is Loading {
            ("Next"@, None)
        } else {
            ("Install"@, Some(InstallPress::Local(InstallModalMsg::InstallUV)))
        },
    }
}

fn button(label: &str, primary: bool, on_press: Option<InstallPress>) -> (b: ButtonModel)
    ensures
        is_button(b, label@, primary, on_press),
{
    ButtonModel { label: String::from_str(label), primary, on_press }
}

impl InstallModal {
    /// What the dialog shows on its current step.
    pub fn view(&self) -> (v: InstallView)
        ensures
            self.page is UVVerify ==> {
                &&& v.title@ == "Step 1: External Dependencies"@
                &&& v.text matches Some(t) && t@ == uv_step_text(*self)
                &&& v.next matches Some(b) && is_button(b, uv_step_next(*self).0, true, uv_step_next(*self).1)
                &&& is_button(v.cancel, "Cancel"@, false, Some(InstallPress::HideModal))
            },
            self.page is Versions ==> {
                &&& v.title@ == "Step 2: Versioning"@
                &&& v.text is None
                &&& v.next matches Some(b) && is_button(
                    b,
                    "Next"@,
                    true,
                    if self.release_data is Some {
                        Some(InstallPress::Local(InstallModalMsg::ToConfirmPage))
                    } else {
                        None
                    },
                )
                &&& is_button(v.cancel, "Cancel"@, false, Some(InstallPress::HideModal))
            },
            self.page is Confirm ==> {
                &&& v.title@ == "Step 3: Confirm"@
                &&& v.text is None
                &&& if self.release_data is None {
                    &&& v.next is None
                    &&& is_button(v.cancel, "Cancel"@, false, None)
                } else {
                    &&& match self.install_state {
                        InstallState::NotStarted => v.next matches Some(b) && is_button(
                            b,
                            "Start"@,
                            true,
                            Some(InstallPress::Local(InstallModalMsg::InstallPython)),
                        ),
                        InstallState::Working => v.next matches Some(b) && is_button(b, "Start"@, true, None),
                        InstallState::Completed => v.next is None,
                        InstallState::Error => v.next matches Some(b) && is_button(
                            b,
                            "Retry"@,
                            true,
                            Some(InstallPress::Local(InstallModalMsg::InstallPython)),
                        ),
                    }
                    &&& if self.install_state is Completed {
                        is_button(v.cancel, "Close"@, true, Some(InstallPress::HideModal))
                    } else {
                        is_button(v.cancel, "Cancel"@, false, Some(InstallPress::HideModal))
                    }
                }
            },
    {
        match self.page {
            Page::UVVerify => {
                let (text, next) = match self.uv_status {
                    UVStatus::NotChecked | UVStatus::Loading => (
                        "Checking to see if uv is installed..",
                        button("Next", true, None),
                    ),
                    UVStatus::Result(r) => {
                        let failed = match r {
                            UVVerifyResult::Error | UVVerifyResult::NotFound => true,
                            UVVerifyResult::Ready => false,
                        };
                        let complete = match self.uv_install_state {
                            UVInstallState::Complete => true,
                            _ => false,
                        };
                        let loading = match self.uv_install_state {
                            UVInstallState::Loading => true,
                            _ => false,
                        };
                        if failed && complete {
                            (
                                "Installation failed. This is most likely due to not having an internet connection. \
                                To try again, press the Install button below.",
                                button("Install", true, Some(InstallPress::Local(InstallModalMsg::InstallUV))),
                            )
                        } else if complete {
                            (
                                "Installation complete! Press Next to continue.",
                                button("Next", true, Some(InstallPress::Local(InstallModalMsg::ToVersionsPage))),
                            )
                        } else if !failed {
                            (
                                "uv is installed! Press Next to continue.",
                                button("Next", true, Some(InstallPress::Local(InstallModalMsg::ToVersionsPage))),
                            )
                        } else if loading {
                            (
                                "Installing uv... (this should not take more than a minute)",
                                button("Next", true, None),
                            )
                        } else {
                            (
                                "uv was not found. uv is a custom Python installation \
                                manager and is the core depdendency that pancakes uses. To continue installing Python, \
                                please select Next below to automatically install uv to your system. \
                                Note: uv is quite small, battle tested, and ~10-100x faster than standard Python tools \
                                like pip, but pancakes will install the standard pip too if you prefer. \
                                If you do not wish to install uv to your system, pancakes will be unable to install \
                                Python, but can still provide all the guides listed below.",
                                button("Install", true, Some(InstallPress::Local(InstallModalMsg::InstallUV))),
                            )
                        }
                    },
                };
                InstallView {
                    title: String::from_str("Step 1: External Dependencies"),
                    text: Some(String::from_str(text)),
                    cancel: button("Cancel", false, Some(InstallPress::HideModal)),
                    next: Some(next),
                }
            },
            Page::Versions => {
                let press = match &self.release_data {
                    Some(_) => Some(InstallPress::Local(InstallModalMsg::ToConfirmPage)),
                    None => None,
                };
                InstallView {
                    title: String::from_str("Step 2: Versioning"),
                    text: None,
                    cancel: button("Cancel", false, Some(InstallPress::HideModal)),
                    next: Some(button("Next", true, press)),
                }
            },
            Page::Confirm => {
                let title = String::from_str("Step 3: Confirm");
                match &self.release_data {
                    None => InstallView {
                        title,
                        text: None,
                        cancel: button("Cancel", false, None),
                        next: None,
                    },
                    Some(_) => {
                        let next = match self.install_state {
                            InstallState::NotStarted => Some(
                                button("Start", true, Some(InstallPress::Local(InstallModalMsg::InstallPython))),
                            ),
                            InstallState::Working => Some(button("Start", true, None)),
                            InstallState::Completed => None,
                            InstallState::Error => Some(
                                button("Retry", true, Some(InstallPress::Local(InstallModalMsg::InstallPython))),
                            ),
                        };
                        let cancel = match self.install_state {
                            InstallState::Completed => button("Close", true, Some(InstallPress::HideModal)),
                            _ => button("Cancel", false, Some(InstallPress::HideModal)),
                        };
                        InstallView { title, text: None, cancel, next }
                    },
                }
            },
        }
    }
}

}

verus! {

/// What the confirm step announces is what gets installed: before the
/// install starts, its text names the latest release in the command, and
/// starting the install asks for that very version.
pub proof fn lemma_installs_announced_version(
    m: InstallModal,
    path: PathPythonState,
    m2: InstallModal,
    r: InstallAction,
    v: PyVersion,
)
    requires
        m.release_data matches Some(d) && d.latest_release == Some(v),
        m.install_state is NotStarted,
        install_step(m, path, InstallModalMsg::InstallPython, m2, r),
    ensures
        r matches InstallAction::InstallPython(w) && w == v,
        confirm_text(m) == "Installing: `Python "@ + v.text@
            + "`:\n\nTo do this, the following command will be done:\n\n`uv python install "@ + v.text@
            + " -r --default --preview-features python-install-default`"@,
        m2.install_state is Working,
{
}

/// When the uv check answered that uv is ready, the first step always moves
/// on: its button is "Next" and goes to the versions page, and it never
/// offers to install uv. Unless an install of uv has just completed, its
/// text says that uv is installed.
pub proof fn lemma_uv_ready_moves_on(m: InstallModal)
    requires
        m.uv_status == UVStatus::Result(UVVerifyResult::Ready),
    ensures
        uv_step_next(m).0 == "Next"@,
        uv_step_next(m).1 == Some(InstallPress::Local(InstallModalMsg::ToVersionsPage)),
        uv_step_next(m).1 != Some(InstallPress::Local(InstallModalMsg::InstallUV)),
        !(m.uv_install_state is Complete) ==> uv_step_text(m) == "uv is installed! Press Next to continue."@,
        m.uv_install_state is Complete ==> uv_step_text(m) == "Installation complete! Press Next to continue."@,
{
}

/// When the uv check found no working uv and no install of uv has been
/// started, the first step offers to install uv.
pub proof fn lemma_uv_missing_offers_install(m: InstallModal)
    requires
        m.uv_status matches UVStatus::Result(r) && !(r is Ready),
        m.uv_install_state is Idle,
    ensures
        uv_step_next(m) == ("Install"@, Some(InstallPress::Local(InstallModalMsg::InstallUV))),
{
}
}
