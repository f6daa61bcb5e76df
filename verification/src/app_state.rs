use vstd::prelude::*;

use crate::env_modal::{env_step, EnvAction, EnvMessage, EnvModal};
use crate::guide::{matching_ids, search_guides, Guide};
use crate::gui::{GuideMessage, InstallMessage, LearnData, LearnMessage, Page, PathPythonState, PMIModal};
use crate::install_modal::{install_step, InstallAction, InstallModal, InstallModalMsg};

verus! {

/// The dialog the main window shows over its page.
#[derive(Debug)]
pub enum Modal {
    Install(InstallModal),
    Environment(EnvModal),
    PMI(PMIModal),
}

/// A message for the open dialog.
#[derive(Debug)]
pub enum ModalMessage {
    Install(InstallModalMsg),
    Environment(EnvMessage),
}

/// What the interface is to do after a dialog took a message.
#[derive(Debug)]
pub enum ModalAction {
    Install(InstallAction),
    Environment(EnvAction),
    Nothing,
}

/// The main window's state: the open dialog, the guide search, the page,
/// whether a restart is needed, and what is known of Python on the search
/// path.
#[derive(Debug)]
pub struct GuiData {
    pub modal: Option<Modal>,
    pub learn_data: LearnData,
    pub page: Page,
    pub restart_needed: bool,
    pub path_python_version: PathPythonState,
}

/// What the interface is to do after the install area took a message.
#[derive(Debug, Clone, Copy, PartialEq, Eq, Structural)]
pub enum HomeInstallAction {
    /// Check whether uv is installed; answer the install dialog with `UVStatusReceived`.
    VerifyUV,
    Nothing,
}

/// What the interface is to do after the guide list took a message.
#[derive(Debug, Clone, Copy, PartialEq, Eq, Structural)]
pub enum GuideAction {
    Nothing,
    /// Open a window that shows the guide with this id.
    OpenGuide(u32),
}

/// What a message of the install area does to the state `old`, giving
/// `new` and the action `r`: it opens a fresh install dialog (asking for
/// uv to be checked) or a fresh environment dialog.
pub open spec fn install_area_step(old: GuiData, msg: InstallMessage, new: GuiData, r: HomeInstallAction) -> bool {
    &&& new.learn_data == old.learn_data
    &&& new.page == old.page
    &&& new.restart_needed == old.restart_needed
    &&& new.path_python_version == old.path_python_version
    &&& msg is InstallPython ==> (r == HomeInstallAction::VerifyUV && (new.modal matches Some(Modal::Install(m))
        && m.is_fresh()))
    &&& msg is Environment ==> (r == HomeInstallAction::Nothing && (new.modal matches Some(
        Modal::Environment(m),
    ) && m.is_fresh()))
}

/// What a message of the guide list does: a search text is recorded with
/// the guides it matches; opening a guide is passed on.
pub open spec fn guide_list_step(
    old: GuiData,
    guides: Seq<(u32, Guide)>,
    msg: GuideMessage,
    new: GuiData,
    r: GuideAction,
) -> bool {
    &&& new.modal == old.modal
    &&& new.page == old.page
    &&& new.restart_needed == old.restart_needed
    &&& new.path_python_version == old.path_python_version
    &&& match msg {
        GuideMessage::SearchText(t) => {
            &&& new.learn_data.home_search == t
            &&& new.learn_data.search_match_guide_ids@ == matching_ids(guides, t@)
            &&& r == GuideAction::Nothing
        },
        GuideMessage::OpenGuide(g) => {
            &&& new.learn_data == old.learn_data
            &&& r == GuideAction::OpenGuide(g)
        },
    }
}

/// What a dialog message does: the open dialog takes it if it is of its
/// kind; otherwise nothing changes.
pub open spec fn dialog_step(old: GuiData, msg: ModalMessage, windows: bool, new: GuiData, r: ModalAction) -> bool {
    &&& new.learn_data == old.learn_data
    &&& new.page == old.page
    &&& new.restart_needed == old.restart_needed
    &&& new.path_python_version == old.path_python_version
    &&& match (old.modal, msg) {
        (Some(Modal::Install(m)), ModalMessage::Install(im)) => r matches ModalAction::Install(a) && (
        new.modal matches Some(Modal::Install(m2)) && install_step(m, old.path_python_version, im, m2, a)),
        (Some(Modal::Environment(m)), ModalMessage::Environment(em)) => r matches ModalAction::Environment(a)
            && (new.modal matches Some(Modal::Environment(m2)) && env_step(
            m,
            old.path_python_version,
            em,
            windows,
            m2,
            a,
        )),
        _ => r is Nothing && new.modal == old.modal,
    }
}

impl GuiData {
    /// The state the main window starts in: no dialog, the home page, every
    /// guide matching the empty search, no restart needed, and nothing known
    /// yet of the Python on the search path.
    pub fn new(all_ids: Vec<u32>) -> (r: GuiData)
        ensures
            r.modal is None,
            r.learn_data.home_search@ == Seq::<char>::empty(),
            r.learn_data.search_match_guide_ids == all_ids,
            r.page == Page::Home,
            !r.restart_needed,
            r.path_python_version is Unknown,
    {
        GuiData {
            modal: None,
            learn_data: LearnData::new(all_ids),
            page: Page::Home,
            restart_needed: false,
            path_python_version: PathPythonState::Unknown,
        }
    }

    /// Takes a message of the install area: opens the Python install dialog
    /// (and asks for uv to be checked), or the virtual environment dialog.
    pub fn install_update(&mut self, msg: InstallMessage) -> (r: HomeInstallAction)
        ensures
            install_area_step(*old(self), msg, *final(self), r),
    {
        match msg {
            InstallMessage::InstallPython => {
                self.modal = Some(Modal::Install(InstallModal::new()));
                HomeInstallAction::VerifyUV
            },
            InstallMessage::Environment => {
                self.modal = Some(Modal::Environment(EnvModal::new()));
                HomeInstallAction::Nothing
            },
        }
    }
}

}

verus! {

impl LearnData {
    /// Search data before anything was typed: every guide matches.
    pub fn new(all_ids: Vec<u32>) -> (r: LearnData)
        ensures
            r.home_search@ == Seq::<char>::empty(),
            r.search_match_guide_ids == all_ids,
    {
        LearnData { home_search: String::new(), search_match_guide_ids: all_ids }
    }

    /// Takes a message of the learning area: records the search text.
    pub fn update(&mut self, msg: LearnMessage)
        ensures
            match msg {
                LearnMessage::SearchText(t) => final(self).home_search == t,
            },
            final(self).search_match_guide_ids == old(self).search_match_guide_ids,
    {
        match msg {
            LearnMessage::SearchText(t) => {
                self.home_search = t;
            },
        }
    }
}

impl GuiData {
    /// Takes a message of the guide list: a new search text is recorded and
    /// the matching guides of `guides` (the guides with their ids, in listing
    /// order) become the ones shown; opening a guide is passed on.
    pub fn guide_update(&mut self, guides: &Vec<(u32, Guide)>, msg: GuideMessage) -> (r: GuideAction)
        ensures
            guide_list_step(*old(self), guides@, msg, *final(self), r),
    {
        match msg {
            GuideMessage::SearchText(t) => {
                let ids = search_guides(guides, t.as_str());
                self.learn_data.home_search = t;
                self.learn_data.search_match_guide_ids = ids;
                GuideAction::Nothing
            },
            GuideMessage::OpenGuide(g) => GuideAction::OpenGuide(g),
        }
    }

    /// Passes a message to the open dialog, if it is of that dialog's kind;
    /// otherwise nothing happens. `windows` selects Windows path rules.
    pub fn modal_update(&mut self, msg: ModalMessage, windows: bool) -> (r: ModalAction)
        requires
            match (old(self).modal, msg) {
                (Some(Modal::Install(m)), ModalMessage::Install(InstallModalMsg::InstallPython)) => m.release_data matches Some(d)
                    && d.latest_release is Some,
                _ => true,
            },
        ensures
            dialog_step(*old(self), msg, windows, *final(self), r),
    {
        let current = self.modal.take();
        match (current, msg) {
            (Some(Modal::Install(mut m)), ModalMessage::Install(im)) => {
                let a = m.update(&self.path_python_version, im);
                self.modal = Some(Modal::Install(m));
                ModalAction::Install(a)
            },
            (Some(Modal::Environment(mut m)), ModalMessage::Environment(em)) => {
                let a = m.update(&self.path_python_version, em, windows);
                self.modal = Some(Modal::Environment(m));
                ModalAction::Environment(a)
            },
            (other, _) => {
                self.modal = other;
                ModalAction::Nothing
            },
        }
    }
}

}

verus! {

/// The messages of the main window that change its state.
#[derive(Debug)]
pub enum Message {
    HideModal,
    ModalMessage(ModalMessage),
    HomeInstallMessage(InstallMessage),
    GuideMessage(GuideMessage),
    PathPythonVersion(PathPythonState),
    RestartNeeded,
    Home,
    Dev,
}

/// What the interface is to do after the main window took a message.
#[derive(Debug)]
pub enum UpdateAction {
    Nothing,
    Modal(ModalAction),
    HomeInstall(HomeInstallAction),
    Guide(GuideAction),
}

impl GuiData {
    /// Whether the open dialog can take `msg` (starting a Python install
    /// needs the version to install).
    pub open spec fn can_take(self, msg: Message) -> bool {
        match (self.modal, msg) {
            (Some(Modal::Install(m)), Message::ModalMessage(ModalMessage::Install(InstallModalMsg::InstallPython))) => {
                m.release_data matches Some(d) && d.latest_release is Some
            },
            _ => true,
        }
    }

    /// Takes a message of the main window: closes the dialog, passes a
    /// message on to the dialog, the install area or the guide list, records
    /// the Python on the search path or that a restart is needed, or changes
    /// the page. `guides` are the guides with their ids in listing order and
    /// `windows` selects Windows path rules.
    pub fn update(&mut self, guides: &Vec<(u32, Guide)>, msg: Message, windows: bool) -> (r: UpdateAction)
        requires
            old(self).can_take(msg),
        ensures
            match msg {
                Message::HideModal => {
                    &&& final(self).modal is None
                    &&& final(self).learn_data == old(self).learn_data
                    &&& final(self).page == old(self).page
                    &&& final(self).restart_needed == old(self).restart_needed
                    &&& final(self).path_python_version == old(self).path_python_version
                    &&& r is Nothing
                },
                Message::PathPythonVersion(v) => {
                    &&& final(self).path_python_version == v
                    &&& final(self).modal == old(self).modal
                    &&& final(self).learn_data == old(self).learn_data
                    &&& final(self).page == old(self).page
                    &&& final(self).restart_needed == old(self).restart_needed
                    &&& r is Nothing
                },
                Message::RestartNeeded => {
                    &&& final(self).restart_needed
                    &&& final(self).modal == old(self).modal
                    &&& final(self).learn_data == old(self).learn_data
                    &&& final(self).page == old(self).page
                    &&& final(self).path_python_version == old(self).path_python_version
                    &&& r is Nothing
                },
                Message::Home | Message::Dev => {
                    &&& final(self).page == (if msg is Home { Page::Home } else { Page::Dev })
                    &&& final(self).modal == old(self).modal
                    &&& final(self).learn_data == old(self).learn_data
                    &&& final(self).restart_needed == old(self).restart_needed
                    &&& final(self).path_python_version == old(self).path_python_version
                    &&& r is Nothing
                },
                Message::ModalMessage(m) => r matches UpdateAction::Modal(a) && dialog_step(
                    *old(self),
                    m,
                    windows,
                    *final(self),
                    a,
                ),
                Message::HomeInstallMessage(m) => r matches UpdateAction::HomeInstall(a) && install_area_step(
                    *old(self),
                    m,
                    *final(self),
                    a,
                ),
                Message::GuideMessage(m) => r matches UpdateAction::Guide(a) && guide_list_step(
                    *old(self),
                    guides@,
                    m,
                    *final(self),
                    a,
                ),
            },
    {
        match msg {
            Message::HideModal => {
                self.modal = None;
                UpdateAction::Nothing
            },
            Message::ModalMessage(m) => UpdateAction::Modal(self.modal_update(m, windows)),
            Message::HomeInstallMessage(m) => UpdateAction::HomeInstall(self.install_update(m)),
            Message::GuideMessage(m) => UpdateAction::Guide(self.guide_update(guides, m)),
            Message::PathPythonVersion(v) => {
                self.path_python_version = v;
                UpdateAction::Nothing
            },
            Message::RestartNeeded => {
                self.restart_needed = true;
                UpdateAction::Nothing
            },
            Message::Home => {
                self.page = Page::Home;
                UpdateAction::Nothing
            },
            Message::Dev => {
                self.page = Page::Dev;
                UpdateAction::Nothing
            },
        }
    }
}

}
