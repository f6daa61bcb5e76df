use pancakes::app_state::{GuideAction, GuiData, HomeInstallAction, Message, Modal, ModalAction, ModalMessage, UpdateAction};
use pancakes::env_modal::{EnvAction, EnvMessage, EnvModal, EnvPress, LoadingState, PathExistState};
use pancakes::guide::{home_entries, search_guides, visible_guides, Guide, IdCounter as GuideIds};
use pancakes::gui::{
    path_python_label, python_version_line, GuideMessage, InstallMessage, LearnData, LearnMessage, Page,
    PathPythonState,
};
use pancakes::install_modal::{
    InstallAction, InstallModal, InstallModalMsg, InstallPress, InstallState, Page as Step, UVInstallState,
    UVStatus,
};
use pancakes::process::UVVerifyResult;
use pancakes::registry::GuideRegistry;
use pancakes::structs::{Counter, IdCounter, TaskId};
use pancakes::version::{CurrentReleaseData, PyVersion};

fn guide(name: &str, pinned: bool, tags: &[&str]) -> Guide {
    Guide { pinned, name: name.to_string(), tags: tags.iter().map(|t| t.to_string()).collect() }
}

fn v(s: &str) -> PyVersion {
    PyVersion::parse(s).unwrap()
}

#[test]
fn counters_count_up() {
    let mut c = Counter::new();
    assert_eq!(c.next(), 1);
    assert_eq!(c.next(), 2);
    let mut ids = IdCounter::new();
    assert_eq!(ids.next(), TaskId(1));
    assert_eq!(ids.next(), TaskId(2));
    let mut g = GuideIds::new();
    assert_eq!(g.next(), 1);
    assert_eq!(g.next(), 2);
}

#[test]
fn listing_puts_pinned_first_sorted_by_name() {
    let guides = vec![
        guide("Packages", false, &[]),
        guide("banana", true, &[]),
        guide("apple", false, &[]),
        guide("Zebra", true, &[]),
        guide("Ant", true, &[]),
    ];
    let listed = GuideRegistry::new(guides).listing();
    let ids: Vec<u32> = listed.iter().map(|(id, _)| *id).collect();
    let names: Vec<&str> = listed.iter().map(|(_, g)| g.name.as_str()).collect();
    assert_eq!(ids, vec![5, 2, 4, 3, 1]);
    assert_eq!(names, vec!["Ant", "banana", "Zebra", "apple", "Packages"]);
    assert!(GuideRegistry::new(vec![]).listing().is_empty());
}

#[test]
fn search_matches_name_or_tag_ignoring_case() {
    let guides = vec![
        (1, guide("Installing Packages", false, &["pip", "uv"])),
        (2, guide("Jupyter Notebooks", true, &["ipynb"])),
        (3, guide("Pancakes", false, &["Sample"])),
    ];
    assert_eq!(search_guides(&guides, "PACK"), vec![1]);
    assert_eq!(search_guides(&guides, "samp"), vec![3]);
    assert_eq!(search_guides(&guides, "p"), vec![1, 2, 3]);
    assert_eq!(search_guides(&guides, ""), vec![1, 2, 3]);
    assert_eq!(search_guides(&guides, "zzz"), Vec::<u32>::new());
    assert_eq!(visible_guides(&guides, &vec![3, 1]), vec![0, 2]);
}

#[test]
fn path_python_texts() {
    assert_eq!(path_python_label(&PathPythonState::Error), "error (this is a bug)");
    assert_eq!(path_python_label(&PathPythonState::NotFound), "none found");
    assert_eq!(path_python_label(&PathPythonState::Unknown), "loading...");
    assert_eq!(path_python_label(&PathPythonState::Version(v("3.12.1"))), "3.12.1");
    assert_eq!(python_version_line(&PathPythonState::NotFound, true), "Python version: none found (Restart needed)");
    assert_eq!(python_version_line(&PathPythonState::Version(v("3.11")), false), "Python version: 3.11");
    assert!(matches!(PathPythonState::from_result::<()>(Ok(None)), PathPythonState::NotFound));
    assert!(matches!(PathPythonState::from_result(Err(())), PathPythonState::Error));
    assert!(matches!(PathPythonState::from_result::<()>(Ok(Some(v("3.1")))), PathPythonState::Version(x) if x.text == "3.1"));
}

fn data() -> GuiData {
    GuiData {
        modal: None,
        learn_data: LearnData::new(vec![1, 2]),
        page: Page::Home,
        restart_needed: false,
        path_python_version: PathPythonState::Version(v("3.12.0")),
    }
}

#[test]
fn guide_messages() {
    let guides = vec![(1, guide("Alpha", false, &[])), (2, guide("Beta", false, &["x"]))];
    let mut d = data();
    assert_eq!(d.guide_update(&guides, GuideMessage::SearchText(String::from("BET"))), GuideAction::Nothing);
    assert_eq!(d.learn_data.home_search, "BET");
    assert_eq!(d.learn_data.search_match_guide_ids, vec![2]);
    assert_eq!(d.guide_update(&guides, GuideMessage::OpenGuide(1)), GuideAction::OpenGuide(1));
    let mut l = LearnData::new(vec![]);
    l.update(LearnMessage::SearchText(String::from("q")));
    assert_eq!(l.home_search, "q");
}

#[test]
fn install_flow() {
    let mut d = data();
    assert_eq!(d.install_update(InstallMessage::InstallPython), HomeInstallAction::VerifyUV);
    assert!(matches!(d.modal, Some(Modal::Install(_))));
    let a = d.modal_update(ModalMessage::Install(InstallModalMsg::UVStatusReceived(UVStatus::from(UVVerifyResult::Ready))), false);
    assert!(matches!(a, ModalAction::Install(InstallAction::Nothing)));
    let a = d.modal_update(ModalMessage::Install(InstallModalMsg::ToVersionsPage), false);
    assert!(matches!(a, ModalAction::Install(InstallAction::FetchReleaseData)));
    let rd = CurrentReleaseData { latest_release: Some(v("3.12")), current_version: None };
    d.modal_update(ModalMessage::Install(InstallModalMsg::ReleaseDataReceived(rd)), false);
    match &d.modal {
        Some(Modal::Install(m)) => {
            assert_eq!(m.page, Step::Versions);
            assert_eq!(
                m.content_text,
                "Current Python version: `3.12.0`\n\nInstalling version: `3.12`\n\nNote: the installing version is the same as the current version. You can still continue just fine, but it is likely nothing will change."
            );
        }
        _ => panic!("no install dialog"),
    }
    d.modal_update(ModalMessage::Install(InstallModalMsg::ToConfirmPage), false);
    let a = d.modal_update(ModalMessage::Install(InstallModalMsg::InstallPython), false);
    assert!(matches!(a, ModalAction::Install(InstallAction::InstallPython(x)) if x.text == "3.12"));
    let a = d.modal_update(ModalMessage::Install(InstallModalMsg::PythonInstalled(true)), false);
    assert!(matches!(a, ModalAction::Install(InstallAction::RestartNeeded)));
    match &d.modal {
        Some(Modal::Install(m)) => {
            assert_eq!(m.install_state, InstallState::Completed);
            assert!(m.content_text.starts_with("Downloading complete! Please keep in mind the following:\n 1. Due to"));
            let view = m.view();
            assert_eq!(view.title, "Step 3: Confirm");
            assert!(view.next.is_none());
            assert_eq!(view.cancel.label, "Close");
            assert!(matches!(view.cancel.on_press, Some(InstallPress::HideModal)));
        }
        _ => panic!("no install dialog"),
    }
    let a = d.modal_update(ModalMessage::Environment(EnvMessage::PickPath), false);
    assert!(matches!(a, ModalAction::Nothing));
}

#[test]
fn install_dialog_first_step() {
    let mut m = InstallModal::new();
    assert_eq!(m.page, Step::UVVerify);
    let view = m.view();
    assert_eq!(view.title, "Step 1: External Dependencies");
    assert_eq!(view.text.as_deref(), Some("Checking to see if uv is installed.."));
    assert!(view.next.as_ref().unwrap().on_press.is_none());
    let path = PathPythonState::Unknown;
    m.update(&path, InstallModalMsg::UVStatusReceived(UVStatus::Result(UVVerifyResult::NotFound)));
    let view = m.view();
    assert!(view.text.as_deref().unwrap().starts_with("uv was not found."));
    assert_eq!(view.next.as_ref().unwrap().label, "Install");
    let a = m.update(&path, InstallModalMsg::InstallUV);
    assert!(matches!(a, InstallAction::InstallUV));
    assert_eq!(m.uv_install_state, UVInstallState::Loading);
    assert_eq!(m.view().text.as_deref(), Some("Installing uv... (this should not take more than a minute)"));
    m.update(&path, InstallModalMsg::UVStatusReceived(UVStatus::Result(UVVerifyResult::Error)));
    m.update(&path, InstallModalMsg::UVInstalled);
    let view = m.view();
    assert!(view.text.as_deref().unwrap().starts_with("Installation failed."));
    assert!(matches!(view.next.unwrap().on_press, Some(InstallPress::Local(InstallModalMsg::InstallUV))));
}

#[test]
fn install_dialog_texts_without_data() {
    let mut m = InstallModal::new();
    let path = PathPythonState::NotFound;
    m.update(&path, InstallModalMsg::ToVersionsPage);
    assert_eq!(m.content_text, "Loading current Python versions..");
    assert!(m.view().next.unwrap().on_press.is_none());
    m.update(&path, InstallModalMsg::ToConfirmPage);
    assert_eq!(m.content_text, "Somehow, there is no version data avaliable. This is a bug, please report this!");
    let view = m.view();
    assert!(view.next.is_none());
    assert!(view.cancel.on_press.is_none());
    m.update(&path, InstallModalMsg::ReleaseDataReceived(CurrentReleaseData { latest_release: None, current_version: None }));
    assert_eq!(
        m.content_text,
        "Installing: `Python none..? (This is a bug, please report it)`:\n\nTo do this, the following command will be done:\n\n`uv python install <version> -r --default --preview-features python-install-default`"
    );
    m.update(&path, InstallModalMsg::PythonInstalled(false));
    assert_eq!(m.install_state, InstallState::Error);
    assert!(m.content_text.starts_with("An error occured while downloading. It's very possible"));
    assert_eq!(m.view().next.unwrap().label, "Retry");
}

#[test]
fn environment_dialog() {
    let py = PathPythonState::Version(v("3.12.0"));
    let mut m = EnvModal::new();
    let a = m.update(&py, EnvMessage::PathTextEdit(String::from("/home/u")), false);
    assert!(matches!(a, EnvAction::CheckPath(p) if p == "/home/u"));
    assert_eq!(m.path_exist_state, PathExistState::Loading);
    assert!(m.status_text.is_none());
    let a = m.update(&py, EnvMessage::NameTextEdit(String::from("  proj ")), false);
    assert!(matches!(a, EnvAction::CheckName(p) if p == "/home/u/  proj "));
    m.update(&py, EnvMessage::PathValidated(true), false);
    m.update(&py, EnvMessage::NameValidated(false), false);
    assert!(m.continue_ready);
    assert_eq!(m.status_text.as_deref(), Some("Creating project `proj` within directory `/home/u`"));
    let b = m.buttons();
    assert!(matches!(b.confirm.on_press, Some(EnvPress::Local(EnvMessage::Confirm))));
    let a = m.update(&py, EnvMessage::Confirm, false);
    assert!(matches!(a, EnvAction::SetupProject { path, version } if path == "/home/u/  proj " && version.text == "3.12.0"));
    assert_eq!(m.loading_state, LoadingState::Loading);
    assert_eq!(m.buttons().confirm.label, "Loading...");
    assert!(m.buttons().cancel.is_none());
    m.update(&py, EnvMessage::SetupDone(true), false);
    assert_eq!(m.status_text.as_deref(), Some("Creation complete! Press Close to finish."));
    assert!(matches!(m.buttons().confirm.on_press, Some(EnvPress::HideModal)));
}

#[test]
fn environment_dialog_problems() {
    let py = PathPythonState::Version(v("3.12.0"));
    let mut m = EnvModal::new();
    m.update(&py, EnvMessage::PathTextEdit(String::from("/nope")), false);
    m.update(&py, EnvMessage::NameTextEdit(String::from("p")), false);
    m.update(&py, EnvMessage::PathValidated(false), false);
    assert_eq!(
        m.status_text.as_deref(),
        Some("The folder path entered does not exist. Please double check you have the correct path")
    );
    m.update(&py, EnvMessage::PathValidated(true), false);
    m.update(&py, EnvMessage::NameValidated(true), false);
    assert_eq!(
        m.status_text.as_deref(),
        Some("The project name provided already exists as a folder. Please provide a name that isn't taken yet!")
    );
    assert!(!m.continue_ready);
    assert!(m.buttons().confirm.on_press.is_none());
    let none = PathPythonState::NotFound;
    m.update(&none, EnvMessage::NameValidated(false), false);
    assert!(!m.has_python);
    assert!(m.status_text.as_deref().unwrap().starts_with("Error: Python must be installed"));
    let a = m.update(&none, EnvMessage::Confirm, false);
    assert!(matches!(a, EnvAction::Nothing));
    assert!(matches!(m.update(&none, EnvMessage::PickPath, false), EnvAction::PickFolder));
    assert!(matches!(m.update(&none, EnvMessage::PathPicked(None), false), EnvAction::Nothing));
    assert_eq!(PathExistState::from_bool(true), PathExistState::Exists);
    assert_eq!(PathExistState::from_bool(false), PathExistState::Invalid);
}

#[test]
fn opening_environment_dialog() {
    let mut d = data();
    assert_eq!(d.install_update(InstallMessage::Environment), HomeInstallAction::Nothing);
    assert!(matches!(&d.modal, Some(Modal::Environment(m)) if m.file_path.is_empty() && m.has_python));
    let a = d.modal_update(ModalMessage::Environment(EnvMessage::PathPicked(Some(String::from("/tmp")))), false);
    assert!(matches!(a, ModalAction::Environment(EnvAction::CheckPath(p)) if p == "/tmp"));
}

#[test]
fn main_window_messages() {
    let guides = vec![(1, guide("Alpha", false, &[]))];
    let mut d = data();
    assert!(matches!(d.update(&guides, Message::Dev, false), UpdateAction::Nothing));
    assert_eq!(d.page, Page::Dev);
    d.update(&guides, Message::Home, false);
    assert_eq!(d.page, Page::Home);
    d.update(&guides, Message::RestartNeeded, false);
    assert!(d.restart_needed);
    d.update(&guides, Message::PathPythonVersion(PathPythonState::NotFound), false);
    assert!(matches!(d.path_python_version, PathPythonState::NotFound));
    let r = d.update(&guides, Message::HomeInstallMessage(InstallMessage::InstallPython), false);
    assert!(matches!(r, UpdateAction::HomeInstall(HomeInstallAction::VerifyUV)));
    d.update(&guides, Message::HideModal, false);
    assert!(d.modal.is_none());
    let r = d.update(&guides, Message::GuideMessage(GuideMessage::SearchText(String::from("zz"))), false);
    assert!(matches!(r, UpdateAction::Guide(GuideAction::Nothing)));
    assert!(d.learn_data.search_match_guide_ids.is_empty());
}

#[test]
fn home_page_entries() {
    let guides = vec![
        (2, guide("Ant", true, &["a", "b"])),
        (1, guide("Bee", false, &[])),
        (3, guide("Cat", false, &["c"])),
    ];
    let entries = home_entries(&guides, &vec![3, 2]);
    assert_eq!(entries.len(), 2);
    assert_eq!(entries[0].id, 2);
    assert_eq!(entries[0].label, "Ant");
    assert_eq!(entries[0].tags, vec!["a", "b"]);
    assert!(entries[0].show_pin);
    assert!(matches!(entries[0].on_press, GuideMessage::OpenGuide(2)));
    assert!(!entries[0].rule_before);
    assert_eq!(entries[1].id, 3);
    assert!(!entries[1].show_pin);
    assert!(matches!(entries[1].on_press, GuideMessage::OpenGuide(3)));
    assert!(entries[1].rule_before);
    assert!(home_entries(&guides, &vec![]).is_empty());
}

#[test]
fn main_window_starts_at_home() {
    let d = GuiData::new(vec![4, 5]);
    assert!(d.modal.is_none());
    assert_eq!(d.page, Page::Home);
    assert!(!d.restart_needed);
    assert!(matches!(d.path_python_version, PathPythonState::Unknown));
    assert_eq!(d.learn_data.home_search, "");
    assert_eq!(d.learn_data.search_match_guide_ids, vec![4, 5]);
}

#[test]
fn task_ids_count_up_from_one() {
    let mut ids = IdCounter::new();
    for i in 1..=1000u64 {
        assert_eq!(ids.next(), TaskId(i));
    }
}
