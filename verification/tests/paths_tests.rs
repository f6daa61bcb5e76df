use pancakes::commands::zshrc_with_path_block;
use pancakes::file::{Directory, FileService};
use pancakes::paths::{path_join, uv_bin_dir, uv_exec_path, HomeError};

#[test]
fn joins_paths() {
    assert_eq!(path_join("/home/u", ".local", false), "/home/u/.local");
    assert_eq!(path_join("/home/u/", ".local", false), "/home/u/.local");
    assert_eq!(path_join("", "bin", false), "bin");
    assert_eq!(path_join("/home/u", "/etc", false), "/etc");
    assert_eq!(path_join(r"C:\Users\u", "bin", true), r"C:\Users\u\bin");
}

#[test]
fn joins_windows_paths() {
    assert_eq!(path_join(r"C:\Users\u", r"D:\x", true), r"D:\x");
    assert_eq!(path_join(r"C:\Users\u", "D:x", true), "D:x");
    assert_eq!(path_join(r"C:\Users\u", r"\x", true), r"C:\x");
    assert_eq!(path_join("C:/Users/u/", "bin", true), "C:/Users/u/bin");
    assert_eq!(path_join("C:", "bin", true), "C:bin");
    assert_eq!(path_join(r"C:\Users", "/x", true), "C:/x");
    assert_eq!(path_join("a", "", true), "a\\");
    assert_eq!(path_join("a", "", false), "a/");
    assert_eq!(path_join("/home/u", "D:x", false), "/home/u/D:x");
}

#[test]
fn uv_bin_dir_below_home() {
    assert_eq!(uv_bin_dir(Some("/home/u"), false), Ok(String::from("/home/u/.local/bin")));
    assert_eq!(uv_bin_dir(None, false), Err(HomeError::NoHomeDir));
    assert_eq!(HomeError::NoHomeDir.message(), "No home dir");
}

#[test]
fn uv_exec_path_choice() {
    assert_eq!(
        uv_exec_path(Some(String::from("/usr/bin/uv")), Some("/home/u"), false),
        Ok(String::from("/usr/bin/uv"))
    );
    assert_eq!(uv_exec_path(None, Some("/home/u"), false), Ok(String::from("/home/u/.local/bin/uv")));
    assert_eq!(
        uv_exec_path(None, Some(r"C:\Users\u"), true),
        Ok(String::from(r"C:\Users\u\.local\bin\uv.exe"))
    );
    assert_eq!(uv_exec_path(None, None, false), Err(HomeError::NoHomeDir));
}

#[test]
fn file_service_paths() {
    let f = FileService::new(String::from("/c"), String::from("/d/"));
    assert_eq!(f.cache_dir(), "/c");
    assert_eq!(f.data_dir(), "/d/");
    assert_eq!(f.path_of(&Directory::Cache(String::from("x.json")), false), "/c/x.json");
    assert_eq!(f.path_of(&Directory::Data(String::from("y")), false), "/d/y");
}

const BLOCK: &str = "# >>> pancakes-python-path >>>\nexport PATH=\"$HOME/.local/bin:$PATH\"\n# <<< pancakes-python-path <<<\n";

#[test]
fn zshrc_block_added_once() {
    let a = zshrc_with_path_block("").unwrap();
    assert_eq!(a, BLOCK);
    assert!(zshrc_with_path_block(&a).is_none());
    let b = zshrc_with_path_block("alias ll=ls").unwrap();
    assert_eq!(b, format!("alias ll=ls\n{BLOCK}"));
    assert!(zshrc_with_path_block(&b).is_none());
    let c = zshrc_with_path_block("x\n").unwrap();
    assert_eq!(c, format!("x\n{BLOCK}"));
    let only_start = zshrc_with_path_block("# >>> pancakes-python-path >>>\n").unwrap();
    assert_eq!(only_start, format!("# >>> pancakes-python-path >>>\n{BLOCK}"));
}

#[test]
fn joins_windows_share_device_and_verbatim_paths() {
    assert_eq!(path_join(r"\\srv\share\d", r"\x", true), r"\\srv\share\x");
    assert_eq!(path_join(r"\\srv\share", "x", true), r"\\srv\share\x");
    assert_eq!(path_join(r"C:\a", r"\\srv\share\x", true), r"\\srv\share\x");
    assert_eq!(path_join(r"\\.\pipe\a", r"\x", true), r"\\.\pipe\x");
    assert_eq!(path_join(r"\\srv", r"\x", true), r"\x");
    assert_eq!(path_join(r"\\?\C:\a", r"b\..\c\.\d", true), r"\\?\C:\a\c\d");
    assert_eq!(path_join(r"\\?\C:\a", r"..\..\x", true), r"\\?\C:\x");
    assert_eq!(path_join(r"\\?\C:\a", r"\x", true), r"\\?\C:\x");
    assert_eq!(path_join(r"\\?\C:", "x", true), r"\\?\C:\x");
    assert_eq!(path_join(r"\\?\UNC\srv\shr\a", "b/c", true), r"\\?\UNC\srv\shr\a\b\c");
    assert_eq!(path_join(r"\\?\C:\a", "", true), r"\\?\C:\a\");
    assert_eq!(path_join(r"C:\a", r"\\?\D:\x", true), r"\\?\D:\x");
}
