use pancakes::release::{get_download_method, DownloadError, DownloadMethod, Release, ReleaseParseError};

fn rel(major: u64, minor: u64, patch: Option<u64>) -> Release {
    Release { major, minor, patch }
}

#[test]
fn parses_major_minor() {
    assert_eq!(Release::parse("3.12"), Ok(rel(3, 12, None)));
}

#[test]
fn parses_patch() {
    assert_eq!(Release::parse("3.12.4"), Ok(rel(3, 12, Some(4))));
}

#[test]
fn parse_accepts_plus_and_leading_zeros() {
    assert_eq!(Release::parse("+3.012.0"), Ok(rel(3, 12, Some(0))));
}

#[test]
fn parse_ignores_pieces_after_patch() {
    assert_eq!(Release::parse("3.1.2.9"), Ok(rel(3, 1, Some(2))));
}

#[test]
fn parse_errors() {
    assert_eq!(Release::parse(""), Err(ReleaseParseError::Major));
    assert_eq!(Release::parse("x.1"), Err(ReleaseParseError::Major));
    assert_eq!(Release::parse("-3.1"), Err(ReleaseParseError::Major));
    assert_eq!(Release::parse("3"), Err(ReleaseParseError::Minor));
    assert_eq!(Release::parse("3.x"), Err(ReleaseParseError::Minor));
    assert_eq!(Release::parse("3..1"), Err(ReleaseParseError::Minor));
    assert_eq!(Release::parse("3.1."), Err(ReleaseParseError::Patch));
    assert_eq!(Release::parse("3.1.+"), Err(ReleaseParseError::Patch));
    assert_eq!(Release::parse(" 3.1"), Err(ReleaseParseError::Major));
}

#[test]
fn parse_limits_of_u64() {
    assert_eq!(
        Release::parse("18446744073709551615.0"),
        Ok(rel(u64::MAX, 0, None))
    );
    assert_eq!(
        Release::parse("18446744073709551616.0"),
        Err(ReleaseParseError::Major)
    );
}

#[test]
fn try_from_messages() {
    assert_eq!(Release::try_from(String::from("3.11")), Ok(rel(3, 11, None)));
    assert_eq!(
        Release::try_from(String::from("py.11")),
        Err(String::from("Failed to parse major release value"))
    );
    assert_eq!(
        Release::try_from(String::from("3")),
        Err(String::from("Failed to parse minor release value"))
    );
    assert_eq!(
        Release::try_from(String::from("3.1.b")),
        Err(String::from("Failed to parse patch release value"))
    );
}

#[test]
fn to_string_spells_release() {
    assert_eq!(rel(3, 12, None).to_string(), "3.12");
    assert_eq!(rel(3, 9, Some(18)).to_string(), "3.9.18");
    assert_eq!(rel(0, 0, Some(0)).to_string(), "0.0.0");
    assert_eq!(rel(u64::MAX, 10, None).to_string(), "18446744073709551615.10");
}

#[test]
fn release_text_reads_back() {
    for r in [rel(3, 12, None), rel(3, 9, Some(18)), rel(0, 100, Some(7)), rel(u64::MAX, u64::MAX, Some(u64::MAX))] {
        assert_eq!(Release::parse(&r.to_string()), Ok(r));
    }
}

fn official(m: DownloadMethod) -> (String, String) {
    match m {
        DownloadMethod::Official { url, filename } => (url, filename),
        other => panic!("expected an official installer, got {other:?}"),
    }
}

#[test]
fn download_windows() {
    let (url, filename) = official(get_download_method(&rel(3, 12, Some(4)), "windows", "x86_64").unwrap());
    assert_eq!(filename, "python-3.12.4-amd64.exe");
    assert_eq!(url, "https://www.python.org/ftp/python/3.12.4/python-3.12.4-amd64.exe");
    let (url, filename) = official(get_download_method(&rel(3, 13, None), "windows", "aarch64").unwrap());
    assert_eq!(filename, "python-3.13-aarch64.exe");
    assert_eq!(url, "https://www.python.org/ftp/python/3.13/python-3.13-aarch64.exe");
}

#[test]
fn download_macos() {
    let (url, filename) = official(get_download_method(&rel(3, 12, Some(1)), "macos", "aarch64").unwrap());
    assert_eq!(filename, "python-3.12.1-macos11.pkg");
    assert_eq!(url, "https://www.python.org/ftp/python/3.12.1/python-3.12.1-macos11.pkg");
    let (url, filename) = official(get_download_method(&rel(4, 0, None), "macos", "aarch64").unwrap());
    assert_eq!(filename, "python-4.0-macos11.pkg");
    assert_eq!(url, "https://www.python.org/ftp/python/4.0/python-4.0-macos11.pkg");
    assert!(get_download_method(&rel(3, 11, None), "macos", "x86_64").is_ok());
    assert!(get_download_method(&rel(2, 12, None), "macos", "x86_64").is_err());
    let e = get_download_method(&rel(3, 10, Some(1)), "macos", "x86_64").unwrap_err();
    assert_eq!(e, DownloadError::OutdatedForMacos);
    assert_eq!(e.message(), "Outdated python version for macos");
}

#[test]
fn download_linux_and_others() {
    match get_download_method(&rel(3, 12, None), "linux", "x86_64").unwrap() {
        DownloadMethod::Portable { title } => assert_eq!(title, "x86_64-unknown-linux-gnu"),
        other => panic!("unexpected {other:?}"),
    }
    match get_download_method(&rel(3, 12, None), "linux", "aarch64").unwrap() {
        DownloadMethod::Portable { title } => assert_eq!(title, "aarch64-unknown-linux-gnu"),
        other => panic!("unexpected {other:?}"),
    }
    let e = get_download_method(&rel(3, 12, None), "freebsd", "x86_64").unwrap_err();
    assert_eq!(e, DownloadError::UnsupportedSystem);
    assert_eq!(e.message(), "Unsupported system");
    assert_eq!(
        get_download_method(&rel(3, 12, None), "windows", "x86").unwrap_err(),
        DownloadError::UnsupportedSystem
    );
}
