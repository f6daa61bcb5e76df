use vstd::prelude::*;
use vstd::string::*;

use crate::paths::{join_path, path_join};
use crate::version::PyVersion;

verus! {

/// The arguments of the uv command that installs Python `version` and makes
/// it the default.
pub fn install_python_args(version: &PyVersion) -> (r: Vec<String>)
    ensures
        r@.len() == 7,
        r@[0]@ == "python"@,
        r@[1]@ == "install"@,
        r@[2]@ == version.text@,
        r@[3]@ == "-r"@,
        r@[4]@ == "--default"@,
        r@[5]@ == "--preview-features"@,
        r@[6]@ == "python-install-default"@,
{
    let mut args: Vec<String> = Vec::new();
    args.push(String::from_str("python"));
    args.push(String::from_str("install"));
    args.push(version.to_string());
    args.push(String::from_str("-r"));
    args.push(String::from_str("--default"));
    args.push(String::from_str("--preview-features"));
    args.push(String::from_str("python-install-default"));
    args
}

/// The arguments of the uv command that creates the virtual environment of
/// the project in folder `project` (in its `.venv`) with Python `version`;
/// `windows` selects Windows path rules.
pub fn setup_venv_args(project: &str, version: &PyVersion, windows: bool) -> (r: Vec<String>)
    ensures
        r@.len() == 4,
        r@[0]@ == "venv"@,
        r@[1]@ == join_path(project@, ".venv"@, windows),
        r@[2]@ == "-p"@,
        r@[3]@ == version.text@,
{
    let mut args: Vec<String> = Vec::new();
    args.push(String::from_str("venv"));
    args.push(path_join(project, ".venv", windows));
    args.push(String::from_str("-p"));
    args.push(version.to_string());
    args
}

/// The Python code that prints the interpreter's version.
pub fn python_version_code() -> (r: String)
    ensures
        r@ == "import sys; print(f'{sys.version_info.major}.{sys.version_info.minor}.{sys.version_info.micro}')"@,
{
    String::from_str(
        "import sys; print(f'{sys.version_info.major}.{sys.version_info.minor}.{sys.version_info.micro}')",
    )
}

/// Whether the Python found on the search path is only the Microsoft Store
/// stand-in (its path lies below `WindowsApps`), which does not count.
pub fn is_store_redirector(path: &str) -> (r: bool)
    ensures
        r == crate::text::text_contains(path@, "WindowsApps"@),
{
    let p = crate::text::chars_of(path);
    let w = crate::text::chars_of("WindowsApps");
    crate::text::contains_chars(p.as_slice(), w.as_slice())
}

}

verus! {

/// The line that marks the start of the block that puts uv's folder on
/// the search path in `.zshrc`.
pub open spec fn block_start() -> Seq<char> {
    "# >>> pancakes-python-path >>>"@
}

/// The line that marks the end of that block.
pub open spec fn block_end() -> Seq<char> {
    "# <<< pancakes-python-path <<<"@
}

/// The block itself.
pub open spec fn path_block() -> Seq<char> {
    "# >>> pancakes-python-path >>>
export PATH=\"$HOME/.local/bin:$PATH\"
# <<< pancakes-python-path <<<
"@
}

/// The new contents of `.zshrc` (whose contents are `existing`): `None`
/// when both marker lines are already there; otherwise the old contents,
/// ended with a line break if they are not empty and lack one, followed by
/// the block.
pub open spec fn zshrc_update(existing: Seq<char>) -> Option<Seq<char>> {
    if crate::text::text_contains(existing, block_start()) && crate::text::text_contains(existing, block_end()) {
        None
    } else if existing.len() > 0 && existing.last() != '\n' {
        Some(existing + seq!['\n'] + path_block())
    } else {
        Some(existing + path_block())
    }
}

/// Computes the new contents of `.zshrc` for putting `~/.local/bin` on the
/// search path on macOS.
pub fn zshrc_with_path_block(existing: &str) -> (r: Option<String>)
    ensures
        match zshrc_update(existing@) {
            None => r is None,
            Some(t) => r matches Some(s) && s@ == t,
        },
{
    let e = crate::text::chars_of(existing);
    let start = crate::text::chars_of("# >>> pancakes-python-path >>>");
    let end = crate::text::chars_of("# <<< pancakes-python-path <<<");
    if crate::text::contains_chars(e.as_slice(), start.as_slice()) && crate::text::contains_chars(
        e.as_slice(),
        end.as_slice(),
    ) {
        return None;
    }
    let mut s = crate::text::string_of(e.as_slice());
    if e.len() > 0 && e[e.len() - 1] != '\n' {
        crate::text::push_char(&mut s, '\n');
    }
    s.append(
        "# >>> pancakes-python-path >>>
export PATH=\"$HOME/.local/bin:$PATH\"
# <<< pancakes-python-path <<<
",
    );
    Some(s)
}

/// A text that ends with `tail` contains every text that `tail` contains.
pub proof fn lemma_contains_in_tail(head: Seq<char>, tail: Seq<char>, needle: Seq<char>)
    requires
        crate::text::text_contains(tail, needle),
    ensures
        crate::text::text_contains(head + tail, needle),
{
    let i = choose|i: int| crate::text::occurs_at(tail, needle, i);
    assert((head + tail).subrange(head.len() + i, head.len() + i + needle.len()) =~= tail.subrange(
        i,
        i + needle.len(),
    ));
    assert(crate::text::occurs_at(head + tail, needle, head.len() + i));
}

/// Adding the block is done once: the updated contents hold both marker
/// lines, so updating them again changes nothing.
pub proof fn lemma_zshrc_update_once(existing: Seq<char>)
    ensures
        zshrc_update(existing) matches Some(t) ==> zshrc_update(t) is None,
{
    reveal_strlit("# >>> pancakes-python-path >>>");
    reveal_strlit("# <<< pancakes-python-path <<<");
    reveal_strlit("# >>> pancakes-python-path >>>
export PATH=\"$HOME/.local/bin:$PATH\"
# <<< pancakes-python-path <<<
");
    let b = path_block();
    let s = block_start();
    let e = block_end();
    assert(b.subrange(0, s.len() as int) =~= s);
    assert(crate::text::occurs_at(b, s, 0));
    let k = b.len() - 1 - e.len();
    assert(b.subrange(k, k + e.len()) =~= e);
    assert(crate::text::occurs_at(b, e, k));
    if zshrc_update(existing) is Some {
        if existing.len() > 0 && existing.last() != '\n' {
            lemma_contains_in_tail(existing + seq!['\n'], b, s);
            lemma_contains_in_tail(existing + seq!['\n'], b, e);
        } else {
            lemma_contains_in_tail(existing, b, s);
            lemma_contains_in_tail(existing, b, e);
        }
    }
}

}

verus! {

/// What follows `uv python update-shell`.
#[derive(Debug, Clone, Copy, PartialEq, Eq, Structural)]
pub enum ShellFollowUp {
    /// The search path is set up; the install is done.
    Done,
    /// Put uv's folder on the search path by adding the block to `.zshrc`.
    WriteZshrc,
    /// Setting up the search path failed.
    Failed,
}

/// The step after `uv python update-shell`: nothing more when it succeeded;
/// on macOS the `.zshrc` block as a fallback; otherwise failure.
pub fn after_update_shell(update_ok: bool, is_macos: bool) -> (r: ShellFollowUp)
    ensures
        r == (if update_ok {
            ShellFollowUp::Done
        } else if is_macos {
            ShellFollowUp::WriteZshrc
        } else {
            ShellFollowUp::Failed
        }),
{
    if update_ok {
        ShellFollowUp::Done
    } else if is_macos {
        ShellFollowUp::WriteZshrc
    } else {
        ShellFollowUp::Failed
    }
}

}
