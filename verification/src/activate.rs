//! The profile activation orchestrator and the shell detector.
//!
//! `add` makes sure the user's shell startup files source the rendered
//! environment script. It works over a fixed set of startup files, each
//! modelled as `Option<String>` (absent, or full text), so the whole run
//! of decisions is verified; an unverified shell around the crate reads
//! the real files in and writes the planned changes out.
//!
//! Four files — `.profile`, `.bash_profile`, `.bashrc`, `.bash_login` —
//! are only ever appended to, never created. `.zshenv` may additionally be
//! created, but only when the current shell identifies itself as Z shell.

use vstd::prelude::*;
use crate::appender::{
    append_line_if_not_present, content_view, lemma_append_idempotent, read_view,
    spec_append_result,
};
use crate::home::Home;
use crate::text::{contains_str, spec_contains};

verus! {

/// The fixed set of startup files, each independent of the others.
pub struct ProfileSet {
    pub profile: Option<String>,
    pub bash_profile: Option<String>,
    pub bashrc: Option<String>,
    pub bash_login: Option<String>,
    pub zshenv: Option<String>,
}

impl ProfileSet {
    /// The text (or absence) of each file, as one tuple.
    pub open spec fn view_all(&self) -> (
        Option<Seq<char>>,
        Option<Seq<char>>,
        Option<Seq<char>>,
        Option<Seq<char>>,
        Option<Seq<char>>,
    ) {
        (
            content_view(self.profile),
            content_view(self.bash_profile),
            content_view(self.bashrc),
            content_view(self.bash_login),
            content_view(self.zshenv),
        )
    }
}

/// The dot-source line pointing at the environment script:
/// `. "<home path>/env"`.
pub open spec fn spec_source_line(home_path: Seq<char>) -> Seq<char> {
    ". \""@ + home_path + "/env\""@
}

/// Build the dot-source line for this installation.
pub fn source_line(home: &Home) -> (r: String)
    ensures
        r@ == spec_source_line(home.path@),
{
    let mut r = String::from_str(". \"");
    r.append(home.path.as_str());
    r.append("/env\"");
    r
}

/// The shell value identifies Z shell: it is present and contains `zsh`.
pub open spec fn spec_is_zsh(shell: Option<Seq<char>>) -> bool {
    shell matches Some(s) && spec_contains(s, "zsh"@)
}

/// Decide from the shell-identifying environment value whether the
/// current shell is Z shell. Absence, or any value without `zsh` in it,
/// means no.
pub fn is_zsh(shell: Option<&String>) -> (r: bool)
    ensures
        r == spec_is_zsh(read_view(shell)),
{
    match shell {
        Some(s) => contains_str(s.as_str(), "zsh"),
        None => false,
    }
}

/// What `add` leaves behind: each file after its own independent append
/// attempt, and whether any of the five was changed.
///
/// When the user's home directory could not be resolved, nothing is
/// touched and nothing was added. Otherwise the first four files get an
/// append attempt that may not create them, and `.zshenv` one that may
/// create it exactly when the shell is Z shell.
pub open spec fn spec_add(
    files: (Option<Seq<char>>, Option<Seq<char>>, Option<Seq<char>>, Option<Seq<char>>, Option<
        Seq<char>,
    >),
    home_path: Seq<char>,
    home_resolved: bool,
    shell: Option<Seq<char>>,
) -> ((Option<Seq<char>>, Option<Seq<char>>, Option<Seq<char>>, Option<Seq<char>>, Option<
    Seq<char>,
>), bool) {
    if !home_resolved {
        (files, false)
    } else {
        let line = spec_source_line(home_path);
        let r0 = spec_append_result(files.0, line, false);
        let r1 = spec_append_result(files.1, line, false);
        let r2 = spec_append_result(files.2, line, false);
        let r3 = spec_append_result(files.3, line, false);
        let r4 = spec_append_result(files.4, line, spec_is_zsh(shell));
        ((r0.0, r1.0, r2.0, r3.0, r4.0), r0.1 || r1.1 || r2.1 || r3.1 || r4.1)
    }
}

/// Make the startup files source the environment script.
///
/// `home_resolved` says whether the user's home directory could be found;
/// without it there is nothing to do and the answer is `false`. `shell` is
/// the shell-identifying environment value, if set. The result is the new
/// state of the five files and whether at least one was changed.
pub fn add(home: &Home, home_resolved: bool, shell: Option<&String>, files: ProfileSet) -> (r: (
    ProfileSet,
    bool,
))
    requires
        home.wf(),
    ensures
        (r.0.view_all(), r.1) == spec_add(
            files.view_all(),
            home.path@,
            home_resolved,
            read_view(shell),
        ),
{
    if !home_resolved {
        return (files, false);
    }
    let line = source_line(home);
    let ProfileSet { profile, bash_profile, bashrc, bash_login, zshenv } = files;
    let (profile, added_profile) = append_line_if_not_present(profile, line.as_str(), false);
    let (bash_profile, added_bash_profile) = append_line_if_not_present(
        bash_profile,
        line.as_str(),
        false,
    );
    let (bashrc, added_bashrc) = append_line_if_not_present(bashrc, line.as_str(), false);
    let (bash_login, added_bash_login) = append_line_if_not_present(
        bash_login,
        line.as_str(),
        false,
    );
    let zsh = is_zsh(shell);
    let (zshenv, added_zshenv) = append_line_if_not_present(zshenv, line.as_str(), zsh);
    let added_any = added_profile || added_bash_profile || added_bashrc || added_bash_login
        || added_zshenv;
    (ProfileSet { profile, bash_profile, bashrc, bash_login, zshenv }, added_any)
}

/// Activation is idempotent as a whole: once it has run, running it again
/// with the same installation, shell and home resolution changes no file
/// and reports that nothing was added.
pub proof fn lemma_add_idempotent(
    files: (Option<Seq<char>>, Option<Seq<char>>, Option<Seq<char>>, Option<Seq<char>>, Option<
        Seq<char>,
    >),
    home_path: Seq<char>,
    home_resolved: bool,
    shell: Option<Seq<char>>,
)
    ensures
        ({
            let once = spec_add(files, home_path, home_resolved, shell);
            spec_add(once.0, home_path, home_resolved, shell) == (once.0, false)
        }),
{
    if home_resolved {
        let line = spec_source_line(home_path);
        lemma_append_idempotent(files.0, line, false);
        lemma_append_idempotent(files.1, line, false);
        lemma_append_idempotent(files.2, line, false);
        lemma_append_idempotent(files.3, line, false);
        lemma_append_idempotent(files.4, line, spec_is_zsh(shell));
    }
}

} // verus!
