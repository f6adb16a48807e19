//! The template renderer: the environment script and its write-once file.
//!
//! A fixed embedded shell-script template holds exactly one occurrence of
//! the token `{our_bin_dir}`; rendering replaces it with the literal path
//! of the installation's binary directory. The rendered script lives at
//! `<home>/env` and is written once: an existing file is never overwritten,
//! even if the rendered text has since changed.

use vstd::prelude::*;
use crate::appender::content_view;
use crate::home::Home;
use crate::text::{find_first, match_at, spec_contains};

verus! {

/// The embedded template for the environment script.
pub open spec fn spec_shell_template() -> Seq<char> {
    "export PATH=\"{our_bin_dir}:$PATH\"\n"@
}

/// The one substitution token the template contains.
pub open spec fn spec_token() -> Seq<char> {
    "{our_bin_dir}"@
}

/// The embedded template for the environment script.
pub fn shell_template() -> (r: &'static str)
    ensures
        r@ == spec_shell_template(),
{
    "export PATH=\"{our_bin_dir}:$PATH\"\n"
}

/// The one substitution token the template contains.
pub fn template_token() -> (r: &'static str)
    ensures
        r@ == spec_token(),
{
    "{our_bin_dir}"
}

/// `token` occurs in `template` at `i` and nowhere earlier.
pub open spec fn spec_first_match(template: Seq<char>, token: Seq<char>, i: int) -> bool {
    match_at(template, token, i) && forall|j: int| 0 <= j < i ==> !match_at(template, token, j)
}

/// Replace the first occurrence of `token` in `template` with `value`, in
/// one pass and with no recursive expansion; a template without the token
/// comes back unchanged.
pub fn render_template(template: &str, token: &str, value: &str) -> (r: String)
    ensures
        !spec_contains(template@, token@) ==> r@ == template@,
        spec_contains(template@, token@) ==> exists|i: int|
            #[trigger] spec_first_match(template@, token@, i) && r@ == template@.subrange(0, i)
                + value@ + template@.subrange(i + token@.len(), template@.len() as int),
{
    match find_first(template, token) {
        None => String::from_str(template),
        Some(i) => {
            let template_len = template.unicode_len();
            let token_len = token.unicode_len();
            let prefix = template.substring_char(0, i);
            let suffix = template.substring_char(i + token_len, template_len);
            let mut r = String::from_str(prefix);
            r.append(value);
            r.append(suffix);
            proof {
                assert(spec_first_match(template@, token@, i as int));
            }
            r
        },
    }
}

/// The rendered environment script for a binary directory: the template
/// with the token replaced by the directory's path.
pub open spec fn spec_render_env(bin_dir: Seq<char>) -> Seq<char> {
    "export PATH=\""@ + bin_dir + ":$PATH\"\n"@
}

/// Render the environment script for this installation.
pub fn render_env(home: &Home) -> (r: String)
    ensures
        r@ == spec_render_env(home.bin_dir@),
{
    proof {
        reveal_strlit("export PATH=\"{our_bin_dir}:$PATH\"\n");
        reveal_strlit("{our_bin_dir}");
        reveal_strlit("export PATH=\"");
        reveal_strlit(":$PATH\"\n");
    }
    let r = render_template(shell_template(), template_token(), home.bin_dir.as_str());
    proof {
        let tpl = spec_shell_template();
        let tok = spec_token();
        assert(tpl.subrange(13, 26) =~= tok);
        assert(match_at(tpl, tok, 13));
        assert(spec_contains(tpl, tok));
        let i = choose|i: int|
            #[trigger] spec_first_match(tpl, tok, i) && r@ == tpl.subrange(0, i)
                + home.bin_dir@ + tpl.subrange(i + tok.len(), tpl.len() as int);
        assert(forall|j: int| 0 <= j < 13 ==> tpl[j] != '{');
        if i < 13 {
            assert(tpl.subrange(i, i + 13)[0] == tpl[i]);
            assert(tpl[i] == '{');
        }
        assert(i == 13);
        assert(tpl.subrange(0, 13) =~= "export PATH=\""@);
        assert(tpl.subrange(26, 34) =~= ":$PATH\"\n"@);
    }
    r
}

/// The path of the environment script: `<home>/env`.
pub open spec fn spec_env_path(home_path: Seq<char>) -> Seq<char> {
    home_path + "/env"@
}

/// The path of the environment script under this installation root.
pub fn env_path(home: &Home) -> (r: String)
    ensures
        r@ == spec_env_path(home.path@),
{
    let mut p = home.path.clone();
    p.append("/env");
    p
}

/// The environment file after rendering: an existing file is kept as it
/// is; an absent one comes to hold the freshly rendered script.
pub open spec fn spec_init(env_file: Option<Seq<char>>, bin_dir: Seq<char>) -> Option<Seq<char>> {
    match env_file {
        Some(c) => Some(c),
        None => Some(spec_render_env(bin_dir)),
    }
}

/// Render the environment script and write it to `<home>/env` once.
///
/// `env_file` is the file's current state; the result is its state after
/// the call. A file that already exists is returned untouched, whatever it
/// holds and whatever the binary directory now is.
pub fn init(home: &Home, env_file: Option<String>) -> (r: Option<String>)
    requires
        home.wf(),
    ensures
        content_view(r) == spec_init(content_view(env_file), home.bin_dir@),
{
    match env_file {
        Some(c) => Some(c),
        None => Some(render_env(home)),
    }
}

/// Writing the environment file is write-once: rendering again, even for
/// a different binary directory, changes nothing.
pub proof fn lemma_init_write_once(env_file: Option<Seq<char>>, bin1: Seq<char>, bin2: Seq<char>)
    ensures
        spec_init(spec_init(env_file, bin1), bin2) == spec_init(env_file, bin1),
{
}

} // verus!
