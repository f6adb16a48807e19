use system_path::activate::{add, is_zsh, source_line, ProfileSet};
use system_path::home::Home;
use system_path::render::{env_path, init, render_env, render_template, shell_template};

fn test_home() -> Home {
    Home { path: String::from("/home/u/.app"), bin_dir: String::from("/home/u/.app/bin") }
}

fn empty_profiles() -> ProfileSet {
    ProfileSet {
        profile: None,
        bash_profile: None,
        bashrc: None,
        bash_login: None,
        zshenv: None,
    }
}

#[test]
fn template_token_is_replaced_exactly_once() {
    let rendered = render_template(
        "export PATH=\"{our_bin_dir}:$PATH\"\n",
        "{our_bin_dir}",
        "/opt/app/bin",
    );
    assert_eq!(rendered, "export PATH=\"/opt/app/bin:$PATH\"\n");
}

#[test]
fn template_without_token_is_unchanged() {
    assert_eq!(render_template("export X=1\n", "{our_bin_dir}", "/b"), "export X=1\n");
}

#[test]
fn only_the_first_occurrence_is_replaced() {
    assert_eq!(render_template("{t} and {t}", "{t}", "v"), "v and {t}");
}

#[test]
fn rendering_substitutes_the_binary_directory() {
    let rendered = render_env(&test_home());
    assert_eq!(rendered, "export PATH=\"/home/u/.app/bin:$PATH\"\n");
    assert_eq!(shell_template(), "export PATH=\"{our_bin_dir}:$PATH\"\n");
}

#[test]
fn env_file_is_written_once_and_never_overwritten() {
    let home = test_home();
    let after_first = init(&home, None);
    assert_eq!(after_first.as_deref(), Some("export PATH=\"/home/u/.app/bin:$PATH\"\n"));

    let other = Home { path: String::from("/home/u/.app"), bin_dir: String::from("/elsewhere") };
    let after_second = init(&other, after_first.clone());
    assert_eq!(after_second, after_first);
}

#[test]
fn env_path_is_under_the_home() {
    assert_eq!(env_path(&test_home()), "/home/u/.app/env");
}

#[test]
fn source_line_quotes_the_env_path() {
    assert_eq!(source_line(&test_home()), ". \"/home/u/.app/env\"");
}

#[test]
fn zsh_is_detected_by_substring() {
    assert!(is_zsh(Some(&String::from("/usr/bin/zsh"))));
    assert!(!is_zsh(Some(&String::from("/bin/bash"))));
    assert!(!is_zsh(None));
}

#[test]
fn zsh_shell_permits_creating_zshenv() {
    let shell = String::from("/usr/bin/zsh");
    let (files, added) = add(&test_home(), true, Some(&shell), empty_profiles());
    assert!(added);
    assert_eq!(files.zshenv.as_deref(), Some(". \"/home/u/.app/env\"\n"));
    assert_eq!(files.profile, None);
    assert_eq!(files.bashrc, None);
}

#[test]
fn zsh_shell_appends_to_an_existing_zshenv() {
    let shell = String::from("/usr/bin/zsh");
    let mut profiles = empty_profiles();
    profiles.zshenv = Some(String::from("setopt histignoredups\n"));
    let (files, added) = add(&test_home(), true, Some(&shell), profiles);
    assert!(added);
    assert_eq!(
        files.zshenv.as_deref(),
        Some("setopt histignoredups\n. \"/home/u/.app/env\"\n"),
    );
}

#[test]
fn other_shells_do_not_create_zshenv_but_append_to_an_existing_one() {
    let shell = String::from("/bin/bash");
    let (files, added) = add(&test_home(), true, Some(&shell), empty_profiles());
    assert!(!added);
    assert_eq!(files.zshenv, None);

    let mut profiles = empty_profiles();
    profiles.zshenv = Some(String::from("setopt histignoredups\n"));
    let (files, added) = add(&test_home(), true, Some(&shell), profiles);
    assert!(added);
    assert_eq!(
        files.zshenv.as_deref(),
        Some("setopt histignoredups\n. \"/home/u/.app/env\"\n"),
    );
}

#[test]
fn unresolved_home_directory_changes_nothing() {
    let mut profiles = empty_profiles();
    profiles.bashrc = Some(String::from(""));
    let (files, added) = add(&test_home(), false, None, profiles);
    assert!(!added);
    assert_eq!(files.bashrc.as_deref(), Some(""));
    assert_eq!(files.profile, None);
}

#[test]
fn activation_with_one_empty_bashrc() {
    let mut profiles = empty_profiles();
    profiles.bashrc = Some(String::from(""));
    let (files, added) = add(&test_home(), true, None, profiles);
    assert!(added);
    let bashrc = files.bashrc.expect("bashrc must still exist");
    assert!(bashrc.contains(". \"/home/u/.app/env\"\n"));
    assert_eq!(files.profile, None);
    assert_eq!(files.bash_profile, None);
    assert_eq!(files.bash_login, None);
    assert_eq!(files.zshenv, None);
}

#[test]
fn activating_twice_adds_nothing_the_second_time() {
    let mut profiles = empty_profiles();
    profiles.profile = Some(String::from("umask 022\n"));
    profiles.bashrc = Some(String::from("export EDITOR=vi"));
    let (files, added_first) = add(&test_home(), true, None, profiles);
    assert!(added_first);
    assert_eq!(files.profile.as_deref(), Some("umask 022\n. \"/home/u/.app/env\"\n"));
    assert_eq!(files.bashrc.as_deref(), Some("export EDITOR=vi\n. \"/home/u/.app/env\"\n"));

    let snapshot = (
        files.profile.clone(),
        files.bash_profile.clone(),
        files.bashrc.clone(),
        files.bash_login.clone(),
        files.zshenv.clone(),
    );
    let (files, added_second) = add(&test_home(), true, None, files);
    assert!(!added_second);
    assert_eq!(files.profile, snapshot.0);
    assert_eq!(files.bash_profile, snapshot.1);
    assert_eq!(files.bashrc, snapshot.2);
    assert_eq!(files.bash_login, snapshot.3);
    assert_eq!(files.zshenv, snapshot.4);
}
