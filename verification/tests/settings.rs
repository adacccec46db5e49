use repogen::cli::{
    config_action, find_option_index, init_mode, Config as ConfigArgs, ConfigAction, Init,
    InitMode, New,
};
use repogen::config::{
    masked_token, normalize_blank_to_none, normalize_client_id, trimmed, ClientIdError, Config,
};
use repogen::newrepo::NewHandler;

fn new_args() -> New {
    New {
        name: "my-repo".to_string(),
        description: None,
        private: None,
        public: None,
        license: None,
        gitignore: None,
        readme: true,
    }
}

#[test]
fn default_config_is_empty() {
    let c = Config::default();
    assert_eq!(c.github_token, None);
    assert_eq!(c.github_username, None);
    assert!(!c.default_private);
    assert!(!c.auto_clone);
    assert_eq!(c.oauth_client_id, None);
}

#[test]
fn setters_change_only_their_fields() {
    let mut c = Config::default();
    c.set_github_token("ghp_abcdefghijk".to_string());
    assert_eq!(c.github_token, Some("ghp_abcdefghijk".to_string()));
    assert_eq!(c.github_username, None);

    c.set_user_profile(
        "octocat".to_string(),
        Some("The Octocat".to_string()),
        None,
    );
    assert_eq!(c.github_username, Some("octocat".to_string()));
    assert_eq!(c.user_name, Some("The Octocat".to_string()));
    assert_eq!(c.user_email, None);
    assert_eq!(c.github_token, Some("ghp_abcdefghijk".to_string()));

    c.set_preferences(true, Some("MIT".to_string()), Some("Rust".to_string()), None);
    assert!(c.default_private);
    assert_eq!(c.default_license, Some("MIT".to_string()));
    assert_eq!(c.default_gitignore, Some("Rust".to_string()));
    assert_eq!(c.preferred_editor, None);
    assert_eq!(c.github_username, Some("octocat".to_string()));

    c.set_oauth_client_id("Iv1.abcdef12345678".to_string());
    assert_eq!(c.oauth_client_id, Some("Iv1.abcdef12345678".to_string()));

    c.set_clone_settings(true, Some("/tmp/repos".to_string()));
    assert!(c.auto_clone);
    assert_eq!(c.clone_directory, Some("/tmp/repos".to_string()));
    assert_eq!(c.default_license, Some("MIT".to_string()));
}

#[test]
fn config_paths_join_the_home_directory() {
    assert_eq!(
        Config::config_dir("/home/octocat"),
        "/home/octocat/.config/repogen"
    );
    assert_eq!(
        Config::config_file("/home/octocat"),
        "/home/octocat/.config/repogen/config.toml"
    );
}

#[test]
fn masked_token_keeps_at_most_eight_characters() {
    assert_eq!(masked_token("ghp_abcdefghijk"), "ghp_abcd***");
    assert_eq!(masked_token("abc"), "abc***");
    assert_eq!(masked_token(""), "***");
}

#[test]
fn init_mode_prefers_authentication() {
    assert_eq!(
        init_mode(&Init { authentication: true, metadata: false }),
        InitMode::AuthOnly
    );
    assert_eq!(
        init_mode(&Init { authentication: true, metadata: true }),
        InitMode::AuthOnly
    );
    assert_eq!(
        init_mode(&Init { authentication: false, metadata: true }),
        InitMode::MetaOnly
    );
    assert_eq!(
        init_mode(&Init { authentication: false, metadata: false }),
        InitMode::Full
    );
}

#[test]
fn config_action_defaults_to_view() {
    assert_eq!(
        config_action(&ConfigArgs { view: false, edit: false, clear: false }),
        ConfigAction::View
    );
    assert_eq!(
        config_action(&ConfigArgs { view: true, edit: true, clear: true }),
        ConfigAction::View
    );
    assert_eq!(
        config_action(&ConfigArgs { view: false, edit: true, clear: false }),
        ConfigAction::Edit
    );
    assert_eq!(
        config_action(&ConfigArgs { view: false, edit: false, clear: true }),
        ConfigAction::Clear
    );
}

#[test]
fn option_index_finds_the_current_value() {
    let options: Vec<String> = ["None", "MIT", "Apache-2.0", "GPL-3.0"]
        .iter()
        .map(|s| s.to_string())
        .collect();
    assert_eq!(
        find_option_index(&options, &Some("Apache-2.0".to_string())),
        2
    );
    assert_eq!(find_option_index(&options, &Some("EPL-2.0".to_string())), 0);
    assert_eq!(find_option_index(&options, &None), 0);
}

#[test]
fn trimming_drops_blank_ends_only() {
    assert_eq!(trimmed("  Iv1.abcdef123  "), "Iv1.abcdef123");
    assert_eq!(trimmed("\tIv1.abc\ndef\t"), "Iv1.abc\ndef");
    assert_eq!(trimmed("   "), "");
    assert_eq!(trimmed(""), "");
    assert_eq!(trimmed("x"), "x");
}

#[test]
fn client_id_is_trimmed_and_measured() {
    assert_eq!(
        normalize_client_id("  Iv1.abcdef12345678  "),
        Ok("Iv1.abcdef12345678".to_string())
    );
    assert_eq!(normalize_client_id("   "), Err(ClientIdError::Empty));
    assert_eq!(normalize_client_id(" Iv1.abc "), Err(ClientIdError::TooShort));
    assert_eq!(normalize_client_id("exactly10!"), Ok("exactly10!".to_string()));
}

#[test]
fn blank_answers_mean_unset() {
    assert_eq!(normalize_blank_to_none("".to_string()), None);
    assert_eq!(normalize_blank_to_none("  \t\n".to_string()), None);
    assert_eq!(
        normalize_blank_to_none("  Octo Cat ".to_string()),
        Some("  Octo Cat ".to_string())
    );
}

#[test]
fn explicit_public_flag_wins() {
    let mut config = Config::default();
    config.set_preferences(true, None, None, None);
    let mut args = new_args();
    args.public = Some(true);
    args.private = Some(true);
    let h = NewHandler::new(config, args);
    assert!(!h.determine_privacy());
}

#[test]
fn explicit_private_flag_wins_over_default() {
    let config = Config::default();
    let mut args = new_args();
    args.private = Some(true);
    let h = NewHandler::new(config, args);
    assert!(h.determine_privacy());
}

#[test]
fn privacy_falls_back_to_config_default() {
    let mut config = Config::default();
    config.set_preferences(true, None, None, None);
    let h = NewHandler::new(config, new_args());
    assert!(h.determine_privacy());
}

#[test]
fn license_argument_overrides_config() {
    let mut config = Config::default();
    config.set_preferences(false, Some("MIT".to_string()), None, None);
    let mut args = new_args();
    args.license = Some("Apache-2.0".to_string());
    let h = NewHandler::new(config, args);
    assert_eq!(h.determine_license(), Some("Apache-2.0".to_string()));
}

#[test]
fn license_none_keyword_selects_no_license() {
    let mut config = Config::default();
    config.set_preferences(false, Some("MIT".to_string()), None, None);
    let mut args = new_args();
    args.license = Some("None".to_string());
    let h = NewHandler::new(config, args);
    assert_eq!(h.determine_license(), None);
}

#[test]
fn license_falls_back_to_config_default() {
    let mut config = Config::default();
    config.set_preferences(false, Some("MIT".to_string()), None, None);
    let h = NewHandler::new(config, new_args());
    assert_eq!(h.determine_license(), Some("MIT".to_string()));
}

#[test]
fn gitignore_none_keyword_selects_no_template() {
    let mut config = Config::default();
    config.set_preferences(false, None, Some("Rust".to_string()), None);
    let mut args = new_args();
    args.gitignore = Some("none".to_string());
    let h = NewHandler::new(config, args);
    assert_eq!(h.determine_gitignore(), None);

    let h2 = NewHandler::new(Config::default(), new_args());
    assert_eq!(h2.determine_gitignore(), None);
}

#[test]
fn gitignore_argument_overrides_config() {
    let mut config = Config::default();
    config.set_preferences(false, None, Some("Rust".to_string()), None);
    let mut args = new_args();
    args.gitignore = Some("Node".to_string());
    let h = NewHandler::new(config, args);
    assert_eq!(h.determine_gitignore(), Some("Node".to_string()));
}
