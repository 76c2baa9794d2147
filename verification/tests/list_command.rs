use git_test::commands::list::{cmd_list, list_report};
use git_test::config::GitConfig;
use git_test::error::ErrorKind;
use git_test::git::{GitRepository, GitTestCommand};
use git_test::log_util::{Level, Style};

fn setup_test() -> (GitRepository, GitConfig) {
    (GitRepository::new("/work/repo".to_string()), GitConfig::new())
}

#[test]
fn test_list_tests() {
    let (repo, mut config) = setup_test();

    repo.set_test_command(&mut config, "default", "just default");
    repo.set_config_value(&mut config, "test.default.description", "Default test");
    repo.set_test_command(&mut config, "spotless-formats", "just spotless formats");
    repo.set_config_value(
        &mut config,
        "test.spotless-formats.description",
        "Spotless formats test",
    );
    repo.set_test_command(
        &mut config,
        "spotless-java-sort-imports",
        "just spotless java-sort-imports",
    );
    repo.set_test_command(&mut config, "empty-command", "");

    let lines = cmd_list(&repo, &config).unwrap();

    let log_contents: Vec<String> = lines
        .iter()
        .filter(|line| line.level.shown_at(Level::Info))
        .map(|line| line.message())
        .collect();
    let expected_logs = vec![
        "default:",
        "    command = just default",
        "spotless-formats:",
        "    command = just spotless formats",
        "spotless-java-sort-imports:",
        "    command = just spotless java-sort-imports",
        "empty-command:",
        "    command = ",
    ];

    assert_eq!(log_contents, expected_logs);
}

#[test]
fn list_of_nothing_warns() {
    let (repo, config) = setup_test();
    let lines = cmd_list(&repo, &config).unwrap();
    assert_eq!(lines.len(), 1);
    assert_eq!(lines[0].level, Level::Warn);
    assert_eq!(lines[0].message(), "No tests defined.");
}

#[test]
fn list_sets_off_names_and_commands() {
    let repo = GitRepository::new("/r".to_string());
    let tests: Vec<GitTestCommand> =
        vec![repo.test_command("unit".to_string(), "make check".to_string())];
    let lines = list_report(&tests);
    assert_eq!(lines.len(), 2);
    assert_eq!(lines[0].spans[0].text, "unit");
    assert_eq!(lines[0].spans[0].style, Style::Bold);
    assert_eq!(lines[0].spans[1].text, ":");
    assert_eq!(lines[0].spans[1].style, Style::Plain);
    assert_eq!(lines[1].spans[0].text, "    command = ");
    assert_eq!(lines[1].spans[1].text, "make check");
    assert_eq!(lines[1].spans[1].style, Style::Green);
}

#[test]
fn list_tests_takes_the_name_out_of_the_key() {
    let (repo, mut config) = setup_test();
    config.set("core.bare", "false");
    config.set("test.a.b.command", "run ab");
    config.set("test..command", "run nothing");
    config.set("xtest.c.command", "no");
    config.set("test.d.commands", "no");
    config.set("test.command", "no");
    let tests = repo.list_tests(&config).unwrap();
    let shown: Vec<(String, String)> =
        tests.iter().map(|t| (t.test_name.clone(), t.test_command.clone())).collect();
    assert_eq!(
        shown,
        vec![
            ("a.b".to_string(), "run ab".to_string()),
            ("".to_string(), "run nothing".to_string()),
        ]
    );
    assert!(tests.iter().all(|t| t.repo == repo));
}

#[test]
fn listed_test_without_a_name_is_a_configuration_error() {
    let (repo, _config) = setup_test();
    let error = repo.listed_test(Some(None), "x").unwrap_err();
    assert_eq!(error.kind, ErrorKind::Configuration);
    assert_eq!(error.message, "Failed to parse git config output");
    assert_eq!(repo.listed_test(None, "x").unwrap(), None);
    let test = repo.listed_test(Some(Some("n".to_string())), "x").unwrap().unwrap();
    assert_eq!(test.test_name, "n");
    assert_eq!(test.test_command, "x");
}

#[test]
fn the_key_pattern_is_accepted_for_every_configuration() {
    let (repo, mut config) = setup_test();
    assert!(repo.list_tests(&config).is_ok());
    config.set("user.name", "Ada");
    assert_eq!(repo.list_tests(&config).unwrap().len(), 0);
    assert_eq!(cmd_list(&repo, &config).unwrap().len(), 1);
    config.set("test.unit.command", "make check");
    assert_eq!(repo.list_tests(&config).unwrap().len(), 1);
    assert_eq!(cmd_list(&repo, &config).unwrap().len(), 2);
}
