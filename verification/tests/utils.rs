use playmaster::models::vars::{Vars, VarsData};
use playmaster::text::{
    decimal_string, replace_text, same_text, signed_decimal_string, to_chars, trim_chars,
};
use playmaster::utils::dbus::DbusUtils;
use playmaster::utils::dir::{DirUtils, YamlResult, YamlType};
use playmaster::utils::errors::{OptionResultTrait, ResultTrait};
use playmaster::utils::file_logger::FileLogger;
use playmaster::utils::semver::SemverUtils;
use playmaster::utils::shlex::ShlexUtils;
use playmaster::utils::string::StringUtils;
use playmaster::utils::variables::VariablesUtils;

fn pairs(items: &[(&str, &str)]) -> Vec<(String, String)> {
    items.iter().map(|(k, v)| (k.to_string(), v.to_string())).collect()
}

#[test]
fn dbus_names_and_command() {
    assert_eq!(DbusUtils::get_dbus_path(), "/one/playmaster/E2E");
    assert_eq!(DbusUtils::get_dbus_interface(), "one.playmaster.E2E");
    assert_eq!(DbusUtils::get_dbus_method_continue(), "Continue");
    assert_eq!(
        DbusUtils::dbus_method_continue_cmd("123456"),
        "busctl --user call one.playmaster.E2E /one/playmaster/E2E one.playmaster.E2E Continue s \"123456\""
    );
    assert_eq!(
        DbusUtils::dbus_method_continue_cmd(""),
        "busctl --user call one.playmaster.E2E /one/playmaster/E2E one.playmaster.E2E Continue s \"\""
    );
}

#[test]
fn continue_request_is_found_anywhere_in_the_line() {
    let ask = |line: &str| DbusUtils::identify_continue_request(line);
    assert_eq!(
        ask("Waiting for DBus method call one.playmaster.E2E.Continue(mfa code) ..."),
        Some("mfa code".to_string())
    );
    assert_eq!(
        ask("flutter: Waiting for DBus method call one.playmaster.E2E.Continue() ... now"),
        Some(String::new())
    );
    assert_eq!(ask("Waiting for DBus method call one-playmaster-E2E-Continue(x) abc"), Some("x".to_string()));
    assert_eq!(ask("Waiting for DBus method call one.playmaster.E2E.Continue(x) .."), None);
    assert_eq!(ask("Waiting for DBus method call one.playmaster.E2E.Continue(x)..."), None);
    assert_eq!(ask("Waiting for DBus method call one.playmaster.E2E.Continue(x"), None);
    assert_eq!(ask("waiting for DBus method call one.playmaster.E2E.Continue(x) ..."), None);
    assert_eq!(ask(""), None);
    assert_eq!(
        ask("Waiting for DBus method call one.playmaster.E2E.Continue(a Waiting for DBus method call one.playmaster.E2E.Continue(b) ..."),
        Some("a Waiting for DBus method call one.playmaster.E2E.Continue(b".to_string())
    );
}

#[test]
fn version_checks_use_the_first_version_number() {
    assert_eq!(SemverUtils::is_version_greater_or_equal("3.29.2", "3.29.2"), Ok(true));
    assert_eq!(SemverUtils::is_version_greater_or_equal("3.29.2", "Flutter 3.32.0 stable"), Ok(true));
    assert_eq!(SemverUtils::is_version_greater_or_equal("3.29.2", "4.0.0"), Ok(false));
    assert_eq!(SemverUtils::is_version_greater_or_equal(">=3.29.2", "4.0.0"), Ok(true));
    assert_eq!(SemverUtils::is_version_greater_or_equal("3.29.2", "3.1.9"), Ok(false));
    assert_eq!(SemverUtils::is_version_greater_or_equal("3.29.2", "no version here"), Ok(false));
    assert!(SemverUtils::is_version_greater_or_equal("3.29.2", "version 1.2")
        .unwrap_err()
        .starts_with("Failed to parse version: 1.2: "));
    assert!(SemverUtils::is_version_greater_or_equal("not a requirement", "1.2.3")
        .unwrap_err()
        .starts_with("Invalid min_version in config: not a requirement: "));
}

#[test]
fn valid_versions_have_three_parts() {
    assert!(SemverUtils::is_valid_version("1.2.3"));
    assert!(SemverUtils::is_valid_version("tool v10.20.30 (build 5)"));
    assert!(!SemverUtils::is_valid_version("1.2"));
    assert!(!SemverUtils::is_valid_version("1.2.3.4"));
    assert!(!SemverUtils::is_valid_version("1.02.3"));
    assert!(!SemverUtils::is_valid_version(""));
    assert!(!SemverUtils::is_valid_version("abc"));
}

#[test]
fn versions_are_extracted_from_names() {
    assert_eq!(SemverUtils::extract_version("tool-1.2.3.x86_64.rpm"), Some((1, 2, 3)));
    assert_eq!(SemverUtils::extract_version("v10.0.7-rc1"), Some((10, 0, 7)));
    assert_eq!(SemverUtils::extract_version("tool-1.2.rpm"), None);
    assert_eq!(SemverUtils::extract_version("tool-01.2.3.rpm"), None);
    assert_eq!(SemverUtils::extract_version("tool"), None);
}

#[test]
fn pascal_case_joins_the_words() {
    assert_eq!(StringUtils::to_pascal_case("my_var-name"), "MyVarName");
    assert_eq!(StringUtils::to_pascal_case("__a--b_"), "AB");
    assert_eq!(StringUtils::to_pascal_case("login.user_name"), "Login.userName");
    assert_eq!(StringUtils::to_pascal_case(""), "");
    assert_eq!(StringUtils::to_pascal_case("\u{df}x_y"), "SSxY");
    assert_eq!(StringUtils::to_pascal_case_with_dots("user_name"), "user_name");
    assert_eq!(StringUtils::to_pascal_case_with_dots("login.user_name"), "Login.userName");
}

#[test]
fn placeholders_are_filled_with_values() {
    let vars = pairs(&[("vars.login.user", "alice"), ("b", "2"), ("vars.login.user", "bob")]);
    let extra = pairs(&[("b", "two")]);
    let fill = |s: &str| VariablesUtils::replace_vars(s, &vars, Some(&extra));
    assert_eq!(fill("hello {{ vars.login.user }}!"), "hello bob!");
    assert_eq!(fill("{{b}}{{  b  }}"), "twotwo");
    assert_eq!(VariablesUtils::replace_vars("{{b}}", &vars, None), "2");
    assert_eq!(fill("{{ unknown }}"), "${{unknown}}");
    assert_eq!(fill("{{}} {{ }} {{a}b}} {{ a"), "{{}} ${{}} {{a}b}} {{ a");
    assert_eq!(fill("{{{b}}"), "${{{b}}");
    assert_eq!(fill("no placeholders"), "no placeholders");
    assert_eq!(fill(""), "");
}

#[test]
fn placeholders_become_references_in_generated_code() {
    assert_eq!(VariablesUtils::replace_var_usage("{{ vars.login.user_name }}"), "${Login.userName}");
    assert_eq!(VariablesUtils::replace_var_usage("a {{ plain }} b"), "a ${plain} b");
    assert_eq!(VariablesUtils::replace_var_usage("{{vars.x}}"), "${x}");
}

#[test]
fn variables_are_collected_under_full_names() {
    let found = vec![
        YamlResult { file_name: "login".to_string(), content: VarsData(pairs(&[("user", "alice"), ("pw", "x")])) },
        YamlResult { file_name: "empty".to_string(), content: VarsData(vec![]) },
        YamlResult { file_name: "shop".to_string(), content: VarsData(pairs(&[("item", "book")])) },
    ];
    let vars = Vars::all_from_curr_dir(&found);
    assert_eq!(vars.data.len(), 2);
    assert_eq!(vars.data[0].file_name, "login");
    assert_eq!(vars.data[1].file_name, "shop");
    assert_eq!(
        vars.all_vars,
        pairs(&[("vars.login.user", "alice"), ("vars.login.pw", "x"), ("vars.shop.item", "book")])
    );
    assert_eq!(vars.replace_var("{{ vars.shop.item }} for {{vars.login.user}}", None), "book for alice");
    assert_eq!(vars.replace_var_usage("{{ vars.shop.item }}"), "${Shop.item}");
}

#[test]
fn description_files_are_known_by_their_ending() {
    let stem = |name: &str, t: YamlType| DirUtils::yaml_file_stem(name, t);
    assert_eq!(stem("login.test.yaml", YamlType::FeatureTest), Some("login".to_string()));
    assert_eq!(stem("login.test.yml", YamlType::FeatureTest), Some("login".to_string()));
    assert_eq!(stem("login.vars.yaml", YamlType::FeatureTest), None);
    assert_eq!(stem("login.vars.yml", YamlType::Vars), Some("login".to_string()));
    assert_eq!(stem("a.test.yaml.vars.yaml", YamlType::Vars), Some("a.test.yaml".to_string()));
    assert_eq!(stem(".test.yaml", YamlType::FeatureTest), Some(String::new()));
    assert_eq!(stem("login.yaml", YamlType::Vars), None);
}

#[test]
fn paths_are_joined_with_one_separator() {
    assert_eq!(DirUtils::join("/home/dev", "x"), "/home/dev/x");
    assert_eq!(DirUtils::join("/home/dev/", "x"), "/home/dev/x");
    assert_eq!(DirUtils::join("", "x"), "x");
    assert_eq!(DirUtils::root_dir("/home/dev"), "/home/dev/playmaster");
}

#[test]
fn command_lines_are_split_like_a_shell_does() {
    let parsed = ShlexUtils::parse_command("busctl --user call 'a b' \"c d\" e\\ f").unwrap();
    assert_eq!(parsed.program, "busctl");
    assert_eq!(parsed.args, vec!["--user", "call", "a b", "c d", "e f"]);
    assert_eq!(
        ShlexUtils::parse_command("   "),
        Err("Failed to split command:    : None Option".to_string())
    );
    assert_eq!(ShlexUtils::parse_command("ls").unwrap().args, Vec::<String>::new());
}

#[test]
fn errors_are_described() {
    let failed: Result<u8, String> = Err("it \"broke\"".to_string());
    assert_eq!(failed.auto_err("Could not read"), Err("Could not read: \"it \\\"broke\\\"\"".to_string()));
    let fine: Result<u8, String> = Ok(3);
    assert_eq!(ResultTrait::auto_err(fine, "x"), Ok(3));
    let missing: Option<u8> = None;
    assert_eq!(OptionResultTrait::auto_err(missing, "No runner"), Err("No runner: None Option".to_string()));
    assert_eq!(OptionResultTrait::auto_err(Some(1u8), "x"), Ok(1));
}

#[test]
fn log_lines_carry_their_time() {
    let logger = FileLogger::new(Some("/etc/pm".to_string()), "hook.stdout.log");
    assert_eq!(logger.log_path, "/etc/pm/logs/hook.stdout.log");
    assert_eq!(FileLogger::new(None, "x.log").log_path, "./logs/x.log");
    assert_eq!(FileLogger::log_dir(None), "./logs");
    assert_eq!(logger.log("2024-05-01 10:00:00", "started"), "[2024-05-01 10:00:00] started\n");
}

#[test]
fn numbers_are_written_in_decimal() {
    assert_eq!(decimal_string(0), "0");
    assert_eq!(decimal_string(7), "7");
    assert_eq!(decimal_string(10), "10");
    assert_eq!(decimal_string(1234567890), "1234567890");
    assert_eq!(decimal_string(u64::MAX), "18446744073709551615");
    assert_eq!(signed_decimal_string(-1), "-1");
    assert_eq!(signed_decimal_string(0), "0");
    assert_eq!(signed_decimal_string(i64::MIN), "-9223372036854775808");
    assert_eq!(signed_decimal_string(i64::MAX), "9223372036854775807");
}

#[test]
fn text_helpers_agree_with_the_standard_library() {
    for s in ["", "  a b  ", "\t\n x\u{a0}\u{3000}", "\u{2003}y\u{85}", "z", "   "] {
        let trimmed: String = trim_chars(&to_chars(s)).into_iter().collect();
        assert_eq!(trimmed, s.trim());
    }
    assert_eq!(replace_text("a~b~~c", "~", "/root"), "a/rootb/root/rootc");
    assert_eq!(replace_text("aaa", "aa", "b"), "ba");
    assert_eq!(replace_text("abc", "abcd", "x"), "abc");
    assert_eq!(replace_text("x{{version}}y", "{{version}}", "1.2.3"), "x1.2.3y");
    assert!(same_text("abc", "abc"));
    assert!(!same_text("abc", "abd"));
    assert!(!same_text("abc", "ab"));
}

#[test]
fn placeholder_of_white_space_has_the_empty_name() {
    let vars = vec![("".to_string(), "nothing".to_string())];
    assert_eq!(VariablesUtils::replace_vars("a{{ }}b", &vars, None), "anothingb");
    assert_eq!(VariablesUtils::replace_vars("a{{ \t  }}b", &vec![], None), "a${{}}b");
    assert_eq!(VariablesUtils::replace_var_usage("{{  }}"), "${}");
}
