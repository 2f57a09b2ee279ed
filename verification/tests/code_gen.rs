use playmaster::code_gen::flutter::helper::HELPERS_DART;
use playmaster::code_gen::flutter::test_driver::TEST_DRIVER_DART;
use playmaster::code_gen::flutter::{sort_by_name, GenFlutter};
use playmaster::code_gen::gen_iface::CodeGenTrait;
use playmaster::code_gen::generator::CodeGen;
use playmaster::models::args::{AppArgs, Command};
use playmaster::models::config::{Config, ProjectType};
use playmaster::models::feature_test::{
    BeforeEach, FeatureTest, FindBy, Match, MatchTarget, Offset, PointerAction, ProgressWidgetType,
    ScrollTarget, SimpleStep, Step, TestCase, TypeAction, UserInput, WaitFor,
};
use playmaster::models::gen_state::GenState;
use playmaster::models::vars::{Vars, VarsData};
use playmaster::utils::dir::YamlResult;

fn key(k: &str) -> FindBy {
    FindBy::Key { key: k.to_string() }
}

fn code(step: &Step, defs: &Vec<(String, Vec<Step>)>) -> String {
    step.to_dart_code(&Vars::new(), defs, "login_test")
}

fn feature(name: &str) -> FeatureTest {
    FeatureTest {
        name: name.to_string(),
        description: String::new(),
        before_each: None,
        tests: vec![],
        vars: vec![],
        step_definitions: vec![],
    }
}

#[test]
fn steps_become_dart() {
    let none = vec![];
    assert_eq!(code(&Step::Simple(SimpleStep::Settle), &none), "      await tester.pumpAndSettle();\n");
    assert_eq!(
        code(&Step::Tap { tap: key("login") }, &none),
        "      await tester.pumpAndSettle();\n      await tester.tap(find.byKey(Key('login')), kind: PointerDeviceKind.mouse);\n      await tester.pumpAndSettle();\n"
    );
    assert_eq!(
        code(&Step::NotFound { not_found: FindBy::Text { text: "Oops".to_string() }, timeout_millis: None }, &none),
        "      await tester.waitUntilGone(find.text('Oops'), timeout: Duration(milliseconds: 10000));\n"
    );
    assert_eq!(
        code(
            &Step::Type {
                typing: TypeAction {
                    by: FindBy::Placeholder { placeholder: "Name".to_string() },
                    value: "{{ vars.login.user_name }}".to_string(),
                },
            },
            &none
        ),
        "      await tester.type(find.byPlaceholder('Name'), ${Login.userName});\n"
    );
    assert_eq!(
        code(&Step::Match { matching: Match { target: MatchTarget::Screenshot { screenshot: "home".to_string() } } }, &none),
        "      await tester.compareScreenshot('login_test', 'home');\n"
    );
    assert_eq!(
        code(&Step::Match { matching: Match { target: MatchTarget::Key { key: "k".to_string() } } }, &none),
        "      expect(find.byKey(Key('k')), findsOneWidget);\n"
    );
    assert_eq!(
        code(&Step::Match { matching: Match { target: MatchTarget::Text { text: "t".to_string() } } }, &none),
        "      expect(find.text('t'), findsOneWidget);\n"
    );
    assert_eq!(
        code(
            &Step::Scroll {
                scroll: ScrollTarget { by: FindBy::Type { widget: "ListView".to_string() }, delta: Offset { x: 0, y: -300 } },
            },
            &none
        ),
        "      await tester.drag(find.byType(ListView), const Offset(0, -300));\n"
    );
    assert_eq!(
        code(&Step::Pointer { pointer: PointerAction::Move { to: Offset { x: 10, y: 20 }, remove: true } }, &none),
        "      await tester.movePointer(Offset(10, 20), remove: true);\n"
    );
    assert_eq!(
        code(&Step::UserInput { user_input: UserInput { name: "mfa".to_string(), gmail: None } }, &none),
        "      await tester.waitForInputViaDBus('mfa');\n"
    );
}

#[test]
fn waits_have_default_timeouts() {
    let none = vec![];
    let wait = |w: WaitFor| code(&Step::WaitFor { wait_for: w }, &none);
    assert_eq!(
        wait(WaitFor::Key { key: "k".to_string(), timeout_millis: None, settle: false }),
        "      await tester.pumpUntilFound(find.byKey(Key('k')), timeout: Duration(milliseconds: 5000));\n"
    );
    assert_eq!(
        wait(WaitFor::Text { text: "hi".to_string(), timeout_millis: Some(250), settle: true }),
        "      await tester.pumpUntilFound(find.text('hi'), timeout: Duration(milliseconds: 250));\n      await tester.pumpAndSettle();\n"
    );
    assert_eq!(
        wait(WaitFor::Delay { delay: 1500, settle: false }),
        "      await tester.pump(Duration(milliseconds: 1500));\n"
    );
    assert_eq!(
        wait(WaitFor::Progress { progress: ProgressWidgetType::Linear, timeout_millis: None, settle: false }),
        "      await tester.pumpUntilProgressCompleted(find.byType(LinearProgressIndicator), timeout: Duration(milliseconds: 30000));\n"
    );
    assert_eq!(
        wait(WaitFor::Progress { progress: ProgressWidgetType::Radial, timeout_millis: Some(1), settle: true }),
        "      await tester.pumpUntilProgressCompleted(find.byType(CircularProgressIndicator), timeout: Duration(milliseconds: 1));\n      await tester.pumpAndSettle();\n"
    );
    assert_eq!(Step::duration(None, 7), "Duration(milliseconds: 7)");
    assert_eq!(Step::settle(false), "");
    assert_eq!(Step::find_by(&Vars::new(), &key("{{ x }}")), "find.byKey(Key('${x}'))");
}

#[test]
fn named_steps_are_put_in_place() {
    let settle = Step::Simple(SimpleStep::Settle);
    let use_step = |n: &str| Step::Use { use_step: n.to_string() };
    let defs = vec![
        ("open".to_string(), vec![Step::Tap { tap: key("old") }]),
        ("login".to_string(), vec![use_step("open"), settle.clone()]),
        ("open".to_string(), vec![settle.clone(), settle.clone()]),
        ("loop".to_string(), vec![settle.clone(), use_step("loop")]),
    ];
    let s = "      await tester.pumpAndSettle();\n";
    assert_eq!(code(&use_step("open"), &defs), format!("{s}{s}"));
    assert_eq!(code(&use_step("login"), &defs), format!("{s}{s}{s}"));
    assert_eq!(code(&use_step("nope"), &defs), "      // Step definition 'nope' not found.\n");
    assert_eq!(
        code(&use_step("loop"), &defs),
        format!("{s}{s}{s}{s}      // Step definition 'loop' uses itself.\n")
    );
    assert_eq!(code(&use_step("x"), &vec![]), "      // Step definition 'x' not found.\n");
}

fn login_feature() -> FeatureTest {
    let mut f = feature("User Login-Flow");
    f.before_each = Some(BeforeEach { steps: vec![Step::Simple(SimpleStep::Settle)] });
    f.vars = vec![("zeta".to_string(), "1".to_string()), ("alpha".to_string(), "2".to_string())];
    f.tests = vec![TestCase {
        name: "logs in".to_string(),
        description: String::new(),
        state: "{{ vars.state.fresh }}".to_string(),
        steps: vec![Step::Tap { tap: key("go") }],
    }];
    f
}

#[test]
fn feature_file_has_all_its_parts() {
    let file = login_feature().generate_dart(&Vars::new(), "/p/integration_test/generated");
    assert_eq!(file.path, "/p/integration_test/generated/user_login-flow_test.dart");
    assert_eq!(
        file.content,
        "// GENERATED FILE - DO NOT EDIT\n\
import 'dart:ui';\n\
import 'package:flutter_test/flutter_test.dart';\n\
import 'package:flutter/material.dart';\n\
import 'package:integration_test/integration_test.dart';\n\
import 'helpers.dart';\n\
import 'vars.dart';\n\
\n\
void main() {\n\
\x20 IntegrationTestWidgetsFlutterBinding.ensureInitialized();\n\
\n\
\n\
beforeEach(WidgetTester tester) async {\n\
\x20         await tester.pumpAndSettle();\n\
\n\
}\n\
\x20         const alpha = '2';\n\
\x20 const zeta = '1';\n\
\n\
\n\
\x20 group('User Login-Flow', () {\n\
\x20   testWidgets('logs in', (tester) async {\n\
\x20     await tester.initializeTest('${State.fresh}');      await beforeEach(tester);\n\
\n\
\x20     //\n\
\x20     await tester.pumpAndSettle();\n\
\x20     await tester.tap(find.byKey(Key('go')), kind: PointerDeviceKind.mouse);\n\
\x20     await tester.pumpAndSettle();\n\
\n\
\x20   });\n\
\n\
\x20 });\n\
}\n"
    );
}

#[test]
fn plain_feature_file_is_short() {
    let mut f = feature("Shop");
    f.before_each = Some(BeforeEach { steps: vec![] });
    f.tests = vec![TestCase {
        name: "empty".to_string(),
        description: String::new(),
        state: String::new(),
        steps: vec![],
    }];
    let content = f.generate_dart(&Vars::new(), "out").content;
    assert!(content.ends_with(
        "  IntegrationTestWidgetsFlutterBinding.ensureInitialized();\n\n  group('Shop', () {\n    testWidgets('empty', (tester) async {\n      await tester.initializeTest('');      await beforeEach(tester);\n\n    });\n\n  });\n}\n"
    ));
    assert_eq!(f.file_stem(), "shop_test");
    f.before_each = None;
    assert!(f.generate_dart(&Vars::new(), "out").content.contains("initializeTest('');\n\n    });"));
}

#[test]
fn entry_point_imports_every_feature() {
    let generator = GenFlutter::from_exec_dir("/p");
    assert_eq!(generator.get_type(), ProjectType::Flutter);
    assert_eq!(generator.out_dir, "/p/integration_test/generated");
    let file = generator.generate_all_entrypoint(&vec![feature("User Login-Flow"), feature("Shop")]);
    assert_eq!(file.path, "/p/integration_test/generated/all_tests.dart");
    assert_eq!(
        file.content,
        "// GENERATED FILE - DO NOT EDIT\n// This file aggregates all generated integration tests.\n\nimport 'user_login-flow_test.dart' as user_login_flow;\nimport 'shop_test.dart' as shop;\n\nvoid main() {\n  user_login_flow.main();\n  shop.main();\n}\n"
    );
}

fn vars() -> Vars {
    Vars::all_from_curr_dir(&vec![
        YamlResult {
            file_name: "login_data".to_string(),
            content: VarsData(vec![
                ("user".to_string(), "alice".to_string()),
                ("pass".to_string(), "x".to_string()),
            ]),
        },
        YamlResult { file_name: "shop".to_string(), content: VarsData(vec![("item".to_string(), "book".to_string())]) },
    ])
}

#[test]
fn variables_become_classes() {
    let generator = GenFlutter::from_exec_dir("/p");
    assert_eq!(generator.generate_vars(&Vars::new()), None);
    let file = generator.generate_vars(&vars()).unwrap();
    assert_eq!(file.path, "/p/integration_test/generated/vars.dart");
    assert_eq!(
        file.content,
        "// GENERATED FILE - DO NOT EDIT\n// This file contains vars from all *.vars.yaml files in feature_test/\n\nclass LoginData {\n  static const pass = 'x';\n  static const user = 'alice';\n}\n\nclass Shop {\n  static const item = 'book';\n}\n\n"
    );
}

#[test]
fn pairs_are_sorted_by_name() {
    let pairs = |items: &[(&str, &str)]| -> Vec<(String, String)> {
        items.iter().map(|(k, v)| (k.to_string(), v.to_string())).collect()
    };
    assert_eq!(
        sort_by_name(&pairs(&[("b", "1"), ("a", "2"), ("ab", "3"), ("B", "4"), ("", "5"), ("a", "6")])),
        pairs(&[("", "5"), ("B", "4"), ("a", "2"), ("a", "6"), ("ab", "3"), ("b", "1")])
    );
    assert_eq!(sort_by_name(&vec![]), vec![]);
}

#[test]
fn fixed_files_are_written_as_they_are() {
    let generator = GenFlutter::from_exec_dir("/p");
    let helpers = generator.generate_helpers();
    assert_eq!(helpers.path, "/p/integration_test/generated/helpers.dart");
    assert_eq!(helpers.content, HELPERS_DART);
    assert!(HELPERS_DART.starts_with("// GENERATED FILE - DO NOT EDIT\nimport 'dart:io';\n"));
    assert!(HELPERS_DART.ends_with("}, description: 'Widget with ValueKey prefix \"$prefix\"');\n  }\n}\n"));
    assert_eq!(HELPERS_DART.len(), 7366);
    assert_eq!(HELPERS_DART.lines().count(), 222);
    let driver = generator.generate_test_driver("/p");
    assert_eq!(driver.path, "/p/test_driver/integration_test.dart");
    assert_eq!(
        TEST_DRIVER_DART,
        "// GENERATED FILE - DO NOT EDIT\nimport 'package:integration_test/integration_test_driver.dart';\n\nFuture<void> main() => integrationDriver();\n"
    );
    let dbus = generator.generate_dbus();
    assert_eq!(dbus.path, "/p/integration_test/generated/dbus.dart");
    assert!(dbus.content.contains("static const String PATH = '/one/playmaster/E2E';"));
    assert!(dbus.content.contains("static const String INTERFACE = 'one.playmaster.E2E';"));
    assert!(dbus.content.contains("static const String METHOD_CONTINUE = 'Continue';"));
    assert!(!dbus.content.contains("{DBUS_"));
}

#[test]
fn generation_lists_files_and_tools() {
    let gen = CodeGen::new(AppArgs { command: Command::Gen }, Config::new(ProjectType::Flutter), vars());
    let nothing = gen.execute(&GenState { features: vec![] }, "/p");
    assert_eq!(nothing.out_dir, None);
    assert!(nothing.files.is_empty() && nothing.tools.is_empty());
    let plan = gen.execute(&GenState { features: vec![login_feature(), feature("Shop")] }, "/p");
    assert_eq!(plan.out_dir, Some("/p/integration_test/generated".to_string()));
    let paths: Vec<&str> = plan.files.iter().map(|f| f.path.as_str()).collect();
    assert_eq!(
        paths,
        vec![
            "/p/integration_test/generated/helpers.dart",
            "/p/integration_test/generated/user_login-flow_test.dart",
            "/p/integration_test/generated/shop_test.dart",
            "/p/integration_test/generated/all_tests.dart",
            "/p/integration_test/generated/vars.dart",
            "/p/test_driver/integration_test.dart",
        ]
    );
    assert_eq!(plan.tools[0].program, "dart");
    assert_eq!(plan.tools[0].args, vec!["format", "/p/integration_test/generated"]);
    assert_eq!(plan.tools[1].args, vec!["fix", "/p/integration_test/generated", "--apply"]);
    assert_eq!(gen.get_generators("/p").len(), 1);
}
