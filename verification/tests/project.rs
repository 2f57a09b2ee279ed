use playmaster::code_run::pubspec::{cleaned_pubspec, Yaml};
use playmaster::schemas::schema_gen::{SchemaGen, SchemaKind};
use playmaster::utils::flutter::FlutterUtils;
use playmaster::utils::variables::VariablesUtils;

fn text(s: &str) -> Yaml {
    Yaml::Text(s.to_string())
}

fn show(v: &Yaml) -> String {
    format!("{v:?}")
}

fn sdk(names: &[&str]) -> Yaml {
    Yaml::Mapping(
        names
            .iter()
            .map(|n| (text(n), Yaml::Mapping(vec![(text("sdk"), text("flutter"))])))
            .collect(),
    )
}

#[test]
fn pubspec_keeps_only_sdk_dependencies() {
    let root = Yaml::Mapping(vec![
        (text("name"), text("shop")),
        (text("dependency_overrides"), Yaml::Mapping(vec![(text("http"), text("1.0.0"))])),
        (text("dependencies"), Yaml::Mapping(vec![(text("http"), text("^1.2.0"))])),
        (text("version"), Yaml::Number("3".to_string())),
        (text("flutter"), Yaml::Mapping(vec![(text("uses-material-design"), Yaml::Bool(true))])),
    ]);
    let cleaned = cleaned_pubspec(root).unwrap();
    let expected = Yaml::Mapping(vec![
        (text("name"), text("shop")),
        (text("dev_dependencies"), sdk(&["flutter_test", "integration_test"])),
        (text("dependencies"), sdk(&["flutter"])),
        (text("version"), Yaml::Number("3".to_string())),
        (text("flutter"), Yaml::Mapping(vec![(text("uses-material-design"), Yaml::Bool(true))])),
    ]);
    assert_eq!(show(&cleaned), show(&expected));
}

#[test]
fn pubspec_gets_what_it_lacks() {
    let cleaned = cleaned_pubspec(Yaml::Mapping(vec![])).unwrap();
    let expected = Yaml::Mapping(vec![
        (text("dependencies"), sdk(&["flutter"])),
        (text("dev_dependencies"), sdk(&["flutter_test", "integration_test"])),
    ]);
    assert_eq!(show(&cleaned), show(&expected));
    let last = cleaned_pubspec(Yaml::Mapping(vec![
        (text("dev_dependencies"), Yaml::Null),
        (text("dependency_overrides"), Yaml::Null),
    ]))
    .unwrap();
    let expected = Yaml::Mapping(vec![
        (text("dev_dependencies"), sdk(&["flutter_test", "integration_test"])),
        (text("dependencies"), sdk(&["flutter"])),
    ]);
    assert_eq!(show(&last), show(&expected));
}

#[test]
fn pubspec_must_be_a_mapping() {
    assert_eq!(
        cleaned_pubspec(Yaml::Sequence(vec![])).unwrap_err(),
        "pubspec.yaml root is not a mapping"
    );
    assert_eq!(cleaned_pubspec(Yaml::Null).unwrap_err(), "pubspec.yaml root is not a mapping");
    assert!(cleaned_pubspec(Yaml::Tagged("x".to_string(), Box::new(Yaml::Null))).is_err());
}

#[test]
fn application_is_named_by_its_description() {
    let named = Yaml::Mapping(vec![(text("version"), text("1")), (text("name"), text("shop"))]);
    assert_eq!(FlutterUtils::get_name(&named, "dir"), "shop");
    let odd = Yaml::Mapping(vec![(text("name"), Yaml::Number("7".to_string()))]);
    assert_eq!(FlutterUtils::get_name(&odd, "dir"), "dir");
    assert_eq!(FlutterUtils::get_name(&Yaml::Mapping(vec![]), "dir"), "dir");
    assert_eq!(FlutterUtils::get_name(&Yaml::Null, "unknown"), "unknown");
    assert!(FlutterUtils::has_main_with_args(Some("void main(List<String> args) {}")));
    assert!(!FlutterUtils::has_main_with_args(Some("void main() {}")));
    assert!(!FlutterUtils::has_main_with_args(None));
}

#[test]
fn schemas_go_below_the_sources() {
    let files = SchemaGen::new().execute("/p");
    assert_eq!(files.len(), 2);
    assert_eq!(files[0].kind, SchemaKind::FeatureTest);
    assert_eq!(files[0].path, "/p/src/schemas/generated/feature_test_schema.json");
    assert_eq!(files[1].kind, SchemaKind::Config);
    assert_eq!(files[1].path, "/p/src/schemas/generated/config.json");
}

#[test]
fn environment_variables_are_expanded() {
    let env: Vec<(String, String)> = [("HOME", "/home/dev"), ("A_1", "x"), ("EMPTY", "")]
        .iter()
        .map(|(k, v)| (k.to_string(), v.to_string()))
        .collect();
    let expand = |s: &str| VariablesUtils::expand_env_vars(s, &env);
    assert_eq!(expand("${HOME}/bin:$HOME/lib"), "/home/dev/bin:/home/dev/lib");
    assert_eq!(expand("$A_1$A_1${A_1}"), "xxx");
    assert_eq!(expand("[$MISSING][${MISSING}][$EMPTY]"), "[][][]");
    assert_eq!(expand("$HOMEX"), "");
    assert_eq!(expand("${1}"), "");
    assert_eq!(expand("$1 ${} ${HOME ${A-B} $ $$"), "$1 ${} ${HOME ${A-B} $ $$");
    assert_eq!(expand("awk '{print $2}'"), "awk '{print $2}'");
    assert_eq!(expand("price: 5$"), "price: 5$");
    assert_eq!(expand(""), "");
}
