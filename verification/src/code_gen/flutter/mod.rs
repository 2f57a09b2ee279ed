//! Generating the tests of a Flutter project.
//!
//! Every function here makes text. Writing the files, and running the
//! formatter over them, is the caller's business.

pub mod dbus;
pub mod entrypoint;
pub mod helper;
pub mod test_driver;
pub mod utils;
pub mod vars;

use crate::code_gen::gen_iface::CodeGenTrait;
use crate::models::config::{pair_texts, ProjectType};
use crate::models::feature_test::{
    FeatureTest, FindBy, MatchTarget, PointerAction, ProgressWidgetType, SimpleStep, Step, TestCase,
    WaitFor,
};
use crate::models::vars::Vars;
use crate::text::{
    chars_to_string, comes_before, decimal, decimal_string, replace_text, replaced, same_text,
    signed_decimal, signed_decimal_string, text_before, to_chars,
};
use crate::utils::dir::{joined, DirUtils};
use crate::utils::string::{lower_case_of, to_lower_case};
use crate::utils::variables::{filled, Fill};
use vstd::prelude::*;
use vstd::string::*;

verus! {

/// A file that the generator makes.
#[derive(Clone, Debug, PartialEq, Eq)]
pub struct GeneratedFile {
    pub path: String,
    pub content: String,
}

/// The first line of every file that the generator makes.
pub open spec fn banner() -> Seq<char> {
    "// GENERATED FILE - DO NOT EDIT\n"@
}

/// `s` with its placeholders turned into references to variables.
pub open spec fn usage(s: Seq<char>) -> Seq<char> {
    filled(s, Fill::Usage)
}

/// The finder for a widget.
pub open spec fn find_by_code(by: FindBy) -> Seq<char> {
    match by {
        FindBy::Key { key } => "find.byKey(Key('"@ + usage(key@) + "'))"@,
        FindBy::Text { text } => "find.text('"@ + usage(text@) + "')"@,
        FindBy::Placeholder { placeholder } => "find.byPlaceholder('"@ + usage(placeholder@) + "')"@,
        FindBy::Type { widget } => "find.byType("@ + usage(widget@) + ")"@,
    }
}

/// A span of time: the one given, or the default.
pub open spec fn duration_code(duration: Option<u32>, default_ms: u32) -> Seq<char> {
    "Duration(milliseconds: "@ + decimal(
        match duration {
            Some(d) => d as nat,
            None => default_ms as nat,
        },
    ) + ")"@
}

/// The line that lets the screen settle, if that is wanted.
pub open spec fn settle_code(settle: bool) -> Seq<char> {
    if settle {
        "      await tester.pumpAndSettle();\n"@
    } else {
        Seq::empty()
    }
}

/// How a truth value is written.
pub open spec fn bool_text(b: bool) -> Seq<char> {
    if b {
        "true"@
    } else {
        "false"@
    }
}

/// The code of a step that waits.
pub open spec fn wait_for_code(w: WaitFor) -> Seq<char> {
    match w {
        WaitFor::Key { key, timeout_millis, settle } => "      await tester.pumpUntilFound(find.byKey(Key('"@
            + usage(key@) + "')), timeout: "@ + duration_code(timeout_millis, 5000) + ");\n"@
            + settle_code(settle),
        WaitFor::Text { text, timeout_millis, settle } => "      await tester.pumpUntilFound(find.text('"@
            + usage(text@) + "'), timeout: "@ + duration_code(timeout_millis, 5000) + ");\n"@
            + settle_code(settle),
        WaitFor::Delay { delay, settle } => "      await tester.pump(Duration(milliseconds: "@
            + decimal(delay as nat) + "));\n"@ + settle_code(settle),
        WaitFor::Progress { progress, timeout_millis, settle } => "      await tester.pumpUntilProgressCompleted(find.byType("@
            + (match progress {
            ProgressWidgetType::Linear => "LinearProgressIndicator"@,
            ProgressWidgetType::Radial => "CircularProgressIndicator"@,
        }) + "), timeout: "@ + duration_code(timeout_millis, 30000) + ");\n"@ + settle_code(settle),
    }
}

/// The steps that go by the name `name`: those of the last definition with
/// this name.
pub open spec fn defined_steps(defs: Seq<(String, Vec<Step>)>, name: Seq<char>) -> Option<Seq<Step>>
    decreases defs.len(),
{
    if defs.len() == 0 {
        None
    } else if defs.last().0@ == name {
        Some(defs.last().1@)
    } else {
        defined_steps(defs.drop_last(), name)
    }
}

/// The code of a step that is neither a use of named steps nor a wait.
pub open spec fn plain_step_code(step: Step, file_name: Seq<char>) -> Seq<char> {
    match step {
        Step::Simple(SimpleStep::Settle) => "      await tester.pumpAndSettle();\n"@,
        Step::NotFound { not_found, timeout_millis } => "      await tester.waitUntilGone("@
            + find_by_code(not_found) + ", timeout: "@ + duration_code(timeout_millis, 10000)
            + ");\n"@,
        Step::Tap { tap } => "      await tester.pumpAndSettle();\n      await tester.tap("@
            + find_by_code(tap)
            + ", kind: PointerDeviceKind.mouse);\n      await tester.pumpAndSettle();\n"@,
        Step::Type { typing } => "      await tester.type("@ + find_by_code(typing.by) + ", "@
            + usage(typing.value@) + ");\n"@,
        Step::Match { matching } => match matching.target {
            MatchTarget::Key { key } => "      expect(find.byKey(Key('"@ + usage(key@)
                + "')), findsOneWidget);\n"@,
            MatchTarget::Text { text } => "      expect(find.text('"@ + usage(text@)
                + "'), findsOneWidget);\n"@,
            MatchTarget::Screenshot { screenshot } => "      await tester.compareScreenshot('"@
                + file_name + "', '"@ + usage(screenshot@) + "');\n"@,
        },
        Step::Scroll { scroll } => "      await tester.drag("@ + find_by_code(scroll.by)
            + ", const Offset("@ + signed_decimal(scroll.delta.x as int) + ", "@ + signed_decimal(
            scroll.delta.y as int,
        ) + "));\n"@,
        Step::Pointer { pointer } => match pointer {
            PointerAction::Move { to, remove } => "      await tester.movePointer(Offset("@
                + signed_decimal(to.x as int) + ", "@ + signed_decimal(to.y as int)
                + "), remove: "@ + bool_text(remove) + ");\n"@,
        },
        Step::UserInput { user_input } => "      await tester.waitForInputViaDBus('"@
            + user_input.name@ + "');\n"@,
        Step::WaitFor { wait_for } => wait_for_code(wait_for),
        Step::Use { use_step } => Seq::empty(),
    }
}

/// The code of a step. Named steps are put in the place of their use, and
/// uses inside them again, `depth` levels deep; a use below that, which
/// only definitions that use one another in a circle can reach, is left
/// as a remark.
pub open spec fn step_code(
    step: Step,
    defs: Seq<(String, Vec<Step>)>,
    file_name: Seq<char>,
    depth: nat,
) -> Seq<char>
    decreases depth, 0int, 0int,
{
    match step {
        Step::Use { use_step } => match defined_steps(defs, use_step@) {
            Some(steps) => if depth == 0 {
                "      // Step definition '"@ + use_step@ + "' uses itself.\n"@
            } else {
                steps_code(steps, defs, file_name, (depth - 1) as nat, steps.len() as int)
            },
            None => "      // Step definition '"@ + use_step@ + "' not found.\n"@,
        },
        _ => plain_step_code(step, file_name),
    }
}

/// The code of the first `upto` steps of `steps`, one after the other.
pub open spec fn steps_code(
    steps: Seq<Step>,
    defs: Seq<(String, Vec<Step>)>,
    file_name: Seq<char>,
    depth: nat,
    upto: int,
) -> Seq<char>
    decreases depth, 1int, upto,
{
    if upto <= 0 || upto > steps.len() {
        Seq::empty()
    } else {
        steps_code(steps, defs, file_name, depth, upto - 1) + step_code(
            steps[upto - 1],
            defs,
            file_name,
            depth,
        )
    }
}

/// The code of a step of a feature whose named steps are `defs`.
pub open spec fn dart_code(step: Step, defs: Seq<(String, Vec<Step>)>, file_name: Seq<char>) -> Seq<
    char,
> {
    step_code(step, defs, file_name, defs.len())
}

/// The code of the first `upto` steps of a test: each behind a remark
/// line and before an empty line.
pub open spec fn test_steps_code(
    steps: Seq<Step>,
    defs: Seq<(String, Vec<Step>)>,
    file_name: Seq<char>,
    upto: int,
) -> Seq<char>
    decreases upto,
{
    if upto <= 0 || upto > steps.len() {
        Seq::empty()
    } else {
        test_steps_code(steps, defs, file_name, upto - 1) + "      //\n"@ + dart_code(
            steps[upto - 1],
            defs,
            file_name,
        ) + "\n"@
    }
}

/// The code of the first `upto` steps that run before each test.
pub open spec fn before_steps_code(
    steps: Seq<Step>,
    defs: Seq<(String, Vec<Step>)>,
    file_name: Seq<char>,
    upto: int,
) -> Seq<char>
    decreases upto,
{
    if upto <= 0 || upto > steps.len() {
        Seq::empty()
    } else {
        before_steps_code(steps, defs, file_name, upto - 1) + dart_code(
            steps[upto - 1],
            defs,
            file_name,
        )
    }
}

/// The name of a feature's file, without its ending: the feature's name
/// in lower case, with `_` for every space, and `_test`.
pub open spec fn test_file_stem(name: Seq<char>) -> Seq<char> {
    replaced(lower_case_of(name), " "@, "_"@) + "_test"@
}

/// The code of one test of a feature.
pub open spec fn test_code(
    test: TestCase,
    defs: Seq<(String, Vec<Step>)>,
    file_name: Seq<char>,
    has_before_each: bool,
) -> Seq<char> {
    "    testWidgets('"@ + test.name@ + "', (tester) async {\n"@
        + "      await tester.initializeTest('"@ + usage(test.state@) + "');"@ + (if has_before_each {
        "      await beforeEach(tester);\n"@
    } else {
        "\n"@
    }) + "\n"@ + test_steps_code(test.steps@, defs, file_name, test.steps@.len() as int)
        + "    });\n\n"@
}

/// The code of the first `upto` tests of a feature.
pub open spec fn tests_code(feature: FeatureTest, upto: int) -> Seq<char>
    decreases upto,
{
    if upto <= 0 || upto > feature.tests@.len() {
        Seq::empty()
    } else {
        tests_code(feature, upto - 1) + test_code(
            feature.tests@[upto - 1],
            feature.step_definitions@,
            test_file_stem(feature.name@),
            feature.before_each is Some,
        )
    }
}

/// The index of the pair with the smallest name among the first `n`; the
/// first such index if the name stands more than once.
pub open spec fn smallest_index(pairs: Seq<(Seq<char>, Seq<char>)>, n: int) -> int
    decreases n,
{
    if n <= 1 {
        0
    } else {
        let before = smallest_index(pairs, n - 1);
        if text_before(pairs[n - 1].0, pairs[before].0) {
            n - 1
        } else {
            before
        }
    }
}

/// The pairs in the order of their names: the smallest is taken out, then
/// the smallest of what is left, and so on.
pub open spec fn by_name(pairs: Seq<(Seq<char>, Seq<char>)>) -> Seq<(Seq<char>, Seq<char>)>
    decreases pairs.len(),
{
    if pairs.len() == 0 {
        Seq::empty()
    } else {
        let i = smallest_index(pairs, pairs.len() as int);
        if 0 <= i < pairs.len() {
            seq![pairs[i]] + by_name(pairs.remove(i))
        } else {
            Seq::empty()
        }
    }
}

/// The lines that declare the first `upto` of `pairs` as constants, each
/// line beginning with `lead`.
pub open spec fn constants_code(lead: Seq<char>, pairs: Seq<(Seq<char>, Seq<char>)>, upto: int) -> Seq<
    char,
>
    decreases upto,
{
    if upto <= 0 || upto > pairs.len() {
        Seq::empty()
    } else {
        constants_code(lead, pairs, upto - 1) + lead + pairs[upto - 1].0 + " = '"@ + pairs[upto
            - 1].1 + "';\n"@
    }
}

/// What stands before the tests in a feature's file.
pub open spec fn head_code() -> Seq<char> {
    banner() + "import 'dart:ui';\n"@ + "import 'package:flutter_test/flutter_test.dart';\n"@
        + "import 'package:flutter/material.dart';\n"@
        + "import 'package:integration_test/integration_test.dart';\n"@
        + "import 'helpers.dart';\n"@ + "import 'vars.dart';\n\n"@ + "void main() {\n"@
        + "  IntegrationTestWidgetsFlutterBinding.ensureInitialized();\n\n"@
}

/// The function that runs before each test, if the feature has steps for
/// it.
pub open spec fn before_each_code(feature: FeatureTest) -> Seq<char> {
    match feature.before_each {
        Some(before) => if before.steps@.len() > 0 {
            "\nbeforeEach(WidgetTester tester) async {\n    "@ + before_steps_code(
                before.steps@,
                feature.step_definitions@,
                test_file_stem(feature.name@),
                before.steps@.len() as int,
            ) + "\n}\n        "@
        } else {
            Seq::empty()
        },
        None => Seq::empty(),
    }
}

/// The constants of a feature, in the order of their names.
pub open spec fn feature_vars_code(feature: FeatureTest) -> Seq<char> {
    if feature.vars@.len() > 0 {
        constants_code(
            "  const "@,
            by_name(pair_texts(feature.vars@)),
            by_name(pair_texts(feature.vars@)).len() as int,
        ) + "\n\n"@
    } else {
        Seq::empty()
    }
}

/// The text of a feature's file.
pub open spec fn feature_code(feature: FeatureTest) -> Seq<char> {
    head_code() + before_each_code(feature) + feature_vars_code(feature) + "  group('"@
        + feature.name@ + "', () {\n"@ + tests_code(feature, feature.tests@.len() as int)
        + "  });\n}\n"@
}

/// The pairs in the order of their names.
pub fn sort_by_name(pairs: &Vec<(String, String)>) -> (out: Vec<(String, String)>)
    ensures
        pair_texts(out@) == by_name(pair_texts(pairs@)),
{
    let mut rest: Vec<(Vec<char>, Vec<char>)> = Vec::new();
    let mut k: usize = 0;
    while k < pairs.len()
        invariant
            k <= pairs.len(),
            rest@.len() == k,
            forall|i: int|
                0 <= i < k ==> (#[trigger] rest@[i]).0@ == pairs@[i].0@ && rest@[i].1@
                    == pairs@[i].1@,
        decreases pairs.len() - k,
    {
        rest.push((to_chars(pairs[k].0.as_str()), to_chars(pairs[k].1.as_str())));
        k += 1;
    }
    let ghost all = pair_texts(pairs@);
    let mut out: Vec<(String, String)> = Vec::new();
    proof {
        assert(char_pairs(rest@) =~= all);
        assert(pair_texts(out@) =~= Seq::empty());
        assert(pair_texts(out@) + by_name(char_pairs(rest@)) =~= by_name(all));
    }
    while rest.len() > 0
        invariant
            by_name(all) == pair_texts(out@) + by_name(char_pairs(rest@)),
        decreases rest.len(),
    {
        let mut best: usize = 0;
        let mut j: usize = 1;
        while j < rest.len()
            invariant
                1 <= j <= rest.len(),
                best < j,
                best == smallest_index(char_pairs(rest@), j as int),
            decreases rest.len() - j,
        {
            if comes_before(&rest[j].0, &rest[best].0) {
                best = j;
            }
            j += 1;
        }
        let ghost before = char_pairs(rest@);
        let ghost done = pair_texts(out@);
        let taken = rest.remove(best);
        let key = chars_to_string(&taken.0);
        let value = chars_to_string(&taken.1);
        out.push((key, value));
        proof {
            assert(char_pairs(rest@) =~= before.remove(best as int));
            assert(pair_texts(out@) =~= done.push(before[best as int]));
            assert(done.push(before[best as int]) + by_name(char_pairs(rest@)) =~= done + (seq![
                before[best as int],
            ] + by_name(char_pairs(rest@))));
        }
    }
    proof {
        assert(pair_texts(out@) + Seq::<(Seq<char>, Seq<char>)>::empty() =~= pair_texts(out@));
    }
    out
}

pub open spec fn char_pairs(pairs: Seq<(Vec<char>, Vec<char>)>) -> Seq<(Seq<char>, Seq<char>)> {
    Seq::new(pairs.len(), |i: int| (pairs[i].0@, pairs[i].1@))
}

/// The lines that declare `pairs` as constants.
pub fn constants(lead: &str, pairs: &Vec<(String, String)>) -> (out: String)
    ensures
        out@ == constants_code(lead@, pair_texts(pairs@), pairs@.len() as int),
{
    let mut out = String::new();
    let mut i: usize = 0;
    while i < pairs.len()
        invariant
            i <= pairs.len(),
            out@ == constants_code(lead@, pair_texts(pairs@), i as int),
        decreases pairs.len() - i,
    {
        let mut line = String::from_str(lead);
        line.append(pairs[i].0.as_str());
        line.append(" = '");
        line.append(pairs[i].1.as_str());
        line.append("';\n");
        proof {
            let before = constants_code(lead@, pair_texts(pairs@), i as int);
            assert(before + line@ =~= before + lead@ + pairs@[i as int].0@ + " = '"@
                + pairs@[i as int].1@ + "';\n"@);
        }
        out.append(line.as_str());
        i += 1;
    }
    out
}

/// The generator for Flutter projects.
#[derive(Clone, Debug, PartialEq, Eq)]
pub struct GenFlutter {
    /// The directory into which the files are written.
    pub out_dir: String,
}

impl CodeGenTrait for GenFlutter {
    open spec fn project_type(&self) -> ProjectType {
        ProjectType::Flutter
    }

    fn get_type(&self) -> (t: ProjectType) {
        ProjectType::Flutter
    }
}

impl GenFlutter {
    /// The generator that writes into `integration_test/generated` below
    /// the project's directory `curr_dir`.
    pub fn from_exec_dir(curr_dir: &str) -> (generator: Self)
        ensures
            generator.out_dir@ == joined(curr_dir@, "integration_test/generated"@),
    {
        GenFlutter { out_dir: DirUtils::join(curr_dir, "integration_test/generated") }
    }
}

fn find_code(vars: &Vars, by: &FindBy) -> (out: String)
    ensures
        out@ == find_by_code(*by),
{
    match by {
        FindBy::Key { key } => {
            let mut s = String::from_str("find.byKey(Key('");
            s.append(vars.replace_var_usage(key.as_str()).as_str());
            s.append("'))");
            s
        },
        FindBy::Text { text } => {
            let mut s = String::from_str("find.text('");
            s.append(vars.replace_var_usage(text.as_str()).as_str());
            s.append("')");
            s
        },
        FindBy::Placeholder { placeholder } => {
            let mut s = String::from_str("find.byPlaceholder('");
            s.append(vars.replace_var_usage(placeholder.as_str()).as_str());
            s.append("')");
            s
        },
        FindBy::Type { widget } => {
            let mut s = String::from_str("find.byType(");
            s.append(vars.replace_var_usage(widget.as_str()).as_str());
            s.append(")");
            s
        },
    }
}

fn wait_code(vars: &Vars, w: &WaitFor) -> (out: String)
    ensures
        out@ == wait_for_code(*w),
{
    match w {
        WaitFor::Key { key, timeout_millis, settle } => {
            let mut s = String::from_str("      await tester.pumpUntilFound(find.byKey(Key('");
            s.append(vars.replace_var_usage(key.as_str()).as_str());
            s.append("')), timeout: ");
            s.append(Step::duration(*timeout_millis, 5000).as_str());
            s.append(");\n");
            s.append(Step::settle(*settle).as_str());
            s
        },
        WaitFor::Text { text, timeout_millis, settle } => {
            let mut s = String::from_str("      await tester.pumpUntilFound(find.text('");
            s.append(vars.replace_var_usage(text.as_str()).as_str());
            s.append("'), timeout: ");
            s.append(Step::duration(*timeout_millis, 5000).as_str());
            s.append(");\n");
            s.append(Step::settle(*settle).as_str());
            s
        },
        WaitFor::Delay { delay, settle } => {
            let mut s = String::from_str("      await tester.pump(Duration(milliseconds: ");
            s.append(decimal_string(*delay).as_str());
            s.append("));\n");
            s.append(Step::settle(*settle).as_str());
            s
        },
        WaitFor::Progress { progress, timeout_millis, settle } => {
            let mut s = String::from_str(
                "      await tester.pumpUntilProgressCompleted(find.byType(",
            );
            match progress {
                ProgressWidgetType::Linear => {
                    s.append("LinearProgressIndicator");
                },
                ProgressWidgetType::Radial => {
                    s.append("CircularProgressIndicator");
                },
            }
            s.append("), timeout: ");
            s.append(Step::duration(*timeout_millis, 30000).as_str());
            s.append(");\n");
            s.append(Step::settle(*settle).as_str());
            s
        },
    }
}

fn plain_code(vars: &Vars, step: &Step, file_name: &str) -> (out: String)
    ensures
        out@ == plain_step_code(*step, file_name@),
{
    match step {
        Step::Simple(simple) => match simple {
            SimpleStep::Settle => String::from_str("      await tester.pumpAndSettle();\n"),
        },
        Step::NotFound { not_found, timeout_millis } => {
            let mut s = String::from_str("      await tester.waitUntilGone(");
            s.append(find_code(vars, not_found).as_str());
            s.append(", timeout: ");
            s.append(Step::duration(*timeout_millis, 10000).as_str());
            s.append(");\n");
            s
        },
        Step::Tap { tap } => {
            let mut s = String::from_str(
                "      await tester.pumpAndSettle();\n      await tester.tap(",
            );
            s.append(find_code(vars, tap).as_str());
            s.append(", kind: PointerDeviceKind.mouse);\n      await tester.pumpAndSettle();\n");
            s
        },
        Step::Type { typing } => {
            let mut s = String::from_str("      await tester.type(");
            s.append(find_code(vars, &typing.by).as_str());
            s.append(", ");
            s.append(vars.replace_var_usage(typing.value.as_str()).as_str());
            s.append(");\n");
            s
        },
        Step::Match { matching } => match &matching.target {
            MatchTarget::Key { key } => {
                let mut s = String::from_str("      expect(find.byKey(Key('");
                s.append(vars.replace_var_usage(key.as_str()).as_str());
                s.append("')), findsOneWidget);\n");
                s
            },
            MatchTarget::Text { text } => {
                let mut s = String::from_str("      expect(find.text('");
                s.append(vars.replace_var_usage(text.as_str()).as_str());
                s.append("'), findsOneWidget);\n");
                s
            },
            MatchTarget::Screenshot { screenshot } => {
                let mut s = String::from_str("      await tester.compareScreenshot('");
                s.append(file_name);
                s.append("', '");
                s.append(vars.replace_var_usage(screenshot.as_str()).as_str());
                s.append("');\n");
                s
            },
        },
        Step::Scroll { scroll } => {
            let mut s = String::from_str("      await tester.drag(");
            s.append(find_code(vars, &scroll.by).as_str());
            s.append(", const Offset(");
            s.append(signed_decimal_string(scroll.delta.x as i64).as_str());
            s.append(", ");
            s.append(signed_decimal_string(scroll.delta.y as i64).as_str());
            s.append("));\n");
            s
        },
        Step::Pointer { pointer } => match pointer {
            PointerAction::Move { to, remove } => {
                let mut s = String::from_str("      await tester.movePointer(Offset(");
                s.append(signed_decimal_string(to.x as i64).as_str());
                s.append(", ");
                s.append(signed_decimal_string(to.y as i64).as_str());
                s.append("), remove: ");
                if *remove {
                    s.append("true");
                } else {
                    s.append("false");
                }
                s.append(");\n");
                s
            },
        },
        Step::UserInput { user_input } => {
            let mut s = String::from_str("      await tester.waitForInputViaDBus('");
            s.append(user_input.name.as_str());
            s.append("');\n");
            s
        },
        Step::WaitFor { wait_for } => wait_code(vars, wait_for),
        Step::Use { use_step } => String::new(),
    }
}

fn find_steps<'a>(defs: &'a Vec<(String, Vec<Step>)>, name: &str) -> (r: Option<&'a Vec<Step>>)
    ensures
        match r {
            Some(steps) => defined_steps(defs@, name@) == Some(steps@),
            None => defined_steps(defs@, name@) is None,
        },
{
    let mut i: usize = defs.len();
    proof {
        assert(defs@.take(i as int) =~= defs@);
    }
    while i > 0
        invariant
            i <= defs.len(),
            defined_steps(defs@, name@) == defined_steps(defs@.take(i as int), name@),
        decreases i,
    {
        proof {
            let upto = defs@.take(i as int);
            assert(upto.last() == defs@[i - 1]);
            assert(upto.drop_last() =~= defs@.take(i - 1));
        }
        if same_text(defs[i - 1].0.as_str(), name) {
            return Some(&defs[i - 1].1);
        }
        i -= 1;
    }
    None
}

fn code_of_step(
    vars: &Vars,
    step: &Step,
    defs: &Vec<(String, Vec<Step>)>,
    file_name: &str,
    depth: usize,
) -> (out: String)
    ensures
        out@ == step_code(*step, defs@, file_name@, depth as nat),
    decreases depth, 0int, 0int,
{
    match step {
        Step::Use { use_step } => match find_steps(defs, use_step.as_str()) {
            Some(steps) => {
                if depth == 0 {
                    let mut s = String::from_str("      // Step definition '");
                    s.append(use_step.as_str());
                    s.append("' uses itself.\n");
                    s
                } else {
                    code_of_steps(vars, steps, defs, file_name, depth - 1)
                }
            },
            None => {
                let mut s = String::from_str("      // Step definition '");
                s.append(use_step.as_str());
                s.append("' not found.\n");
                s
            },
        },
        _ => plain_code(vars, step, file_name),
    }
}

fn code_of_steps(
    vars: &Vars,
    steps: &Vec<Step>,
    defs: &Vec<(String, Vec<Step>)>,
    file_name: &str,
    depth: usize,
) -> (out: String)
    ensures
        out@ == steps_code(steps@, defs@, file_name@, depth as nat, steps@.len() as int),
    decreases depth, 1int, steps@.len(),
{
    let mut out = String::new();
    let mut i: usize = 0;
    while i < steps.len()
        invariant
            i <= steps.len(),
            out@ == steps_code(steps@, defs@, file_name@, depth as nat, i as int),
        decreases steps.len() - i,
    {
        let code = code_of_step(vars, &steps[i], defs, file_name, depth);
        out.append(code.as_str());
        i += 1;
    }
    out
}

impl Step {
    /// The code of the step, for the feature whose named steps are
    /// `step_definitions` and whose file is named `file_name`.
    pub fn to_dart_code(
        &self,
        vars: &Vars,
        step_definitions: &Vec<(String, Vec<Step>)>,
        file_name: &str,
    ) -> (code: String)
        ensures
            code@ == dart_code(*self, step_definitions@, file_name@),
    {
        code_of_step(vars, self, step_definitions, file_name, step_definitions.len())
    }

    /// The finder for a widget.
    pub fn find_by(vars: &Vars, by: &FindBy) -> (code: String)
        ensures
            code@ == find_by_code(*by),
    {
        find_code(vars, by)
    }

    /// A span of time: the one given, or `default_ms` milliseconds.
    pub fn duration(duration: Option<u32>, default_ms: u32) -> (code: String)
        ensures
            code@ == duration_code(duration, default_ms),
    {
        let ms: u32 = match duration {
            Some(d) => d,
            None => default_ms,
        };
        let mut s = String::from_str("Duration(milliseconds: ");
        s.append(decimal_string(ms as u64).as_str());
        s.append(")");
        s
    }

    /// The line that lets the screen settle, if that is wanted.
    pub fn settle(settle: bool) -> (code: String)
        ensures
            code@ == settle_code(settle),
    {
        if settle {
            String::from_str("      await tester.pumpAndSettle();\n")
        } else {
            String::new()
        }
    }
}

impl FeatureTest {
    /// The name of the feature's file, without its ending.
    pub fn file_stem(&self) -> (stem: String)
        ensures
            stem@ == test_file_stem(self.name@),
    {
        let lower = to_lower_case(self.name.as_str());
        let mut stem = replace_text(lower.as_str(), " ", "_");
        stem.append("_test");
        stem
    }

    fn test_steps(vars: &Vars, steps: &Vec<Step>, defs: &Vec<(String, Vec<Step>)>, file_name: &str) -> (out:
        String)
        ensures
            out@ == test_steps_code(steps@, defs@, file_name@, steps@.len() as int),
    {
        let mut out = String::new();
        let mut i: usize = 0;
        while i < steps.len()
            invariant
                i <= steps.len(),
                out@ == test_steps_code(steps@, defs@, file_name@, i as int),
            decreases steps.len() - i,
        {
            let mut piece = String::from_str("      //\n");
            piece.append(steps[i].to_dart_code(vars, defs, file_name).as_str());
            piece.append("\n");
            proof {
                let before = test_steps_code(steps@, defs@, file_name@, i as int);
                assert(before + piece@ =~= before + "      //\n"@ + dart_code(
                    steps@[i as int],
                    defs@,
                    file_name@,
                ) + "\n"@);
            }
            out.append(piece.as_str());
            i += 1;
        }
        out
    }

    fn before_steps(vars: &Vars, steps: &Vec<Step>, defs: &Vec<(String, Vec<Step>)>, file_name: &str) -> (out:
        String)
        ensures
            out@ == before_steps_code(steps@, defs@, file_name@, steps@.len() as int),
    {
        let mut out = String::new();
        let mut i: usize = 0;
        while i < steps.len()
            invariant
                i <= steps.len(),
                out@ == before_steps_code(steps@, defs@, file_name@, i as int),
            decreases steps.len() - i,
        {
            out.append(steps[i].to_dart_code(vars, defs, file_name).as_str());
            i += 1;
        }
        out
    }

    fn one_test(&self, vars: &Vars, test: &TestCase, file_name: &str) -> (out: String)
        ensures
            out@ == test_code(*test, self.step_definitions@, file_name@, self.before_each is Some),
    {
        let mut out = String::from_str("    testWidgets('");
        out.append(test.name.as_str());
        out.append("', (tester) async {\n");
        out.append("      await tester.initializeTest('");
        out.append(vars.replace_var_usage(test.state.as_str()).as_str());
        out.append("');");
        if self.before_each.is_some() {
            out.append("      await beforeEach(tester);\n");
        } else {
            out.append("\n");
        }
        out.append("\n");
        out.append(
            Self::test_steps(vars, &test.steps, &self.step_definitions, file_name).as_str(),
        );
        out.append("    });\n\n");
        out
    }

    fn all_tests(&self, vars: &Vars, file_name: &str) -> (out: String)
        requires
            file_name@ == test_file_stem(self.name@),
        ensures
            out@ == tests_code(*self, self.tests@.len() as int),
    {
        let mut out = String::new();
        let mut i: usize = 0;
        while i < self.tests.len()
            invariant
                i <= self.tests.len(),
                file_name@ == test_file_stem(self.name@),
                out@ == tests_code(*self, i as int),
            decreases self.tests.len() - i,
        {
            out.append(self.one_test(vars, &self.tests[i], file_name).as_str());
            i += 1;
        }
        out
    }

    fn head() -> (out: String)
        ensures
            out@ == head_code(),
    {
        let mut out = String::from_str("// GENERATED FILE - DO NOT EDIT\n");
        out.append("import 'dart:ui';\n");
        out.append("import 'package:flutter_test/flutter_test.dart';\n");
        out.append("import 'package:flutter/material.dart';\n");
        out.append("import 'package:integration_test/integration_test.dart';\n");
        out.append("import 'helpers.dart';\n");
        out.append("import 'vars.dart';\n\n");
        out.append("void main() {\n");
        out.append("  IntegrationTestWidgetsFlutterBinding.ensureInitialized();\n\n");
        out
    }

    fn before_each_text(&self, vars: &Vars, file_name: &str) -> (out: String)
        requires
            file_name@ == test_file_stem(self.name@),
        ensures
            out@ == before_each_code(*self),
    {
        match &self.before_each {
            Some(before) => {
                if before.steps.len() > 0 {
                    let mut out = String::from_str("\nbeforeEach(WidgetTester tester) async {\n    ");
                    out.append(
                        Self::before_steps(vars, &before.steps, &self.step_definitions, file_name).as_str(),
                    );
                    out.append("\n}\n        ");
                    out
                } else {
                    String::new()
                }
            },
            None => String::new(),
        }
    }

    fn vars_text(&self) -> (out: String)
        ensures
            out@ == feature_vars_code(*self),
    {
        if self.vars.len() > 0 {
            let sorted = sort_by_name(&self.vars);
            let mut out = constants("  const ", &sorted);
            out.append("\n\n");
            out
        } else {
            String::new()
        }
    }

    /// The file of the feature: the tests of the feature as code, in the
    /// directory `out_dir`.
    pub fn generate_dart(&self, vars: &Vars, out_dir: &str) -> (file: GeneratedFile)
        ensures
            file.path@ == joined(out_dir@, test_file_stem(self.name@) + ".dart"@),
            file.content@ == feature_code(*self),
    {
        let stem = self.file_stem();
        let mut file_name = stem.clone();
        file_name.append(".dart");
        let mut out = Self::head();
        out.append(self.before_each_text(vars, stem.as_str()).as_str());
        out.append(self.vars_text().as_str());
        out.append("  group('");
        out.append(self.name.as_str());
        out.append("', () {\n");
        out.append(self.all_tests(vars, stem.as_str()).as_str());
        out.append("  });\n}\n");
        GeneratedFile { path: DirUtils::join(out_dir, file_name.as_str()), content: out }
    }
}

} // verus!
