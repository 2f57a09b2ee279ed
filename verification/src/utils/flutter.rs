//! What is read from a Flutter project.

use crate::code_run::pubspec::{key_index, project_name, Yaml};
use crate::text::{contains, contains_seq, to_chars};
use vstd::prelude::*;
use vstd::string::*;

verus! {

pub struct FlutterUtils;

impl FlutterUtils {
    /// The name of the application binary: the name that the package
    /// description `pubspec` gives, or `directory_name`, the name of the
    /// project's directory, when it gives none.
    pub fn get_name(pubspec: &Yaml, directory_name: &str) -> (name: String)
        ensures
            name@ == (match *pubspec {
                Yaml::Mapping(entries) => {
                    let i = key_index(entries@, "name"@);
                    if i < entries@.len() && entries@[i].1 is Text {
                        entries@[i].1->Text_0@
                    } else {
                        directory_name@
                    }
                },
                _ => directory_name@,
            }),
    {
        project_name(pubspec, directory_name)
    }

    /// Whether the application's entry point takes arguments, given the
    /// text of `lib/main.dart` if the file exists.
    pub fn has_main_with_args(main_dart: Option<&str>) -> (b: bool)
        ensures
            b == (match main_dart {
                Some(content) => contains_seq(content@, "main(List<String>"@),
                None => false,
            }),
    {
        match main_dart {
            Some(content) => {
                let text = to_chars(content);
                let wanted = to_chars("main(List<String>");
                contains(&text, &wanted)
            },
            None => false,
        }
    }
}

} // verus!
