use runner::lang::Lang;

const ALL: [Lang; 16] = [
    Lang::Clojure,
    Lang::Cpp,
    Lang::Csharp,
    Lang::Dart,
    Lang::Elixir,
    Lang::Golang,
    Lang::Haskell,
    Lang::Java,
    Lang::Js,
    Lang::Kotlin,
    Lang::Php,
    Lang::Python,
    Lang::Ruby,
    Lang::Rust,
    Lang::Swift,
    Lang::Ts,
];

#[test]
fn solution_file_names_follow_the_table() {
    assert_eq!(Lang::Clojure.solution_filename(), "solution.clj");
    assert_eq!(Lang::Cpp.solution_filename(), "solution.cpp");
    assert_eq!(Lang::Csharp.solution_filename(), "Solution.cs");
    assert_eq!(Lang::Dart.solution_filename(), "solution.dart");
    assert_eq!(Lang::Elixir.solution_filename(), "solution.exs");
    assert_eq!(Lang::Golang.solution_filename(), "solution.go");
    assert_eq!(Lang::Haskell.solution_filename(), "Solution.hs");
    assert_eq!(Lang::Java.solution_filename(), "Solution.java");
    assert_eq!(Lang::Js.solution_filename(), "solution.js");
    assert_eq!(Lang::Kotlin.solution_filename(), "solution.kt");
    assert_eq!(Lang::Php.solution_filename(), "solution.php");
    assert_eq!(Lang::Python.solution_filename(), "solution.py");
    assert_eq!(Lang::Ruby.solution_filename(), "solution.rb");
    assert_eq!(Lang::Rust.solution_filename(), "solution.rs");
    assert_eq!(Lang::Swift.solution_filename(), "solution.swift");
}

#[test]
fn typescript_is_stored_under_the_javascript_name() {
    assert_eq!(Lang::Ts.solution_filename(), "solution.js");
    assert_eq!(Lang::Ts.checker_filename(), None);
}

#[test]
fn checker_file_names_follow_the_table() {
    assert_eq!(Lang::Cpp.checker_filename(), Some("checker.cpp"));
    assert_eq!(Lang::Csharp.checker_filename(), Some("Checker.cs"));
    assert_eq!(Lang::Dart.checker_filename(), Some("checker.dart"));
    assert_eq!(Lang::Golang.checker_filename(), Some("checker.go"));
    assert_eq!(Lang::Haskell.checker_filename(), Some("Checker.hs"));
    assert_eq!(Lang::Java.checker_filename(), Some("Checker.java"));
    assert_eq!(Lang::Kotlin.checker_filename(), Some("checker.kt"));
    assert_eq!(Lang::Rust.checker_filename(), Some("checker.rs"));
    assert_eq!(Lang::Swift.checker_filename(), Some("checker.swift"));
}

#[test]
fn interpreted_languages_have_no_checker_file() {
    for lang in [
        Lang::Clojure,
        Lang::Elixir,
        Lang::Js,
        Lang::Php,
        Lang::Python,
        Lang::Ruby,
        Lang::Ts,
    ] {
        assert_eq!(lang.checker_filename(), None);
        assert!(!lang.requires_checker());
    }
}

#[test]
fn a_checker_is_required_exactly_where_a_checker_file_is_named() {
    for lang in ALL {
        assert_eq!(lang.requires_checker(), lang.checker_filename().is_some());
    }
}

#[test]
fn compiled_languages_require_a_checker() {
    for lang in [
        Lang::Cpp,
        Lang::Csharp,
        Lang::Dart,
        Lang::Golang,
        Lang::Haskell,
        Lang::Java,
        Lang::Kotlin,
        Lang::Rust,
        Lang::Swift,
    ] {
        assert!(lang.requires_checker());
    }
}

#[test]
fn sources_go_to_lib_for_dart_and_to_check_otherwise() {
    for lang in ALL {
        let expected = if lang == Lang::Dart { "lib" } else { "check" };
        assert_eq!(lang.sources_subdir(), expected);
    }
}

#[test]
fn solution_and_checker_names_never_collide() {
    for lang in ALL {
        let solution = lang.solution_filename();
        assert_ne!(solution, "asserts.json");
        if let Some(checker) = lang.checker_filename() {
            assert_ne!(checker, solution);
            assert_ne!(checker, "asserts.json");
        }
    }
}

#[test]
fn tags_are_the_lower_case_language_names() {
    let tags = [
        "clojure", "cpp", "csharp", "dart", "elixir", "golang", "haskell", "java", "js", "kotlin",
        "php", "python", "ruby", "rust", "swift", "ts",
    ];
    for (lang, tag) in ALL.iter().zip(tags) {
        assert_eq!(lang.slug(), tag);
    }
}

#[test]
fn every_tag_names_its_own_language() {
    for lang in ALL {
        assert_eq!(Lang::from_slug(lang.slug()), Some(lang));
    }
}

#[test]
fn unknown_tags_name_no_language() {
    assert_eq!(Lang::from_slug("go"), None);
    assert_eq!(Lang::from_slug(""), None);
    assert_eq!(Lang::from_slug("Python"), None);
    assert_eq!(Lang::from_slug("python "), None);
    assert_eq!(Lang::from_slug("typescript"), None);
}
