use runner::lang::Lang;
use runner::payload::{
    check_request, get_solution_chekcer_names, source_files, Payload, SourceFile, ASSERTS_FILE,
};
use runner::reply::RunError;

fn payload(lang: Lang, solution: &str, checker: Option<&str>, asserts: Option<&str>) -> Payload {
    Payload {
        timeout: None,
        solution_text: solution.to_string(),
        lang_slug: lang,
        asserts: asserts.map(|s| s.to_string()),
        checker_text: checker.map(|s| s.to_string()),
    }
}

fn file(name: &'static str, contents: &str) -> SourceFile {
    SourceFile { name, contents: contents.to_string() }
}

#[test]
fn names_come_from_the_language_of_the_payload() {
    let p = payload(Lang::Haskell, "main = pure ()", Some("check"), None);
    assert_eq!(get_solution_chekcer_names(&p), ("Solution.hs", Some("Checker.hs")));
    let p = payload(Lang::Ruby, "puts 1", None, None);
    assert_eq!(get_solution_chekcer_names(&p), ("solution.rb", None));
    let p = payload(Lang::Ts, "let x = 1", None, None);
    assert_eq!(get_solution_chekcer_names(&p), ("solution.js", None));
}

#[test]
fn a_bare_solution_becomes_one_file() {
    let p = payload(Lang::Python, "print(1+1)", None, None);
    assert_eq!(source_files(&p), vec![file("solution.py", "print(1+1)")]);
}

#[test]
fn fixtures_come_first_and_the_checker_last() {
    let p = payload(Lang::Cpp, "int main(){}", Some("int check(){}"), Some("[[1,2],3]"));
    assert_eq!(
        source_files(&p),
        vec![
            file("asserts.json", "[[1,2],3]"),
            file("solution.cpp", "int main(){}"),
            file("checker.cpp", "int check(){}"),
        ]
    );
}

#[test]
fn fixtures_are_stored_as_they_come() {
    let raw = " {\"a\":\t[1, 2]}\n\n\u{fffd}\u{1F600} not even json ";
    let p = payload(Lang::Php, "<?php", None, Some(raw));
    let files = source_files(&p);
    assert_eq!(files.len(), 2);
    assert_eq!(files[0].name, ASSERTS_FILE);
    assert_eq!(files[0].name, "asserts.json");
    assert_eq!(files[0].contents, raw);
    assert_eq!(files[0].contents.as_bytes(), raw.as_bytes());
}

#[test]
fn empty_fixtures_are_still_written() {
    let p = payload(Lang::Js, "1", None, Some(""));
    assert_eq!(source_files(&p), vec![file("asserts.json", ""), file("solution.js", "1")]);
}

#[test]
fn a_checker_is_dropped_where_the_language_names_no_checker_file() {
    let p = payload(Lang::Python, "print(1)", Some("unused"), None);
    assert_eq!(source_files(&p), vec![file("solution.py", "print(1)")]);
}

#[test]
fn no_checker_file_without_a_checker() {
    let p = payload(Lang::Rust, "fn main(){}", None, None);
    assert_eq!(source_files(&p), vec![file("solution.rs", "fn main(){}")]);
}

#[test]
fn exactly_one_solution_file_for_every_language() {
    for lang in [
        Lang::Clojure,
        Lang::Cpp,
        Lang::Csharp,
        Lang::Dart,
        Lang::Elixir,
        Lang::Golang,
        Lang::Haskell,
        Lang::Java,
        Lang::Js,
        Lang::Kotlin,
        Lang::Php,
        Lang::Python,
        Lang::Ruby,
        Lang::Rust,
        Lang::Swift,
        Lang::Ts,
    ] {
        let p = payload(lang, "the solution", Some("the checker"), Some("the fixtures"));
        let files = source_files(&p);
        let solutions: Vec<&SourceFile> =
            files.iter().filter(|f| f.name == lang.solution_filename()).collect();
        assert_eq!(solutions.len(), 1);
        assert_eq!(solutions[0].contents, "the solution");
        let checkers = files.iter().filter(|f| Some(f.name) == lang.checker_filename()).count();
        assert_eq!(checkers == 1, lang.checker_filename().is_some());
        assert_eq!(files.len(), 2 + checkers);
    }
}

#[test]
fn a_compiled_language_without_a_checker_is_refused() {
    let p = payload(Lang::Cpp, "int main(){}", None, None);
    assert_eq!(check_request(&p), Err(RunError::CheckerRequired));
    let p = payload(Lang::Swift, "print(1)", None, Some("[]"));
    assert_eq!(check_request(&p), Err(RunError::CheckerRequired));
}

#[test]
fn a_compiled_language_with_a_checker_is_accepted() {
    let p = payload(Lang::Cpp, "int main(){}", Some(""), None);
    assert_eq!(check_request(&p), Ok(()));
}

#[test]
fn an_interpreted_language_needs_no_checker() {
    let p = payload(Lang::Python, "print(1)", None, None);
    assert_eq!(check_request(&p), Ok(()));
    let p = payload(Lang::Elixir, "IO.puts 1", Some("extra"), None);
    assert_eq!(check_request(&p), Ok(()));
}
