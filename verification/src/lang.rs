//! Language tags and the file layout each of them dictates.

use vstd::prelude::*;

verus! {

/// The closed set of languages a submission can be written in.
#[derive(Clone, Copy, Debug, PartialEq, Eq, Structural)]
pub enum Lang {
    Clojure,
    Cpp,
    Csharp,
    Dart,
    Elixir,
    Golang,
    Haskell,
    Java,
    Js,
    Kotlin,
    Php,
    Python,
    Ruby,
    Rust,
    Swift,
    Ts,
}

impl Lang {
    /// The tag by which a request names the language.
    pub open spec fn tag(self) -> Seq<char> {
        match self {
            Lang::Clojure => "clojure"@,
            Lang::Cpp => "cpp"@,
            Lang::Csharp => "csharp"@,
            Lang::Dart => "dart"@,
            Lang::Elixir => "elixir"@,
            Lang::Golang => "golang"@,
            Lang::Haskell => "haskell"@,
            Lang::Java => "java"@,
            Lang::Js => "js"@,
            Lang::Kotlin => "kotlin"@,
            Lang::Php => "php"@,
            Lang::Python => "python"@,
            Lang::Ruby => "ruby"@,
            Lang::Rust => "rust"@,
            Lang::Swift => "swift"@,
            Lang::Ts => "ts"@,
        }
    }

    /// Name of the file that receives the submitted solution.
    ///
    /// TypeScript submissions share the JavaScript name: the build recipe
    /// compiles them from that single input.
    pub open spec fn solution_file(self) -> Seq<char> {
        match self {
            Lang::Clojure => "solution.clj"@,
            Lang::Cpp => "solution.cpp"@,
            Lang::Csharp => "Solution.cs"@,
            Lang::Dart => "solution.dart"@,
            Lang::Elixir => "solution.exs"@,
            Lang::Golang => "solution.go"@,
            Lang::Haskell => "Solution.hs"@,
            Lang::Java => "Solution.java"@,
            Lang::Js | Lang::Ts => "solution.js"@,
            Lang::Kotlin => "solution.kt"@,
            Lang::Php => "solution.php"@,
            Lang::Python => "solution.py"@,
            Lang::Ruby => "solution.rb"@,
            Lang::Rust => "solution.rs"@,
            Lang::Swift => "solution.swift"@,
        }
    }

    /// Name of the file that receives the checker, for the languages that
    /// take one from the submission.
    pub open spec fn checker_file(self) -> Option<Seq<char>> {
        match self {
            Lang::Cpp => Some("checker.cpp"@),
            Lang::Csharp => Some("Checker.cs"@),
            Lang::Dart => Some("checker.dart"@),
            Lang::Golang => Some("checker.go"@),
            Lang::Haskell => Some("Checker.hs"@),
            Lang::Java => Some("Checker.java"@),
            Lang::Kotlin => Some("checker.kt"@),
            Lang::Rust => Some("checker.rs"@),
            Lang::Swift => Some("checker.swift"@),
            _ => None,
        }
    }

    /// Whether a submission in this language must bring its own checker:
    /// true of the compiled languages, which have no checker built in.
    pub open spec fn needs_checker(self) -> bool {
        self is Cpp || self is Csharp || self is Dart || self is Golang || self is Haskell
            || self is Java || self is Kotlin || self is Rust || self is Swift
    }

    /// Directory, relative to the recipes, in which the sources are placed.
    pub open spec fn sources_dir(self) -> Seq<char> {
        if self is Dart {
            "lib"@
        } else {
            "check"@
        }
    }

    /// The tag by which a request names the language.
    pub fn slug(self) -> (tag: &'static str)
        ensures
            tag@ == self.tag(),
    {
        match self {
            Lang::Clojure => "clojure",
            Lang::Cpp => "cpp",
            Lang::Csharp => "csharp",
            Lang::Dart => "dart",
            Lang::Elixir => "elixir",
            Lang::Golang => "golang",
            Lang::Haskell => "haskell",
            Lang::Java => "java",
            Lang::Js => "js",
            Lang::Kotlin => "kotlin",
            Lang::Php => "php",
            Lang::Python => "python",
            Lang::Ruby => "ruby",
            Lang::Rust => "rust",
            Lang::Swift => "swift",
            Lang::Ts => "ts",
        }
    }

    /// The language a tag names, if it names one.
    pub fn from_slug(slug: &str) -> (lang: Option<Lang>)
        ensures
            lang matches Some(l) ==> l.tag() == slug@,
            lang is None ==> forall|l: Lang| l.tag() != slug@,
    {
        let all = [
            Lang::Clojure,
            Lang::Cpp,
            Lang::Csharp,
            Lang::Dart,
            Lang::Elixir,
            Lang::Golang,
            Lang::Haskell,
            Lang::Java,
            Lang::Js,
            Lang::Kotlin,
            Lang::Php,
            Lang::Python,
            Lang::Ruby,
            Lang::Rust,
            Lang::Swift,
            Lang::Ts,
        ];
        let mut i: usize = 0;
        while i < 16
            invariant
                i <= 16,
                all@ == all_langs(),
                forall|j: int| 0 <= j < i ==> (#[trigger] all@[j]).tag() != slug@,
            decreases 16 - i,
        {
            if same_text(all[i].slug(), slug) {
                return Some(all[i]);
            }
            i += 1;
        }
        proof {
            assert forall|l: Lang| l.tag() != slug@ by {
                lemma_all_langs_listed(l);
            }
        }
        None
    }

    /// Name of the file that receives the submitted solution.
    pub fn solution_filename(self) -> (name: &'static str)
        ensures
            name@ == self.solution_file(),
    {
        match self {
            Lang::Clojure => "solution.clj",
            Lang::Cpp => "solution.cpp",
            Lang::Csharp => "Solution.cs",
            Lang::Dart => "solution.dart",
            Lang::Elixir => "solution.exs",
            Lang::Golang => "solution.go",
            Lang::Haskell => "Solution.hs",
            Lang::Java => "Solution.java",
            Lang::Js | Lang::Ts => "solution.js",
            Lang::Kotlin => "solution.kt",
            Lang::Php => "solution.php",
            Lang::Python => "solution.py",
            Lang::Ruby => "solution.rb",
            Lang::Rust => "solution.rs",
            Lang::Swift => "solution.swift",
        }
    }

    /// Name of the file that receives the submitted checker, where the
    /// language takes one.
    pub fn checker_filename(self) -> (name: Option<&'static str>)
        ensures
            name is Some <==> self.checker_file() is Some,
            name matches Some(n) ==> self.checker_file() == Some(n@),
    {
        match self {
            Lang::Cpp => Some("checker.cpp"),
            Lang::Csharp => Some("Checker.cs"),
            Lang::Dart => Some("checker.dart"),
            Lang::Golang => Some("checker.go"),
            Lang::Haskell => Some("Checker.hs"),
            Lang::Java => Some("Checker.java"),
            Lang::Kotlin => Some("checker.kt"),
            Lang::Rust => Some("checker.rs"),
            Lang::Swift => Some("checker.swift"),
            _ => None,
        }
    }

    /// Whether a submission in this language must bring its own checker.
    pub fn requires_checker(self) -> (required: bool)
        ensures
            required == self.needs_checker(),
    {
        match self {
            Lang::Cpp
            | Lang::Csharp
            | Lang::Dart
            | Lang::Java
            | Lang::Golang
            | Lang::Haskell
            | Lang::Kotlin
            | Lang::Rust
            | Lang::Swift => true,
            _ => false,
        }
    }

    /// Directory, relative to the recipes, in which the sources are placed.
    pub fn sources_subdir(self) -> (dir: &'static str)
        ensures
            dir@ == self.sources_dir(),
    {
        match self {
            Lang::Dart => "lib",
            _ => "check",
        }
    }
}

/// Every language, in the order of its tag.
pub open spec fn all_langs() -> Seq<Lang> {
    seq![
        Lang::Clojure,
        Lang::Cpp,
        Lang::Csharp,
        Lang::Dart,
        Lang::Elixir,
        Lang::Golang,
        Lang::Haskell,
        Lang::Java,
        Lang::Js,
        Lang::Kotlin,
        Lang::Php,
        Lang::Python,
        Lang::Ruby,
        Lang::Rust,
        Lang::Swift,
        Lang::Ts,
    ]
}

/// Whether two texts are the same.
fn same_text(a: &str, b: &str) -> (same: bool)
    ensures
        same == (a@ == b@),
{
    String::from_str(a) == String::from_str(b)
}

/// `all_langs` leaves no language out.
pub proof fn lemma_all_langs_listed(lang: Lang)
    ensures
        exists|j: int| 0 <= j < all_langs().len() && #[trigger] all_langs()[j] == lang,
{
    let all = all_langs();
    match lang {
        Lang::Clojure => assert(all[0] == lang),
        Lang::Cpp => assert(all[1] == lang),
        Lang::Csharp => assert(all[2] == lang),
        Lang::Dart => assert(all[3] == lang),
        Lang::Elixir => assert(all[4] == lang),
        Lang::Golang => assert(all[5] == lang),
        Lang::Haskell => assert(all[6] == lang),
        Lang::Java => assert(all[7] == lang),
        Lang::Js => assert(all[8] == lang),
        Lang::Kotlin => assert(all[9] == lang),
        Lang::Php => assert(all[10] == lang),
        Lang::Python => assert(all[11] == lang),
        Lang::Ruby => assert(all[12] == lang),
        Lang::Rust => assert(all[13] == lang),
        Lang::Swift => assert(all[14] == lang),
        Lang::Ts => assert(all[15] == lang),
    }
}

/// No two languages share a tag: a tag names at most one language.
pub proof fn lemma_tags_differ(a: Lang, b: Lang)
    requires
        a != b,
    ensures
        a.tag() != b.tag(),
{
    reveal_strlit("clojure");
    reveal_strlit("cpp");
    reveal_strlit("csharp");
    reveal_strlit("dart");
    reveal_strlit("elixir");
    reveal_strlit("golang");
    reveal_strlit("haskell");
    reveal_strlit("java");
    reveal_strlit("js");
    reveal_strlit("kotlin");
    reveal_strlit("php");
    reveal_strlit("python");
    reveal_strlit("ruby");
    reveal_strlit("rust");
    reveal_strlit("swift");
    reveal_strlit("ts");
    if a.tag() == b.tag() {
        assert(a.tag()[0] == b.tag()[0]);
        assert(a.tag()[1] == b.tag()[1]);
        assert(a.tag()[2] == b.tag()[2]);
    }
}

/// The languages that name a checker file are those that need a checker
/// from the submission.
pub proof fn lemma_checker_file_iff_needed(lang: Lang)
    ensures
        lang.checker_file() is Some <==> lang.needs_checker(),
{
}

/// Solution files begin with an `s`, checker files with a `c`, in either
/// case of the letter: within one language the two names differ, and
/// neither is taken by a file that begins otherwise.
pub proof fn lemma_names_tell_files_apart(lang: Lang)
    ensures
        lang.solution_file().len() > 0,
        lang.solution_file()[0] == 's' || lang.solution_file()[0] == 'S',
        lang.checker_file() matches Some(name) ==> name.len() > 0 && (name[0] == 'c' || name[0]
            == 'C'),
        lang.checker_file() != Some(lang.solution_file()),
{
    reveal_strlit("solution.clj");
    reveal_strlit("solution.cpp");
    reveal_strlit("Solution.cs");
    reveal_strlit("solution.dart");
    reveal_strlit("solution.exs");
    reveal_strlit("solution.go");
    reveal_strlit("Solution.hs");
    reveal_strlit("Solution.java");
    reveal_strlit("solution.js");
    reveal_strlit("solution.kt");
    reveal_strlit("solution.php");
    reveal_strlit("solution.py");
    reveal_strlit("solution.rb");
    reveal_strlit("solution.rs");
    reveal_strlit("solution.swift");
    reveal_strlit("checker.cpp");
    reveal_strlit("Checker.cs");
    reveal_strlit("checker.dart");
    reveal_strlit("checker.go");
    reveal_strlit("Checker.hs");
    reveal_strlit("Checker.java");
    reveal_strlit("checker.kt");
    reveal_strlit("checker.rs");
    reveal_strlit("checker.swift");
    if let Some(name) = lang.checker_file() {
        assert(name[0] != lang.solution_file()[0]);
    }
}

/// Whether a text can stand as the name of a file in a directory: it is
/// not empty and holds no slash.
pub open spec fn is_plain_name(name: Seq<char>) -> bool {
    name.len() > 0 && forall|i: int| 0 <= i < name.len() ==> name[i] != '/'
}

/// The file names of every language are plain: what is written under them
/// lands in the sources directory itself.
pub proof fn lemma_names_are_plain(lang: Lang)
    ensures
        is_plain_name(lang.solution_file()),
        lang.checker_file() matches Some(name) ==> is_plain_name(name),
{
    reveal_strlit("solution.clj");
    reveal_strlit("solution.cpp");
    reveal_strlit("Solution.cs");
    reveal_strlit("solution.dart");
    reveal_strlit("solution.exs");
    reveal_strlit("solution.go");
    reveal_strlit("Solution.hs");
    reveal_strlit("Solution.java");
    reveal_strlit("solution.js");
    reveal_strlit("solution.kt");
    reveal_strlit("solution.php");
    reveal_strlit("solution.py");
    reveal_strlit("solution.rb");
    reveal_strlit("solution.rs");
    reveal_strlit("solution.swift");
    reveal_strlit("checker.cpp");
    reveal_strlit("Checker.cs");
    reveal_strlit("checker.dart");
    reveal_strlit("checker.go");
    reveal_strlit("Checker.hs");
    reveal_strlit("Checker.java");
    reveal_strlit("checker.kt");
    reveal_strlit("checker.rs");
    reveal_strlit("checker.swift");
}

} // verus!
