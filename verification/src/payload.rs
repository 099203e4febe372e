//! A submission, the files it turns into, and the answer to it.

use crate::lang::{is_plain_name, lemma_names_are_plain, lemma_names_tell_files_apart, Lang};
use crate::reply::RunError;
use vstd::prelude::*;

verus! {

/// Name under which the assertion fixtures are stored beside the sources.
pub const ASSERTS_FILE: &'static str = "asserts.json";

/// One request to run a solution.
#[derive(Debug, PartialEq, Eq)]
pub struct Payload {
    /// Time limit as a duration text such as `"10s"`.
    pub timeout: Option<String>,
    pub solution_text: String,
    pub lang_slug: Lang,
    /// Fixtures handed to the checker, stored as they come.
    pub asserts: Option<String>,
    pub checker_text: Option<String>,
}

/// A `Payload` as plain text values.
pub struct PayloadView {
    pub timeout: Option<Seq<char>>,
    pub solution_text: Seq<char>,
    pub lang_slug: Lang,
    pub asserts: Option<Seq<char>>,
    pub checker_text: Option<Seq<char>>,
}

/// The text of an optional string.
pub open spec fn text_of(s: Option<String>) -> Option<Seq<char>> {
    match s {
        Some(s) => Some(s@),
        None => None,
    }
}

impl View for Payload {
    type V = PayloadView;

    open spec fn view(&self) -> PayloadView {
        PayloadView {
            timeout: text_of(self.timeout),
            solution_text: self.solution_text@,
            lang_slug: self.lang_slug,
            asserts: text_of(self.asserts),
            checker_text: text_of(self.checker_text),
        }
    }
}

impl PayloadView {
    /// A request is well-formed when it brings a checker wherever its
    /// language needs one.
    pub open spec fn well_formed(self) -> bool {
        self.lang_slug.needs_checker() ==> self.checker_text is Some
    }
}

/// What a finished run answers with.
#[derive(Debug, PartialEq, Eq)]
pub struct Response {
    /// Exit status of the child; absent where a signal ended it.
    pub exit_code: Option<i32>,
    pub stdout: String,
    pub stderr: String,
}

/// A `Response` as plain values.
pub struct ResponseView {
    pub exit_code: Option<i32>,
    pub stdout: Seq<char>,
    pub stderr: Seq<char>,
}

impl View for Response {
    type V = ResponseView;

    open spec fn view(&self) -> ResponseView {
        ResponseView { exit_code: self.exit_code, stdout: self.stdout@, stderr: self.stderr@ }
    }
}

/// A file to be written into the sources directory of a jail.
#[derive(Debug, PartialEq, Eq)]
pub struct SourceFile {
    pub name: &'static str,
    pub contents: String,
}

/// A `SourceFile` as plain text values.
pub struct SourceFileView {
    pub name: Seq<char>,
    pub contents: Seq<char>,
}

impl View for SourceFile {
    type V = SourceFileView;

    open spec fn view(&self) -> SourceFileView {
        SourceFileView { name: self.name@, contents: self.contents@ }
    }
}

/// The files of a sequence, each as plain text values.
pub open spec fn files_view(files: Seq<SourceFile>) -> Seq<SourceFileView> {
    files.map_values(|f: SourceFile| f@)
}

/// The fixtures file of a request, if it has fixtures.
pub open spec fn asserts_part(p: PayloadView) -> Seq<SourceFileView> {
    match p.asserts {
        Some(a) => seq![SourceFileView { name: ASSERTS_FILE@, contents: a }],
        None => seq![],
    }
}

/// The checker file of a request: present when the language names a
/// checker file and the request carries a checker.
pub open spec fn checker_part(p: PayloadView) -> Seq<SourceFileView> {
    match (p.lang_slug.checker_file(), p.checker_text) {
        (Some(name), Some(text)) => seq![SourceFileView { name, contents: text }],
        _ => seq![],
    }
}

/// The files a request turns into, in the order they are written:
/// fixtures, solution, checker.
pub open spec fn source_files_of(p: PayloadView) -> Seq<SourceFileView> {
    asserts_part(p) + seq![
        SourceFileView { name: p.lang_slug.solution_file(), contents: p.solution_text },
    ] + checker_part(p)
}

/// The text of an optional string slice.
pub open spec fn name_of(s: Option<&str>) -> Option<Seq<char>> {
    match s {
        Some(s) => Some(s@),
        None => None,
    }
}

/// File names for the solution and, where the language has one, the
/// checker of a request.
pub fn get_solution_chekcer_names(payload: &Payload) -> (names: (&'static str, Option<&'static str>))
    ensures
        names.0@ == payload.lang_slug.solution_file(),
        name_of(names.1) == payload.lang_slug.checker_file(),
{
    let lang = payload.lang_slug;
    (lang.solution_filename(), lang.checker_filename())
}

/// Refuses a request that lacks the checker its language needs.
pub fn check_request(payload: &Payload) -> (r: Result<(), RunError>)
    ensures
        r == if payload@.well_formed() {
            Ok::<(), RunError>(())
        } else {
            Err::<(), RunError>(RunError::CheckerRequired)
        },
{
    if payload.lang_slug.requires_checker() && payload.checker_text.is_none() {
        Err(RunError::CheckerRequired)
    } else {
        Ok(())
    }
}

/// The files to write for a request, in writing order.
pub fn source_files(payload: &Payload) -> (files: Vec<SourceFile>)
    ensures
        files_view(files@) == source_files_of(payload@),
{
    let mut files: Vec<SourceFile> = Vec::new();
    if let Some(asserts) = &payload.asserts {
        files.push(SourceFile { name: ASSERTS_FILE, contents: asserts.clone() });
    }
    assert(files_view(files@) =~= asserts_part(payload@));
    let (solution_name, checker_name) = get_solution_chekcer_names(payload);
    files.push(SourceFile { name: solution_name, contents: payload.solution_text.clone() });
    assert(files_view(files@) =~= asserts_part(payload@) + seq![
        SourceFileView {
            name: payload.lang_slug.solution_file(),
            contents: payload@.solution_text,
        },
    ]);
    if let Some(name) = checker_name {
        if let Some(text) = &payload.checker_text {
            files.push(SourceFile { name, contents: text.clone() });
        }
    }
    assert(files_view(files@) =~= source_files_of(payload@));
    files
}

/// The files of a request hold exactly one solution file: it has the name
/// the language dictates and the submitted text as its contents. The
/// result is its place in the writing order.
pub proof fn lemma_one_solution_file(p: PayloadView) -> (i: int)
    ensures
        0 <= i < source_files_of(p).len(),
        source_files_of(p)[i] == (SourceFileView {
            name: p.lang_slug.solution_file(),
            contents: p.solution_text,
        }),
        forall|j: int|
            0 <= j < source_files_of(p).len() && #[trigger] source_files_of(p)[j].name
                == p.lang_slug.solution_file() ==> j == i,
{
    reveal_strlit("asserts.json");
    lemma_names_tell_files_apart(p.lang_slug);
    asserts_part(p).len() as int
}

/// The files of a request hold a checker file exactly when the language
/// names one and the request carries a checker; it then holds the checker
/// as submitted, and comes last.
pub proof fn lemma_checker_file_iff_provided(p: PayloadView)
    ensures
        (exists|j: int|
            0 <= j < source_files_of(p).len() && Some(#[trigger] source_files_of(p)[j].name)
                == p.lang_slug.checker_file()) <==> (p.lang_slug.checker_file() is Some
            && p.checker_text is Some),
        p.lang_slug.checker_file() is Some && p.checker_text is Some ==> source_files_of(p).last()
            == (SourceFileView {
            name: p.lang_slug.checker_file()->0,
            contents: p.checker_text->0,
        }),
        forall|j: int|
            0 <= j < source_files_of(p).len() && Some(#[trigger] source_files_of(p)[j].name)
                == p.lang_slug.checker_file() ==> j == source_files_of(p).len() - 1,
{
    reveal_strlit("asserts.json");
    lemma_names_tell_files_apart(p.lang_slug);
    let files = source_files_of(p);
    if p.lang_slug.checker_file() is Some && p.checker_text is Some {
        let j = files.len() - 1;
        assert(Some(files[j].name) == p.lang_slug.checker_file());
    }
}

/// The files of a request hold a fixtures file exactly when the request
/// carries fixtures; it then holds them as submitted, and comes first.
pub proof fn lemma_asserts_verbatim(p: PayloadView)
    ensures
        (exists|j: int|
            0 <= j < source_files_of(p).len() && #[trigger] source_files_of(p)[j].name
                == ASSERTS_FILE@) <==> p.asserts is Some,
        p.asserts matches Some(text) ==> source_files_of(p)[0] == (SourceFileView {
            name: ASSERTS_FILE@,
            contents: text,
        }),
        forall|j: int|
            0 <= j < source_files_of(p).len() && #[trigger] source_files_of(p)[j].name
                == ASSERTS_FILE@ ==> j == 0,
{
    reveal_strlit("asserts.json");
    lemma_names_tell_files_apart(p.lang_slug);
    let files = source_files_of(p);
    if p.asserts is Some {
        assert(files[0].name == ASSERTS_FILE@);
    }
}

/// Every file of a request has a plain name, so that each is written into
/// the sources directory itself and nowhere else.
pub proof fn lemma_file_names_are_plain(p: PayloadView, j: int)
    requires
        0 <= j < source_files_of(p).len(),
    ensures
        is_plain_name(source_files_of(p)[j].name),
{
    reveal_strlit("asserts.json");
    lemma_names_are_plain(p.lang_slug);
}

/// A request turns into its solution file, one more file if it carries
/// fixtures, one more if its checker is written, and nothing else.
pub proof fn lemma_file_count(p: PayloadView)
    ensures
        source_files_of(p).len() == 1 + (if p.asserts is Some {
            1nat
        } else {
            0nat
        }) + (if p.lang_slug.checker_file() is Some && p.checker_text is Some {
            1nat
        } else {
            0nat
        }),
{
}

} // verus!
