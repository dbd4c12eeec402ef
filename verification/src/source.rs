use vstd::prelude::*;
use vstd::string::{StrSliceExecFns, StringSliceAdditionalSpecFns};
use vstd::utf8::encode_utf8;
use crate::error::{text_or_failure, Failure, ScriptError};

verus! {

/// The language of a source text.
#[derive(Debug, Clone, Copy, PartialEq, Eq, Structural)]
pub enum Language {
    /// TypeScript: lowered before it runs.
    Typed,
    /// JavaScript: runs as it is.
    Untyped,
}

/// The suffix that declares typed source: `.ts`, in lower case.
pub open spec fn typed_suffix() -> Seq<char> {
    seq!['.', 't', 's']
}

/// A path names typed source where it ends in the typed suffix. A file whose
/// whole name is the suffix counts too.
pub open spec fn is_typed_path(path: Seq<char>) -> bool {
    typed_suffix().is_suffix_of(path)
}

/// The language that a file's path declares.
pub open spec fn declared_language(path: Seq<char>) -> Language {
    if is_typed_path(path) {
        Language::Typed
    } else {
        Language::Untyped
    }
}

/// The language that `file_path` declares: typed for the extension `.ts`,
/// untyped for every other path.
pub fn language_of_path(file_path: &str) -> (language: Language)
    ensures
        language == declared_language(file_path@),
{
    let n: usize = file_path.unicode_len();
    if n >= 3 && file_path.get_char(n - 3) == '.' && file_path.get_char(n - 2) == 't'
        && file_path.get_char(n - 1) == 's' {
        assert(file_path@.subrange(n - 3, n as int) =~= typed_suffix());
        Language::Typed
    } else {
        Language::Untyped
    }
}

/// The byte order mark.
pub open spec fn byte_order_mark() -> char {
    '\u{feff}'
}

/// `text` without the byte order marks that it starts with.
pub open spec fn without_marks(text: Seq<char>) -> Seq<char>
    decreases text.len(),
{
    if text.len() > 0 && text[0] == byte_order_mark() {
        without_marks(text.drop_first())
    } else {
        text
    }
}

/// Dropping characters from the front makes the UTF-8 encoding no longer.
proof fn lemma_suffix_encodes_shorter(text: Seq<char>, from: int)
    requires
        0 <= from <= text.len(),
    ensures
        encode_utf8(text.skip(from)).len() <= encode_utf8(text).len(),
    decreases from,
{
    if from == 0 {
        assert(text.skip(0) =~= text);
    } else {
        lemma_suffix_encodes_shorter(text.drop_first(), from - 1);
        assert(text.drop_first().skip(from - 1) =~= text.skip(from));
    }
}

/// Skipping marks at the front does not change what is left without them.
proof fn lemma_marks_skipped(text: Seq<char>, count: int)
    requires
        0 <= count <= text.len(),
        forall|i: int| 0 <= i < count ==> text[i] == byte_order_mark(),
    ensures
        without_marks(text) == without_marks(text.skip(count)),
    decreases count,
{
    if count == 0 {
        assert(text.skip(0) =~= text);
    } else {
        lemma_marks_skipped(text.drop_first(), count - 1);
        assert(text.drop_first().skip(count - 1) =~= text.skip(count));
    }
}

/// The part of `text` after its leading byte order marks.
pub fn strip_marks(text: &str) -> (rest: &str)
    ensures
        rest@ == without_marks(text@),
        rest@.len() == 0 || rest@[0] != byte_order_mark(),
        rest.spec_bytes().len() <= text.spec_bytes().len(),
{
    let n: usize = text.unicode_len();
    let mut start: usize = 0;
    while start < n && text.get_char(start) == '\u{feff}'
        invariant
            start <= n,
            n == text@.len(),
            forall|i: int| 0 <= i < start ==> text@[i] == byte_order_mark(),
        decreases n - start,
    {
        start = start + 1;
    }
    let rest = text.substring_char(start, n);
    proof {
        assert(rest@ =~= text@.skip(start as int));
        lemma_marks_skipped(text@, start as int);
        lemma_suffix_encodes_shorter(text@, start as int);
    }
    rest
}

/// The parser counts positions in 32 bits: a text fits where its UTF-8
/// encoding is shorter than `u32::MAX` bytes.
pub open spec fn fits_parser(text: Seq<char>) -> bool {
    encode_utf8(text).len() < u32::MAX
}

/// Whether `text` fits the parser.
pub fn text_fits_parser(text: &str) -> (fits: bool)
    ensures
        fits == fits_parser(text@),
{
    text.as_bytes().len() < 0xffff_ffff
}

/// What deno_ast makes of a TypeScript module: the JavaScript text that it
/// emits, or the diagnostic with which it refuses the text.
pub uninterp spec fn lowered(text: Seq<char>) -> Result<Seq<char>, Seq<char>>;

/// A text or a diagnostic, as contracts see it.
pub open spec fn texts(outcome: Result<String, String>) -> Result<Seq<char>, Seq<char>> {
    match outcome {
        Ok(text) => Ok(text@),
        Err(diagnostic) => Err(diagnostic@),
    }
}

/// Calls `deno_ast::parse_module` on `text` as a TypeScript module named
/// `file:///inner`, then `ParsedSource::transpile` with default options, and
/// hands back the emitted text or the error's message. The contract claims
/// only that the outcome depends on the text alone. The text may not start
/// with a byte order mark, which the parser refuses to strip in a debug
/// build, and its length has to fit the parser's 32-bit positions.
#[verifier::external_body]
fn lower_typescript(text: &str) -> (outcome: Result<String, String>)
    requires
        text@.len() == 0 || text@[0] != byte_order_mark(),
        fits_parser(text@),
    ensures
        texts(outcome) == lowered(text@),
{
    let parsed = deno_ast::parse_module(deno_ast::ParseParams {
        specifier: deno_ast::ModuleSpecifier::parse("file:///inner").unwrap(),
        text: std::sync::Arc::from(text),
        media_type: deno_ast::MediaType::TypeScript,
        capture_tokens: false,
        scope_analysis: false,
        maybe_syntax: None,
    });
    match parsed {
        Ok(parsed) => match parsed.transpile(&Default::default(), &Default::default(), &Default::default()) {
            Ok(emitted) => Ok(emitted.into_source().text),
            Err(error) => Err(error.to_string()),
        },
        Err(diagnostic) => Err(diagnostic.to_string()),
    }
}

/// What lowering `code` gives: the emitted text for the code without its
/// leading byte order marks, or a parse failure with the diagnostic.
pub open spec fn transpiled(code: Seq<char>) -> Result<Seq<char>, Failure> {
    match lowered(without_marks(code)) {
        Ok(text) => Ok(text),
        Err(diagnostic) => Err(Failure::Parse(diagnostic)),
    }
}

/// Nothing is left to drop from a text without its leading marks.
pub proof fn lemma_without_marks_idempotent(text: Seq<char>)
    ensures
        without_marks(without_marks(text)) == without_marks(text),
        without_marks(text).len() == 0 || without_marks(text)[0] != byte_order_mark(),
    decreases text.len(),
{
    if text.len() > 0 && text[0] == byte_order_mark() {
        lemma_without_marks_idempotent(text.drop_first());
    }
}

/// Leading byte order marks do not change what a text is lowered to.
pub proof fn lemma_marks_do_not_matter(code: Seq<char>)
    ensures
        transpiled(seq![byte_order_mark()] + code) == transpiled(code),
        transpiled(without_marks(code)) == transpiled(code),
{
    let marked = seq![byte_order_mark()] + code;
    assert(marked.drop_first() =~= code);
    lemma_without_marks_idempotent(code);
}

/// Lowers TypeScript to JavaScript. Leading byte order marks are dropped
/// first. The text has to be shorter than 4 GiB.
pub fn transpile(code: &str) -> (result: Result<String, ScriptError>)
    requires
        fits_parser(code@),
    ensures
        text_or_failure(result) == transpiled(code@),
{
    match lower_typescript(strip_marks(code)) {
        Ok(text) => Ok(text),
        Err(diagnostic) => Err(ScriptError::Parse(diagnostic)),
    }
}

/// The code to run for a text in `language`: typed text lowered, untyped text
/// as it is.
pub open spec fn prepared(code: Seq<char>, language: Language) -> Result<Seq<char>, Failure> {
    match language {
        Language::Typed => transpiled(code),
        Language::Untyped => Ok(code),
    }
}

/// Turns a text in `language` into code that an engine can run. Typed text
/// is lowered and has to be shorter than 4 GiB; untyped text is handed back
/// unchanged, whatever it holds.
pub fn prepare(code: String, language: Language) -> (result: Result<String, ScriptError>)
    requires
        language == Language::Typed ==> fits_parser(code@),
    ensures
        text_or_failure(result) == prepared(code@, language),
{
    match language {
        Language::Typed => transpile(code.as_str()),
        Language::Untyped => Ok(code),
    }
}

/// The code to run for a file at `path` whose reading gave `read`.
pub open spec fn code_of_file(path: Seq<char>, read: Result<Seq<char>, Seq<char>>) -> Result<
    Seq<char>,
    Failure,
> {
    match read {
        Err(diagnostic) => Err(Failure::Io(diagnostic)),
        Ok(content) => prepared(content, declared_language(path)),
    }
}

/// The path alone decides how a readable file is prepared: one that ends in
/// `.ts` is lowered, whatever stands before the suffix, and every other one
/// is handed back unchanged. An unreadable file is an I/O failure with the
/// read's diagnostic, whatever its path.
pub proof fn lemma_files_are_prepared_by_their_suffix(
    path: Seq<char>,
    content: Seq<char>,
    diagnostic: Seq<char>,
)
    ensures
        typed_suffix().is_suffix_of(path) ==> code_of_file(path, Ok(content)) == transpiled(
            content,
        ),
        !typed_suffix().is_suffix_of(path) ==> code_of_file(path, Ok(content)) == Ok::<
            Seq<char>,
            Failure,
        >(content),
        code_of_file(path, Err(diagnostic)) == Err::<Seq<char>, Failure>(Failure::Io(diagnostic)),
        code_of_file(typed_suffix(), Ok(content)) == transpiled(content),
        code_of_file(path + typed_suffix(), Ok(content)) == transpiled(content),
{
    assert(typed_suffix().is_suffix_of(typed_suffix())) by {
        assert(typed_suffix().subrange(0, 3) =~= typed_suffix());
    }
    assert(typed_suffix().is_suffix_of(path + typed_suffix())) by {
        let whole = path + typed_suffix();
        assert(whole.subrange(whole.len() - 3, whole.len() as int) =~= typed_suffix());
    }
}

/// The code to run for the file at `file_path`, given what reading it gave:
/// its content, or the diagnostic of the failed read. Typed source is
/// lowered, untyped source is handed back unchanged, and a failed read is an
/// I/O failure. Typed content has to be shorter than 4 GiB.
pub fn get_code(file_path: &str, read: Result<String, String>) -> (result: Result<
    String,
    ScriptError,
>)
    requires
        read matches Ok(content) ==> is_typed_path(file_path@) ==> fits_parser(content@),
    ensures
        text_or_failure(result) == code_of_file(file_path@, texts(read)),
{
    match read {
        Err(diagnostic) => Err(ScriptError::Io(diagnostic)),
        Ok(content) => prepare(content, language_of_path(file_path)),
    }
}

} // verus!
