//! The source files of a project, and what they import.

use crate::error::ScanError;
use crate::pattern::{accepted, every_capture, find_matches, present};
use vstd::prelude::*;

verus! {

/// The expression that finds a static import: the word `import`, the bindings,
/// the word `from`, and the module between single or double quotes, closed by a
/// semicolon. Its group is the module.
pub const IMPORT_PATTERN: &'static str = r#"import\s+[^'"]+\s+from\s+['"]([^'"]+)['"];"#;

/// An entry of the project directory: its name, without the directories that
/// lead to it; whether it is itself a directory; and the text that was read
/// from it, which is empty where nothing was read.
#[derive(Debug)]
pub struct DirectoryEntry {
    pub name: String,
    pub is_directory: bool,
    pub content: String,
}

/// Whether `c` is white space, as `char::is_whitespace` decides it.
pub uninterp spec fn white_space(c: char) -> bool;

/// Calls `char::is_whitespace`.
///
/// Trusted: the result is `white_space` of the character.
#[verifier::external_body]
fn is_white_space(c: char) -> (white: bool)
    ensures
        white == white_space(c),
{
    c.is_whitespace()
}

/// `text` without the white space that it begins with.
pub open spec fn trim_start(text: Seq<char>) -> Seq<char>
    decreases text.len(),
{
    if text.len() > 0 && white_space(text.first()) {
        trim_start(text.drop_first())
    } else {
        text
    }
}

/// `text` without the white space that it ends with.
pub open spec fn trim_end(text: Seq<char>) -> Seq<char>
    decreases text.len(),
{
    if text.len() > 0 && white_space(text.last()) {
        trim_end(text.drop_last())
    } else {
        text
    }
}

/// `text` without the white space around it.
pub open spec fn trimmed(text: Seq<char>) -> Seq<char> {
    trim_end(trim_start(text))
}

/// Whether a name is that of a source file: it ends in `.js`, and there is more
/// to it than that ending.
pub open spec fn is_source_name(name: Seq<char>) -> bool {
    name.len() > 3 && name.skip(name.len() - 3) == seq!['.', 'j', 's']
}

/// Whether an entry of this name and kind is a source file: it is no
/// directory, whatever its name, and its name is that of a source file.
pub open spec fn is_source_entry(name: Seq<char>, is_directory: bool) -> bool {
    !is_directory && is_source_name(name)
}

/// The test by which a directory entry is kept.
pub open spec fn is_source() -> spec_fn(DirectoryEntry) -> bool {
    |entry: DirectoryEntry| is_source_entry(entry.name@, entry.is_directory)
}

/// The text of a file as it is searched.
pub open spec fn searched_text() -> spec_fn(DirectoryEntry) -> Seq<char> {
    |entry: DirectoryEntry| trimmed(entry.content@)
}

/// The trimmed texts of the source files among `files`, in the order of
/// `files`.
pub open spec fn source_texts(files: Seq<DirectoryEntry>) -> Seq<Seq<char>> {
    files.filter(is_source()).map_values(searched_text())
}

/// The modules that one text imports, in the order of the text.
pub open spec fn imports_of(text: Seq<char>) -> Seq<Seq<char>> {
    present(every_capture(IMPORT_PATTERN@, text))
}

/// The modules that the texts import: those of the first text, then those of
/// the second, and so on.
pub open spec fn imports_of_all(texts: Seq<Seq<char>>) -> Seq<Seq<char>>
    decreases texts.len(),
{
    if texts.len() == 0 {
        Seq::empty()
    } else {
        imports_of_all(texts.drop_last()) + imports_of(texts.last())
    }
}

/// The modules that the source files among `files` import.
pub open spec fn imported_names(files: Seq<DirectoryEntry>) -> Seq<Seq<char>> {
    imports_of_all(source_texts(files))
}

/// Whether `texts` can be searched for imports: there is nothing to search, or
/// the engine accepts the expression for an import.
pub open spec fn can_scan(texts: Seq<Seq<char>>) -> bool {
    texts.len() == 0 || accepted(IMPORT_PATTERN@)
}

/// A directory entry that is no source file, by its name or because it is a
/// directory, adds nothing to the imported names, whatever its text and
/// wherever it stands among the others.
pub proof fn lemma_other_file_is_ignored(
    files: Seq<DirectoryEntry>,
    at: int,
    other: DirectoryEntry,
)
    requires
        0 <= at <= files.len(),
        other.is_directory || !is_source_name(other.name@),
    ensures
        source_texts(files.insert(at, other)) == source_texts(files),
        imported_names(files.insert(at, other)) == imported_names(files),
{
    let front = files.take(at);
    let back = files.skip(at);
    let one = seq![other];
    assert(files.insert(at, other) =~= front + one + back);
    assert(files =~= front + back);
    Seq::filter_distributes_over_add(front + one, back, is_source());
    Seq::filter_distributes_over_add(front, one, is_source());
    Seq::filter_distributes_over_add(front, back, is_source());
    assert(one.filter(is_source()) =~= Seq::<DirectoryEntry>::empty()) by {
        one.lemma_filter_len(is_source());
        if one.filter(is_source()).len() > 0 {
            one.lemma_filter_pred(is_source(), 0);
            assert(one.filter(is_source()).contains(one.filter(is_source())[0]));
            one.lemma_filter_contains_rev(is_source(), one.filter(is_source())[0]);
        }
    }
    assert(front.filter(is_source()) + one.filter(is_source()) =~= front.filter(is_source()));
}

/// The characters of `text`, one by one.
fn chars_of(text: &str) -> (chars: Vec<char>)
    ensures
        chars@ == text@,
{
    let mut chars: Vec<char> = Vec::new();
    for c in it: text.chars()
        invariant
            chars@ == it.seq().take(it.index() as int),
            it.seq() == text@,
    {
        chars.push(c);
    }
    chars
}

/// Removes the white space around `text`.
pub fn trim(text: &str) -> (inner: String)
    ensures
        inner@ == trimmed(text@),
{
    let chars = chars_of(text);
    let n = chars.len();
    let mut from: usize = 0;
    assert(text@.skip(0) =~= text@);
    while from < n && is_white_space(chars[from])
        invariant
            from <= n,
            n == text@.len(),
            chars@ == text@,
            trim_start(text@) == trim_start(text@.skip(from as int)),
        decreases n - from,
    {
        assert(text@.skip(from as int).drop_first() =~= text@.skip(from + 1));
        from += 1;
    }
    let ghost rest = text@.skip(from as int);
    assert(trim_start(text@) == rest);
    let mut to: usize = n;
    assert(rest.take(n - from) =~= rest);
    while to > from && is_white_space(chars[to - 1])
        invariant
            from <= to <= n,
            n == text@.len(),
            chars@ == text@,
            rest == text@.skip(from as int),
            trim_end(rest) == trim_end(rest.take(to - from)),
        decreases to,
    {
        assert(rest.take(to - from).drop_last() =~= rest.take(to - from - 1));
        to -= 1;
    }
    assert(trim_end(rest) == rest.take(to - from));
    assert(rest.take(to - from) =~= text@.subrange(from as int, to as int));
    text.substring_char(from, to).to_owned()
}

/// Whether a file of this name is a source file.
pub fn has_source_extension(name: &str) -> (recognized: bool)
    ensures
        recognized == is_source_name(name@),
{
    let n = name.unicode_len();
    if n <= 3 {
        return false;
    }
    let matches = name.get_char(n - 3) == '.' && name.get_char(n - 2) == 'j' && name.get_char(
        n - 1,
    ) == 's';
    proof {
        let ending = name@.skip(n - 3);
        if matches {
            assert(ending =~= seq!['.', 'j', 's']);
        } else {
            assert(ending[0] == name@[n - 3]);
            assert(ending[1] == name@[n - 2]);
            assert(ending[2] == name@[n - 1]);
        }
    }
    matches
}

/// Whether an entry of this name and kind is a source file, whose text is to
/// be read.
pub fn is_source_file(name: &str, is_directory: bool) -> (source: bool)
    ensures
        source == is_source_entry(name@, is_directory),
{
    !is_directory && has_source_extension(name)
}

/// The trimmed text of each source file among `files`, in the order of
/// `files`. A directory is passed over, and so is an entry whose name has
/// another ending, or none.
pub fn read_js_files_in_dir(files: &Vec<DirectoryEntry>) -> (texts: Vec<String>)
    ensures
        texts.deep_view() == source_texts(files@),
{
    let mut texts: Vec<String> = Vec::new();
    let mut i: usize = 0;
    proof {
        reveal(Seq::filter);
        assert(files@.take(0) =~= Seq::<DirectoryEntry>::empty());
        assert(texts.deep_view() =~= source_texts(files@.take(0)));
    }
    while i < files.len()
        invariant
            i <= files.len(),
            texts.deep_view() == source_texts(files@.take(i as int)),
        decreases files.len() - i,
    {
        let file = &files[i];
        let ghost before = texts.deep_view();
        proof {
            let seen = files@.take(i as int);
            assert(files@.take(i + 1) =~= seen.push(*file));
            seen.lemma_filter_push(*file, is_source());
            seen.filter(is_source()).lemma_push_map_commute(searched_text(), *file);
        }
        if is_source_file(file.name.as_str(), file.is_directory) {
            texts.push(trim(file.content.as_str()));
            assert(texts.deep_view() =~= before.push(trimmed(file.content@)));
        }
        i += 1;
    }
    assert(files@.take(files.len() as int) =~= files@);
    texts
}

/// The modules that `texts` import, text after text. An error where there is
/// a text to search and the engine refuses the expression, and only there.
pub fn scan_imports(texts: &Vec<String>) -> (found: Result<Vec<String>, ScanError>)
    ensures
        found is Ok <==> can_scan(texts.deep_view()),
        found matches Ok(modules) ==> modules.deep_view() == imports_of_all(texts.deep_view()),
        found matches Err(error) ==> error == ScanError::Pattern,
{
    let mut modules: Vec<String> = Vec::new();
    let mut i: usize = 0;
    assert(texts.deep_view().take(0) =~= Seq::<Seq<char>>::empty());
    assert(modules.deep_view() =~= Seq::<Seq<char>>::empty());
    while i < texts.len()
        invariant
            i <= texts.len(),
            i > 0 ==> accepted(IMPORT_PATTERN@),
            modules.deep_view() == imports_of_all(texts.deep_view().take(i as int)),
        decreases texts.len() - i,
    {
        let ghost before = modules.deep_view();
        let ghost seen = texts.deep_view().take(i + 1);
        assert(seen.drop_last() =~= texts.deep_view().take(i as int));
        assert(seen.last() == texts[i as int]@);
        let mut more = find_matches(IMPORT_PATTERN, texts[i].as_str())?;
        let ghost added = more.deep_view();
        modules.append(&mut more);
        assert(modules.deep_view() =~= before + added);
        i += 1;
    }
    assert(texts.deep_view().take(texts.len() as int) =~= texts.deep_view());
    Ok(modules)
}

} // verus!
