//! The names that a package manifest declares.

use crate::error::ScanError;
use crate::pattern::{
    accepted, captured, every_capture, find_first, find_matches, first_capture, present,
};
use vstd::prelude::*;

verus! {

/// The expression that finds a dependency section: one of the two keys between
/// double quotes, a colon, and a body between braces. Its group is the body,
/// which ends at the first closing brace.
pub const SECTION_PATTERN: &'static str =
    r#""(?:dependencies|devDependencies)"\s*:\s*\{([^}]*)\}"#;

/// The expression that finds an entry of a section: a name and a version, each
/// between double quotes, with a colon between them. Its group is the name.
pub const ENTRY_PATTERN: &'static str = r#""([^"]+)"\s*:\s*"(.*?[^\\])""#;

/// The names of the entries of a section body, in the order of the text.
pub open spec fn entry_names(body: Seq<char>) -> Seq<Seq<char>> {
    present(every_capture(ENTRY_PATTERN@, body))
}

/// The names that `manifest` declares: those of the first dependency section in
/// its text, in the order of the text, a name as often as it stands there. A
/// manifest without such a section declares nothing.
pub open spec fn declared_names(manifest: Seq<char>) -> Seq<Seq<char>> {
    match captured(first_capture(SECTION_PATTERN@, manifest)) {
        Some(body) => entry_names(body),
        None => Seq::empty(),
    }
}

/// Whether the names of `manifest` can be read: the engine accepts the
/// expression for a section and, where the text has a section, the one for its
/// entries.
pub open spec fn can_extract(manifest: Seq<char>) -> bool {
    &&& accepted(SECTION_PATTERN@)
    &&& captured(first_capture(SECTION_PATTERN@, manifest)) is Some ==> accepted(ENTRY_PATTERN@)
}

/// A manifest in which no dependency section is found declares nothing, and
/// reading it asks no more of the engine than the expression for a section.
pub proof fn lemma_no_section_declares_nothing(manifest: Seq<char>)
    requires
        captured(first_capture(SECTION_PATTERN@, manifest)) is None,
    ensures
        declared_names(manifest) == Seq::<Seq<char>>::empty(),
        can_extract(manifest) == accepted(SECTION_PATTERN@),
{
}

/// Reads the declared names out of the text of a manifest.
///
/// Only the first dependency section of the text is read. A text without one
/// gives an empty list, which is no error: the only error is an expression
/// that the engine refuses.
pub fn extract_dependencies(manifest: &str) -> (found: Result<Vec<String>, ScanError>)
    ensures
        found is Ok <==> can_extract(manifest@),
        found matches Ok(names) ==> names.deep_view() == declared_names(manifest@),
        found matches Err(error) ==> error == ScanError::Pattern,
{
    match find_first(SECTION_PATTERN, manifest)? {
        Some(body) => find_matches(ENTRY_PATTERN, body.as_str()),
        None => {
            let names: Vec<String> = Vec::new();
            assert(names.deep_view() =~= Seq::<Seq<char>>::empty());
            Ok(names)
        },
    }
}

} // verus!
