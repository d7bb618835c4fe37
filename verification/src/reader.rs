//! The reader of an npm project.

use crate::compare::{
    lemma_unused_is_subset, lemma_unused_of_full_coverage, lemma_unused_of_no_coverage,
    missing_names, unused,
};
use crate::error::ScanError;
use crate::manifest::{can_extract, declared_names, extract_dependencies};
use crate::source::{
    can_scan, imported_names, read_js_files_in_dir, scan_imports, source_texts, DirectoryEntry,
};
use vstd::prelude::*;
use vstd::string::StringExecFns;

verus! {

/// The name of the manifest of an npm project, with the separator that parts it
/// from the directory.
pub const MANIFEST_SUFFIX: &'static str = "/package.json";

/// Whether every name of `part` is a name of `whole`.
pub open spec fn all_among(part: Seq<Seq<char>>, whole: Seq<Seq<char>>) -> bool {
    forall|k: int| 0 <= k < part.len() ==> whole.contains(#[trigger] part[k])
}

/// A reader that finds the declared dependencies of a project and those among
/// them that nothing imports.
pub trait DependencyReader {
    /// The names that the reader holds as declared.
    spec fn declared(&self) -> Seq<Seq<char>>;

    /// The names that the reader holds as unused.
    spec fn unused_names(&self) -> Seq<Seq<char>>;

    /// Reads the declared names from `manifest`, the imported ones from the
    /// source files among `files`, and keeps the declared names that are not
    /// imported.
    ///
    /// After a scan that succeeds, every unused name is a declared name.
    fn read_unusued_deps(&mut self, manifest: &str, files: &Vec<DirectoryEntry>) -> (outcome: Result<
        (),
        ScanError,
    >)
        ensures
            outcome is Ok ==> all_among(final(self).unused_names(), final(self).declared()),
    ;
}

/// The reader of an npm project: the directory it stands for, the names that
/// its manifest declares, and those among them that no source file imports.
#[derive(Debug)]
pub struct NpmReader {
    pub dependencies: Vec<String>,
    pub unusued_dependencies: Vec<String>,
    pub root_path: String,
}

impl NpmReader {
    /// Every unused name that the reader holds is one of its declared names.
    pub open spec fn wf(&self) -> bool {
        all_among(self.unusued_dependencies.deep_view(), self.dependencies.deep_view())
    }

    /// A reader for the project at `path`, with nothing declared and nothing
    /// unused yet. `is_file` says whether `path` leads to a file: a reader
    /// stands for a directory, so such a path is refused.
    pub fn new(path: String, is_file: bool) -> (made: Result<NpmReader, ScanError>)
        ensures
            is_file ==> made == Err::<NpmReader, ScanError>(ScanError::NotADirectory),
            !is_file ==> made is Ok,
            made matches Ok(reader) ==> {
                &&& reader.root_path@ == path@
                &&& reader.dependencies@.len() == 0
                &&& reader.unusued_dependencies@.len() == 0
                &&& reader.wf()
            },
    {
        if is_file {
            return Err(ScanError::NotADirectory);
        }
        Ok(NpmReader { root_path: path, dependencies: Vec::new(), unusued_dependencies: Vec::new() })
    }

    /// The path of the manifest: `package.json` in the project directory.
    pub fn manifest_path(&self) -> (path: String)
        ensures
            path@ == self.root_path@ + MANIFEST_SUFFIX@,
    {
        let mut path = self.root_path.clone();
        path.append(MANIFEST_SUFFIX);
        path
    }

    /// The entries of `all_deps` that are not among `found_deps`, in the order
    /// of `all_deps`. Two names are the same where their characters are.
    pub fn find_mismatches(all_deps: Vec<String>, found_deps: Vec<String>) -> (mismatches: Vec<
        String,
    >)
        ensures
            mismatches.deep_view() == unused(all_deps.deep_view(), found_deps.deep_view()),
            all_among(mismatches.deep_view(), all_deps.deep_view()),
            all_among(all_deps.deep_view(), found_deps.deep_view()) ==> mismatches@.len() == 0,
            (forall|k: int|
                0 <= k < all_deps.deep_view().len() ==> !found_deps.deep_view().contains(
                    #[trigger] all_deps.deep_view()[k],
                )) ==> mismatches.deep_view() == all_deps.deep_view(),
    {
        let mismatches = missing_names(&all_deps, &found_deps);
        proof {
            let declared = all_deps.deep_view();
            let imported = found_deps.deep_view();
            lemma_unused_is_subset(declared, imported);
            if all_among(declared, imported) {
                lemma_unused_of_full_coverage(declared, imported);
            }
            if forall|k: int| 0 <= k < declared.len() ==> !imported.contains(#[trigger] declared[k]) {
                lemma_unused_of_no_coverage(declared, imported);
            }
        }
        mismatches
    }

    /// Sets the declared names of the reader to those that `manifest` declares,
    /// in place of any that it held. The unused names of an earlier scan say
    /// nothing of the new list and are dropped.
    pub fn read_installed_deps(&mut self, manifest: &str) -> (outcome: Result<(), ScanError>)
        ensures
            outcome is Ok <==> can_extract(manifest@),
            outcome is Ok ==> {
                &&& final(self).dependencies.deep_view() == declared_names(manifest@)
                &&& final(self).unusued_dependencies@.len() == 0
                &&& final(self).root_path == old(self).root_path
                &&& final(self).wf()
            },
            outcome matches Err(error) ==> error == ScanError::Pattern && *final(self) == *old(
                self,
            ),
    {
        let names = extract_dependencies(manifest)?;
        self.dependencies = names;
        self.unusued_dependencies = Vec::new();
        Ok(())
    }
}

impl DependencyReader for NpmReader {
    open spec fn declared(&self) -> Seq<Seq<char>> {
        self.dependencies.deep_view()
    }

    open spec fn unused_names(&self) -> Seq<Seq<char>> {
        self.unusued_dependencies.deep_view()
    }

    /// Sets the declared names to those that `manifest` declares, and the unused
    /// names to those among them that the source files among `files` do not
    /// import. Both lists are made anew: nothing of an earlier scan stays. Every
    /// source file is searched, in the order of `files`; with no source file at
    /// all, every declared name is unused.
    fn read_unusued_deps(&mut self, manifest: &str, files: &Vec<DirectoryEntry>) -> (outcome: Result<
        (),
        ScanError,
    >)
        ensures
            outcome is Ok <==> can_scan(source_texts(files@)) && can_extract(manifest@),
            outcome is Ok ==> {
                &&& final(self).dependencies.deep_view() == declared_names(manifest@)
                &&& final(self).unusued_dependencies.deep_view() == unused(
                    declared_names(manifest@),
                    imported_names(files@),
                )
                &&& final(self).root_path == old(self).root_path
                &&& final(self).wf()
            },
            outcome matches Err(error) ==> error == ScanError::Pattern && *final(self) == *old(
                self,
            ),
    {
        let texts = read_js_files_in_dir(files);
        let found = scan_imports(&texts)?;
        self.read_installed_deps(manifest)?;
        self.unusued_dependencies = missing_names(&self.dependencies, &found);
        proof {
            lemma_unused_is_subset(self.dependencies.deep_view(), found.deep_view());
        }
        Ok(())
    }
}

} // verus!
