//! Which OpenBLAS runtime library a Windows build ships.
//!
//! The library decides from what lies in the OpenBLAS directory; copying the
//! file is left to the build. Nothing is to be removed or copied unless a plan
//! is given.

use vstd::prelude::*;

use crate::text::{is_text_le, same_text, same_text_ignoring_ascii_case};

verus! {

/// Why no runtime library can be shipped.
#[derive(Debug, PartialEq, Eq)]
pub enum StageError {
    MissingOpenBlasPath,
    /// The path of an import library that is not there.
    MissingImportLibrary(String),
    /// The runtime directory, which holds no library.
    MissingRuntimeDll(String),
    /// The runtime directory, which does not hold the expected one.
    MissingLoaderDll { directory: String, expected: String },
    Io(String),
}

/// The contents of a [`StageError`].
pub enum StageErrorView {
    MissingOpenBlasPath,
    MissingImportLibrary(Seq<char>),
    MissingRuntimeDll(Seq<char>),
    MissingLoaderDll { directory: Seq<char>, expected: Seq<char> },
    Io(Seq<char>),
}

impl View for StageError {
    type V = StageErrorView;

    open spec fn view(&self) -> StageErrorView {
        match self {
            StageError::MissingOpenBlasPath => StageErrorView::MissingOpenBlasPath,
            StageError::MissingImportLibrary(path) => StageErrorView::MissingImportLibrary(path@),
            StageError::MissingRuntimeDll(path) => StageErrorView::MissingRuntimeDll(path@),
            StageError::MissingLoaderDll { directory, expected } => {
                StageErrorView::MissingLoaderDll { directory: directory@, expected: expected@ }
            },
            StageError::Io(message) => StageErrorView::Io(message@),
        }
    }
}

/// The text of an error.
pub open spec fn stage_error_text(error: StageErrorView) -> Seq<char> {
    match error {
        StageErrorView::MissingOpenBlasPath =>
        "OPENBLAS_PATH is required for Windows builds with Whisper OpenBLAS support"@,
        StageErrorView::MissingImportLibrary(path) => "OpenBLAS import library is missing: "@ + path,
        StageErrorView::MissingRuntimeDll(path) =>
        "OpenBLAS runtime directory contains no DLLs: "@ + path,
        StageErrorView::MissingLoaderDll { directory, expected } => "OpenBLAS runtime directory "@
            + directory + " does not contain "@ + expected,
        StageErrorView::Io(message) => message,
    }
}

impl StageError {
    /// The text of the error.
    pub fn message(&self) -> (r: String)
        ensures
            r@ == stage_error_text(self@),
            *self is MissingOpenBlasPath ==> r@
                == "OPENBLAS_PATH is required for Windows builds with Whisper OpenBLAS support"@,
            *self matches StageError::MissingImportLibrary(path) ==> r@
                == "OpenBLAS import library is missing: "@ + path@,
            *self matches StageError::MissingRuntimeDll(path) ==> r@
                == "OpenBLAS runtime directory contains no DLLs: "@ + path@,
            *self matches StageError::MissingLoaderDll { directory, expected } ==> r@
                == "OpenBLAS runtime directory "@ + directory@ + " does not contain "@ + expected@,
            *self matches StageError::Io(message) ==> r@ == message@,
    {
        match self {
            StageError::MissingOpenBlasPath => {
                "OPENBLAS_PATH is required for Windows builds with Whisper OpenBLAS support".to_owned()
            },
            StageError::MissingImportLibrary(path) => {
                let mut text: String = "OpenBLAS import library is missing: ".to_owned();
                text.append(path.as_str());
                text
            },
            StageError::MissingRuntimeDll(path) => {
                let mut text: String = "OpenBLAS runtime directory contains no DLLs: ".to_owned();
                text.append(path.as_str());
                text
            },
            StageError::MissingLoaderDll { directory, expected } => {
                let mut text: String = "OpenBLAS runtime directory ".to_owned();
                text.append(directory.as_str());
                text.append(" does not contain ");
                text.append(expected.as_str());
                text
            },
            StageError::Io(message) => message.clone(),
        }
    }
}

/// The text of a failed file operation.
pub open spec fn io_text(action: Seq<char>, path: Seq<char>, error: Seq<char>) -> Seq<char> {
    action + " at "@ + path + ": "@ + error
}

/// The error of a failed file operation.
pub fn io_error(action: &str, path: &str, error: &str) -> (r: StageError)
    ensures
        r@ == StageErrorView::Io(io_text(action@, path@, error@)),
        r matches StageError::Io(text) && text@ == action@ + " at "@ + path@ + ": "@ + error@,
{
    let mut text: String = action.to_owned();
    text.append(" at ");
    text.append(path);
    text.append(": ");
    text.append(error);
    StageError::Io(text)
}

/// The import libraries that the linker needs, by file name: first the one of
/// OpenBLAS itself, then the one of the plain BLAS interface.
pub const OPENBLAS_IMPORT_LIBRARY: &'static str = "libopenblas.lib";

pub const BLAS_IMPORT_LIBRARY: &'static str = "blas.lib";

/// A library that the linker needs.
#[derive(Debug)]
pub struct ImportLibrary {
    pub path: String,
    pub is_file: bool,
}

/// An entry of the runtime directory.
#[derive(Debug)]
pub struct RuntimeEntry {
    pub path: String,
    pub file_name: Option<String>,
    pub extension: Option<String>,
    pub is_file: bool,
}

/// What lies in the runtime directory.
#[derive(Debug)]
pub enum RuntimeListing {
    /// The directory does not exist.
    NotFound,
    /// It could not be opened; the reason.
    Unreadable(String),
    /// One of its entries could not be read; the reason.
    EntryUnreadable(String),
    Entries(Vec<RuntimeEntry>),
}

/// What lies in the OpenBLAS directory.
#[derive(Debug)]
pub struct OpenBlasLayout {
    /// [`OPENBLAS_IMPORT_LIBRARY`] in the directory of libraries.
    pub openblas_library: ImportLibrary,
    /// [`BLAS_IMPORT_LIBRARY`] in the directory of libraries.
    pub blas_library: ImportLibrary,
    pub runtime_dir: String,
    pub runtime: RuntimeListing,
}

/// What to copy: one file, under each of the names.
#[derive(Debug, PartialEq, Eq)]
pub struct StagePlan {
    pub source: String,
    pub staged: Vec<String>,
}

/// The entry is a library.
pub open spec fn is_runtime_dll(entry: RuntimeEntry) -> bool {
    entry.is_file && (entry.extension matches Some(extension)
        && crate::text::same_ignoring_ascii_case(extension@, "dll"@))
}

/// The name is one that the loader of the architecture looks for.
pub open spec fn is_loader_name(target_arch: Seq<char>, name: Seq<char>) -> bool {
    ||| crate::text::same_ignoring_ascii_case(name, "libopenblas.dll"@)
    ||| target_arch == "aarch64"@ && crate::text::same_ignoring_ascii_case(name, "openblas.dll"@)
}

/// The entry is the library that the loader looks for.
pub open spec fn is_loader(target_arch: Seq<char>, entry: RuntimeEntry) -> bool {
    is_runtime_dll(entry) && (entry.file_name matches Some(name)
        && is_loader_name(target_arch, name@))
}

/// Entry `i` is the loader with the least path.
pub open spec fn is_least_loader(
    target_arch: Seq<char>,
    entries: Seq<RuntimeEntry>,
    i: int,
) -> bool {
    &&& 0 <= i < entries.len()
    &&& is_loader(target_arch, entries[i])
    &&& forall|j: int|
        0 <= j < entries.len() && is_loader(target_arch, #[trigger] entries[j])
            ==> crate::text::text_le(entries[i].path@, entries[j].path@)
}

/// What the loader is expected to be called.
pub open spec fn expected_loader(target_arch: Seq<char>) -> Seq<char> {
    if target_arch == "aarch64"@ {
        "openblas.dll or libopenblas.dll"@
    } else {
        "libopenblas.dll"@
    }
}

/// The names that the library is shipped under.
pub open spec fn staged_names(target_arch: Seq<char>) -> Seq<Seq<char>> {
    if target_arch == "aarch64"@ {
        seq!["libopenblas.dll"@, "openblas.dll"@]
    } else {
        seq!["libopenblas.dll"@]
    }
}

/// The first import library that is not there.
pub open spec fn missing_library(layout: OpenBlasLayout) -> Option<Seq<char>> {
    if !layout.openblas_library.is_file {
        Some(layout.openblas_library.path@)
    } else if !layout.blas_library.is_file {
        Some(layout.blas_library.path@)
    } else {
        None
    }
}

/// What the runtime directory yields.
pub open spec fn staged_from(
    target_arch: Seq<char>,
    dir: Seq<char>,
    entries: Seq<RuntimeEntry>,
    r: Result<Option<StagePlan>, StageError>,
) -> bool {
    match r {
        Ok(Some(plan)) => {
            &&& crate::text::texts(plan.staged@) == staged_names(target_arch)
            &&& exists|i: int|
                #[trigger] is_least_loader(target_arch, entries, i) && plan.source@
                    == entries[i].path@
        },
        Ok(None) => false,
        Err(error) => {
            &&& forall|i: int|
                0 <= i < entries.len() ==> !is_loader(target_arch, #[trigger] entries[i])
            &&& error@ == (if exists|i: int|
                0 <= i < entries.len() && is_runtime_dll(#[trigger] entries[i]) {
                StageErrorView::MissingLoaderDll {
                    directory: dir,
                    expected: expected_loader(target_arch),
                }
            } else {
                StageErrorView::MissingRuntimeDll(dir)
            })
        },
    }
}

fn check_runtime_dll(entry: &RuntimeEntry) -> (r: bool)
    ensures
        r == is_runtime_dll(*entry),
{
    match &entry.extension {
        Some(extension) => entry.is_file && same_text_ignoring_ascii_case(
            extension.as_str(),
            "dll",
        ),
        None => false,
    }
}

fn check_loader(target_arch: &str, entry: &RuntimeEntry) -> (r: bool)
    ensures
        r == is_loader(target_arch@, *entry),
{
    match &entry.file_name {
        Some(name) => check_runtime_dll(entry) && (same_text_ignoring_ascii_case(
            name.as_str(),
            "libopenblas.dll",
        ) || (same_text(target_arch, "aarch64") && same_text_ignoring_ascii_case(
            name.as_str(),
            "openblas.dll",
        ))),
        None => false,
    }
}

fn choose_loader(target_arch: &str, dir: &String, entries: &Vec<RuntimeEntry>) -> (r: Result<
    Option<StagePlan>,
    StageError,
>)
    ensures
        staged_from(target_arch@, dir@, entries@, r),
{
    let mut any_dll: bool = false;
    let mut best: Option<usize> = None;
    let mut i: usize = 0;
    while i < entries.len()
        invariant
            i <= entries@.len(),
            any_dll == exists|j: int| 0 <= j < i && is_runtime_dll(#[trigger] entries@[j]),
            match best {
                Some(b) => {
                    &&& b < i
                    &&& is_loader(target_arch@, entries@[b as int])
                    &&& forall|j: int|
                        0 <= j < i && is_loader(target_arch@, #[trigger] entries@[j])
                            ==> crate::text::text_le(entries@[b as int].path@, entries@[j].path@)
                },
                None => forall|j: int|
                    0 <= j < i ==> !is_loader(target_arch@, #[trigger] entries@[j]),
            },
        decreases entries@.len() - i,
    {
        let ghost had = any_dll;
        if check_runtime_dll(&entries[i]) {
            any_dll = true;
        }
        proof {
            if had {
                let j = choose|j: int| 0 <= j < i && is_runtime_dll(#[trigger] entries@[j]);
                assert(0 <= j < i + 1 && is_runtime_dll(entries@[j]));
            }
        }
        if check_loader(target_arch, &entries[i]) {
            match best {
                Some(b) => {
                    proof {
                        crate::text::text_order_is_total(
                            entries@[b as int].path@,
                            entries@[i as int].path@,
                        );
                        crate::text::text_order_is_reflexive(entries@[i as int].path@);
                        assert forall|j: int|
                            0 <= j < i && is_loader(target_arch@, #[trigger] entries@[j])
                                && crate::text::text_le(
                                entries@[i as int].path@,
                                entries@[b as int].path@,
                            ) implies crate::text::text_le(
                            entries@[i as int].path@,
                            entries@[j].path@,
                        ) by {
                            crate::text::text_order_is_transitive(
                                entries@[i as int].path@,
                                entries@[b as int].path@,
                                entries@[j].path@,
                            );
                        }
                    }
                    if !is_text_le(entries[b].path.as_str(), entries[i].path.as_str()) {
                        best = Some(i);
                    }
                },
                None => {
                    proof {
                        crate::text::text_order_is_reflexive(entries@[i as int].path@);
                    }
                    best = Some(i);
                },
            }
        }
        i += 1;
    }
    match best {
        Some(b) => {
            let mut staged: Vec<String> = Vec::new();
            staged.push("libopenblas.dll".to_owned());
            if same_text(target_arch, "aarch64") {
                staged.push("openblas.dll".to_owned());
            }
            proof {
                assert(crate::text::texts(staged@) =~= staged_names(target_arch@));
                assert(is_least_loader(target_arch@, entries@, b as int));
            }
            Ok(Some(StagePlan { source: entries[b].path.clone(), staged }))
        },
        None => {
            if any_dll {
                let expected: String = if same_text(target_arch, "aarch64") {
                    "openblas.dll or libopenblas.dll".to_owned()
                } else {
                    "libopenblas.dll".to_owned()
                };
                Err(StageError::MissingLoaderDll { directory: dir.clone(), expected })
            } else {
                Err(StageError::MissingRuntimeDll(dir.clone()))
            }
        },
    }
}

/// Decides which runtime library a build ships: none outside of Windows;
/// otherwise the one that the loader of the architecture looks for.
pub fn stage_openblas_runtime(
    target_os: &str,
    target_arch: &str,
    layout: Option<&OpenBlasLayout>,
) -> (r: Result<Option<StagePlan>, StageError>)
    ensures
        if target_os@ != "windows"@ {
            r == Ok::<Option<StagePlan>, StageError>(None)
        } else {
            match layout {
                None => r == Err::<Option<StagePlan>, StageError>(StageError::MissingOpenBlasPath),
                Some(found) => match missing_library(*found) {
                    Some(path) => r is Err && r->Err_0@ == StageErrorView::MissingImportLibrary(
                        path,
                    ),
                    None => match found.runtime {
                        RuntimeListing::NotFound => r is Err && r->Err_0@
                            == StageErrorView::MissingRuntimeDll(found.runtime_dir@),
                        RuntimeListing::Unreadable(error) => r is Err && r->Err_0@
                            == StageErrorView::Io(
                            io_text(
                                "read OpenBLAS runtime directory"@,
                                found.runtime_dir@,
                                error@,
                            ),
                        ),
                        RuntimeListing::EntryUnreadable(error) => r is Err && r->Err_0@
                            == StageErrorView::Io(
                            io_text(
                                "read OpenBLAS runtime directory entry"@,
                                found.runtime_dir@,
                                error@,
                            ),
                        ),
                        RuntimeListing::Entries(entries) => staged_from(
                            target_arch@,
                            found.runtime_dir@,
                            entries@,
                            r,
                        ),
                    },
                },
            }
        },
        r == Ok::<Option<StagePlan>, StageError>(None) <==> target_os@ != "windows"@,
        r matches Ok(Some(plan)) ==> {
            &&& layout is Some
            &&& layout->0.openblas_library.is_file
            &&& layout->0.blas_library.is_file
            &&& plan.staged@.len() == (if target_arch@ == "aarch64"@ {
                2int
            } else {
                1int
            })
            &&& plan.staged@[0]@ == "libopenblas.dll"@
            &&& target_arch@ == "aarch64"@ ==> plan.staged@[1]@ == "openblas.dll"@
        },
        target_os@ == "windows"@ ==> (layout matches Some(found) ==> {
            &&& !found.openblas_library.is_file ==> r is Err && r->Err_0@
                == StageErrorView::MissingImportLibrary(found.openblas_library.path@)
            &&& found.openblas_library.is_file && !found.blas_library.is_file ==> r is Err
                && r->Err_0@ == StageErrorView::MissingImportLibrary(found.blas_library.path@)
        }),
{
    proof {
        assert forall|plan: StagePlan| #[trigger] crate::text::texts(plan.staged@) == staged_names(
            target_arch@,
        ) implies plan.staged@.len() == staged_names(target_arch@).len() && (forall|i: int|
            0 <= i < plan.staged@.len() ==> (#[trigger] plan.staged@[i])@ == staged_names(
                target_arch@,
            )[i]) by {
            assert(crate::text::texts(plan.staged@).len() == plan.staged@.len());
            assert forall|i: int| 0 <= i < plan.staged@.len() implies (
            #[trigger] plan.staged@[i])@ == staged_names(target_arch@)[i] by {
                assert(crate::text::texts(plan.staged@)[i] == plan.staged@[i]@);
            }
        }
    }
    if !same_text(target_os, "windows") {
        return Ok(None);
    }
    let found: &OpenBlasLayout = match layout {
        Some(found) => found,
        None => {
            return Err(StageError::MissingOpenBlasPath);
        },
    };
    if !found.openblas_library.is_file {
        return Err(StageError::MissingImportLibrary(found.openblas_library.path.clone()));
    }
    if !found.blas_library.is_file {
        return Err(StageError::MissingImportLibrary(found.blas_library.path.clone()));
    }
    match &found.runtime {
        RuntimeListing::NotFound => Err(StageError::MissingRuntimeDll(found.runtime_dir.clone())),
        RuntimeListing::Unreadable(error) => Err(
            io_error(
                "read OpenBLAS runtime directory",
                found.runtime_dir.as_str(),
                error.as_str(),
            ),
        ),
        RuntimeListing::EntryUnreadable(error) => Err(
            io_error(
                "read OpenBLAS runtime directory entry",
                found.runtime_dir.as_str(),
                error.as_str(),
            ),
        ),
        RuntimeListing::Entries(entries) => choose_loader(
            target_arch,
            &found.runtime_dir,
            entries,
        ),
    }
}

/// A loader is a library under a name that the loader of the architecture looks
/// for, in whatever case; the second name is looked for on ARM alone.
pub proof fn which_files_are_loaders(target_arch: Seq<char>, entry: RuntimeEntry)
    ensures
        is_loader(target_arch, entry) <==> {
            &&& entry.is_file
            &&& entry.extension is Some
            &&& crate::text::same_ignoring_ascii_case(entry.extension->0@, "dll"@)
            &&& entry.file_name is Some
            &&& crate::text::same_ignoring_ascii_case(entry.file_name->0@, "libopenblas.dll"@) || (
            target_arch == "aarch64"@ && crate::text::same_ignoring_ascii_case(
                entry.file_name->0@,
                "openblas.dll"@,
            ))
        },
        is_runtime_dll(entry) <==> entry.is_file && entry.extension is Some
            && crate::text::same_ignoring_ascii_case(entry.extension->0@, "dll"@),
{
}

/// A library is always shipped under the name that every loader looks for, on
/// ARM under the other one too, and under no other name.
pub proof fn which_names_are_shipped(target_arch: Seq<char>)
    ensures
        staged_names(target_arch)[0] == "libopenblas.dll"@,
        target_arch == "aarch64"@ ==> staged_names(target_arch).len() == 2 && staged_names(
            target_arch,
        )[1] == "openblas.dll"@,
        target_arch != "aarch64"@ ==> staged_names(target_arch).len() == 1,
        target_arch == "aarch64"@ ==> expected_loader(target_arch)
            == "openblas.dll or libopenblas.dll"@,
        target_arch != "aarch64"@ ==> expected_loader(target_arch) == "libopenblas.dll"@,
{
}

/// Both import libraries must be there; the one of OpenBLAS is missed first.
pub proof fn both_import_libraries_are_needed(layout: OpenBlasLayout)
    ensures
        missing_library(layout) is None <==> layout.openblas_library.is_file
            && layout.blas_library.is_file,
        !layout.openblas_library.is_file ==> missing_library(layout) == Some(
            layout.openblas_library.path@,
        ),
        layout.openblas_library.is_file && !layout.blas_library.is_file ==> missing_library(layout)
            == Some(layout.blas_library.path@),
{
}

/// Of several loaders the one with the least path is shipped: no other loader
/// stands before it.
pub proof fn the_least_loader_is_shipped(
    target_arch: Seq<char>,
    dir: Seq<char>,
    entries: Seq<RuntimeEntry>,
    plan: StagePlan,
    j: int,
)
    requires
        staged_from(target_arch, dir, entries, Ok(Some(plan))),
        0 <= j < entries.len(),
        is_loader(target_arch, entries[j]),
    ensures
        crate::text::text_le(plan.source@, entries[j].path@),
        exists|i: int|
            0 <= i < entries.len() && is_loader(target_arch, #[trigger] entries[i])
                && entries[i].path@ == plan.source@,
{
    let i = choose|i: int|
        #[trigger] is_least_loader(target_arch, entries, i) && plan.source@ == entries[i].path@;
    assert(is_loader(target_arch, entries[i]));
}

/// A directory with a loader is never refused, and one without is: as one
/// without libraries, or as one without the expected library.
pub proof fn a_directory_is_refused_without_a_loader(
    target_arch: Seq<char>,
    dir: Seq<char>,
    entries: Seq<RuntimeEntry>,
    r: Result<Option<StagePlan>, StageError>,
    i: int,
)
    requires
        staged_from(target_arch, dir, entries, r),
        0 <= i < entries.len(),
    ensures
        is_loader(target_arch, entries[i]) ==> r is Ok,
        r matches Err(error) ==> is_runtime_dll(entries[i]) ==> error@
            == (StageErrorView::MissingLoaderDll {
            directory: dir,
            expected: expected_loader(target_arch),
        }),
{
}

} // verus!
