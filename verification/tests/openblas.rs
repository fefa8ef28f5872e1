//! Staging the OpenBLAS runtime.

use parler::openblas::{
    io_error, stage_openblas_runtime, ImportLibrary, OpenBlasLayout, RuntimeEntry, RuntimeListing,
    StageError, StagePlan, BLAS_IMPORT_LIBRARY, OPENBLAS_IMPORT_LIBRARY,
};

fn import(name: &str, is_file: bool) -> ImportLibrary {
    ImportLibrary {
        path: format!("openblas/lib/{name}"),
        is_file,
    }
}

fn entry(name: &str) -> RuntimeEntry {
    let extension = name.rsplit_once('.').map(|(_, extension)| extension.to_string());
    RuntimeEntry {
        path: format!("openblas/bin/{name}"),
        file_name: Some(name.to_string()),
        extension,
        is_file: true,
    }
}

fn layout(dll_names: &[&str]) -> OpenBlasLayout {
    OpenBlasLayout {
        openblas_library: import(OPENBLAS_IMPORT_LIBRARY, true),
        blas_library: import(BLAS_IMPORT_LIBRARY, true),
        runtime_dir: "openblas/bin".to_string(),
        runtime: RuntimeListing::Entries(dll_names.iter().map(|name| entry(name)).collect()),
    }
}

fn plan(source: &str, staged: &[&str]) -> StagePlan {
    StagePlan {
        source: source.to_string(),
        staged: staged.iter().map(|name| name.to_string()).collect(),
    }
}

#[test]
fn non_windows_targets_do_not_require_or_stage_openblas() {
    let staged = stage_openblas_runtime("linux", "x86_64", None).unwrap();

    assert!(staged.is_none());
}

#[test]
fn windows_requires_openblas_path() {
    let error = stage_openblas_runtime("windows", "x86_64", None).unwrap_err();

    assert_eq!(error, StageError::MissingOpenBlasPath);
}

#[test]
fn windows_rejects_an_incomplete_linker_layout() {
    let mut openblas = layout(&["libopenblas.dll"]);
    openblas.openblas_library = import(OPENBLAS_IMPORT_LIBRARY, false);
    openblas.blas_library = import(BLAS_IMPORT_LIBRARY, false);

    let error = stage_openblas_runtime("windows", "x86_64", Some(&openblas)).unwrap_err();

    assert_eq!(
        error,
        StageError::MissingImportLibrary("openblas/lib/libopenblas.lib".to_string())
    );
}

#[test]
fn windows_requires_the_generic_blas_alias_used_by_cmake() {
    let mut openblas = layout(&["libopenblas.dll"]);
    openblas.blas_library = import(BLAS_IMPORT_LIBRARY, false);

    let error = stage_openblas_runtime("windows", "x86_64", Some(&openblas)).unwrap_err();

    assert_eq!(
        error,
        StageError::MissingImportLibrary("openblas/lib/blas.lib".to_string())
    );
}

#[test]
fn x64_rejects_an_unrelated_dll_without_destroying_existing_staging() {
    let openblas = layout(&["unrelated.dll"]);

    let error = stage_openblas_runtime("windows", "x86_64", Some(&openblas)).unwrap_err();

    assert_eq!(
        error,
        StageError::MissingLoaderDll {
            directory: "openblas/bin".to_string(),
            expected: "libopenblas.dll".to_string(),
        }
    );
}

#[test]
fn arm64_rejects_a_layout_without_an_openblas_loader() {
    let openblas = layout(&["unrelated.dll"]);

    let error = stage_openblas_runtime("windows", "aarch64", Some(&openblas)).unwrap_err();

    assert_eq!(
        error,
        StageError::MissingLoaderDll {
            directory: "openblas/bin".to_string(),
            expected: "openblas.dll or libopenblas.dll".to_string(),
        }
    );
}

#[test]
fn x64_stages_runtime_and_removes_stale_dlls() {
    let openblas = layout(&["libopenblas.dll"]);

    let staged = stage_openblas_runtime("windows", "x86_64", Some(&openblas)).unwrap();

    assert_eq!(
        staged,
        Some(plan("openblas/bin/libopenblas.dll", &["libopenblas.dll"]))
    );
}

#[test]
fn arm64_stages_both_names_required_by_the_loader_and_linker() {
    let openblas = layout(&["libopenblas.dll"]);

    let staged = stage_openblas_runtime("windows", "aarch64", Some(&openblas)).unwrap();

    assert_eq!(
        staged,
        Some(plan(
            "openblas/bin/libopenblas.dll",
            &["libopenblas.dll", "openblas.dll"]
        ))
    );
}

#[test]
fn windows_rejects_a_layout_without_runtime_dlls() {
    let mut openblas = layout(&[]);
    openblas.runtime = RuntimeListing::NotFound;

    let error = stage_openblas_runtime("windows", "x86_64", Some(&openblas)).unwrap_err();

    assert_eq!(
        error,
        StageError::MissingRuntimeDll("openblas/bin".to_string())
    );
}

#[test]
fn an_unreadable_runtime_directory_is_reported() {
    let mut openblas = layout(&[]);
    openblas.runtime = RuntimeListing::Unreadable("denied".to_string());
    let error = stage_openblas_runtime("windows", "x86_64", Some(&openblas)).unwrap_err();
    assert!(matches!(error, StageError::Io(_)));
    assert!(error.message().contains("denied"));
    openblas.runtime = RuntimeListing::EntryUnreadable("gone".to_string());
    let error = stage_openblas_runtime("windows", "x86_64", Some(&openblas)).unwrap_err();
    assert!(error.message().contains("gone"));
}

#[test]
fn only_files_named_like_a_library_are_runtime_dlls() {
    let mut directory = entry("libopenblas.dll");
    directory.is_file = false;
    let mut openblas = layout(&[]);
    openblas.runtime = RuntimeListing::Entries(vec![directory, entry("readme.txt")]);
    let error = stage_openblas_runtime("windows", "x86_64", Some(&openblas)).unwrap_err();
    assert_eq!(
        error,
        StageError::MissingRuntimeDll("openblas/bin".to_string())
    );
    let openblas = layout(&["LIBOPENBLAS.DLL"]);
    let staged = stage_openblas_runtime("windows", "x86_64", Some(&openblas)).unwrap();
    assert_eq!(
        staged,
        Some(plan("openblas/bin/LIBOPENBLAS.DLL", &["libopenblas.dll"]))
    );
}

#[test]
fn errors_name_what_is_missing() {
    assert!(StageError::MissingImportLibrary("lib/blas.lib".to_string())
        .message()
        .contains("lib/blas.lib"));
    assert!(StageError::MissingRuntimeDll("bin".to_string())
        .message()
        .contains("bin"));
    let error = io_error("copy", "a.dll", "disk full");
    assert!(matches!(error, StageError::Io(_)));
    assert!(error.message().contains("disk full"));
}
