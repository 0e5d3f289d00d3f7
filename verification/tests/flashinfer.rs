use std::collections::hash_map::DefaultHasher;
use std::collections::HashMap;
use std::hash::{Hash, Hasher};

use luminal_rocm_lite::host::flashinfer::arch::{
    arch_from_hsa_override, detect_rocm_arch, needs_amd_smi, parse_target_graphics_version,
};
use luminal_rocm_lite::host::flashinfer::cache::{
    cache_directory, extract_wrapper_sources, place_failure, so_name, wrapper_source_hash,
    write_if_changed, PlaceStep, WrapperSource, WrapperSources,
};
use luminal_rocm_lite::host::flashinfer::ck::{
    ck_header_candidates, ck_probes, first_usable, is_ck_include_dir, locate_ck_includes, override_unusable_note,
    CK_GIT_REV, CK_GIT_URL, CK_SHORT_REV,
};
use luminal_rocm_lite::host::flashinfer::fetch::{
    run_git, run_git_in, CkFetch, FetchAction, FetchEvent, GitOutcome,
};
use luminal_rocm_lite::host::flashinfer::jit::{
    ensure_compiled, load_failure, EnsureStep, JitAction, JitEvent, JitRun, LibFunction,
};
use luminal_rocm_lite::path::join;

fn strings(list: &[&str]) -> Vec<String> {
    list.iter().map(|s| s.to_string()).collect()
}

#[test]
fn override_versions_name_architectures() {
    assert_eq!(arch_from_hsa_override("11.0.0").as_deref(), Some("gfx1100"));
    assert_eq!(arch_from_hsa_override("9.0.10").as_deref(), Some("gfx90a"));
    assert_eq!(arch_from_hsa_override("9.4.2").as_deref(), Some("gfx942"));
    assert_eq!(arch_from_hsa_override(" 10.3.0\n").as_deref(), Some("gfx1030"));
    assert_eq!(arch_from_hsa_override("+9.+4.15").as_deref(), Some("gfx94f"));
}

#[test]
fn malformed_overrides_are_ignored() {
    for v in [
        "", "11", "11.0", "11.0.0.0", "11.16.0", "11.0.16", "a.0.0", "11..0", "-1.0.0",
        "4294967296.0.0", "11.0.0 x", "+.0.0",
    ] {
        assert_eq!(arch_from_hsa_override(v), None, "{v}");
    }
}

#[test]
fn amd_smi_output_is_read() {
    let json = "[{\"asic\": {\"market_name\": \"x\", \"target_graphics_version\": \"gfx1102\"}}]";
    assert_eq!(parse_target_graphics_version(json).as_deref(), Some("gfx1102"));
    assert_eq!(
        parse_target_graphics_version("\"target_graphics_version\"\n : \" gfx942 \"").as_deref(),
        Some("gfx942")
    );
    for json in [
        "",
        "{\"target_graphics\": \"gfx942\"}",
        "\"target_graphics_version\"",
        "\"target_graphics_version\":",
        "\"target_graphics_version\": \"gfx",
        "\"target_graphics_version\": \"  \"",
    ] {
        assert_eq!(parse_target_graphics_version(json), None, "{json}");
    }
}

#[test]
fn environment_decides_before_amd_smi() {
    let smi = Some("\"target_graphics_version\": \"gfx1102\"");
    assert_eq!(detect_rocm_arch(Some("gfx906"), Some("11.0.0"), smi), "gfx906");
    assert_eq!(detect_rocm_arch(Some(""), None, smi), "");
    assert_eq!(detect_rocm_arch(None, Some("11.0.0"), smi), "gfx1100");
    assert_eq!(detect_rocm_arch(None, Some("bad"), smi), "gfx1102");
    assert_eq!(detect_rocm_arch(None, None, smi), "gfx1102");
    assert_eq!(detect_rocm_arch(None, None, Some("{}")), "gfx950");
    assert_eq!(detect_rocm_arch(None, None, None), "gfx950");
    assert!(!needs_amd_smi(Some("gfx906"), None));
    assert!(!needs_amd_smi(None, Some("11.0.0")));
    assert!(needs_amd_smi(None, Some("bad")));
    assert!(needs_amd_smi(None, None));
}

#[test]
fn paths_are_joined_with_one_separator() {
    assert_eq!(join("/a", "b"), "/a/b");
    assert_eq!(join("/a/", "b"), "/a/b");
    assert_eq!(join("", "b"), "b");
    assert_eq!(join("/a", "/b"), "/b");
    for (base, name) in [("/a", "b"), ("/a/", "b"), ("", "b"), ("/a", "/b"), ("a", "")] {
        let std_path = std::path::PathBuf::from(base).join(name);
        assert_eq!(join(base, name), std_path.to_str().unwrap());
    }
}

#[test]
fn cache_is_below_the_home_directory() {
    assert_eq!(cache_directory(Some("/home/u")), "/home/u/.cache/luminal/flashinfer");
    assert_eq!(cache_directory(None), "/tmp/.cache/luminal/flashinfer");
}

fn sources() -> WrapperSources {
    WrapperSources {
        wrapper_cpp: "// cpp",
        wrapper_hpp: "// hpp",
        fmha_types: "// types",
        helpers: "// helpers",
        prefill: "// prefill",
        decode: "// decode",
    }
}

#[test]
fn sources_are_placed_where_the_wrapper_looks() {
    let (steps, cpp, headers) = extract_wrapper_sources("/c");
    let shown: Vec<String> = steps
        .iter()
        .map(|step| match step {
            PlaceStep::CreateDir(dir) => format!("dir {dir}"),
            PlaceStep::Write(file, source) => format!("{file} <- {}", sources().text(*source)),
        })
        .collect();
    assert_eq!(
        shown,
        vec![
            "/c/wrapper.cpp <- // cpp",
            "/c/wrapper.hpp <- // hpp",
            "dir /c/attention",
            "/c/attention/fmha_types.hpp <- // types",
            "/c/attention/helpers.hpp <- // helpers",
            "/c/attention/prefill.hpp <- // prefill",
            "/c/attention/decode.hpp <- // decode",
        ]
    );
    assert_eq!(cpp, "/c/wrapper.cpp");
    assert_eq!(headers, "/c");
    assert_eq!(sources().text(WrapperSource::Decode), "// decode");
}

#[test]
fn placed_files_hold_their_own_sources() {
    for cache_dir in ["/c", "/c/", "", "attention", "/"] {
        let mut files: HashMap<String, &str> = HashMap::new();
        files.insert("/elsewhere".to_string(), "kept");
        let (steps, _, _) = extract_wrapper_sources(cache_dir);
        let mut written = Vec::new();
        for step in &steps {
            if let PlaceStep::Write(file, source) = step {
                let text = sources().text(*source);
                let existing = files.get(file).map(|held| held.as_bytes());
                if write_if_changed(existing, text.as_bytes()) {
                    files.insert(file.clone(), text);
                }
                written.push((file, text));
            }
        }
        assert_eq!(written.len(), 6);
        assert_eq!(files.len(), 7);
        for (file, text) in written {
            assert_eq!(files[file], text);
        }
        assert_eq!(files["/elsewhere"], "kept");
    }
}

#[test]
fn files_are_written_only_when_they_change() {
    assert!(write_if_changed(None, b"abc"));
    assert!(write_if_changed(Some(b"abd"), b"abc"));
    assert!(write_if_changed(Some(b"ab"), b"abc"));
    assert!(!write_if_changed(Some(b"abc"), b"abc"));
    assert_eq!(
        place_failure(
            &PlaceStep::Write("/c/wrapper.cpp".to_string(), WrapperSource::WrapperCpp),
            "denied"
        ),
        "FlashInfer: failed to write wrapper source to /c/wrapper.cpp: denied"
    );
    assert_eq!(
        place_failure(&PlaceStep::CreateDir("/c/attention".to_string()), "denied"),
        "Failed to create attention cache dir: denied"
    );
}

#[test]
fn source_hash_covers_every_source() {
    let mut hasher = DefaultHasher::new();
    for text in ["// cpp", "// hpp", "// types", "// helpers", "// prefill", "// decode"] {
        text.hash(&mut hasher);
    }
    let hash = wrapper_source_hash(&sources());
    assert_eq!(hash, hasher.finish());
    let mut other = sources();
    other.decode = "// decode 2";
    assert_ne!(wrapper_source_hash(&other), hash);
    let mut swapped = sources();
    swapped.wrapper_cpp = "// hpp";
    swapped.wrapper_hpp = "// cpp";
    assert_ne!(wrapper_source_hash(&swapped), hash);
}

#[test]
fn library_names_carry_all_three_marks() {
    assert_eq!(
        so_name(128, "gfx942", 0xab),
        "libflashinfer_hd128_gfx942_w00000000000000ab.so"
    );
    assert_eq!(
        so_name(64, "gfx950", u64::MAX),
        "libflashinfer_hd64_gfx950_wffffffffffffffff.so"
    );
    assert_ne!(so_name(64, "gfx950", 1), so_name(64, "gfx950", 16));
}

#[test]
fn library_is_compiled_once_for_a_known_head_dimension() {
    assert!(matches!(ensure_compiled(&[], 64), EnsureStep::CompileAndLoad));
    assert!(matches!(ensure_compiled(&[], 128), EnsureStep::CompileAndLoad));
    assert!(matches!(ensure_compiled(&[], 256), EnsureStep::CompileAndLoad));
    assert!(matches!(ensure_compiled(&[128], 128), EnsureStep::UseLoaded(0)));
    assert!(matches!(ensure_compiled(&[64, 256], 256), EnsureStep::UseLoaded(1)));
    assert!(matches!(ensure_compiled(&[64], 128), EnsureStep::CompileAndLoad));
    assert!(matches!(ensure_compiled(&[64, 128, 256], 96), EnsureStep::Refuse(_)));
    match ensure_compiled(&[], 96) {
        EnsureStep::Refuse(message) => assert_eq!(
            message,
            "FlashInfer: unsupported HEAD_DIM=96 (must be 64, 128, or 256)"
        ),
        other => panic!("{other:?}"),
    }
    assert_eq!(load_failure("no such file"), "Failed to load FlashInfer library: no such file");
    assert_eq!(LibFunction::Plan.symbol(), "flashinfer_batch_decode_plan");
    assert_eq!(LibFunction::PrefillRun.symbol(), "flashinfer_batch_prefill_run");
}

fn jit() -> JitRun {
    let mut run = JitRun::compile_or_cache("/c", 128, &sources());
    assert!(matches!(run.action(), JitAction::CreateDirs(d) if d == "/c"));
    run.advance(JitEvent::Done);
    match run.action() {
        JitAction::Place(steps) => {
            assert_eq!(steps.len(), 7);
            assert!(matches!(&steps[0], PlaceStep::Write(f, WrapperSource::WrapperCpp) if f == "/c/wrapper.cpp"));
        }
        other => panic!("{other:?}"),
    }
    run.advance(JitEvent::Done);
    assert!(matches!(run.action(), JitAction::DetectArch));
    run.advance(JitEvent::Arch("gfx942".to_string()));
    run
}

#[test]
fn compilation_needs_the_cache_directory() {
    let mut run = JitRun::compile_or_cache("/c", 128, &sources());
    run.advance(JitEvent::Error("denied".to_string()));
    assert!(matches!(
        run.action(),
        JitAction::Fail(m) if m == "Failed to create FlashInfer cache directory: denied"
    ));
    let mut run = JitRun::compile_or_cache("/c", 128, &sources());
    run.advance(JitEvent::Done);
    run.advance(JitEvent::Error("disk full".to_string()));
    assert!(matches!(run.action(), JitAction::Fail(m) if m == "disk full"));
}

fn library() -> String {
    format!("/c/{}", so_name(128, "gfx942", wrapper_source_hash(&sources())))
}

#[test]
fn changed_sources_look_for_another_library() {
    let mut run = jit();
    assert_eq!(run.source_text(WrapperSource::Prefill), "// prefill");
    run.advance(JitEvent::Found);
    let mut changed = sources();
    changed.prefill = "// prefill 2";
    let mut other = JitRun::compile_or_cache("/c", 128, &changed);
    other.advance(JitEvent::Done);
    other.advance(JitEvent::Done);
    other.advance(JitEvent::Arch("gfx942".to_string()));
    assert_eq!(other.source_text(WrapperSource::Prefill), "// prefill 2");
    match (run.action(), other.action()) {
        (JitAction::Return(used), JitAction::ProbePath(sought)) => assert_ne!(used, sought),
        other => panic!("{other:?}"),
    }
}

#[test]
fn cached_library_is_used() {
    let mut run = jit();
    assert!(matches!(run.action(), JitAction::ProbePath(p) if p == library()));
    run.advance(JitEvent::Found);
    assert!(matches!(run.action(), JitAction::Return(p) if p == library()));
    assert_eq!(
        run.cached_note(),
        format!("FlashInfer: using cached library for HEAD_DIM=128 ({})", library())
    );
}

#[test]
fn library_is_compiled_with_the_located_headers() {
    let mut run = jit();
    run.advance(JitEvent::Missing);
    assert!(matches!(run.action(), JitAction::LocateHeaders));
    run.advance(JitEvent::HeadersAt("/opt/rocm/include".to_string()));
    match run.action() {
        JitAction::RunHipcc(args) => assert_eq!(
            args,
            strings(&[
                "-shared",
                "-o",
                &library(),
                "-DLUMINAL_HEAD_DIM=128",
                "-x",
                "hip",
                "/c/wrapper.cpp",
                "-I",
                "/opt/rocm/include",
                "-I",
                "/c",
                "-std=c++17",
                "--offload-arch=gfx942",
                "-O3",
                "-w",
                "-fPIC",
            ])
        ),
        other => panic!("{other:?}"),
    }
    assert_eq!(
        run.compiling_note(),
        "FlashInfer: JIT compiling for HEAD_DIM=128, arch=gfx942 ..."
    );
    run.advance(JitEvent::Compiled);
    assert!(matches!(run.action(), JitAction::Return(p) if p == library()));
    assert_eq!(
        run.compiled_note("2.5"),
        format!("FlashInfer: compiled in 2.5s → {}", library())
    );
}

#[test]
fn failed_compilation_removes_the_library() {
    let mut run = jit();
    run.advance(JitEvent::Missing);
    run.advance(JitEvent::HeadersAt("/h".to_string()));
    run.advance(JitEvent::CompileFailed("out".to_string(), "err".to_string()));
    assert!(matches!(run.action(), JitAction::RemoveFile(p) if p == library()));
    run.advance(JitEvent::Error("not found".to_string()));
    match run.action() {
        JitAction::Fail(message) => assert_eq!(
            message,
            "FlashInfer JIT compilation failed (HEAD_DIM=128, arch=gfx942):\nstdout: out\nstderr: err"
        ),
        other => panic!("{other:?}"),
    }
}

#[test]
fn compilation_needs_headers_and_compiler() {
    let mut run = jit();
    run.advance(JitEvent::Missing);
    run.advance(JitEvent::Missing);
    match run.action() {
        JitAction::Fail(message) => assert!(message.starts_with(
            "Composable Kernel: could not locate header tree. Set LUMINAL_CK_DIR to a CK source/"
        )),
        other => panic!("{other:?}"),
    }
    let mut run = jit();
    run.advance(JitEvent::Missing);
    run.advance(JitEvent::HeadersAt("/h".to_string()));
    run.advance(JitEvent::NotStarted("NotFound".to_string()));
    match run.action() {
        JitAction::Fail(message) => assert_eq!(
            message,
            "Failed to run hipcc. Is the ROCm toolkit installed and on PATH?: NotFound"
        ),
        other => panic!("{other:?}"),
    }
}

#[test]
fn header_directories_are_tried_in_order() {
    assert_eq!(
        ck_header_candidates(Some("/ck"), Some("/rocm")),
        strings(&["/ck/include", "/rocm/include"])
    );
    assert_eq!(ck_header_candidates(Some(""), None), strings(&["/opt/rocm/include"]));
    assert_eq!(ck_header_candidates(None, Some("")), strings(&["include"]));
    let both = strings(&["/ck/include", "/rocm/include"]);
    assert_eq!(
        locate_ck_includes(&both, &[true, true], None).as_deref(),
        Some("/ck/include")
    );
    assert_eq!(
        locate_ck_includes(&both, &[false, true], Some("/src")).as_deref(),
        Some("/rocm/include")
    );
    assert_eq!(
        locate_ck_includes(&both, &[false, false], Some("/src")).as_deref(),
        Some("/src/include")
    );
    assert_eq!(locate_ck_includes(&both, &[false, false], None), None);
    assert!(is_ck_include_dir(true, false));
    assert!(is_ck_include_dir(false, true));
    assert!(!is_ck_include_dir(false, false));
    assert_eq!(ck_probes("/h"), ("/h/ck_tile".to_string(), "/h/ck".to_string()));
    assert_eq!(
        override_unusable_note(Some("/ck"), &[false, true]).as_deref(),
        Some(
            "Composable Kernel: LUMINAL_CK_DIR=/ck did not contain include/ck_tile — falling back \
             to default locations"
        )
    );
    assert_eq!(override_unusable_note(Some("/ck"), &[true, true]), None);
    assert_eq!(override_unusable_note(Some(""), &[false]), None);
    assert_eq!(override_unusable_note(None, &[false]), None);
    assert_eq!(first_usable(&[false, true, true]), Some(1));
    assert_eq!(first_usable(&[false, false]), None);
}

#[test]
fn git_failures_show_the_command() {
    let args = strings(&["checkout", "abc"]);
    assert_eq!(run_git(&args, &GitOutcome::Succeeded), Ok(()));
    assert_eq!(
        run_git(&args, &GitOutcome::NotStarted("No such file".to_string())),
        Err("failed to spawn `git`: No such file. Is git installed?".to_string())
    );
    assert_eq!(
        run_git(&args, &GitOutcome::Failed("boom".to_string())),
        Err("`git checkout abc` failed: boom".to_string())
    );
    assert_eq!(
        run_git_in("/w", &args, &GitOutcome::NotStarted("No such file".to_string())),
        Err("failed to spawn `git`: No such file".to_string())
    );
    assert_eq!(
        run_git_in("/w", &args, &GitOutcome::Failed("boom".to_string())),
        Err("`git checkout abc` in /w failed: boom".to_string())
    );
    assert_eq!(run_git_in("/w", &args, &GitOutcome::Succeeded), Ok(()));
}

const ROOT: &str = "/c/ck-src/d7609923b6a2";
const STAGING: &str = "/c/ck-src/.staging-d7609923b6a2-42";

fn fetch_to_clone() -> CkFetch {
    let mut fetch = CkFetch::fetch_ck_source("/c", 42);
    assert!(matches!(fetch.action(), FetchAction::ProbeHeaders(d) if d == format!("{ROOT}/include")));
    fetch.advance(FetchEvent::Missing);
    assert!(matches!(fetch.action(), FetchAction::CreateDirs(d) if d == "/c/ck-src"));
    fetch.advance(FetchEvent::Done);
    assert!(matches!(fetch.action(), FetchAction::RemoveTree(d) if d == STAGING));
    fetch.advance(FetchEvent::Error("not found".to_string()));
    fetch
}

fn fetch_to_publish() -> CkFetch {
    let mut fetch = fetch_to_clone();
    fetch.advance(FetchEvent::Git(GitOutcome::Succeeded));
    fetch.advance(FetchEvent::Git(GitOutcome::Succeeded));
    assert!(matches!(fetch.action(), FetchAction::ProbeHeaders(d) if d == format!("{STAGING}/include")));
    fetch.advance(FetchEvent::Found);
    assert!(matches!(fetch.action(), FetchAction::Rename(from, to) if from == STAGING && to == ROOT));
    fetch
}

fn reason(fetch: &CkFetch) -> String {
    match fetch.action() {
        FetchAction::Fail(message) => message,
        other => panic!("{other:?}"),
    }
}

#[test]
fn fetched_sources_are_used_again() {
    let mut fetch = CkFetch::fetch_ck_source("/c", 42);
    fetch.advance(FetchEvent::Found);
    assert!(matches!(fetch.action(), FetchAction::Return(d) if d == ROOT));
}

#[test]
fn processes_clone_into_directories_of_their_own() {
    let mut seen = Vec::new();
    for process_id in [0, 1, 10, 42, 421, u32::MAX] {
        let mut fetch = CkFetch::fetch_ck_source("/c", process_id);
        fetch.advance(FetchEvent::Missing);
        fetch.advance(FetchEvent::Done);
        match fetch.action() {
            FetchAction::RemoveTree(staging) => {
                assert_ne!(staging, ROOT);
                assert!(!seen.contains(&staging));
                seen.push(staging);
            }
            other => panic!("{other:?}"),
        }
    }
}

#[test]
fn sources_are_cloned_and_renamed() {
    let mut fetch = fetch_to_clone();
    match fetch.action() {
        FetchAction::Git(args, None) => assert_eq!(
            args,
            strings(&["clone", "--filter=blob:none", "--no-checkout", CK_GIT_URL, STAGING])
        ),
        other => panic!("{other:?}"),
    }
    assert_eq!(
        fetch.cloning_note(),
        format!("Composable Kernel: cloning {CK_GIT_URL} @ {CK_SHORT_REV} into {ROOT} (one-time fetch) …")
    );
    fetch.advance(FetchEvent::Git(GitOutcome::Succeeded));
    match fetch.action() {
        FetchAction::Git(args, Some(cwd)) => {
            assert_eq!(args, strings(&["checkout", CK_GIT_REV]));
            assert_eq!(cwd, STAGING);
        }
        other => panic!("{other:?}"),
    }
    let mut fetch = fetch_to_publish();
    fetch.advance(FetchEvent::Done);
    assert!(matches!(fetch.action(), FetchAction::Return(d) if d == ROOT));
    assert_eq!(CK_SHORT_REV, &CK_GIT_REV[..12]);
}

#[test]
fn other_process_may_be_first() {
    let mut fetch = fetch_to_publish();
    fetch.advance(FetchEvent::Error("exists".to_string()));
    assert!(matches!(fetch.action(), FetchAction::ProbePath(d) if d == ROOT));
    fetch.advance(FetchEvent::Found);
    assert!(matches!(fetch.action(), FetchAction::RemoveTree(d) if d == STAGING));
    fetch.advance(FetchEvent::Done);
    assert!(matches!(fetch.action(), FetchAction::Return(d) if d == ROOT));
}

#[test]
fn fetch_failures_are_explained() {
    let mut fetch = CkFetch::fetch_ck_source("/c", 42);
    fetch.advance(FetchEvent::Missing);
    fetch.advance(FetchEvent::Error("denied".to_string()));
    assert_eq!(reason(&fetch), "failed to create /c/ck-src: denied");

    let mut fetch = fetch_to_clone();
    fetch.advance(FetchEvent::Git(GitOutcome::Failed("no network".to_string())));
    assert_eq!(
        reason(&fetch),
        format!("`git clone --filter=blob:none --no-checkout {CK_GIT_URL} {STAGING}` failed: no network")
    );

    let mut fetch = fetch_to_clone();
    fetch.advance(FetchEvent::Git(GitOutcome::Succeeded));
    fetch.advance(FetchEvent::Git(GitOutcome::Failed("bad rev".to_string())));
    assert_eq!(
        reason(&fetch),
        format!("`git checkout {CK_GIT_REV}` in {STAGING} failed: bad rev")
    );

    let mut fetch = fetch_to_clone();
    fetch.advance(FetchEvent::Git(GitOutcome::Succeeded));
    fetch.advance(FetchEvent::Git(GitOutcome::Succeeded));
    fetch.advance(FetchEvent::Missing);
    assert_eq!(
        reason(&fetch),
        format!("Composable Kernel clone succeeded but include/ck_tile missing at {STAGING}")
    );

    let mut fetch = fetch_to_publish();
    fetch.advance(FetchEvent::Error("busy".to_string()));
    fetch.advance(FetchEvent::Missing);
    assert_eq!(reason(&fetch), format!("rename to {ROOT} failed: busy"));
}
