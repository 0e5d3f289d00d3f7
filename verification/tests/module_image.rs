use luminal_rocm_lite::device::{rocm_bandwidth_gbps, rocm_compute_f32_tflops};
use luminal_rocm_lite::dtype::{rocm_dtype, DType};
use luminal_rocm_lite::dyn_backend::{device_type, init_failure, name, supports_device_ptrs};
use luminal_rocm_lite::module_image::options::{
    format_rocm_version, read_hiprtc_log, rocbin_buffer, rocm_driver_diagnostics,
    rocm_hiprtc_compile_options, rocm_hiprtc_include_paths, rocm_include_candidates,
};
use luminal_rocm_lite::module_image::report::{
    build_module_image_compile_error, joined_options, HiprtcStage, RocmModuleImageCompileFailure,
};
use luminal_rocm_lite::module_image::run::{ImageAction, ImageEvent, ImageRun, ImageStep};

fn strings(list: &[&str]) -> Vec<String> {
    list.iter().map(|s| s.to_string()).collect()
}

#[test]
fn versions_show_thousands_and_tens() {
    assert_eq!(format_rocm_version(6020), "6.2");
    assert_eq!(format_rocm_version(12080), "12.8");
    assert_eq!(format_rocm_version(0), "0.0");
    assert_eq!(format_rocm_version(999), "0.99");
    for version in [-1, -9, -10, -999, -1000, -1500, 1, 70, i32::MAX, i32::MIN] {
        assert_eq!(
            format_rocm_version(version),
            format!("{}.{}", version / 1000, (version % 1000) / 10)
        );
    }
}

#[test]
fn existing_header_directories_are_taken_once() {
    let candidates = rocm_include_candidates(Some("/opt/rocm"), Some("/r"), Some("/opt/rocm"));
    assert_eq!(
        candidates,
        strings(&[
            "/opt/rocm/include",
            "/r/include",
            "/opt/rocm/include",
            "/opt/rocm/include",
            "/usr/include"
        ])
    );
    assert_eq!(
        rocm_hiprtc_include_paths(&candidates, &[true, false, true, true, true]),
        strings(&["/opt/rocm/include", "/usr/include"])
    );
    assert_eq!(
        rocm_hiprtc_include_paths(&candidates, &[false, false, true, true, false]),
        strings(&["/opt/rocm/include"])
    );
    assert_eq!(
        rocm_include_candidates(None, None, None),
        strings(&["/opt/rocm/include", "/usr/include"])
    );
}

#[test]
fn options_name_headers_and_architecture() {
    assert_eq!(
        rocm_hiprtc_compile_options(&strings(&["/a", "/b"]), "gfx1100"),
        strings(&["--include-path=/a", "--include-path=/b", "--offload-arch=gfx1100"])
    );
    assert_eq!(
        rocm_hiprtc_compile_options(&[], "gfx942"),
        strings(&["--offload-arch=gfx942"])
    );
}

#[test]
fn logs_are_cleaned() {
    assert_eq!(read_hiprtc_log(Some("  warning: x \n\0\0")).as_deref(), Some("warning: x"));
    assert_eq!(read_hiprtc_log(Some("\0a\0 ")).as_deref(), Some("\0a\0"));
    assert_eq!(read_hiprtc_log(Some(" \n\0")), None);
    assert_eq!(read_hiprtc_log(Some("")), None);
    assert_eq!(read_hiprtc_log(None), None);
}

#[test]
fn code_buffers_start_as_zeros() {
    assert_eq!(rocbin_buffer(3), vec![0u8, 0, 0]);
    assert!(rocbin_buffer(0).is_empty());
    assert_eq!(rocm_driver_diagnostics(Some(6020)), (Some(6020), None));
    assert_eq!(rocm_driver_diagnostics(None), (None, None));
}

#[test]
fn full_report_shows_everything() {
    let error = build_module_image_compile_error(
        Some("gfx942".to_string()),
        Some(6020),
        Some(6010),
        &strings(&["--include-path=/a \"b\"", "--offload-arch=gfx942"]),
        Some("line 1\nline 2".to_string()),
        RocmModuleImageCompileFailure::Hiprtc {
            stage: HiprtcStage::CompileProgram,
            error: "hipRTC error code HIPRTC_ERROR_COMPILATION".to_string(),
        },
    );
    assert_eq!(
        error.message(),
        "failed to compile ROCm module image for gfx942: HipRTC compile_program failed: hipRTC \
         error code HIPRTC_ERROR_COMPILATION | driver 6.2 | runtime 6.1 | options \
         [\"--include-path=/a \\\"b\\\"\", \"--offload-arch=gfx942\"] | log: line 1\nline 2"
    );
}

#[test]
fn short_report_shows_the_failure() {
    let error = build_module_image_compile_error(
        None,
        None,
        None,
        &[],
        None,
        RocmModuleImageCompileFailure::NoModuleImageProduced,
    );
    assert_eq!(
        error.message(),
        "failed to compile ROCm module image: HipRTC produced no ROCBIN for the selected target"
    );
    assert_eq!(HiprtcStage::GetCubin.name(), "get_cubin");
}

fn run() -> ImageRun {
    ImageRun::compile_module_image_for_current_device(
        "__global__ void k() {}",
        "gfx942",
        &[],
        Some(6020),
    )
}

fn drive(events: Vec<ImageEvent>) -> ImageRun {
    let mut run = run();
    for event in events {
        run.advance(event);
    }
    run
}

fn report(events: Vec<ImageEvent>) -> String {
    let run = drive(events);
    assert_eq!(run.step(), ImageStep::Failed);
    match run.finish() {
        Ok(_) => panic!("compiled"),
        Err(error) => error.message(),
    }
}

fn err(s: &str) -> ImageEvent {
    ImageEvent::Error(s.to_string())
}

#[test]
fn compilation_yields_the_code() {
    let mut run = run();
    assert!(matches!(
        run.action(),
        ImageAction::CreateProgram("__global__ void k() {}", "kernel.hip")
    ));
    let mut steps = Vec::new();
    for event in [
        ImageEvent::Done,
        ImageEvent::Done,
        ImageEvent::Log(None),
        ImageEvent::Code(vec![1, 2, 3]),
        ImageEvent::Done,
    ] {
        steps.push(run.step());
        run.advance(event);
    }
    assert_eq!(
        steps,
        vec![
            ImageStep::CreateProgram,
            ImageStep::CompileProgram,
            ImageStep::ReadLog,
            ImageStep::GetCode,
            ImageStep::DestroyProgram,
        ]
    );
    assert_eq!(run.step(), ImageStep::Ready);
    assert!(matches!(run.action(), ImageAction::Finish));
    match run.finish() {
        Ok(image) => assert_eq!(image.as_bytes(), &[1, 2, 3]),
        Err(error) => panic!("{}", error.message()),
    }
}

#[test]
fn compilation_uses_the_options_of_the_architecture() {
    let mut run = ImageRun::compile_module_image_for_current_device(
        "src",
        "gfx1100",
        &strings(&["/opt/rocm/include"]),
        None,
    );
    run.advance(ImageEvent::Done);
    match run.action() {
        ImageAction::CompileProgram(options) => assert_eq!(
            options,
            &strings(&["--include-path=/opt/rocm/include", "--offload-arch=gfx1100"])[..]
        ),
        other => panic!("{other:?}"),
    }
    run.advance(err("e"));
    assert!(matches!(run.action(), ImageAction::ReadLog));
    run.advance(ImageEvent::Log(None));
    assert!(matches!(run.action(), ImageAction::DestroyProgram));
}

#[test]
fn options_are_listed_in_brackets() {
    assert_eq!(joined_options(&[]), "[]");
    assert_eq!(joined_options(&strings(&["\"-a\""])), "[\"-a\"]");
    assert_eq!(joined_options(&strings(&["x", "", "y, z"])), "[x, , y, z]");
    let options = strings(&["--std=c++17", "-D\"Q\"", "tab\there"]);
    let error = build_module_image_compile_error(
        None,
        None,
        None,
        &options,
        None,
        RocmModuleImageCompileFailure::NoModuleImageProduced,
    );
    assert_eq!(
        error.message(),
        format!(
            "failed to compile ROCm module image: HipRTC produced no ROCBIN for the selected \
             target | options {options:?}"
        )
    );
}

#[test]
fn each_failed_call_is_reported() {
    let tail = " | driver 6.2 | options [\"--offload-arch=gfx942\"]";
    let head = "failed to compile ROCm module image for gfx942: HipRTC";
    assert_eq!(
        report(vec![err("e1")]),
        format!("{head} create_program failed: e1{tail}")
    );
    assert_eq!(
        report(vec![
            ImageEvent::Done,
            err("e2"),
            ImageEvent::Log(Some("bad\0".to_string())),
            err("ignored"),
        ]),
        format!("{head} compile_program failed: e2{tail} | log: bad")
    );
    assert_eq!(
        report(vec![
            ImageEvent::Done,
            ImageEvent::Done,
            ImageEvent::Log(Some("note".to_string())),
            err("e3"),
            ImageEvent::Done,
        ]),
        format!("{head} get_cubin failed: e3{tail} | log: note")
    );
    assert_eq!(
        report(vec![
            ImageEvent::Done,
            ImageEvent::Done,
            ImageEvent::Log(None),
            ImageEvent::Code(vec![1]),
            err("e4"),
        ]),
        format!("{head} destroy_program failed: e4{tail}")
    );
    assert_eq!(
        report(vec![
            ImageEvent::Done,
            ImageEvent::Done,
            ImageEvent::Log(None),
            ImageEvent::Code(Vec::new()),
            ImageEvent::Done,
        ]),
        format!("{head} produced no ROCBIN for the selected target{tail}")
    );
}

#[test]
fn failed_compilation_still_destroys_the_program() {
    let run = drive(vec![ImageEvent::Done, err("e"), ImageEvent::Log(None)]);
    assert_eq!(run.step(), ImageStep::DestroyProgram);
    let run = drive(vec![ImageEvent::Done, ImageEvent::Done, ImageEvent::Log(None), err("e")]);
    assert_eq!(run.step(), ImageStep::DestroyProgram);
}

#[test]
fn known_devices_have_figures() {
    assert_eq!(rocm_bandwidth_gbps(Some("AMD Radeon RX 7900 XTX")), Some(960));
    assert_eq!(rocm_bandwidth_gbps(Some("Radeon RX 7600 XT")), Some(288));
    assert_eq!(rocm_bandwidth_gbps(Some("R9600D")), Some(640));
    assert_eq!(rocm_bandwidth_gbps(Some("AMD Instinct MI300X")), None);
    assert_eq!(rocm_bandwidth_gbps(None), None);
    assert_eq!(rocm_compute_f32_tflops(Some("AMD Radeon RX 7900 XTX")), Some(61));
    assert_eq!(rocm_compute_f32_tflops(Some("Radeon RX 7600 XT")), Some(23));
    assert_eq!(rocm_compute_f32_tflops(Some("x R9600D y")), Some(25));
    assert_eq!(rocm_compute_f32_tflops(Some("7900XTX")), None);
    assert_eq!(rocm_compute_f32_tflops(None), None);
}

#[test]
fn element_types_have_c_types() {
    assert_eq!(rocm_dtype(DType::F64), "double");
    assert_eq!(rocm_dtype(DType::TF32), "float");
    assert_eq!(rocm_dtype(DType::Bf16), "__nv_bfloat16");
    assert_eq!(rocm_dtype(DType::U4), "unsigned char");
    assert_eq!(DType::F8UE8M0.name(), "F8UE8M0");
}

#[test]
fn backend_names_itself() {
    assert_eq!(name(), "rocm_lite");
    assert_eq!(device_type(), "rocm");
    assert!(supports_device_ptrs());
    assert_eq!(init_failure("no device"), "HIP init failed: no device");
}
