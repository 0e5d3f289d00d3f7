//! What holds of every compilation of the attention kernels.
use vstd::prelude::*;

use crate::host::flashinfer::cache;
use crate::host::flashinfer::cache::{
    extract_wrapper_sources, so_name, wrapper_source_hash, PlaceStep, WrapperSource, WrapperSources,
};
use crate::host::flashinfer::jit;
use crate::host::flashinfer::jit::{
    ensure_compiled, load_failure, EnsureStep, JitAction, JitEvent, JitRun, JitStep, JitView,
    LibFunction,
};
use crate::numeral;
use crate::path;
use crate::text;

verus! {

/// A compilation begins with the head dimension, the cache directory and the
/// sources that were asked for, and with the hash of those sources.
pub proof fn compilations_begin_as_requested(
    cache_dir: &str,
    head_dim: usize,
    sources: &WrapperSources,
    run: JitRun,
    hash: u64,
)
    requires
        call_ensures(JitRun::compile_or_cache, (cache_dir, head_dim, sources), run),
        call_ensures(wrapper_source_hash, (sources,), hash),
    ensures
        run@.cache_dir == cache_dir@,
        run@.head_dim == head_dim,
        run@.sources == *sources,
        run@.hash == hash,
        run@.step is CreateCache,
{
}

/// Whatever the steps come to, a compilation stays one for the head dimension,
/// the cache directory and the sources that it began with; and from the third
/// step on it is for the architecture that was detected.
pub proof fn compilations_stay_as_requested(run: JitView, events: Seq<JitEvent>)
    requires
        run.step is CreateCache,
        jit::through(run, events, 0) is Some,
    ensures
        ({
            let reached = jit::through(run, events, 0)->0;
            &&& reached.head_dim == run.head_dim
            &&& reached.cache_dir == run.cache_dir
            &&& reached.sources == run.sources
            &&& reached.hash == run.hash
            &&& events.len() <= 2 ==> reached.arch == run.arch
            &&& events.len() > 2 ==> reached.arch == events[2]->Arch_0@
            &&& reached.step is Compile ==> events.len() == 5 && reached.text
                == events[4]->HeadersAt_0@
        }),
{
    reveal_with_fuel(jit::through, 9);
}

/// The arguments hold this one and then that one.
pub open spec fn in_a_row(args: Seq<Seq<char>>, first: Seq<char>, second: Seq<char>) -> bool {
    exists|i: int| 0 <= i && i + 1 < args.len() && #[trigger] args[i] == first && args[i + 1]
        == second
}

/// The path of the library for this head dimension, architecture and hash.
pub open spec fn library_path(
    cache_dir: Seq<char>,
    head_dim: nat,
    arch: Seq<char>,
    hash: u64,
) -> Seq<char> {
    path::joined(
        cache_dir,
        "libflashinfer_hd"@ + numeral::decimal_text(head_dim) + "_"@ + arch + "_w"@
            + numeral::hex_fixed(hash as nat, 16) + ".so"@,
    )
}

/// The compiler is run for the head dimension that was requested and the
/// architecture that was detected: both are among its arguments, and so are the
/// path of the library for just those, the wrapper as HIP source, the two header
/// directories, and the flags for optimized position-independent code in a
/// shared library.
pub proof fn compiler_is_run_for_the_requested_kernels(run: &JitRun, action: JitAction)
    requires
        run@.step is Compile,
        call_ensures(JitRun::action, (run,), action),
    ensures
        action is RunHipcc,
        ({
            let args = text::texts(action->RunHipcc_0@);
            &&& args.contains("-DLUMINAL_HEAD_DIM="@ + numeral::decimal_text(run@.head_dim))
            &&& args.contains("--offload-arch="@ + run@.arch)
            &&& in_a_row(
                args,
                "-o"@,
                library_path(run@.cache_dir, run@.head_dim, run@.arch, run@.hash),
            )
            &&& in_a_row(args, "-x"@, "hip"@)
            &&& in_a_row(args, "hip"@, path::joined(run@.cache_dir, "wrapper.cpp"@))
            &&& in_a_row(args, "-I"@, run@.text)
            &&& in_a_row(args, "-I"@, run@.cache_dir)
            &&& args.contains("-shared"@)
            &&& args.contains("-std=c++17"@)
            &&& args.contains("-O3"@)
            &&& args.contains("-w"@)
            &&& args.contains("-fPIC"@)
            &&& args.len() == 16
        }),
{
    let args = text::texts(action->RunHipcc_0@);
    assert(args[0] == "-shared"@);
    assert(args[1] == "-o"@ && args[2] == library_path(
        run@.cache_dir,
        run@.head_dim,
        run@.arch,
        run@.hash,
    ));
    assert(args[3] == "-DLUMINAL_HEAD_DIM="@ + numeral::decimal_text(run@.head_dim));
    assert(args[4] == "-x"@ && args[5] == "hip"@);
    assert(args[5] == "hip"@ && args[6] == path::joined(run@.cache_dir, "wrapper.cpp"@));
    assert(args[7] == "-I"@ && args[8] == run@.text);
    assert(args[9] == "-I"@ && args[10] == run@.cache_dir);
    assert(args[11] == "-std=c++17"@);
    assert(args[12] == "--offload-arch="@ + run@.arch);
    assert(args[13] == "-O3"@);
    assert(args[14] == "-w"@);
    assert(args[15] == "-fPIC"@);
}

/// From the request to the compiler: where the cache directory could be made, the
/// sources placed, an architecture detected, the library not found and the
/// headers located, the compiler is run for the requested head dimension, that
/// architecture and those headers.
pub proof fn request_reaches_the_compiler(
    cache_dir: &str,
    head_dim: usize,
    sources: &WrapperSources,
    run: JitRun,
    events: Seq<JitEvent>,
    later: &JitRun,
    action: JitAction,
)
    requires
        call_ensures(JitRun::compile_or_cache, (cache_dir, head_dim, sources), run),
        events.len() == 5,
        events[0] is Done,
        events[1] is Done,
        events[2] is Arch,
        events[3] is Missing,
        events[4] is HeadersAt,
        jit::through(run@, events, 0) == Some(later@),
        call_ensures(JitRun::action, (later,), action),
    ensures
        action is RunHipcc,
        ({
            let args = text::texts(action->RunHipcc_0@);
            &&& args.contains("-DLUMINAL_HEAD_DIM="@ + numeral::decimal_text(head_dim as nat))
            &&& args.contains("--offload-arch="@ + events[2]->Arch_0@)
            &&& in_a_row(args, "-I"@, events[4]->HeadersAt_0@)
            &&& in_a_row(args, "-I"@, cache_dir@)
        }),
{
    reveal_with_fuel(jit::through, 7);
    compilations_stay_as_requested(run@, events);
    compiler_is_run_for_the_requested_kernels(later, action);
}

/// Two compilations whose compilers get the same arguments, but for the output
/// path, the source and the header directories, are for the same head dimension
/// and the same architecture.
pub proof fn same_arguments_mean_the_same_kernels(
    one: &JitRun,
    other: &JitRun,
    action: JitAction,
    other_action: JitAction,
)
    requires
        one@.step is Compile,
        other@.step is Compile,
        call_ensures(JitRun::action, (one,), action),
        call_ensures(JitRun::action, (other,), other_action),
        ({
            let args = text::texts(action->RunHipcc_0@);
            let other_args = text::texts(other_action->RunHipcc_0@);
            forall|i: int|
                0 <= i < 16 && i != 2 && i != 6 && i != 8 && i != 10 ==> #[trigger] args[i]
                    == other_args[i]
        }),
    ensures
        one@.head_dim == other@.head_dim,
        one@.arch == other@.arch,
{
    let args = text::texts(action->RunHipcc_0@);
    let other_args = text::texts(other_action->RunHipcc_0@);
    let flag = "-DLUMINAL_HEAD_DIM="@;
    let dim = numeral::decimal_text(one@.head_dim);
    let other_dim = numeral::decimal_text(other@.head_dim);
    assert(args[3] == flag + dim);
    assert(other_args[3] == flag + other_dim);
    assert(dim =~= args[3].subrange(flag.len() as int, args[3].len() as int));
    assert(other_dim =~= other_args[3].subrange(flag.len() as int, args[3].len() as int));
    numeral::decimal_reads_back(one@.head_dim);
    numeral::decimal_reads_back(other@.head_dim);
    let arch_flag = "--offload-arch="@;
    assert(args[12] == arch_flag + one@.arch);
    assert(other_args[12] == arch_flag + other@.arch);
    assert(one@.arch =~= args[12].subrange(arch_flag.len() as int, args[12].len() as int));
    assert(other@.arch =~= other_args[12].subrange(arch_flag.len() as int, args[12].len() as int));
}

/// The library that is looked for, removed after a failure, and returned is the
/// one at the path of its head dimension, architecture and sources.
pub proof fn every_step_is_about_the_same_library(run: &JitRun, action: JitAction)
    requires
        call_ensures(JitRun::action, (run,), action),
    ensures
        ({
            let library = library_path(run@.cache_dir, run@.head_dim, run@.arch, run@.hash);
            match run@.step {
                JitStep::CreateCache => action matches JitAction::CreateDirs(dir) && dir@
                    == run@.cache_dir,
                JitStep::PlaceSources => action is Place,
                JitStep::DetectArch => action is DetectArch,
                JitStep::LookInCache => action matches JitAction::ProbePath(file) && file@
                    == library,
                JitStep::LocateHeaders => action is LocateHeaders,
                JitStep::Compile => action is RunHipcc,
                JitStep::RemoveLibrary => action matches JitAction::RemoveFile(file) && file@
                    == library,
                JitStep::Ready => action matches JitAction::Return(file) && file@ == library,
                JitStep::Failed => action matches JitAction::Fail(message) && message@ == run@.text,
            }
        }),
{
}

/// The name of a library is made of its head dimension in decimal, its
/// architecture, and the sixteen hexadecimal digits of the hash of its sources.
pub proof fn library_is_named_after_what_it_holds(
    head_dim: usize,
    arch: &str,
    hash: u64,
    name: String,
)
    requires
        call_ensures(so_name, (head_dim, arch, hash), name),
    ensures
        name@ == "libflashinfer_hd"@ + numeral::decimal_text(head_dim as nat) + "_"@ + arch@ + "_w"@
            + numeral::hex_fixed(hash as nat, 16) + ".so"@,
{
}

/// A library is taken from those that are loaded exactly when one for that head
/// dimension is; else it is compiled for the head dimensions 64, 128 and 256, and
/// refused for every other.
pub proof fn libraries_serve_their_own_head_dimension(
    loaded: &[usize],
    head_dim: usize,
    r: EnsureStep,
)
    requires
        call_ensures(ensure_compiled, (loaded, head_dim), r),
    ensures
        (exists|i: int| 0 <= i < loaded@.len() && loaded@[i] == head_dim) ==> (
        r matches EnsureStep::UseLoaded(at) && at < loaded@.len() && loaded@[at as int]
            == head_dim),
        (forall|i: int| 0 <= i < loaded@.len() ==> loaded@[i] != head_dim) ==> if head_dim == 64
            || head_dim == 128 || head_dim == 256 {
            r is CompileAndLoad
        } else {
            r is Refuse
        },
{
    if exists|i: int| 0 <= i < loaded@.len() && loaded@[i] == head_dim {
        let i = choose|i: int| 0 <= i < loaded@.len() && loaded@[i] == head_dim;
        assert(loaded@.contains(head_dim));
    }
}

/// The text ends in this.
pub open spec fn ends_in(s: Seq<char>, end: Seq<char>) -> bool {
    exists|start: Seq<char>| s == #[trigger] (start + end)
}

/// The functions of the library go by what they do: planning and running, for
/// decoding and for prefilling; and the three that prepare and hand back data.
pub proof fn functions_are_named_by_what_they_do(function: LibFunction, symbol: &'static str)
    requires
        call_ensures(LibFunction::symbol, (function,), symbol),
    ensures
        symbol@ == "flashinfer_"@ + (match function {
            LibFunction::Plan => "batch_decode"@ + "_plan"@,
            LibFunction::Run => "batch_decode"@ + "_run"@,
            LibFunction::PrefillPlan => "batch_prefill"@ + "_plan"@,
            LibFunction::PrefillRun => "batch_prefill"@ + "_run"@,
            LibFunction::ExtractSlotIndices => "extract_slot_indices"@,
            LibFunction::DeriveIndptrFromMask => "derive_indptr_from_mask"@,
            LibFunction::TransposeOutput => "transpose_output"@,
        }),
{
    reveal_strlit("flashinfer_");
    reveal_strlit("batch_decode");
    reveal_strlit("batch_prefill");
    reveal_strlit("_plan");
    reveal_strlit("_run");
    reveal_strlit("extract_slot_indices");
    reveal_strlit("derive_indptr_from_mask");
    reveal_strlit("transpose_output");
    reveal_strlit("flashinfer_batch_decode_plan");
    reveal_strlit("flashinfer_batch_decode_run");
    reveal_strlit("flashinfer_extract_slot_indices");
    reveal_strlit("flashinfer_derive_indptr_from_mask");
    reveal_strlit("flashinfer_transpose_output");
    reveal_strlit("flashinfer_batch_prefill_plan");
    reveal_strlit("flashinfer_batch_prefill_run");
    assert(symbol@ =~= "flashinfer_"@ + (match function {
        LibFunction::Plan => "batch_decode"@ + "_plan"@,
        LibFunction::Run => "batch_decode"@ + "_run"@,
        LibFunction::PrefillPlan => "batch_prefill"@ + "_plan"@,
        LibFunction::PrefillRun => "batch_prefill"@ + "_run"@,
        LibFunction::ExtractSlotIndices => "extract_slot_indices"@,
        LibFunction::DeriveIndptrFromMask => "derive_indptr_from_mask"@,
        LibFunction::TransposeOutput => "transpose_output"@,
    }));
}

/// A failed step ends a compilation with a message that holds the error, and a
/// failed compilation is reported with its head dimension, its architecture and
/// all that the compiler wrote.
pub proof fn failures_hold_the_error(run: JitView, event: JitEvent)
    requires
        jit::possible(run.step, event),
    ensures
        run.step !is RemoveLibrary ==> (event matches JitEvent::Error(error) ==> run.after(
            event,
        ).step is Failed && ends_in(run.after(event).text, error@)),
        event matches JitEvent::NotStarted(error) ==> run.after(event).step is Failed && ends_in(
            run.after(event).text,
            error@,
        ),
        event matches JitEvent::CompileFailed(stdout, stderr) ==> run.after(event).text
            == "FlashInfer JIT compilation failed (HEAD_DIM="@ + numeral::decimal_text(run.head_dim)
            + ", arch="@ + run.arch + "):\nstdout: "@ + stdout@ + "\nstderr: "@ + stderr@,
        run.step is LocateHeaders && event is Missing ==> run.after(event).step is Failed,
{
    match event {
        JitEvent::Error(error) => {
            let made = "Failed to create FlashInfer cache directory: "@;
            assert(error@ =~= Seq::empty() + error@);
            assert(ends_in(made + error@, error@));
            assert(ends_in(Seq::empty() + error@, error@));
        },
        JitEvent::NotStarted(error) => {
            let made = "Failed to run hipcc. Is the ROCm toolkit installed and on PATH?: "@;
            assert(ends_in(made + error@, error@));
        },
        _ => {},
    }
}

/// The text that is written for a source is the one that the compilation was
/// given for it.
pub proof fn sources_are_written_as_given(
    cache_dir: &str,
    head_dim: usize,
    sources: &WrapperSources,
    run: JitRun,
    source: WrapperSource,
    written: &'static str,
)
    requires
        call_ensures(JitRun::compile_or_cache, (cache_dir, head_dim, sources), run),
        call_ensures(JitRun::source_text, (&run, source), written),
    ensures
        written@ == (match source {
            WrapperSource::WrapperCpp => sources.wrapper_cpp@,
            WrapperSource::WrapperHpp => sources.wrapper_hpp@,
            WrapperSource::FmhaTypes => sources.fmha_types@,
            WrapperSource::Helpers => sources.helpers@,
            WrapperSource::Prefill => sources.prefill@,
            WrapperSource::Decode => sources.decode@,
        }),
{
}

/// The sources are placed by the changes that place them in the cache directory
/// of the compilation.
pub proof fn sources_are_placed_in_the_cache_directory(
    run: &JitRun,
    action: JitAction,
    cache_dir: &str,
    placing: (Vec<PlaceStep>, String, String),
)
    requires
        run@.step is PlaceSources,
        call_ensures(JitRun::action, (run,), action),
        cache_dir@ == run@.cache_dir,
        call_ensures(extract_wrapper_sources, (cache_dir,), placing),
    ensures
        action is Place,
        cache::targets(action->Place_0@) == cache::targets(placing.0@),
{
}

/// The outcome of a step moves a compilation on to the state that follows, and
/// that is: through the cache directory, the sources, the architecture, the
/// cache, the headers and the compiler, in this order, as long as nothing fails.
pub proof fn compilations_move_on(run: &mut JitRun, event: JitEvent)
    requires
        jit::possible(old(run)@.step, event),
        call_ensures(JitRun::advance, (run, event), ()),
    ensures
        final(run)@ == old(run)@.after(event),
        match old(run)@.step {
            JitStep::CreateCache => event is Done ==> final(run)@.step is PlaceSources,
            JitStep::PlaceSources => event is Done ==> final(run)@.step is DetectArch,
            JitStep::DetectArch => final(run)@.step is LookInCache && final(run)@.arch
                == event->Arch_0@,
            JitStep::LookInCache => if event is Found {
                final(run)@.step is Ready
            } else {
                final(run)@.step is LocateHeaders
            },
            JitStep::LocateHeaders => event is HeadersAt ==> final(run)@.step is Compile
                && final(run)@.text == event->HeadersAt_0@,
            JitStep::Compile => event is Compiled ==> final(run)@.step is Ready,
            JitStep::RemoveLibrary => final(run)@.step is Failed && final(run)@.text
                == old(run)@.text,
            _ => true,
        },
{
}

/// A refusal names the head dimension that is refused, and the message about a
/// library that could not be loaded holds the error.
pub proof fn refusals_name_what_is_refused(
    loaded: &[usize],
    head_dim: usize,
    step: EnsureStep,
    error: &str,
    message: String,
)
    requires
        call_ensures(ensure_compiled, (loaded, head_dim), step),
        call_ensures(load_failure, (error,), message),
    ensures
        step matches EnsureStep::Refuse(refusal) ==> refusal@
            == "FlashInfer: unsupported HEAD_DIM="@ + numeral::decimal_text(head_dim as nat)
            + " (must be 64, 128, or 256)"@,
        message@ == "Failed to load FlashInfer library: "@ + error@,
{
}

/// The notes about a compilation are about its own head dimension, architecture
/// and library.
pub proof fn notes_are_about_the_compilation(
    run: &JitRun,
    seconds: &str,
    cached: String,
    compiling: String,
    compiled: String,
)
    requires
        call_ensures(JitRun::cached_note, (run,), cached),
        call_ensures(JitRun::compiling_note, (run,), compiling),
        call_ensures(JitRun::compiled_note, (run, seconds), compiled),
    ensures
        ({
            let library = library_path(run@.cache_dir, run@.head_dim, run@.arch, run@.hash);
            let head_dim = numeral::decimal_text(run@.head_dim);
            &&& cached@ == "FlashInfer: using cached library for HEAD_DIM="@ + head_dim + " ("@
                + library + ")"@
            &&& compiling@ == "FlashInfer: JIT compiling for HEAD_DIM="@ + head_dim + ", arch="@
                + run@.arch + " ..."@
            &&& compiled@ == "FlashInfer: compiled in "@ + seconds@ + "s → "@ + library
        }),
{
}

} // verus!
