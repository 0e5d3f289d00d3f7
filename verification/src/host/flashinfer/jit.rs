//! The compilation of the attention kernels for a head dimension, and the
//! loading of the result.
use std::collections::hash_map::DefaultHasher;
use vstd::prelude::*;
use vstd::std_specs::hash::DefaultHasherAdditionalSpecFns;
use vstd::string::*;

use crate::host::flashinfer::cache;
use crate::host::flashinfer::cache::{
    extract_wrapper_sources, so_name, wrapper_source_hash, PlaceStep, WrapperSource, WrapperSources,
};
use crate::numeral;
use crate::numeral::push_decimal;
use crate::path;
use crate::path::join;
use crate::text;
use crate::text::owned;

verus! {

/// Whether the kernels can be compiled for this head dimension.
pub open spec fn supported_head_dim(head_dim: usize) -> bool {
    head_dim == 64 || head_dim == 128 || head_dim == 256
}

/// What is to be done about a request for the library.
#[derive(Debug)]
pub enum EnsureStep {
    /// It is loaded already: the one at this place among those that are.
    UseLoaded(usize),
    /// Compile it, or find it in the cache, and load it.
    CompileAndLoad,
    /// It cannot be compiled for that head dimension.
    Refuse(String),
}

/// What is to be done about a request for the library with this head dimension,
/// given the head dimensions whose libraries are loaded. A library serves the
/// requests for its own head dimension only, and is loaded once.
pub fn ensure_compiled(loaded: &[usize], head_dim: usize) -> (r: EnsureStep)
    ensures
        r is UseLoaded <==> loaded@.contains(head_dim),
        r matches EnsureStep::UseLoaded(at) ==> at < loaded@.len() && loaded@[at as int]
            == head_dim,
        r is CompileAndLoad <==> !loaded@.contains(head_dim) && supported_head_dim(head_dim),
        r matches EnsureStep::Refuse(message) ==> message@ == "FlashInfer: unsupported HEAD_DIM="@
            + numeral::decimal_text(head_dim as nat) + " (must be 64, 128, or 256)"@,
{
    let mut i: usize = 0;
    while i < loaded.len()
        invariant
            i <= loaded@.len(),
            forall|j: int| 0 <= j < i ==> loaded@[j] != head_dim,
        decreases loaded@.len() - i,
    {
        if loaded[i] == head_dim {
            assert(loaded@[i as int] == head_dim);
            return EnsureStep::UseLoaded(i);
        }
        i += 1;
    }
    if head_dim == 64 || head_dim == 128 || head_dim == 256 {
        return EnsureStep::CompileAndLoad;
    }
    let mut out = String::new();
    out.append("FlashInfer: unsupported HEAD_DIM=");
    push_decimal(&mut out, head_dim as u64);
    out.append(" (must be 64, 128, or 256)");
    assert(out@ =~= "FlashInfer: unsupported HEAD_DIM="@ + numeral::decimal_text(head_dim as nat)
        + " (must be 64, 128, or 256)"@);
    EnsureStep::Refuse(out)
}

/// The message about a library that could not be loaded.
pub fn load_failure(error: &str) -> (r: String)
    ensures
        r@ == "Failed to load FlashInfer library: "@ + error@,
{
    let mut out = String::new();
    out.append("Failed to load FlashInfer library: ");
    out.append(error);
    assert(out@ =~= "Failed to load FlashInfer library: "@ + error@);
    out
}

/// A function of the library.
#[derive(Clone, Copy, Debug, PartialEq, Eq, Structural)]
pub enum LibFunction {
    Plan,
    Run,
    ExtractSlotIndices,
    DeriveIndptrFromMask,
    TransposeOutput,
    PrefillPlan,
    PrefillRun,
}

impl LibFunction {
    /// The name under which the library exports the function.
    pub open spec fn symbol_text(self) -> Seq<char> {
        match self {
            LibFunction::Plan => "flashinfer_batch_decode_plan"@,
            LibFunction::Run => "flashinfer_batch_decode_run"@,
            LibFunction::ExtractSlotIndices => "flashinfer_extract_slot_indices"@,
            LibFunction::DeriveIndptrFromMask => "flashinfer_derive_indptr_from_mask"@,
            LibFunction::TransposeOutput => "flashinfer_transpose_output"@,
            LibFunction::PrefillPlan => "flashinfer_batch_prefill_plan"@,
            LibFunction::PrefillRun => "flashinfer_batch_prefill_run"@,
        }
    }

    /// The name under which the library exports the function.
    pub fn symbol(self) -> (r: &'static str)
        ensures
            r@ == self.symbol_text(),
    {
        match self {
            LibFunction::Plan => "flashinfer_batch_decode_plan",
            LibFunction::Run => "flashinfer_batch_decode_run",
            LibFunction::ExtractSlotIndices => "flashinfer_extract_slot_indices",
            LibFunction::DeriveIndptrFromMask => "flashinfer_derive_indptr_from_mask",
            LibFunction::TransposeOutput => "flashinfer_transpose_output",
            LibFunction::PrefillPlan => "flashinfer_batch_prefill_plan",
            LibFunction::PrefillRun => "flashinfer_batch_prefill_run",
        }
    }
}

/// How far a compilation has come: what is done next, or how it ended.
#[derive(Clone, Copy, Debug, PartialEq, Eq, Structural)]
pub enum JitStep {
    /// Create the cache directory.
    CreateCache,
    /// Place the sources in it.
    PlaceSources,
    /// Find out the architecture to compile for.
    DetectArch,
    /// Look whether the library is in the cache.
    LookInCache,
    /// Find the Composable Kernel headers.
    LocateHeaders,
    /// Compile.
    Compile,
    /// Remove what a failed compilation may have left.
    RemoveLibrary,
    /// The library is there.
    Ready,
    /// It could not be compiled.
    Failed,
}

/// What came of a step.
#[derive(Debug)]
pub enum JitEvent {
    /// It is done.
    Done,
    /// It failed, with this error.
    Error(String),
    /// The architecture to compile for.
    Arch(String),
    /// What was looked for is there.
    Found,
    /// What was looked for is not there.
    Missing,
    /// The headers are in this directory.
    HeadersAt(String),
    /// The compiler could not be started, with this error.
    NotStarted(String),
    /// The compiler succeeded.
    Compiled,
    /// The compiler failed, and wrote this to its standard output and its
    /// standard error.
    CompileFailed(String, String),
}

/// Whether the step can have this outcome.
pub open spec fn possible(step: JitStep, event: JitEvent) -> bool {
    match step {
        JitStep::CreateCache => event is Done || event is Error,
        JitStep::PlaceSources => event is Done || event is Error,
        JitStep::DetectArch => event is Arch,
        JitStep::LookInCache => event is Found || event is Missing,
        JitStep::LocateHeaders => event is HeadersAt || event is Missing,
        JitStep::Compile => event is NotStarted || event is Compiled || event is CompileFailed,
        JitStep::RemoveLibrary => event is Done || event is Error,
        JitStep::Ready => false,
        JitStep::Failed => false,
    }
}

/// The library being compiled.
#[derive(Debug)]
pub struct JitRun {
    cache_dir: String,
    head_dim: usize,
    sources: WrapperSources,
    hash: u64,
    arch: String,
    step: JitStep,
    text: String,
}

/// What is compiled, and the progress of the compilation.
pub struct JitView {
    /// The cache directory.
    pub cache_dir: Seq<char>,
    /// The head dimension.
    pub head_dim: nat,
    /// The sources.
    pub sources: WrapperSources,
    /// The hash of the sources.
    pub hash: u64,
    /// The GPU architecture, once it is known.
    pub arch: Seq<char>,
    /// How far it has come.
    pub step: JitStep,
    /// While compiling, the directory of the Composable Kernel headers; once
    /// the compilation failed, why.
    pub text: Seq<char>,
}

/// The message about headers that are nowhere to be found.
pub const NO_HEADERS: &'static str = "Composable Kernel: could not locate header tree. Set \
    LUMINAL_CK_DIR to a CK source/install root (the directory containing `include/ck_tile/`), or \
    install ROCm with the CK development headers under /opt/rocm/include.";

impl JitView {
    /// The path of the library.
    pub open spec fn library(self) -> Seq<char> {
        path::joined(self.cache_dir, cache::library_name(self.head_dim, self.arch, self.hash))
    }

    /// The arguments of the compiler, with the Composable Kernel headers in
    /// this directory. The headers that come with the source are in the cache
    /// directory.
    pub open spec fn compiler_args(self, ck_headers: Seq<char>) -> Seq<Seq<char>> {
        seq![
            "-shared"@,
            "-o"@,
            self.library(),
            "-DLUMINAL_HEAD_DIM="@ + numeral::decimal_text(self.head_dim),
            "-x"@,
            "hip"@,
            path::joined(self.cache_dir, "wrapper.cpp"@),
            "-I"@,
            ck_headers,
            "-I"@,
            self.cache_dir,
            "-std=c++17"@,
            "--offload-arch="@ + self.arch,
            "-O3"@,
            "-w"@,
            "-fPIC"@,
        ]
    }

    /// The message about a failed compilation.
    pub open spec fn compile_failure(self, stdout: Seq<char>, stderr: Seq<char>) -> Seq<char> {
        "FlashInfer JIT compilation failed (HEAD_DIM="@ + numeral::decimal_text(self.head_dim)
            + ", arch="@ + self.arch + "):\nstdout: "@ + stdout + "\nstderr: "@ + stderr
    }

    /// The same compilation, at another step.
    pub open spec fn at(self, step: JitStep, text: Seq<char>) -> JitView {
        JitView { step, text, ..self }
    }

    /// The same compilation, after the step had this outcome.
    pub open spec fn after(self, event: JitEvent) -> JitView {
        let none = Seq::empty();
        match self.step {
            JitStep::CreateCache => match event {
                JitEvent::Error(error) => self.at(
                    JitStep::Failed,
                    "Failed to create FlashInfer cache directory: "@ + error@,
                ),
                _ => self.at(JitStep::PlaceSources, none),
            },
            JitStep::PlaceSources => match event {
                JitEvent::Error(error) => self.at(JitStep::Failed, error@),
                _ => self.at(JitStep::DetectArch, none),
            },
            JitStep::DetectArch => (JitView { arch: event->Arch_0@, ..self }).at(
                JitStep::LookInCache,
                none,
            ),
            JitStep::LookInCache => if event is Found {
                self.at(JitStep::Ready, none)
            } else {
                self.at(JitStep::LocateHeaders, none)
            },
            JitStep::LocateHeaders => match event {
                JitEvent::HeadersAt(dir) => self.at(JitStep::Compile, dir@),
                _ => self.at(JitStep::Failed, NO_HEADERS@),
            },
            JitStep::Compile => match event {
                JitEvent::NotStarted(error) => self.at(
                    JitStep::Failed,
                    "Failed to run hipcc. Is the ROCm toolkit installed and on PATH?: "@ + error@,
                ),
                JitEvent::CompileFailed(stdout, stderr) => self.at(
                    JitStep::RemoveLibrary,
                    self.compile_failure(stdout@, stderr@),
                ),
                _ => self.at(JitStep::Ready, none),
            },
            JitStep::RemoveLibrary => self.at(JitStep::Failed, self.text),
            JitStep::Ready => self,
            JitStep::Failed => self,
        }
    }
}

impl View for JitRun {
    type V = JitView;

    closed spec fn view(&self) -> JitView {
        JitView {
            cache_dir: self.cache_dir@,
            head_dim: self.head_dim as nat,
            sources: self.sources,
            hash: self.hash,
            arch: self.arch@,
            step: self.step,
            text: self.text@,
        }
    }
}

/// What is to be done next, or how the compilation ended.
#[derive(Debug)]
pub enum JitAction {
    /// Create the directory and those above it.
    CreateDirs(String),
    /// Make these changes to the cache directory, in order.
    Place(Vec<PlaceStep>),
    /// Find out the architecture to compile for.
    DetectArch,
    /// Look whether the path exists.
    ProbePath(String),
    /// Find the Composable Kernel headers.
    LocateHeaders,
    /// Run `hipcc` with these arguments.
    RunHipcc(Vec<String>),
    /// Remove the file.
    RemoveFile(String),
    /// The library is at this path.
    Return(String),
    /// It could not be compiled, for this reason.
    Fail(String),
}

/// Whether the action is what a compilation in this state does next.
pub open spec fn is_action_of(action: JitAction, run: JitView) -> bool {
    match run.step {
        JitStep::CreateCache => action matches JitAction::CreateDirs(dir) && dir@ == run.cache_dir,
        JitStep::PlaceSources => action matches JitAction::Place(steps) && cache::targets(steps@)
            == cache::placed_sources(run.cache_dir),
        JitStep::DetectArch => action is DetectArch,
        JitStep::LookInCache => action matches JitAction::ProbePath(file) && file@
            == run.library(),
        JitStep::LocateHeaders => action is LocateHeaders,
        JitStep::Compile => action matches JitAction::RunHipcc(args) && text::texts(args@)
            == run.compiler_args(run.text),
        JitStep::RemoveLibrary => action matches JitAction::RemoveFile(file) && file@
            == run.library(),
        JitStep::Ready => action matches JitAction::Return(file) && file@ == run.library(),
        JitStep::Failed => action matches JitAction::Fail(message) && message@ == run.text,
    }
}

impl JitRun {
    /// The compilation of the kernels in this cache directory for a head
    /// dimension, from these sources, with nothing done yet.
    pub fn compile_or_cache(cache_dir: &str, head_dim: usize, sources: &WrapperSources) -> (r: Self)
        ensures
            r@ == (JitView {
                cache_dir: cache_dir@,
                head_dim: head_dim as nat,
                sources: *sources,
                hash: DefaultHasher::spec_finish(cache::source_writes(*sources)),
                arch: Seq::empty(),
                step: JitStep::CreateCache,
                text: Seq::empty(),
            }),
    {
        let arch = String::new();
        let text = String::new();
        assert(arch@ =~= Seq::empty());
        assert(text@ =~= Seq::empty());
        JitRun {
            cache_dir: owned(cache_dir),
            head_dim,
            sources: *sources,
            hash: wrapper_source_hash(sources),
            arch,
            step: JitStep::CreateCache,
            text,
        }
    }

    /// The text to write where the source is to be placed.
    pub fn source_text(&self, source: WrapperSource) -> (r: &'static str)
        ensures
            r@ == self@.sources.contents(source),
    {
        self.sources.text(source)
    }

    fn so_path(&self) -> (r: String)
        ensures
            r@ == self@.library(),
    {
        let name = so_name(self.head_dim, self.arch.as_str(), self.hash);
        join(self.cache_dir.as_str(), name.as_str())
    }

    fn hipcc_args(&self) -> (r: Vec<String>)
        ensures
            text::texts(r@) == self@.compiler_args(self@.text),
    {
        let mut head_dim_flag = String::new();
        head_dim_flag.append("-DLUMINAL_HEAD_DIM=");
        push_decimal(&mut head_dim_flag, self.head_dim as u64);
        assert(head_dim_flag@ =~= "-DLUMINAL_HEAD_DIM="@ + numeral::decimal_text(
            self@.head_dim,
        ));
        let mut arch_flag = String::new();
        arch_flag.append("--offload-arch=");
        arch_flag.append(self.arch.as_str());
        assert(arch_flag@ =~= "--offload-arch="@ + self@.arch);
        let mut args: Vec<String> = Vec::new();
        args.push(owned("-shared"));
        args.push(owned("-o"));
        args.push(self.so_path());
        args.push(head_dim_flag);
        // The language has to be named: by its suffix the file would be taken
        // for host-only C++.
        args.push(owned("-x"));
        args.push(owned("hip"));
        args.push(join(self.cache_dir.as_str(), "wrapper.cpp"));
        args.push(owned("-I"));
        args.push(owned(self.text.as_str()));
        args.push(owned("-I"));
        args.push(owned(self.cache_dir.as_str()));
        args.push(owned("-std=c++17"));
        args.push(arch_flag);
        args.push(owned("-O3"));
        args.push(owned("-w"));
        args.push(owned("-fPIC"));
        assert(text::texts(args@) =~= self@.compiler_args(self@.text));
        args
    }

    /// What is to be done next, or how the compilation ended.
    pub fn action(&self) -> (r: JitAction)
        ensures
            is_action_of(r, self@),
    {
        match self.step {
            JitStep::CreateCache => JitAction::CreateDirs(owned(self.cache_dir.as_str())),
            JitStep::PlaceSources => JitAction::Place(
                extract_wrapper_sources(self.cache_dir.as_str()).0,
            ),
            JitStep::DetectArch => JitAction::DetectArch,
            JitStep::LookInCache => JitAction::ProbePath(self.so_path()),
            JitStep::LocateHeaders => JitAction::LocateHeaders,
            JitStep::Compile => JitAction::RunHipcc(self.hipcc_args()),
            JitStep::RemoveLibrary => JitAction::RemoveFile(self.so_path()),
            JitStep::Ready => JitAction::Return(self.so_path()),
            JitStep::Failed => JitAction::Fail(owned(self.text.as_str())),
        }
    }

    fn go(&mut self, step: JitStep)
        ensures
            final(self)@ == old(self)@.at(step, Seq::empty()),
    {
        self.step = step;
        self.text = String::new();
        assert(self.text@ =~= Seq::empty());
    }

    fn go_with(&mut self, step: JitStep, text: String)
        ensures
            final(self)@ == old(self)@.at(step, text@),
    {
        self.step = step;
        self.text = text;
    }

    /// Takes the outcome of the current step and moves on.
    pub fn advance(&mut self, event: JitEvent)
        requires
            possible(old(self)@.step, event),
        ensures
            final(self)@ == old(self)@.after(event),
    {
        match self.step {
            JitStep::CreateCache => match event {
                JitEvent::Error(error) => {
                    let mut out = String::new();
                    out.append("Failed to create FlashInfer cache directory: ");
                    out.append(error.as_str());
                    assert(out@ =~= "Failed to create FlashInfer cache directory: "@ + error@);
                    self.go_with(JitStep::Failed, out);
                },
                _ => self.go(JitStep::PlaceSources),
            },
            JitStep::PlaceSources => match event {
                JitEvent::Error(error) => self.go_with(JitStep::Failed, error),
                _ => self.go(JitStep::DetectArch),
            },
            JitStep::DetectArch => match event {
                JitEvent::Arch(arch) => {
                    self.arch = arch;
                    self.go(JitStep::LookInCache);
                },
                _ => {},
            },
            JitStep::LookInCache => match event {
                JitEvent::Found => self.go(JitStep::Ready),
                _ => self.go(JitStep::LocateHeaders),
            },
            JitStep::LocateHeaders => match event {
                JitEvent::HeadersAt(dir) => self.go_with(JitStep::Compile, dir),
                _ => self.go_with(JitStep::Failed, owned(NO_HEADERS)),
            },
            JitStep::Compile => match event {
                JitEvent::NotStarted(error) => {
                    let mut out = String::new();
                    out.append("Failed to run hipcc. Is the ROCm toolkit installed and on PATH?: ");
                    out.append(error.as_str());
                    assert(out@
                        =~= "Failed to run hipcc. Is the ROCm toolkit installed and on PATH?: "@
                        + error@);
                    self.go_with(JitStep::Failed, out);
                },
                JitEvent::CompileFailed(stdout, stderr) => {
                    let mut out = String::new();
                    out.append("FlashInfer JIT compilation failed (HEAD_DIM=");
                    push_decimal(&mut out, self.head_dim as u64);
                    out.append(", arch=");
                    out.append(self.arch.as_str());
                    out.append("):\nstdout: ");
                    out.append(stdout.as_str());
                    out.append("\nstderr: ");
                    out.append(stderr.as_str());
                    assert(out@ =~= self@.compile_failure(stdout@, stderr@));
                    self.go_with(JitStep::RemoveLibrary, out);
                },
                _ => self.go(JitStep::Ready),
            },
            JitStep::RemoveLibrary => {
                self.step = JitStep::Failed;
            },
            JitStep::Ready => {},
            JitStep::Failed => {},
        }
    }

    /// The note that the library was found in the cache.
    pub fn cached_note(&self) -> (r: String)
        ensures
            r@ == "FlashInfer: using cached library for HEAD_DIM="@ + numeral::decimal_text(
                self@.head_dim,
            ) + " ("@ + self@.library() + ")"@,
    {
        let library = self.so_path();
        let mut out = String::new();
        out.append("FlashInfer: using cached library for HEAD_DIM=");
        push_decimal(&mut out, self.head_dim as u64);
        out.append(" (");
        out.append(library.as_str());
        out.append(")");
        assert(out@ =~= "FlashInfer: using cached library for HEAD_DIM="@ + numeral::decimal_text(
            self@.head_dim,
        ) + " ("@ + self@.library() + ")"@);
        out
    }

    /// The note that the compilation begins.
    pub fn compiling_note(&self) -> (r: String)
        ensures
            r@ == "FlashInfer: JIT compiling for HEAD_DIM="@ + numeral::decimal_text(self@.head_dim)
                + ", arch="@ + self@.arch + " ..."@,
    {
        let mut out = String::new();
        out.append("FlashInfer: JIT compiling for HEAD_DIM=");
        push_decimal(&mut out, self.head_dim as u64);
        out.append(", arch=");
        out.append(self.arch.as_str());
        out.append(" ...");
        assert(out@ =~= "FlashInfer: JIT compiling for HEAD_DIM="@ + numeral::decimal_text(
            self@.head_dim,
        ) + ", arch="@ + self@.arch + " ..."@);
        out
    }

    /// The note that the compilation took this many seconds.
    pub fn compiled_note(&self, seconds: &str) -> (r: String)
        ensures
            r@ == "FlashInfer: compiled in "@ + seconds@ + "s → "@ + self@.library(),
    {
        let library = self.so_path();
        let mut out = String::new();
        out.append("FlashInfer: compiled in ");
        out.append(seconds);
        out.append("s → ");
        out.append(library.as_str());
        assert(out@ =~= "FlashInfer: compiled in "@ + seconds@ + "s → "@ + self@.library());
        out
    }
}

/// How many steps may still follow.
pub open spec fn steps_left(step: JitStep) -> nat {
    match step {
        JitStep::CreateCache => 7,
        JitStep::PlaceSources => 6,
        JitStep::DetectArch => 5,
        JitStep::LookInCache => 4,
        JitStep::LocateHeaders => 3,
        JitStep::Compile => 2,
        JitStep::RemoveLibrary => 1,
        JitStep::Ready => 0,
        JitStep::Failed => 0,
    }
}

/// Every step brings the compilation nearer to its end, and once the
/// architecture is known, leaves what is compiled as it is.
pub proof fn compilation_ends(run: JitView, event: JitEvent)
    requires
        possible(run.step, event),
    ensures
        steps_left(run.after(event).step) < steps_left(run.step),
        run.step !is DetectArch ==> run.after(event) == run.at(
            run.after(event).step,
            run.after(event).text,
        ),
{
}

/// The library counts as ready only when it was in the cache or the compiler
/// succeeded; after a compiler failure it is removed before the compilation
/// ends, and the failure is what is reported.
pub proof fn only_compiled_libraries_are_used(run: JitView, event: JitEvent)
    requires
        possible(run.step, event),
    ensures
        run.after(event).step is Ready <==> {
            ||| run.step is LookInCache && event is Found
            ||| run.step is Compile && event is Compiled
        },
        event is CompileFailed ==> run.after(event).step is RemoveLibrary,
        run.step is RemoveLibrary ==> run.after(event) == run.at(JitStep::Failed, run.text),
{
}

/// Two compilations in one cache directory that look for the same library are
/// for the same head dimension, the same architecture and sources of the same
/// hash: a library that was built from other sources is not taken from the
/// cache, unless the hashes collide.
pub proof fn cached_libraries_are_not_mixed_up(one: JitView, other: JitView)
    requires
        one.cache_dir == other.cache_dir,
        one.library() == other.library(),
    ensures
        one.head_dim == other.head_dim,
        one.arch == other.arch,
        one.hash == other.hash,
{
    let name = cache::library_name(one.head_dim, one.arch, one.hash);
    let other_name = cache::library_name(other.head_dim, other.arch, other.hash);
    reveal_strlit("libflashinfer_hd");
    assert(name[0] == 'l' && other_name[0] == 'l');
    path::joined_names_differ(one.cache_dir, name, other_name);
    cache::library_names_differ(
        one.head_dim,
        one.arch,
        one.hash,
        other.head_dim,
        other.arch,
        other.hash,
    );
}

/// The state that a compilation comes to when its steps have these outcomes, one
/// after the other, beginning at `from`; `None` where a step cannot have its
/// outcome.
pub open spec fn through(run: JitView, events: Seq<JitEvent>, from: nat) -> Option<JitView>
    decreases events.len() - from,
{
    if from >= events.len() {
        Some(run)
    } else if possible(run.step, events[from as int]) {
        through(run.after(events[from as int]), events, from + 1)
    } else {
        None
    }
}

/// A compilation ends with a library exactly when the sources are in place and
/// the library is in the cache, or the headers are found and the compiler
/// succeeds. A cached library is compiled no second time.
pub proof fn ready_iff_cached_or_compiled(run: JitView, events: Seq<JitEvent>)
    requires
        run.step is CreateCache,
    ensures
        (through(run, events, 0) is Some && through(run, events, 0)->0.step is Ready) <==> {
            &&& events.len() == 4 || events.len() == 6
            &&& events[0] is Done
            &&& events[1] is Done
            &&& events[2] is Arch
            &&& events.len() == 4 ==> events[3] is Found
            &&& events.len() == 6 ==> events[3] is Missing && events[4] is HeadersAt
                && events[5] is Compiled
        },
{
    reveal_with_fuel(through, 9);
}

} // verus!
