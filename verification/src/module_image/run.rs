//! The calls of a compilation, one after the other.
use rocmrc::hiprtc::Hsaco;
use vstd::prelude::*;
use vstd::string::*;

use crate::module_image::options;
use crate::module_image::options::{
    read_hiprtc_log, rocm_driver_diagnostics, rocm_hiprtc_compile_options,
};
use crate::module_image::report::{
    build_module_image_compile_error, HiprtcStage, RocmModuleImageCompileError,
    RocmModuleImageCompileFailure,
};
use crate::text;
use crate::text::owned;

verus! {

/// `rocmrc::hiprtc::Hsaco`: a compiled module image.
#[verifier::external_type_specification]
#[verifier::external_body]
pub struct ExHsaco(Hsaco);

/// The bytes that a module image holds.
pub uninterp spec fn image_bytes(image: Hsaco) -> Seq<u8>;

/// `rocmrc::hiprtc::Hsaco::from_bytes`: an image that holds the given bytes.
pub assume_specification[ Hsaco::from_bytes ](b: Vec<u8>) -> (r: Hsaco)
    ensures
        image_bytes(r) == b@,
;

/// The name under which the compiler knows the source.
pub const SOURCE_NAME: &'static str = "kernel.hip";

/// How far a compilation has come: the call to make next, or how it ended.
#[derive(Clone, Copy, Debug, PartialEq, Eq, Structural)]
pub enum ImageStep {
    /// Create a program from the source.
    CreateProgram,
    /// Compile it.
    CompileProgram,
    /// Read the compiler's log.
    ReadLog,
    /// Read the compiled code.
    GetCode,
    /// Destroy the program.
    DestroyProgram,
    /// There is a module image.
    Ready,
    /// There is none.
    Failed,
}

/// What came of a call.
#[derive(Debug)]
pub enum ImageEvent {
    /// It succeeded.
    Done,
    /// It failed, with this error.
    Error(String),
    /// The log, if it could be read.
    Log(Option<String>),
    /// The compiled code.
    Code(Vec<u8>),
}

/// Whether the call can have this outcome.
pub open spec fn possible(step: ImageStep, event: ImageEvent) -> bool {
    match step {
        ImageStep::CreateProgram => event is Done || event is Error,
        ImageStep::CompileProgram => event is Done || event is Error,
        ImageStep::ReadLog => event is Log,
        ImageStep::GetCode => event is Code || event is Error,
        ImageStep::DestroyProgram => event is Done || event is Error,
        ImageStep::Ready => false,
        ImageStep::Failed => false,
    }
}

/// A compilation in progress.
#[derive(Debug)]
pub struct ImageRun {
    source: String,
    target_arch: String,
    driver_version: Option<i32>,
    runtime_version: Option<i32>,
    options: Vec<String>,
    step: ImageStep,
    failed: Option<HiprtcStage>,
    error: String,
    log: Option<String>,
    code: Vec<u8>,
}

/// What is compiled, and the progress of the compilation.
pub struct ImageView {
    /// The source.
    pub source: Seq<char>,
    /// The architecture.
    pub arch: Seq<char>,
    /// The version of the driver.
    pub driver: Option<i32>,
    /// The version of the runtime.
    pub runtime: Option<i32>,
    /// The options.
    pub options: Seq<Seq<char>>,
    /// How far it has come.
    pub step: ImageStep,
    /// The call that failed, if one did.
    pub failed: Option<HiprtcStage>,
    /// The error of that call.
    pub error: Seq<char>,
    /// The log to report.
    pub log: Option<Seq<char>>,
    /// The compiled code.
    pub code: Seq<u8>,
}

impl ImageView {
    /// The same compilation, with this call failed.
    pub open spec fn with_failure(self, stage: HiprtcStage, error: Seq<char>) -> ImageView {
        ImageView { failed: Some(stage), error, ..self }
    }

    /// The same compilation, at another step.
    pub open spec fn at(self, step: ImageStep) -> ImageView {
        ImageView { step, ..self }
    }

    /// The same compilation, after the call had this outcome. Whatever fails
    /// after the program was created, the program is destroyed; and where a
    /// call failed before, it does not matter whether that succeeds.
    pub open spec fn after(self, event: ImageEvent) -> ImageView {
        match self.step {
            ImageStep::CreateProgram => match event {
                ImageEvent::Error(error) => self.with_failure(
                    HiprtcStage::CreateProgram,
                    error@,
                ).at(ImageStep::Failed),
                _ => self.at(ImageStep::CompileProgram),
            },
            ImageStep::CompileProgram => match event {
                ImageEvent::Error(error) => self.with_failure(
                    HiprtcStage::CompileProgram,
                    error@,
                ).at(ImageStep::ReadLog),
                _ => self.at(ImageStep::ReadLog),
            },
            ImageStep::ReadLog => {
                let logged = ImageView {
                    log: options::reported_log(text::string_text(event->Log_0)),
                    ..self
                };
                if self.failed is Some {
                    logged.at(ImageStep::DestroyProgram)
                } else {
                    logged.at(ImageStep::GetCode)
                }
            },
            ImageStep::GetCode => match event {
                ImageEvent::Code(code) => (ImageView { code: code@, ..self }).at(
                    ImageStep::DestroyProgram,
                ),
                ImageEvent::Error(error) => self.with_failure(HiprtcStage::GetCubin, error@).at(
                    ImageStep::DestroyProgram,
                ),
                _ => self,
            },
            ImageStep::DestroyProgram => if self.failed is Some {
                self.at(ImageStep::Failed)
            } else {
                match event {
                    ImageEvent::Error(error) => self.with_failure(
                        HiprtcStage::DestroyProgram,
                        error@,
                    ).at(ImageStep::Failed),
                    _ => if self.code.len() == 0 {
                        self.at(ImageStep::Failed)
                    } else {
                        self.at(ImageStep::Ready)
                    },
                }
            },
            ImageStep::Ready => self,
            ImageStep::Failed => self,
        }
    }

    /// Whether this is the report of the failed compilation.
    pub open spec fn reported_by(self, report: RocmModuleImageCompileError) -> bool {
        &&& text::string_text(report.target_arch) == Some(self.arch)
        &&& report.driver_version == self.driver
        &&& report.runtime_version == self.runtime
        &&& text::texts(report.hiprtc_options@) == self.options
        &&& text::string_text(report.hiprtc_log) == self.log
        &&& match self.failed {
            Some(failed) => report.failure matches RocmModuleImageCompileFailure::Hiprtc {
                stage,
                error,
            } && stage == failed && error@ == self.error,
            None => report.failure is NoModuleImageProduced,
        }
    }
}

impl View for ImageRun {
    type V = ImageView;

    closed spec fn view(&self) -> ImageView {
        ImageView {
            source: self.source@,
            arch: self.target_arch@,
            driver: self.driver_version,
            runtime: self.runtime_version,
            options: text::texts(self.options@),
            step: self.step,
            failed: self.failed,
            error: self.error@,
            log: text::string_text(self.log),
            code: self.code@,
        }
    }
}

/// The call to make next, or that the compilation has ended.
#[derive(Debug)]
pub enum ImageAction<'a> {
    /// Create a program from this source under this name.
    CreateProgram(&'a str, &'a str),
    /// Compile it with these options.
    CompileProgram(&'a [String]),
    /// Read the compiler's log.
    ReadLog,
    /// Read the compiled code.
    GetCode,
    /// Destroy the program.
    DestroyProgram,
    /// The compilation has ended.
    Finish,
}

/// Whether the action is what a compilation in this state does next.
pub open spec fn is_action_of(action: ImageAction<'_>, run: ImageView) -> bool {
    match run.step {
        ImageStep::CreateProgram => action matches ImageAction::CreateProgram(source, name)
            && source@ == run.source && name@ == SOURCE_NAME@,
        ImageStep::CompileProgram => action matches ImageAction::CompileProgram(options)
            && text::texts(options@) == run.options,
        ImageStep::ReadLog => action is ReadLog,
        ImageStep::GetCode => action is GetCode,
        ImageStep::DestroyProgram => action is DestroyProgram,
        ImageStep::Ready => action is Finish,
        ImageStep::Failed => action is Finish,
    }
}

impl ImageRun {
    /// The compilation of this source for the architecture of a device, with
    /// headers from these directories, with no call made yet. The version of the
    /// driver, where it is known, is shown in the report of a failure; that of
    /// the runtime is not asked for.
    pub fn compile_module_image_for_current_device(
        source: &str,
        target_arch: &str,
        include_paths: &[String],
        driver_version: Option<i32>,
    ) -> (r: Self)
        ensures
            r@ == (ImageView {
                source: source@,
                arch: target_arch@,
                driver: driver_version,
                runtime: None,
                options: options::compile_options(text::texts(include_paths@), target_arch@),
                step: ImageStep::CreateProgram,
                failed: None,
                error: Seq::empty(),
                log: None,
                code: Seq::empty(),
            }),
    {
        let (driver_version, runtime_version) = rocm_driver_diagnostics(driver_version);
        let options = rocm_hiprtc_compile_options(include_paths, target_arch);
        let error = String::new();
        assert(error@ =~= Seq::empty());
        let code: Vec<u8> = Vec::new();
        assert(code@ =~= Seq::empty());
        ImageRun {
            source: owned(source),
            target_arch: owned(target_arch),
            driver_version,
            runtime_version,
            options,
            step: ImageStep::CreateProgram,
            failed: None,
            error,
            log: None,
            code,
        }
    }

    /// How far the compilation has come.
    pub fn step(&self) -> (r: ImageStep)
        ensures
            r == self@.step,
    {
        self.step
    }

    /// The call to make next, with its arguments, or that the compilation has
    /// ended.
    pub fn action(&self) -> (r: ImageAction<'_>)
        ensures
            is_action_of(r, self@),
    {
        match self.step {
            ImageStep::CreateProgram => ImageAction::CreateProgram(
                self.source.as_str(),
                SOURCE_NAME,
            ),
            ImageStep::CompileProgram => ImageAction::CompileProgram(self.options.as_slice()),
            ImageStep::ReadLog => ImageAction::ReadLog,
            ImageStep::GetCode => ImageAction::GetCode,
            ImageStep::DestroyProgram => ImageAction::DestroyProgram,
            ImageStep::Ready => ImageAction::Finish,
            ImageStep::Failed => ImageAction::Finish,
        }
    }

    fn fail(&mut self, stage: HiprtcStage, error: String, step: ImageStep)
        ensures
            final(self)@ == old(self)@.with_failure(stage, error@).at(step),
    {
        self.failed = Some(stage);
        self.error = error;
        self.step = step;
    }

    fn go(&mut self, step: ImageStep)
        ensures
            final(self)@ == old(self)@.at(step),
    {
        self.step = step;
    }

    /// Takes the outcome of the current call and moves on.
    pub fn advance(&mut self, event: ImageEvent)
        requires
            possible(old(self)@.step, event),
        ensures
            final(self)@ == old(self)@.after(event),
    {
        match self.step {
            ImageStep::CreateProgram => match event {
                ImageEvent::Error(error) => self.fail(
                    HiprtcStage::CreateProgram,
                    error,
                    ImageStep::Failed,
                ),
                _ => self.go(ImageStep::CompileProgram),
            },
            ImageStep::CompileProgram => match event {
                ImageEvent::Error(error) => self.fail(
                    HiprtcStage::CompileProgram,
                    error,
                    ImageStep::ReadLog,
                ),
                _ => self.go(ImageStep::ReadLog),
            },
            ImageStep::ReadLog => match event {
                ImageEvent::Log(raw) => {
                    self.log = match &raw {
                        Some(raw) => read_hiprtc_log(Some(raw.as_str())),
                        None => read_hiprtc_log(None),
                    };
                    if self.failed.is_some() {
                        self.go(ImageStep::DestroyProgram);
                    } else {
                        self.go(ImageStep::GetCode);
                    }
                },
                _ => {},
            },
            ImageStep::GetCode => match event {
                ImageEvent::Code(code) => {
                    self.code = code;
                    self.go(ImageStep::DestroyProgram);
                },
                ImageEvent::Error(error) => self.fail(
                    HiprtcStage::GetCubin,
                    error,
                    ImageStep::DestroyProgram,
                ),
                _ => {},
            },
            ImageStep::DestroyProgram => {
                if self.failed.is_some() {
                    self.go(ImageStep::Failed);
                } else {
                    match event {
                        ImageEvent::Error(error) => self.fail(
                            HiprtcStage::DestroyProgram,
                            error,
                            ImageStep::Failed,
                        ),
                        _ => {
                            if self.code.len() == 0 {
                                self.go(ImageStep::Failed);
                            } else {
                                self.go(ImageStep::Ready);
                            }
                        },
                    }
                }
            },
            ImageStep::Ready => {},
            ImageStep::Failed => {},
        }
    }

    /// The module image, or the report of the failure.
    pub fn finish(self) -> (r: Result<Hsaco, RocmModuleImageCompileError>)
        requires
            self@.step is Ready || self@.step is Failed,
        ensures
            self@.step is Ready ==> r is Ok && image_bytes(r->Ok_0) == self@.code,
            self@.step is Failed ==> r is Err && self@.reported_by(r->Err_0),
    {
        match self.step {
            ImageStep::Ready => Ok(Hsaco::from_bytes(self.code)),
            _ => {
                let failure = match self.failed {
                    Some(stage) => RocmModuleImageCompileFailure::Hiprtc {
                        stage,
                        error: self.error,
                    },
                    None => RocmModuleImageCompileFailure::NoModuleImageProduced,
                };
                Err(
                    build_module_image_compile_error(
                        Some(self.target_arch),
                        self.driver_version,
                        self.runtime_version,
                        self.options.as_slice(),
                        self.log,
                        failure,
                    ),
                )
            },
        }
    }
}

/// How many calls may still follow.
pub open spec fn steps_left(step: ImageStep) -> nat {
    match step {
        ImageStep::CreateProgram => 5,
        ImageStep::CompileProgram => 4,
        ImageStep::ReadLog => 3,
        ImageStep::GetCode => 2,
        ImageStep::DestroyProgram => 1,
        ImageStep::Ready => 0,
        ImageStep::Failed => 0,
    }
}

/// Every call brings the compilation nearer to its end. It ends when the program
/// could not be created or has been destroyed, and then only: a program that was
/// created is destroyed, and no program is destroyed twice.
pub proof fn created_programs_are_destroyed_once(run: ImageView, event: ImageEvent)
    requires
        possible(run.step, event),
    ensures
        steps_left(run.after(event).step) < steps_left(run.step),
        (run.after(event).step is Ready || run.after(event).step is Failed) <==> {
            ||| run.step is DestroyProgram
            ||| run.step is CreateProgram && event is Error
        },
{
}

/// No call changes what is compiled, for what, or with which options.
pub proof fn calls_keep_what_is_compiled(run: ImageView, event: ImageEvent)
    requires
        possible(run.step, event),
    ensures
        run.after(event).source == run.source,
        run.after(event).arch == run.arch,
        run.after(event).options == run.options,
        run.after(event).driver == run.driver,
        run.after(event).runtime == run.runtime,
{
}

/// A compilation is in a state that it can come to: a failed call is followed by
/// the reading of the log, the destruction of the program or the end, and there
/// is an image only where no call failed and there is code.
pub open spec fn consistent(run: ImageView) -> bool {
    &&& run.failed is Some ==> run.step is ReadLog || run.step is DestroyProgram
        || run.step is Failed
    &&& run.step is Ready ==> run.failed is None && run.code.len() > 0
    &&& run.step is Failed && run.failed is None ==> run.code.len() == 0
}

/// No call leads out of the states that a compilation can come to.
pub proof fn states_stay_consistent(run: ImageView, event: ImageEvent)
    requires
        consistent(run),
        possible(run.step, event),
    ensures
        consistent(run.after(event)),
{
}

/// A failed call is never lost: once a call has failed, the compilation fails,
/// and reports that call and its error.
pub proof fn first_failure_is_reported(run: ImageView, event: ImageEvent)
    requires
        possible(run.step, event),
        consistent(run),
        run.failed is Some,
    ensures
        run.after(event).failed == run.failed,
        run.after(event).error == run.error,
        run.step is ReadLog ==> run.after(event).step is DestroyProgram,
        run.step is DestroyProgram ==> run.after(event).step is Failed,
{
}

/// The state that a compilation comes to when its calls have these outcomes, one
/// after the other, beginning at `from`; `None` where a call cannot have its outcome.
pub open spec fn through(run: ImageView, events: Seq<ImageEvent>, from: nat) -> Option<ImageView>
    decreases events.len() - from,
{
    if from >= events.len() {
        Some(run)
    } else if possible(run.step, events[from as int]) {
        through(run.after(events[from as int]), events, from + 1)
    } else {
        None
    }
}

/// A compilation that starts with the creation of the program ends with a module
/// image exactly when the program is created, compiled, its log read, its code
/// read and not empty, and the program destroyed, all without a failure.
pub proof fn image_iff_every_call_succeeds(run: ImageView, events: Seq<ImageEvent>)
    requires
        run.step is CreateProgram,
        run.failed is None,
    ensures
        (through(run, events, 0) is Some && through(run, events, 0)->0.step is Ready) <==> {
            &&& events.len() == 5
            &&& events[0] is Done
            &&& events[1] is Done
            &&& events[2] is Log
            &&& events[3] matches ImageEvent::Code(code) && code@.len() > 0
            &&& events[4] is Done
        },
{
    reveal_with_fuel(through, 7);
}

/// A compilation begins with the source, the architecture, the header
/// directories and the driver version that were given, and nothing done.
pub proof fn compilations_begin_as_requested(
    source: &str,
    target_arch: &str,
    include_paths: &[String],
    driver_version: Option<i32>,
    run: ImageRun,
    expected: Vec<String>,
)
    requires
        call_ensures(
            ImageRun::compile_module_image_for_current_device,
            (source, target_arch, include_paths, driver_version),
            run,
        ),
        call_ensures(rocm_hiprtc_compile_options, (include_paths, target_arch), expected),
    ensures
        run@.source == source@,
        run@.arch == target_arch@,
        run@.driver == driver_version,
        run@.runtime is None,
        run@.options == text::texts(expected@),
        run@.step is CreateProgram,
        run@.failed is None,
        run@.log is None,
        run@.code.len() == 0,
{
}

/// The program is created from the source under the name `kernel.hip`, and
/// compiled with the options; and every step makes its own call.
pub proof fn steps_make_their_calls(run: &ImageRun, action: ImageAction<'_>)
    requires
        call_ensures(ImageRun::action, (run,), action),
    ensures
        run@.step is CreateProgram ==> action is CreateProgram && action->CreateProgram_0@
            == run@.source && action->CreateProgram_1@ == "kernel.hip"@,
        run@.step is CompileProgram ==> action is CompileProgram && text::texts(
            action->CompileProgram_0@,
        ) == run@.options,
        run@.step is ReadLog ==> action is ReadLog,
        run@.step is GetCode ==> action is GetCode,
        run@.step is DestroyProgram ==> action is DestroyProgram,
        run@.step is Ready || run@.step is Failed ==> action is Finish,
{
}

/// A compilation that succeeds yields the code that was read, and a report of one
/// that fails names the first call that failed, and its error, whatever came
/// after: the creation, the compilation, the reading of the code, or the
/// destruction of the program. Where no call failed there was no code.
pub proof fn outcomes_follow_the_calls(run: ImageView, events: Seq<ImageEvent>)
    requires
        run.step is CreateProgram,
        run.failed is None,
        run.code.len() == 0,
        through(run, events, 0) is Some,
        through(run, events, 0)->0.step is Ready || through(run, events, 0)->0.step is Failed,
    ensures
        ({
            let end = through(run, events, 0)->0;
            &&& events[0] is Error ==> events.len() == 1 && end.failed == Some(
                HiprtcStage::CreateProgram,
            ) && end.error == events[0]->Error_0@
            &&& events[0] is Done && events[1] is Error ==> events.len() == 4 && end.failed == Some(
                HiprtcStage::CompileProgram,
            ) && end.error == events[1]->Error_0@
            &&& events[0] is Done && events[1] is Done && events[3] is Error ==> events.len() == 5
                && end.failed == Some(HiprtcStage::GetCubin) && end.error == events[3]->Error_0@
            &&& events[0] is Done && events[1] is Done && events[3] is Code && events[4] is Error
                ==> events.len() == 5 && end.failed == Some(HiprtcStage::DestroyProgram)
                && end.error == events[4]->Error_0@
            &&& events[0] is Done && events[1] is Done && events[3] is Code && events[4] is Done
                ==> events.len() == 5 && end.failed is None && end.code == events[3]->Code_0@ && (
            end.step is Ready <==> end.code.len() > 0)
            &&& end.failed is Some ==> end.step is Failed
            &&& events.len() > 2 ==> end.log == options::reported_log(
                text::string_text(events[2]->Log_0),
            )
            &&& end.source == run.source && end.arch == run.arch && end.options == run.options
            &&& end.driver == run.driver && end.runtime == run.runtime
        }),
{
    reveal_with_fuel(through, 7);
}

/// The image of a compilation that succeeded holds the code that was read, and
/// the report of one that failed its architecture, its versions, its options,
/// its log, and the call that failed with its error.
pub proof fn compilations_end_with_image_or_report(
    run: ImageRun,
    r: Result<Hsaco, RocmModuleImageCompileError>,
)
    requires
        run@.step is Ready || run@.step is Failed,
        call_ensures(ImageRun::finish, (run,), r),
    ensures
        r is Ok <==> run@.step is Ready,
        r is Ok ==> image_bytes(r->Ok_0) == run@.code,
        r is Err ==> {
            let report = r->Err_0;
            &&& report.target_arch is Some
            &&& report.target_arch->0@ == run@.arch
            &&& report.driver_version == run@.driver
            &&& report.runtime_version == run@.runtime
            &&& text::texts(report.hiprtc_options@) == run@.options
            &&& report.hiprtc_log is Some <==> run@.log is Some
            &&& report.hiprtc_log is Some ==> report.hiprtc_log->0@ == run@.log->0
            &&& run@.failed is None ==> report.failure is NoModuleImageProduced
            &&& run@.failed is Some ==> report.failure is Hiprtc && report.failure->stage
                == run@.failed->0 && report.failure->error@ == run@.error
        },
{
}

/// The outcome of a call moves a compilation on to the state that follows.
pub proof fn compilations_move_on(run: &mut ImageRun, event: ImageEvent)
    requires
        possible(old(run)@.step, event),
        call_ensures(ImageRun::advance, (run, event), ()),
    ensures
        final(run)@ == old(run)@.after(event),
{
}

} // verus!
