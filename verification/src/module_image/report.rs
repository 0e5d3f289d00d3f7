//! The report of a compilation that failed.
use vstd::prelude::*;
use vstd::string::*;

use crate::module_image::options;
use crate::module_image::options::format_rocm_version;
use crate::text;
use crate::text::owned;

verus! {

/// A call of the compiler.
#[derive(Clone, Copy, Debug, PartialEq, Eq, Structural)]
pub enum HiprtcStage {
    CreateProgram,
    CompileProgram,
    GetCubin,
    DestroyProgram,
}

impl HiprtcStage {
    /// The name of the call.
    pub open spec fn name_text(self) -> Seq<char> {
        match self {
            HiprtcStage::CreateProgram => "create_program"@,
            HiprtcStage::CompileProgram => "compile_program"@,
            HiprtcStage::GetCubin => "get_cubin"@,
            HiprtcStage::DestroyProgram => "destroy_program"@,
        }
    }

    /// The name of the call.
    pub fn name(self) -> (r: &'static str)
        ensures
            r@ == self.name_text(),
    {
        match self {
            HiprtcStage::CreateProgram => "create_program",
            HiprtcStage::CompileProgram => "compile_program",
            HiprtcStage::GetCubin => "get_cubin",
            HiprtcStage::DestroyProgram => "destroy_program",
        }
    }
}

/// Why a compilation yielded no module image.
#[derive(Debug)]
pub enum RocmModuleImageCompileFailure {
    /// A call of the compiler failed, with this error.
    Hiprtc { stage: HiprtcStage, error: String },
    /// The compiler succeeded and produced nothing.
    NoModuleImageProduced,
}

impl RocmModuleImageCompileFailure {
    /// The failure, in words.
    pub open spec fn text(self) -> Seq<char> {
        match self {
            RocmModuleImageCompileFailure::Hiprtc { stage, error } => ": HipRTC "@
                + stage.name_text() + " failed: "@ + error@,
            RocmModuleImageCompileFailure::NoModuleImageProduced =>
                ": HipRTC produced no ROCBIN for the selected target"@,
        }
    }
}

/// A compilation that failed, with what helps to find out why.
#[derive(Debug)]
pub struct RocmModuleImageCompileError {
    pub target_arch: Option<String>,
    pub driver_version: Option<i32>,
    pub runtime_version: Option<i32>,
    pub hiprtc_options: Vec<String>,
    pub hiprtc_log: Option<String>,
    pub failure: RocmModuleImageCompileFailure,
}

/// The text in double quotes, with escapes, in which a string is shown for
/// debugging.
pub uninterp spec fn debug_text(s: Seq<char>) -> Seq<char>;

/// `<str as Debug>::fmt`: shows the string in a form that depends on its text
/// alone.
#[verifier::external_body]
fn debug_string(s: &str) -> (r: String)
    ensures
        r@ == debug_text(s@),
{
    format!("{:?}", s)
}

/// The first `n` texts, with a comma between each two.
pub open spec fn listed(shown: Seq<Seq<char>>, n: nat) -> Seq<char>
    decreases n,
{
    if n == 0 {
        Seq::empty()
    } else if n == 1 {
        shown[0]
    } else {
        listed(shown, (n - 1) as nat) + ", "@ + shown[n - 1]
    }
}

/// The texts as one list, in brackets.
pub open spec fn bracketed(shown: Seq<Seq<char>>) -> Seq<char> {
    "["@ + listed(shown, shown.len()) + "]"@
}

/// The texts as one list, in brackets and with a comma between each two.
pub fn joined_options(shown: &[String]) -> (r: String)
    ensures
        r@ == bracketed(text::texts(shown@)),
{
    let ghost all = text::texts(shown@);
    let mut out = String::new();
    out.append("[");
    assert(out@ =~= "["@ + listed(all, 0));
    let mut i: usize = 0;
    while i < shown.len()
        invariant
            i <= shown@.len(),
            all == text::texts(shown@),
            out@ == "["@ + listed(all, i as nat),
        decreases shown@.len() - i,
    {
        if i > 0 {
            out.append(", ");
        }
        out.append(shown[i].as_str());
        assert(all[i as int] == shown@[i as int]@);
        assert(out@ =~= "["@ + listed(all, (i + 1) as nat));
        i += 1;
    }
    out.append("]");
    assert(out@ =~= bracketed(all));
    out
}

/// The strings as source code shows them.
pub open spec fn debug_texts(strings: Seq<Seq<char>>) -> Seq<Seq<char>> {
    strings.map_values(|string: Seq<char>| debug_text(string))
}

fn debug_strings(strings: &Vec<String>) -> (r: Vec<String>)
    ensures
        text::texts(r@) == debug_texts(text::texts(strings@)),
{
    let ghost all = debug_texts(text::texts(strings@));
    let mut out: Vec<String> = Vec::new();
    let mut i: usize = 0;
    while i < strings.len()
        invariant
            i <= strings@.len(),
            all == debug_texts(text::texts(strings@)),
            text::texts(out@) == all.take(i as int),
        decreases strings@.len() - i,
    {
        let ghost before = out@;
        out.push(debug_string(strings[i].as_str()));
        assert(text::texts(out@) =~= text::texts(before).push(all[i as int]));
        assert(all.take(i + 1) =~= all.take(i as int).push(all[i as int]));
        i += 1;
    }
    assert(all.take(i as int) =~= all);
    out
}

/// The part that an optional text adds.
pub open spec fn optional_part(label: Seq<char>, part: Option<Seq<char>>) -> Seq<char> {
    match part {
        Some(part) => label + part,
        None => Seq::empty(),
    }
}

/// The part that an optional version adds.
pub open spec fn version_part(label: Seq<char>, version: Option<i32>) -> Seq<char> {
    match version {
        Some(version) => label + options::version_text(version),
        None => Seq::empty(),
    }
}

/// The part that the options add, where there are any.
pub open spec fn options_part(strings: Seq<Seq<char>>) -> Seq<char> {
    if strings.len() == 0 {
        Seq::empty()
    } else {
        " | options "@ + bracketed(debug_texts(strings))
    }
}

fn push_optional(out: &mut String, label: &str, part: &Option<String>)
    ensures
        final(out)@ == old(out)@ + optional_part(label@, text::string_text(*part)),
{
    match part {
        Some(part) => {
            out.append(label);
            out.append(part.as_str());
        },
        None => {},
    }
    assert(out@ =~= old(out)@ + optional_part(label@, text::string_text(*part)));
}

fn push_version(out: &mut String, label: &str, version: Option<i32>)
    ensures
        final(out)@ == old(out)@ + version_part(label@, version),
{
    match version {
        Some(version) => {
            let shown = format_rocm_version(version);
            out.append(label);
            out.append(shown.as_str());
        },
        None => {},
    }
    assert(out@ =~= old(out)@ + version_part(label@, version));
}

fn push_options(out: &mut String, strings: &Vec<String>)
    ensures
        final(out)@ == old(out)@ + options_part(text::texts(strings@)),
{
    if strings.len() > 0 {
        let shown = debug_strings(strings);
        let list = joined_options(shown.as_slice());
        out.append(" | options ");
        out.append(list.as_str());
    }
    assert(out@ =~= old(out)@ + options_part(text::texts(strings@)));
}

impl RocmModuleImageCompileError {
    /// The report: the architecture, the failure, and then the versions, the
    /// options and the log as far as they are known.
    pub open spec fn text(self) -> Seq<char> {
        "failed to compile ROCm module image"@ + optional_part(
            " for "@,
            text::string_text(self.target_arch),
        ) + self.failure.text() + version_part(" | driver "@, self.driver_version) + version_part(
            " | runtime "@,
            self.runtime_version,
        ) + options_part(text::texts(self.hiprtc_options@)) + optional_part(
            " | log: "@,
            text::string_text(self.hiprtc_log),
        )
    }

    /// The report, in one line but for the log.
    pub fn message(&self) -> (r: String)
        ensures
            r@ == self.text(),
    {
        let mut out = String::new();
        out.append("failed to compile ROCm module image");
        push_optional(&mut out, " for ", &self.target_arch);
        let ghost before = out@;
        match &self.failure {
            RocmModuleImageCompileFailure::Hiprtc { stage, error } => {
                out.append(": HipRTC ");
                out.append(stage.name());
                out.append(" failed: ");
                out.append(error.as_str());
            },
            RocmModuleImageCompileFailure::NoModuleImageProduced => {
                out.append(": HipRTC produced no ROCBIN for the selected target");
            },
        }
        assert(out@ =~= before + self.failure.text());
        push_version(&mut out, " | driver ", self.driver_version);
        push_version(&mut out, " | runtime ", self.runtime_version);
        push_options(&mut out, &self.hiprtc_options);
        push_optional(&mut out, " | log: ", &self.hiprtc_log);
        assert(out@ =~= self.text());
        out
    }
}

fn owned_list(strings: &[String]) -> (r: Vec<String>)
    ensures
        text::texts(r@) == text::texts(strings@),
{
    let ghost all = text::texts(strings@);
    let mut out: Vec<String> = Vec::new();
    let mut i: usize = 0;
    while i < strings.len()
        invariant
            i <= strings@.len(),
            all == text::texts(strings@),
            text::texts(out@) == all.take(i as int),
        decreases strings@.len() - i,
    {
        let ghost before = out@;
        out.push(owned(strings[i].as_str()));
        assert(text::texts(out@) =~= text::texts(before).push(all[i as int]));
        assert(all.take(i + 1) =~= all.take(i as int).push(all[i as int]));
        i += 1;
    }
    assert(all.take(i as int) =~= all);
    out
}

/// The failed compilation with these particulars.
pub fn build_module_image_compile_error(
    target_arch: Option<String>,
    driver_version: Option<i32>,
    runtime_version: Option<i32>,
    hiprtc_options: &[String],
    hiprtc_log: Option<String>,
    failure: RocmModuleImageCompileFailure,
) -> (r: RocmModuleImageCompileError)
    ensures
        r.target_arch == target_arch,
        r.driver_version == driver_version,
        r.runtime_version == runtime_version,
        text::texts(r.hiprtc_options@) == text::texts(hiprtc_options@),
        r.hiprtc_log == hiprtc_log,
        r.failure == failure,
{
    RocmModuleImageCompileError {
        target_arch,
        driver_version,
        runtime_version,
        hiprtc_options: owned_list(hiprtc_options),
        hiprtc_log,
        failure,
    }
}

/// The report of a failure of which nothing else is known.
pub open spec fn bare_report(failure: RocmModuleImageCompileFailure) -> Seq<char> {
    "failed to compile ROCm module image"@ + (match failure {
        RocmModuleImageCompileFailure::Hiprtc { stage, error } => ": HipRTC "@ + (match stage {
            HiprtcStage::CreateProgram => "create_program"@,
            HiprtcStage::CompileProgram => "compile_program"@,
            HiprtcStage::GetCubin => "get_cubin"@,
            HiprtcStage::DestroyProgram => "destroy_program"@,
        }) + " failed: "@ + error@,
        RocmModuleImageCompileFailure::NoModuleImageProduced =>
            ": HipRTC produced no ROCBIN for the selected target"@,
    })
}

/// A report without particulars names the call that failed and its error, or
/// says that nothing was produced.
pub proof fn bare_reports_name_the_failure(report: &RocmModuleImageCompileError, message: String)
    requires
        call_ensures(RocmModuleImageCompileError::message, (report,), message),
        report.target_arch is None,
        report.driver_version is None,
        report.runtime_version is None,
        report.hiprtc_options@.len() == 0,
        report.hiprtc_log is None,
    ensures
        message@ == bare_report(report.failure),
{
    assert(message@ =~= bare_report(report.failure));
}

/// Each particular adds its own part to a report and leaves the rest as it is:
/// the architecture behind the beginning, and then behind the failure the
/// versions, the options and the log, in that order.
pub proof fn particulars_add_their_parts(report: &RocmModuleImageCompileError, message: String)
    requires
        call_ensures(RocmModuleImageCompileError::message, (report,), message),
    ensures
        ({
            let start = "failed to compile ROCm module image"@;
            let failure = bare_report(report.failure).skip(start.len() as int);
            let arch = match report.target_arch {
                Some(arch) => " for "@ + arch@,
                None => Seq::empty(),
            };
            let driver = match report.driver_version {
                Some(version) => " | driver "@ + options::version_text(version),
                None => Seq::empty(),
            };
            let runtime = match report.runtime_version {
                Some(version) => " | runtime "@ + options::version_text(version),
                None => Seq::empty(),
            };
            let shown = text::texts(report.hiprtc_options@).map_values(
                |option: Seq<char>| debug_text(option),
            );
            let options = if report.hiprtc_options@.len() > 0 {
                " | options "@ + bracketed(shown)
            } else {
                Seq::empty()
            };
            let log = match report.hiprtc_log {
                Some(log) => " | log: "@ + log@,
                None => Seq::empty(),
            };
            message@ == start + arch + failure + driver + runtime + options + log
        }),
{
    let start = "failed to compile ROCm module image"@;
    let failure = bare_report(report.failure).skip(start.len() as int);
    assert(failure =~= report.failure.text());
    assert(text::texts(report.hiprtc_options@).len() == report.hiprtc_options@.len());
    assert(debug_texts(text::texts(report.hiprtc_options@)) =~= text::texts(
        report.hiprtc_options@,
    ).map_values(|option: Seq<char>| debug_text(option)));
}

/// A list of no texts is a pair of brackets, one of a single text that text in
/// brackets; and one more text comes before the closing bracket, behind a comma.
pub proof fn lists_grow_by_a_comma_and_a_text(shown: Seq<Seq<char>>, more: Seq<char>)
    ensures
        bracketed(Seq::empty()) == seq!['[', ']'],
        bracketed(seq![more]) == seq!['['] + more + seq![']'],
        shown.len() > 0 ==> bracketed(shown.push(more)) == bracketed(shown).drop_last() + seq![
            ',',
            ' ',
        ] + more + seq![']'],
{
    reveal_strlit("[");
    reveal_strlit("]");
    reveal_strlit(", ");
    assert("["@ =~= seq!['[']);
    assert("]"@ =~= seq![']']);
    assert(", "@ =~= seq![',', ' ']);
    assert(bracketed(Seq::empty()) =~= seq!['[', ']']);
    assert(bracketed(seq![more]) =~= seq!['['] + more + seq![']']);
    if shown.len() > 0 {
        listed_agree(shown, shown.push(more), shown.len());
        assert(bracketed(shown.push(more)) =~= bracketed(shown).drop_last() + seq![',', ' '] + more
            + seq![']']);
    }
}

proof fn listed_agree(one: Seq<Seq<char>>, other: Seq<Seq<char>>, n: nat)
    requires
        n <= one.len(),
        n <= other.len(),
        forall|i: int| 0 <= i < n ==> one[i] == other[i],
    ensures
        listed(one, n) == listed(other, n),
    decreases n,
{
    if n > 1 {
        listed_agree(one, other, (n - 1) as nat);
    }
}

/// The options are joined into the list of their texts.
pub proof fn options_are_joined_as_given(shown: &[String], r: String)
    requires
        call_ensures(joined_options, (shown,), r),
    ensures
        r@ == bracketed(text::texts(shown@)),
{
}

/// The report of a failed compilation holds the particulars that it was built
/// from.
pub proof fn reports_hold_their_particulars(
    target_arch: Option<String>,
    driver_version: Option<i32>,
    runtime_version: Option<i32>,
    hiprtc_options: &[String],
    hiprtc_log: Option<String>,
    failure: RocmModuleImageCompileFailure,
    r: RocmModuleImageCompileError,
)
    requires
        call_ensures(
            build_module_image_compile_error,
            (target_arch, driver_version, runtime_version, hiprtc_options, hiprtc_log, failure),
            r,
        ),
    ensures
        r.target_arch == target_arch,
        r.driver_version == driver_version,
        r.runtime_version == runtime_version,
        text::texts(r.hiprtc_options@) == text::texts(hiprtc_options@),
        r.hiprtc_log == hiprtc_log,
        r.failure == failure,
{
}

} // verus!
