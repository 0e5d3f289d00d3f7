//! The cache directory: the sources that are placed in it, and the names of the
//! libraries that are built from them.
use std::collections::hash_map::DefaultHasher;
use std::hash::{Hash, Hasher};
use vstd::prelude::*;
use vstd::std_specs::hash::DefaultHasherAdditionalSpecFns;
use vstd::string::*;

use crate::numeral;
use crate::numeral::{push_decimal, push_hex_fixed};
use crate::path;
use crate::path::join;
use crate::text;
use crate::text::owned;

verus! {

/// The cache directory of a user with this home directory.
pub open spec fn cache_path(home: Option<Seq<char>>) -> Seq<char> {
    let base = match home {
        Some(home) => home,
        None => "/tmp"@,
    };
    path::joined(path::joined(path::joined(base, ".cache"@), "luminal"@), "flashinfer"@)
}

/// The cache directory, `~/.cache/luminal/flashinfer`, given the value of
/// `HOME`; below `/tmp` where it is not set.
pub fn cache_directory(home: Option<&str>) -> (r: String)
    ensures
        r@ == cache_path(text::str_text(home)),
{
    let base = match home {
        Some(home) => home,
        None => "/tmp",
    };
    let dir = join(base, ".cache");
    let dir = join(dir.as_str(), "luminal");
    join(dir.as_str(), "flashinfer")
}

/// The texts of the wrapper and kernel sources.
#[derive(Clone, Copy, Debug)]
pub struct WrapperSources {
    pub wrapper_cpp: &'static str,
    pub wrapper_hpp: &'static str,
    pub fmha_types: &'static str,
    pub helpers: &'static str,
    pub prefill: &'static str,
    pub decode: &'static str,
}

/// One source file.
#[derive(Clone, Copy, Debug, PartialEq, Eq, Structural)]
pub enum WrapperSource {
    WrapperCpp,
    WrapperHpp,
    FmhaTypes,
    Helpers,
    Prefill,
    Decode,
}

impl WrapperSources {
    /// The text of the file.
    pub open spec fn contents(self, source: WrapperSource) -> Seq<char> {
        match source {
            WrapperSource::WrapperCpp => self.wrapper_cpp@,
            WrapperSource::WrapperHpp => self.wrapper_hpp@,
            WrapperSource::FmhaTypes => self.fmha_types@,
            WrapperSource::Helpers => self.helpers@,
            WrapperSource::Prefill => self.prefill@,
            WrapperSource::Decode => self.decode@,
        }
    }

    /// The text of the file.
    pub fn text(&self, source: WrapperSource) -> (r: &'static str)
        ensures
            r@ == self.contents(source),
    {
        match source {
            WrapperSource::WrapperCpp => self.wrapper_cpp,
            WrapperSource::WrapperHpp => self.wrapper_hpp,
            WrapperSource::FmhaTypes => self.fmha_types,
            WrapperSource::Helpers => self.helpers,
            WrapperSource::Prefill => self.prefill,
            WrapperSource::Decode => self.decode,
        }
    }
}

/// One change to the cache directory.
#[derive(Debug)]
pub enum PlaceStep {
    /// Create the directory and those above it.
    CreateDir(String),
    /// Write the source to the file, unless the file already holds it.
    Write(String, WrapperSource),
}

impl PlaceStep {
    /// The path, and the source that goes there; for a directory none does.
    pub open spec fn target(self) -> (Seq<char>, Option<WrapperSource>) {
        match self {
            PlaceStep::CreateDir(dir) => (dir@, None),
            PlaceStep::Write(file, source) => (file@, Some(source)),
        }
    }
}

/// The paths and sources of a list of changes.
pub open spec fn targets(steps: Seq<PlaceStep>) -> Seq<(Seq<char>, Option<WrapperSource>)> {
    steps.map_values(|step: PlaceStep| step.target())
}

/// What is placed in the cache directory: the wrapper and its header, and the
/// kernels in the subdirectory from which the wrapper takes them.
pub open spec fn placed_sources(cache_dir: Seq<char>) -> Seq<(Seq<char>, Option<WrapperSource>)> {
    let attention = path::joined(cache_dir, "attention"@);
    seq![
        (path::joined(cache_dir, "wrapper.cpp"@), Some(WrapperSource::WrapperCpp)),
        (path::joined(cache_dir, "wrapper.hpp"@), Some(WrapperSource::WrapperHpp)),
        (attention, None),
        (path::joined(attention, "fmha_types.hpp"@), Some(WrapperSource::FmhaTypes)),
        (path::joined(attention, "helpers.hpp"@), Some(WrapperSource::Helpers)),
        (path::joined(attention, "prefill.hpp"@), Some(WrapperSource::Prefill)),
        (path::joined(attention, "decode.hpp"@), Some(WrapperSource::Decode)),
    ]
}

/// The changes that place the sources in the cache directory, in order; then
/// the path of the wrapper, and the directory in which to look for headers.
pub fn extract_wrapper_sources(cache_dir: &str) -> (r: (Vec<PlaceStep>, String, String))
    ensures
        targets(r.0@) == placed_sources(cache_dir@),
        r.1@ == path::joined(cache_dir@, "wrapper.cpp"@),
        r.2@ == cache_dir@,
{
    let mut steps: Vec<PlaceStep> = Vec::new();
    let cpp = join(cache_dir, "wrapper.cpp");
    steps.push(PlaceStep::Write(join(cache_dir, "wrapper.cpp"), WrapperSource::WrapperCpp));
    steps.push(PlaceStep::Write(join(cache_dir, "wrapper.hpp"), WrapperSource::WrapperHpp));
    let attention = join(cache_dir, "attention");
    let attn = attention.as_str();
    steps.push(PlaceStep::CreateDir(join(cache_dir, "attention")));
    steps.push(PlaceStep::Write(join(attn, "fmha_types.hpp"), WrapperSource::FmhaTypes));
    steps.push(PlaceStep::Write(join(attn, "helpers.hpp"), WrapperSource::Helpers));
    steps.push(PlaceStep::Write(join(attn, "prefill.hpp"), WrapperSource::Prefill));
    steps.push(PlaceStep::Write(join(attn, "decode.hpp"), WrapperSource::Decode));
    assert(targets(steps@) =~= placed_sources(cache_dir@));
    (steps, cpp, owned(cache_dir))
}

/// What is placed, by its name below the cache directory.
spec fn placed_names() -> Seq<Seq<char>> {
    seq![
        "wrapper.cpp"@,
        "wrapper.hpp"@,
        "attention"@,
        "attention"@ + seq!['/'] + "fmha_types.hpp"@,
        "attention"@ + seq!['/'] + "helpers.hpp"@,
        "attention"@ + seq!['/'] + "prefill.hpp"@,
        "attention"@ + seq!['/'] + "decode.hpp"@,
    ]
}

proof fn placed_by_name(cache_dir: Seq<char>)
    ensures
        placed_names().len() == placed_sources(cache_dir).len(),
        forall|i: int|
            0 <= i < placed_names().len() ==> {
                &&& #[trigger] placed_sources(cache_dir)[i].0 == path::joined(
                    cache_dir,
                    placed_names()[i],
                )
                &&& placed_names()[i].len() > 0
                &&& placed_names()[i][0] != '/'
            },
        forall|i: int, j: int|
            0 <= i < j < placed_names().len() ==> #[trigger] placed_names()[i]
                != #[trigger] placed_names()[j],
{
    reveal_strlit("wrapper.cpp");
    reveal_strlit("wrapper.hpp");
    reveal_strlit("attention");
    reveal_strlit("fmha_types.hpp");
    reveal_strlit("helpers.hpp");
    reveal_strlit("prefill.hpp");
    reveal_strlit("decode.hpp");
    path::joined_twice(cache_dir, "attention"@, "fmha_types.hpp"@);
    path::joined_twice(cache_dir, "attention"@, "helpers.hpp"@);
    path::joined_twice(cache_dir, "attention"@, "prefill.hpp"@);
    path::joined_twice(cache_dir, "attention"@, "decode.hpp"@);
    let names = placed_names();
    assert(names[0][8] == 'c');
    assert(names[1][8] == 'h');
    assert(names[4][10] == 'h');
    assert(names[5][10] == 'p');
    assert(names[0].len() == 11 && names[1].len() == 11 && names[2].len() == 9);
    assert(names[3].len() == 24 && names[4].len() == 21 && names[5].len() == 21);
    assert(names[6].len() == 20);
}

/// No two of the files and directories that are placed have the same path.
pub proof fn placed_paths_differ(cache_dir: Seq<char>)
    ensures
        placed_sources(cache_dir).len() == 7,
        forall|i: int, j: int|
            0 <= i < j < 7 ==> #[trigger] placed_sources(cache_dir)[i].0
                != #[trigger] placed_sources(cache_dir)[j].0,
{
    placed_by_name(cache_dir);
    let names = placed_names();
    assert forall|i: int, j: int| 0 <= i < j < 7 implies #[trigger] placed_sources(cache_dir)[i].0
        != #[trigger] placed_sources(cache_dir)[j].0 by {
        let placed = placed_sources(cache_dir);
        assert(placed[i].0 == path::joined(cache_dir, names[i]));
        assert(placed[j].0 == path::joined(cache_dir, names[j]));
        assert(names[i] != names[j]);
        if path::joined(cache_dir, names[i]) == path::joined(cache_dir, names[j]) {
            path::joined_names_differ(cache_dir, names[i], names[j]);
        }
    }
}

/// The texts that the files hold, by their paths, after the first `n` changes.
/// A file that already holds its source holds it still when it is not written.
pub open spec fn files_after(
    files: Map<Seq<char>, Seq<char>>,
    placed: Seq<(Seq<char>, Option<WrapperSource>)>,
    sources: WrapperSources,
    n: nat,
) -> Map<Seq<char>, Seq<char>>
    decreases n,
{
    if n == 0 {
        files
    } else {
        let before = files_after(files, placed, sources, (n - 1) as nat);
        match placed[n - 1].1 {
            Some(source) => before.insert(placed[n - 1].0, sources.contents(source)),
            None => before,
        }
    }
}

proof fn files_after_changes(
    files: Map<Seq<char>, Seq<char>>,
    placed: Seq<(Seq<char>, Option<WrapperSource>)>,
    sources: WrapperSources,
    n: nat,
)
    requires
        n <= placed.len(),
        forall|i: int, j: int|
            0 <= i < j < placed.len() ==> #[trigger] placed[i].0 != #[trigger] placed[j].0,
    ensures
        forall|i: int|
            0 <= i < n ==> ((#[trigger] placed[i]).1 matches Some(source) ==> files_after(
                files,
                placed,
                sources,
                n,
            ).contains_pair(placed[i].0, sources.contents(source))),
        forall|file: Seq<char>|
            (forall|i: int| 0 <= i < n ==> (#[trigger] placed[i]).0 != file) ==> {
                &&& #[trigger] files_after(files, placed, sources, n).dom().contains(file)
                    == files.dom().contains(file)
                &&& files_after(files, placed, sources, n)[file] == files[file]
            },
    decreases n,
{
    if n > 0 {
        files_after_changes(files, placed, sources, (n - 1) as nat);
        assert forall|file: Seq<char>|
            (forall|i: int| 0 <= i < n ==> (#[trigger] placed[i]).0 != file) implies {
            &&& #[trigger] files_after(files, placed, sources, n).dom().contains(file)
                == files.dom().contains(file)
            &&& files_after(files, placed, sources, n)[file] == files[file]
        } by {
            assert(placed[n - 1].0 != file);
            assert(files_after(files, placed, sources, (n - 1) as nat).dom().contains(file)
                == files.dom().contains(file));
        }
    }
}

/// Once all sources are placed, every file holds its own source, and all other
/// files are as they were.
pub proof fn placed_files_hold_their_sources(
    files: Map<Seq<char>, Seq<char>>,
    cache_dir: Seq<char>,
    sources: WrapperSources,
)
    ensures
        forall|i: int|
            0 <= i < 7 ==> ((#[trigger] placed_sources(cache_dir)[i]).1 matches Some(source)
                ==> files_after(files, placed_sources(cache_dir), sources, 7).contains_pair(
                placed_sources(cache_dir)[i].0,
                sources.contents(source),
            )),
        forall|file: Seq<char>|
            (forall|i: int| 0 <= i < 7 ==> (#[trigger] placed_sources(cache_dir)[i]).0 != file)
                ==> {
                &&& #[trigger] files_after(
                    files,
                    placed_sources(cache_dir),
                    sources,
                    7,
                ).dom().contains(file) == files.dom().contains(file)
                &&& files_after(files, placed_sources(cache_dir), sources, 7)[file] == files[file]
            },
{
    placed_paths_differ(cache_dir);
    files_after_changes(files, placed_sources(cache_dir), sources, 7);
}

/// Whether a file that reads as `existing`, where it can be read, has to be
/// written to hold `contents`.
pub fn write_if_changed(existing: Option<&[u8]>, contents: &[u8]) -> (r: bool)
    ensures
        r == !(existing is Some && existing->0@ == contents@),
{
    match existing {
        None => true,
        Some(old_bytes) => {
            if old_bytes.len() != contents.len() {
                return true;
            }
            let mut i: usize = 0;
            while i < contents.len()
                invariant
                    i <= contents@.len(),
                    existing == Some(old_bytes),
                    old_bytes@.len() == contents@.len(),
                    forall|j: int| 0 <= j < i ==> old_bytes@[j] == contents@[j],
                decreases contents@.len() - i,
            {
                if old_bytes[i] != contents[i] {
                    assert(old_bytes@[i as int] != contents@[i as int]);
                    return true;
                }
                i += 1;
            }
            assert(old_bytes@ =~= contents@);
            false
        },
    }
}

/// The message about a source file that could not be written.
fn write_failure(file: &str, error: &str) -> (r: String)
    ensures
        r@ == "FlashInfer: failed to write wrapper source to "@ + file@ + ": "@ + error@,
{
    let mut out = String::new();
    out.append("FlashInfer: failed to write wrapper source to ");
    out.append(file);
    out.append(": ");
    out.append(error);
    assert(out@ =~= "FlashInfer: failed to write wrapper source to "@ + file@ + ": "@ + error@);
    out
}

/// The message about a change to the cache directory that failed.
pub fn place_failure(step: &PlaceStep, error: &str) -> (r: String)
    ensures
        r@ == (match *step {
            PlaceStep::CreateDir(_) => "Failed to create attention cache dir: "@ + error@,
            PlaceStep::Write(file, _) => "FlashInfer: failed to write wrapper source to "@ + file@
                + ": "@ + error@,
        }),
{
    match step {
        PlaceStep::CreateDir(_) => {
            let mut out = String::new();
            out.append("Failed to create attention cache dir: ");
            out.append(error);
            assert(out@ =~= "Failed to create attention cache dir: "@ + error@);
            out
        },
        PlaceStep::Write(file, _) => write_failure(file.as_str(), error),
    }
}

/// The writes by which hashing a text feeds a hasher.
pub uninterp spec fn text_writes(text: Seq<char>) -> Seq<Seq<u8>>;

/// `<str as Hash>::hash`: feeds the hasher a sequence of writes that depends on
/// the text alone, behind what it was fed before.
#[verifier::external_body]
fn hash_text(hasher: &mut DefaultHasher, text: &str)
    ensures
        final(hasher)@ == old(hasher)@ + text_writes(text@),
{
    text.hash(hasher);
}

/// The writes that a hasher of the sources is fed, file by file.
pub open spec fn source_writes(sources: WrapperSources) -> Seq<Seq<u8>> {
    text_writes(sources.wrapper_cpp@) + text_writes(sources.wrapper_hpp@) + text_writes(
        sources.fmha_types@,
    ) + text_writes(sources.helpers@) + text_writes(sources.prefill@) + text_writes(
        sources.decode@,
    )
}

/// The hash of all sources, which marks the libraries that are built from
/// them.
pub fn wrapper_source_hash(sources: &WrapperSources) -> (r: u64)
    ensures
        r == DefaultHasher::spec_finish(source_writes(*sources)),
{
    let mut hasher = DefaultHasher::new();
    hash_text(&mut hasher, sources.wrapper_cpp);
    hash_text(&mut hasher, sources.wrapper_hpp);
    hash_text(&mut hasher, sources.fmha_types);
    hash_text(&mut hasher, sources.helpers);
    hash_text(&mut hasher, sources.prefill);
    hash_text(&mut hasher, sources.decode);
    assert(hasher@ =~= source_writes(*sources));
    hasher.finish()
}

/// The file name of the library for this head dimension and architecture,
/// built from sources of this hash.
pub open spec fn library_name(head_dim: nat, arch: Seq<char>, hash: u64) -> Seq<char> {
    "libflashinfer_hd"@ + numeral::decimal_text(head_dim) + "_"@ + arch + "_w"@
        + numeral::hex_fixed(hash as nat, 16) + ".so"@
}

/// The file name of the library for this head dimension and architecture,
/// built from sources of this hash.
pub fn so_name(head_dim: usize, arch: &str, hash: u64) -> (r: String)
    ensures
        r@ == library_name(head_dim as nat, arch@, hash),
{
    let mut out = String::new();
    out.append("libflashinfer_hd");
    push_decimal(&mut out, head_dim as u64);
    out.append("_");
    out.append(arch);
    out.append("_w");
    push_hex_fixed(&mut out, hash, 16);
    out.append(".so");
    assert(out@ =~= library_name(head_dim as nat, arch@, hash));
    out
}

/// Libraries for different head dimensions, architectures or source hashes have
/// different names, so that none is ever taken from the cache for another.
pub proof fn library_names_differ(
    head_dim: nat,
    arch: Seq<char>,
    hash: u64,
    other_dim: nat,
    other_arch: Seq<char>,
    other_hash: u64,
)
    requires
        library_name(head_dim, arch, hash) == library_name(other_dim, other_arch, other_hash),
    ensures
        head_dim == other_dim,
        arch == other_arch,
        hash == other_hash,
{
    reveal_strlit("libflashinfer_hd");
    reveal_strlit("_");
    reveal_strlit("_w");
    reveal_strlit(".so");
    let name = library_name(head_dim, arch, hash);
    let other = library_name(other_dim, other_arch, other_hash);
    let hex = numeral::hex_fixed(hash as nat, 16);
    let other_hex = numeral::hex_fixed(other_hash as nat, 16);
    numeral::hex_fixed_len(hash as nat, 16);
    numeral::hex_fixed_len(other_hash as nat, 16);
    let size = name.len() as int;
    assert(hex =~= name.subrange(size - 19, size - 3));
    assert(other_hex =~= other.subrange(size - 19, size - 3));
    numeral::hex_fixed_injective(hash as nat, other_hash as nat, 16);
    let dim = numeral::decimal_text(head_dim);
    let dim2 = numeral::decimal_text(other_dim);
    numeral::decimal_reads_back(head_dim);
    numeral::decimal_reads_back(other_dim);
    assert(dim.len() == dim2.len()) by {
        if dim.len() < dim2.len() {
            assert(name[16 + dim.len() as int] == '_');
            assert(other[16 + dim.len() as int] == dim2[dim.len() as int]);
            assert(numeral::is_digit(dim2[dim.len() as int]));
        }
        if dim2.len() < dim.len() {
            assert(other[16 + dim2.len() as int] == '_');
            assert(name[16 + dim2.len() as int] == dim[dim2.len() as int]);
            assert(numeral::is_digit(dim[dim2.len() as int]));
        }
    }
    assert(dim =~= name.subrange(16, 16 + dim.len() as int));
    assert(dim2 =~= other.subrange(16, 16 + dim.len() as int));
    assert(arch =~= name.subrange(17 + dim.len() as int, size - 21));
    assert(other_arch =~= other.subrange(17 + dim.len() as int, size - 21));
}

/// The cache directory is below the home directory, or below the directory for
/// temporary files where there is none.
pub proof fn cache_is_below_home(home: Option<&str>, r: String)
    requires
        call_ensures(cache_directory, (home,), r),
    ensures
        ({
            let base = if home is Some {
                home->0@
            } else {
                "/tmp"@
            };
            let below = ".cache/luminal/flashinfer"@;
            if base.len() == 0 || base.last() == '/' {
                r@ == base + below
            } else {
                r@ == base + seq!['/'] + below
            }
        }),
{
    reveal_strlit(".cache");
    reveal_strlit("luminal");
    reveal_strlit("flashinfer");
    reveal_strlit(".cache/luminal/flashinfer");
    reveal_strlit("/tmp");
    let base = if home is Some {
        home->0@
    } else {
        "/tmp"@
    };
    assert(".cache"@ + seq!['/'] + "luminal"@ + seq!['/'] + "flashinfer"@
        =~= ".cache/luminal/flashinfer"@);
    path::joined_twice(base, ".cache"@, "luminal"@);
    path::joined_twice(base, ".cache"@ + seq!['/'] + "luminal"@, "flashinfer"@);
}

/// Once all sources are placed, the wrapper and its header are in the cache
/// directory and the four kernel files in its subdirectory `attention`, each with
/// its own text, whatever was there before.
pub proof fn each_file_holds_its_own_text(
    files: Map<Seq<char>, Seq<char>>,
    cache_dir: &str,
    sources: WrapperSources,
    r: (Vec<PlaceStep>, String, String),
)
    requires
        call_ensures(extract_wrapper_sources, (cache_dir,), r),
    ensures
        ({
            let after = files_after(files, targets(r.0@), sources, r.0@.len());
            let attention = path::joined(cache_dir@, "attention"@);
            &&& after.contains_pair(path::joined(cache_dir@, "wrapper.cpp"@), sources.wrapper_cpp@)
            &&& after.contains_pair(path::joined(cache_dir@, "wrapper.hpp"@), sources.wrapper_hpp@)
            &&& after.contains_pair(
                path::joined(attention, "fmha_types.hpp"@),
                sources.fmha_types@,
            )
            &&& after.contains_pair(path::joined(attention, "helpers.hpp"@), sources.helpers@)
            &&& after.contains_pair(path::joined(attention, "prefill.hpp"@), sources.prefill@)
            &&& after.contains_pair(path::joined(attention, "decode.hpp"@), sources.decode@)
            &&& targets(r.0@)[2] == (attention, None::<WrapperSource>)
            &&& forall|i: int|
                3 <= i < r.0@.len() ==> (#[trigger] targets(r.0@)[i]).1 is Some
        }),
        r.1@ == path::joined(cache_dir@, "wrapper.cpp"@),
        r.2@ == cache_dir@,
{
    placed_files_hold_their_sources(files, cache_dir@, sources);
    let placed = placed_sources(cache_dir@);
    assert(r.0@.len() == targets(r.0@).len());
    assert(placed[0].1 == Some(WrapperSource::WrapperCpp));
    assert(placed[1].1 == Some(WrapperSource::WrapperHpp));
    assert(placed[3].1 == Some(WrapperSource::FmhaTypes));
    assert(placed[4].1 == Some(WrapperSource::Helpers));
    assert(placed[5].1 == Some(WrapperSource::Prefill));
    assert(placed[6].1 == Some(WrapperSource::Decode));
}

/// A file holds the contents afterwards, whether or not it is written; and it is
/// not written where it held them already.
pub proof fn files_hold_the_contents_afterwards(
    existing: Option<&[u8]>,
    contents: &[u8],
    written: bool,
)
    requires
        call_ensures(write_if_changed, (existing, contents), written),
    ensures
        !written ==> existing is Some && existing->0@ == contents@,
        existing is Some && existing->0@ == contents@ ==> !written,
{
}

proof fn joined_differ<A>(start: Seq<A>, one: Seq<A>, other: Seq<A>, end: Seq<A>)
    requires
        start + one + end == start + other + end,
    ensures
        one == other,
{
    let whole = start + one + end;
    assert(whole.len() == start.len() + one.len() + end.len());
    assert(one =~= whole.subrange(start.len() as int, whole.len() - end.len()));
    assert(other =~= whole.subrange(start.len() as int, whole.len() - end.len()));
}

/// Every source counts towards the hash: where two sets of sources differ in one
/// file alone, and that file is written to the hasher differently, the hashers
/// get different writes. And the hash is what the hasher makes of those writes.
pub proof fn every_source_is_hashed(
    one: WrapperSources,
    other: WrapperSources,
    changed: WrapperSource,
    hash: u64,
)
    requires
        call_ensures(wrapper_source_hash, (&one,), hash),
        changed !is WrapperCpp ==> one.wrapper_cpp@ == other.wrapper_cpp@,
        changed !is WrapperHpp ==> one.wrapper_hpp@ == other.wrapper_hpp@,
        changed !is FmhaTypes ==> one.fmha_types@ == other.fmha_types@,
        changed !is Helpers ==> one.helpers@ == other.helpers@,
        changed !is Prefill ==> one.prefill@ == other.prefill@,
        changed !is Decode ==> one.decode@ == other.decode@,
        source_writes(one) == source_writes(other),
    ensures
        text_writes(one.wrapper_cpp@) == text_writes(other.wrapper_cpp@),
        text_writes(one.wrapper_hpp@) == text_writes(other.wrapper_hpp@),
        text_writes(one.fmha_types@) == text_writes(other.fmha_types@),
        text_writes(one.helpers@) == text_writes(other.helpers@),
        text_writes(one.prefill@) == text_writes(other.prefill@),
        text_writes(one.decode@) == text_writes(other.decode@),
        hash == DefaultHasher::spec_finish(source_writes(one)),
{
    let cpp = text_writes(one.wrapper_cpp@);
    let hpp = text_writes(one.wrapper_hpp@);
    let types = text_writes(one.fmha_types@);
    let helpers = text_writes(one.helpers@);
    let prefill = text_writes(one.prefill@);
    let decode = text_writes(one.decode@);
    let none = Seq::<Seq<u8>>::empty();
    match changed {
        WrapperSource::WrapperCpp => {
            let other_cpp = text_writes(other.wrapper_cpp@);
            let end = hpp + types + helpers + prefill + decode;
            assert(source_writes(one) =~= none + cpp + end);
            assert(source_writes(other) =~= none + other_cpp + end);
            joined_differ(none, cpp, other_cpp, end);
        },
        WrapperSource::WrapperHpp => {
            let other_hpp = text_writes(other.wrapper_hpp@);
            let end = types + helpers + prefill + decode;
            assert(source_writes(one) =~= cpp + hpp + end);
            assert(source_writes(other) =~= cpp + other_hpp + end);
            joined_differ(cpp, hpp, other_hpp, end);
        },
        WrapperSource::FmhaTypes => {
            let other_types = text_writes(other.fmha_types@);
            let start = cpp + hpp;
            let end = helpers + prefill + decode;
            assert(source_writes(one) =~= start + types + end);
            assert(source_writes(other) =~= start + other_types + end);
            joined_differ(start, types, other_types, end);
        },
        WrapperSource::Helpers => {
            let other_helpers = text_writes(other.helpers@);
            let start = cpp + hpp + types;
            let end = prefill + decode;
            assert(source_writes(one) =~= start + helpers + end);
            assert(source_writes(other) =~= start + other_helpers + end);
            joined_differ(start, helpers, other_helpers, end);
        },
        WrapperSource::Prefill => {
            let other_prefill = text_writes(other.prefill@);
            let start = cpp + hpp + types + helpers;
            assert(source_writes(one) =~= start + prefill + decode);
            assert(source_writes(other) =~= start + other_prefill + decode);
            joined_differ(start, prefill, other_prefill, decode);
        },
        WrapperSource::Decode => {
            let other_decode = text_writes(other.decode@);
            let start = cpp + hpp + types + helpers + prefill;
            assert(source_writes(one) =~= start + decode + none);
            assert(source_writes(other) =~= start + other_decode + none);
            joined_differ(start, decode, other_decode, none);
        },
    }
}

/// The message about a change that failed holds the error, and for a file that
/// could not be written, its path.
pub proof fn failed_changes_name_the_file(step: &PlaceStep, error: &str, message: String)
    requires
        call_ensures(place_failure, (step, error), message),
    ensures
        *step matches PlaceStep::Write(file, _) ==> message@
            == "FlashInfer: failed to write wrapper source to "@ + file@ + ": "@ + error@,
        *step is CreateDir ==> message@ == "Failed to create attention cache dir: "@ + error@,
{
}

} // verus!
