//! The options of a compilation, and the versions and the log that a report
//! shows.
use vstd::prelude::*;
use vstd::string::*;

use crate::numeral;
use crate::numeral::push_signed;
use crate::text;
use crate::text::{chars_of, owned, same_text, string_of, trimmed, trimmed_end, CharClass};

verus! {

/// The quotient of `a` and the positive `b`, rounded towards zero.
pub open spec fn truncated_quotient(a: int, b: int) -> int {
    if a < 0 {
        -((-a) / b)
    } else {
        a / b
    }
}

/// The remainder that goes with the quotient rounded towards zero; it has the
/// sign of `a`.
pub open spec fn truncated_remainder(a: int, b: int) -> int {
    a - b * truncated_quotient(a, b)
}

/// The text "major.minor" of a packed version: the thousands, and the tens of
/// what is left.
pub open spec fn version_text(version: i32) -> Seq<char> {
    numeral::signed_text(truncated_quotient(version as int, 1000)) + "."@ + numeral::signed_text(
        truncated_quotient(truncated_remainder(version as int, 1000), 10),
    )
}

/// The text "major.minor" of a packed version.
pub fn format_rocm_version(version: i32) -> (r: String)
    ensures
        r@ == version_text(version),
{
    let wide: i64 = version as i64;
    let negative: bool = wide < 0;
    let magnitude: u64 = if negative {
        (-wide) as u64
    } else {
        wide as u64
    };
    let whole: i64 = (magnitude / 1000) as i64;
    let part: i64 = ((magnitude % 1000) / 10) as i64;
    let major: i64 = if negative {
        -whole
    } else {
        whole
    };
    let minor: i64 = if negative {
        -part
    } else {
        part
    };
    proof {
        let v = version as int;
        assert(major == truncated_quotient(v, 1000));
        assert(minor == truncated_quotient(truncated_remainder(v, 1000), 10));
    }
    let mut out = String::new();
    push_signed(&mut out, major);
    out.append(".");
    push_signed(&mut out, minor);
    assert(out@ =~= version_text(version));
    out
}

/// The text of a version that packs a major, a minor and a patch number shows
/// the major and the minor number.
pub proof fn packed_version_shows_major_and_minor(major: int, minor: int, patch: int)
    requires
        0 <= major,
        0 <= minor < 100,
        0 <= patch < 10,
        1000 * major + 10 * minor + patch <= i32::MAX,
    ensures
        version_text((1000 * major + 10 * minor + patch) as i32) == numeral::decimal_text(
            major as nat,
        ) + "."@ + numeral::decimal_text(minor as nat),
{
}

/// The header directories of the system.
pub const SYSTEM_HEADERS: &'static str = "/usr/include";

/// The header directory of a ROCm installation in its usual place.
pub const ROCM_HEADERS: &'static str = "/opt/rocm/include";

/// The header directory below this root, if there is a root.
pub open spec fn header_dir(root: Option<Seq<char>>) -> Seq<Seq<char>> {
    match root {
        Some(root) => seq![root + "/include"@],
        None => seq![],
    }
}

/// The directories in which headers may be, in order.
pub open spec fn include_candidates(
    rocm_home: Option<Seq<char>>,
    rocm_path: Option<Seq<char>>,
    rocm_root: Option<Seq<char>>,
) -> Seq<Seq<char>> {
    header_dir(rocm_home) + header_dir(rocm_path) + header_dir(rocm_root) + seq![
        ROCM_HEADERS@,
        SYSTEM_HEADERS@,
    ]
}

fn push_header_dir(out: &mut Vec<String>, root: Option<&str>)
    ensures
        text::texts(final(out)@) == text::texts(old(out)@) + header_dir(text::str_text(root)),
{
    match root {
        Some(root) => {
            let mut dir = String::new();
            dir.append(root);
            dir.append("/include");
            assert(dir@ =~= root@ + "/include"@);
            out.push(dir);
        },
        None => {},
    }
    assert(text::texts(out@) =~= text::texts(old(out)@) + header_dir(text::str_text(root)));
}

/// The directories in which headers may be, in order, given the values of
/// `ROCM_HOME`, `ROCM_PATH` and `ROCM_ROOT`.
pub fn rocm_include_candidates(
    rocm_home: Option<&str>,
    rocm_path: Option<&str>,
    rocm_root: Option<&str>,
) -> (r: Vec<String>)
    ensures
        text::texts(r@) == include_candidates(
            text::str_text(rocm_home),
            text::str_text(rocm_path),
            text::str_text(rocm_root),
        ),
{
    let mut out: Vec<String> = Vec::new();
    assert(text::texts(out@) =~= seq![]);
    push_header_dir(&mut out, rocm_home);
    push_header_dir(&mut out, rocm_path);
    push_header_dir(&mut out, rocm_root);
    let ghost before = text::texts(out@);
    out.push(owned(ROCM_HEADERS));
    out.push(owned(SYSTEM_HEADERS));
    assert(text::texts(out@) =~= before + seq![ROCM_HEADERS@, SYSTEM_HEADERS@]);
    assert(text::texts(out@) =~= include_candidates(
        text::str_text(rocm_home),
        text::str_text(rocm_path),
        text::str_text(rocm_root),
    ));
    out
}

/// Those of the first `n` candidates that exist, each once.
pub open spec fn existing_once(candidates: Seq<Seq<char>>, exists_flags: Seq<bool>, n: nat) -> Seq<
    Seq<char>,
>
    decreases n,
{
    if n == 0 {
        Seq::empty()
    } else {
        let front = existing_once(candidates, exists_flags, (n - 1) as nat);
        let candidate = candidates[n - 1];
        if exists_flags[n - 1] && !front.contains(candidate) {
            front.push(candidate)
        } else {
            front
        }
    }
}

fn holds_text(list: &Vec<String>, s: &str) -> (r: bool)
    ensures
        r == text::texts(list@).contains(s@),
{
    let ghost all = text::texts(list@);
    let mut i: usize = 0;
    while i < list.len()
        invariant
            i <= list@.len(),
            all == text::texts(list@),
            forall|j: int| 0 <= j < i ==> all[j] != s@,
        decreases list@.len() - i,
    {
        assert(all[i as int] == list@[i as int]@);
        if same_text(list[i].as_str(), s) {
            assert(all.contains(s@));
            return true;
        }
        i += 1;
    }
    false
}

/// The header directories to hand to the compiler: the candidates that exist,
/// in order, each once. `exists_flags` says of each candidate whether it exists.
pub fn rocm_hiprtc_include_paths(candidates: &[String], exists_flags: &[bool]) -> (r: Vec<String>)
    requires
        candidates@.len() == exists_flags@.len(),
    ensures
        text::texts(r@) == existing_once(
            text::texts(candidates@),
            exists_flags@,
            candidates@.len(),
        ),
{
    let ghost all = text::texts(candidates@);
    let mut out: Vec<String> = Vec::new();
    assert(text::texts(out@) =~= Seq::empty());
    let mut i: usize = 0;
    while i < candidates.len()
        invariant
            i <= candidates@.len(),
            candidates@.len() == exists_flags@.len(),
            all == text::texts(candidates@),
            text::texts(out@) == existing_once(all, exists_flags@, i as nat),
        decreases candidates@.len() - i,
    {
        assert(all[i as int] == candidates@[i as int]@);
        let candidate = candidates[i].as_str();
        if exists_flags[i] && !holds_text(&out, candidate) {
            let ghost before = out@;
            out.push(owned(candidate));
            assert(text::texts(out@) =~= text::texts(before).push(candidate@));
        }
        i += 1;
    }
    out
}

/// The header directories are handed to the compiler once each, and they are
/// exactly the candidates that exist.
pub proof fn header_directories_are_existing_and_distinct(
    candidates: Seq<Seq<char>>,
    exists_flags: Seq<bool>,
    n: nat,
)
    requires
        n <= candidates.len(),
        candidates.len() == exists_flags.len(),
    ensures
        existing_once(candidates, exists_flags, n).no_duplicates(),
        forall|dir: Seq<char>| #[trigger]
            existing_once(candidates, exists_flags, n).contains(dir) <==> exists|i: int|
                0 <= i < n && exists_flags[i] && candidates[i] == dir,
    decreases n,
{
    let chosen = existing_once(candidates, exists_flags, n);
    if n > 0 {
        let front = existing_once(candidates, exists_flags, (n - 1) as nat);
        let last = candidates[n - 1];
        header_directories_are_existing_and_distinct(candidates, exists_flags, (n - 1) as nat);
        assert forall|dir: Seq<char>| #[trigger] chosen.contains(dir) <==> exists|i: int|
            0 <= i < n && exists_flags[i] && candidates[i] == dir by {
            if chosen.contains(dir) {
                if front.contains(dir) {
                    let i = choose|i: int|
                        0 <= i < n - 1 && exists_flags[i] && candidates[i] == dir;
                    assert(0 <= i < n && exists_flags[i] && candidates[i] == dir);
                } else {
                    assert(exists_flags[n - 1] && dir == last);
                }
            }
            if exists|i: int| 0 <= i < n && exists_flags[i] && candidates[i] == dir {
                let i = choose|i: int| 0 <= i < n && exists_flags[i] && candidates[i] == dir;
                if i < n - 1 {
                    assert(front.contains(dir));
                    let j = choose|j: int| 0 <= j < front.len() && front[j] == dir;
                    assert(chosen[j] == dir);
                } else if !front.contains(dir) {
                    assert(chosen.last() == dir);
                } else {
                    let j = choose|j: int| 0 <= j < front.len() && front[j] == dir;
                    assert(chosen[j] == dir);
                }
            }
        }
    }
}

/// The options of a compilation with these header directories for this
/// architecture.
pub open spec fn compile_options(include_paths: Seq<Seq<char>>, target_arch: Seq<char>) -> Seq<
    Seq<char>,
> {
    include_paths.map_values(|dir: Seq<char>| "--include-path="@ + dir).push(
        "--offload-arch="@ + target_arch,
    )
}

/// The options of a compilation with these header directories for this
/// architecture.
pub fn rocm_hiprtc_compile_options(include_paths: &[String], target_arch: &str) -> (r: Vec<String>)
    ensures
        text::texts(r@) == compile_options(text::texts(include_paths@), target_arch@),
{
    let ghost dirs = text::texts(include_paths@);
    let ghost flags = dirs.map_values(|dir: Seq<char>| "--include-path="@ + dir);
    let mut options: Vec<String> = Vec::new();
    let mut i: usize = 0;
    while i < include_paths.len()
        invariant
            i <= include_paths@.len(),
            dirs == text::texts(include_paths@),
            flags == dirs.map_values(|dir: Seq<char>| "--include-path="@ + dir),
            text::texts(options@) == flags.take(i as int),
        decreases include_paths@.len() - i,
    {
        let mut option = String::new();
        option.append("--include-path=");
        option.append(include_paths[i].as_str());
        assert(option@ =~= flags[i as int]);
        let ghost before = options@;
        options.push(option);
        assert(text::texts(options@) =~= text::texts(before).push(flags[i as int]));
        assert(flags.take(i + 1) =~= flags.take(i as int).push(flags[i as int]));
        i += 1;
    }
    assert(flags.take(i as int) =~= flags);
    let mut option = String::new();
    option.append("--offload-arch=");
    option.append(target_arch);
    assert(option@ =~= "--offload-arch="@ + target_arch@);
    let ghost before = options@;
    options.push(option);
    assert(text::texts(options@) =~= flags.push("--offload-arch="@ + target_arch@));
    options
}

/// The versions that a report shows: that of the driver, where it could be
/// read, and never that of the runtime, which is not asked for it.
pub fn rocm_driver_diagnostics(driver_version: Option<i32>) -> (r: (Option<i32>, Option<i32>))
    ensures
        r == (driver_version, None::<i32>),
{
    (driver_version, None)
}

/// A buffer for compiled code of this many bytes, all zero.
pub fn rocbin_buffer(size: usize) -> (r: Vec<u8>)
    ensures
        r@.len() == size,
        forall|i: int| 0 <= i < size ==> #[trigger] r@[i] == 0,
{
    let mut code: Vec<u8> = Vec::with_capacity(size);
    code.resize(size, 0u8);
    code
}

/// A compiler log without the NUL characters at its end and the white space
/// around it.
pub open spec fn cleaned_log(raw: Seq<char>) -> Seq<char> {
    text::trim(text::trim_end(raw, CharClass::One('\0')), CharClass::WhiteSpace)
}

/// The log to report: the cleaned log, if it could be read and is not empty.
pub open spec fn reported_log(raw: Option<Seq<char>>) -> Option<Seq<char>> {
    if raw is Some && cleaned_log(raw->0).len() > 0 {
        Some(cleaned_log(raw->0))
    } else {
        None
    }
}

/// A log that is reported is not empty, and neither begins nor ends with white
/// space.
pub proof fn reported_log_is_clean(raw: Seq<char>)
    requires
        reported_log(Some(raw)) is Some,
    ensures
        ({
            let log = reported_log(Some(raw))->0;
            log.len() > 0 && !text::is_white_space(log[0]) && !text::is_white_space(log.last())
        }),
{
    text::trimmed_text_has_plain_ends(
        text::trim_end(raw, CharClass::One('\0')),
        CharClass::WhiteSpace,
    );
}

/// The log to report, given the log as it was read, if it could be.
pub fn read_hiprtc_log(raw: Option<&str>) -> (r: Option<String>)
    ensures
        text::string_text(r) == reported_log(text::str_text(raw)),
{
    match raw {
        None => None,
        Some(raw) => {
            let chars = trimmed_end(chars_of(raw), CharClass::One('\0'));
            let without_nul = string_of(chars.as_slice());
            let log = trimmed(without_nul.as_str(), CharClass::WhiteSpace);
            if log.len() == 0 {
                None
            } else {
                Some(string_of(log.as_slice()))
            }
        },
    }
}

/// The options are the header directories, each behind its flag and in order,
/// and then the architecture behind its own.
pub proof fn options_name_directories_and_architecture(
    include_paths: &[String],
    target_arch: &str,
    r: Vec<String>,
)
    requires
        call_ensures(rocm_hiprtc_compile_options, (include_paths, target_arch), r),
    ensures
        r@.len() == include_paths@.len() + 1,
        forall|i: int|
            0 <= i < include_paths@.len() ==> (#[trigger] r@[i])@ == "--include-path="@
                + include_paths@[i]@,
        r@.last()@ == "--offload-arch="@ + target_arch@,
{
    let all = text::texts(r@);
    assert(all.len() == r@.len());
    assert forall|i: int| 0 <= i < include_paths@.len() implies (#[trigger] r@[i])@
        == "--include-path="@ + include_paths@[i]@ by {
        assert(all[i] == r@[i]@);
        assert(text::texts(include_paths@)[i] == include_paths@[i]@);
    }
    assert(all[all.len() - 1] == r@[r@.len() - 1]@);
}

/// Two compilations with the same options have the same header directories and
/// are for the same architecture.
pub proof fn same_options_mean_the_same_compilation(
    dirs: Seq<Seq<char>>,
    arch: Seq<char>,
    other_dirs: Seq<Seq<char>>,
    other_arch: Seq<char>,
)
    requires
        compile_options(dirs, arch) == compile_options(other_dirs, other_arch),
    ensures
        dirs == other_dirs,
        arch == other_arch,
{
    let options = compile_options(dirs, arch);
    let other = compile_options(other_dirs, other_arch);
    assert(dirs.len() == options.len() - 1 && other_dirs.len() == other.len() - 1);
    let flag = "--offload-arch="@;
    assert(options.last() == flag + arch && other.last() == flag + other_arch);
    assert(arch =~= options.last().subrange(flag.len() as int, options.last().len() as int));
    assert(other_arch =~= other.last().subrange(flag.len() as int, other.last().len() as int));
    let path_flag = "--include-path="@;
    assert forall|i: int| 0 <= i < dirs.len() implies dirs[i] == other_dirs[i] by {
        assert(options[i] == path_flag + dirs[i] && other[i] == path_flag + other_dirs[i]);
        let size = options[i].len() as int;
        assert(dirs[i] =~= options[i].subrange(path_flag.len() as int, size));
        assert(other_dirs[i] =~= other[i].subrange(path_flag.len() as int, size));
    }
    assert(dirs =~= other_dirs);
}

/// The places where headers may be are, in order, the directory `include` below
/// each of the roots that are set, that of a ROCm installation in its usual
/// place, and that of the system.
pub proof fn candidates_are_below_the_roots_that_are_set(
    rocm_home: Option<&str>,
    rocm_path: Option<&str>,
    rocm_root: Option<&str>,
    r: Vec<String>,
)
    requires
        call_ensures(rocm_include_candidates, (rocm_home, rocm_path, rocm_root), r),
    ensures
        ({
            let path_at: int = if rocm_home is Some {
                1
            } else {
                0
            };
            let root_at: int = path_at + if rocm_path is Some {
                1int
            } else {
                0
            };
            let end: int = root_at + if rocm_root is Some {
                1int
            } else {
                0
            };
            &&& r@.len() == end + 2
            &&& rocm_home is Some ==> r@[0]@ == rocm_home->0@ + "/include"@
            &&& rocm_path is Some ==> r@[path_at]@ == rocm_path->0@ + "/include"@
            &&& rocm_root is Some ==> r@[root_at]@ == rocm_root->0@ + "/include"@
            &&& r@[end]@ == "/opt/rocm/include"@
            &&& r@[end + 1]@ == "/usr/include"@
        }),
{
    let all = text::texts(r@);
    assert(all.len() == r@.len());
    assert forall|i: int| 0 <= i < all.len() implies all[i] == #[trigger] r@[i]@ by {}
}

/// The header directories that are handed on keep the order in which they first
/// stand among the candidates.
pub proof fn header_directories_keep_their_order(
    candidates: Seq<Seq<char>>,
    exists_flags: Seq<bool>,
    n: nat,
    i: int,
    j: int,
) -> (places: (int, int))
    requires
        n <= candidates.len(),
        candidates.len() == exists_flags.len(),
        0 <= i < j < existing_once(candidates, exists_flags, n).len(),
    ensures
        0 <= places.0 < places.1 < n,
        candidates[places.0] == existing_once(candidates, exists_flags, n)[i],
        candidates[places.1] == existing_once(candidates, exists_flags, n)[j],
        forall|k: int|
            0 <= k < places.0 && exists_flags[k] ==> #[trigger] candidates[k]
                != candidates[places.0],
        forall|k: int|
            0 <= k < places.1 && exists_flags[k] ==> #[trigger] candidates[k]
                != candidates[places.1],
    decreases n,
{
    let front = existing_once(candidates, exists_flags, (n - 1) as nat);
    let chosen = existing_once(candidates, exists_flags, n);
    if j < front.len() {
        header_directories_keep_their_order(candidates, exists_flags, (n - 1) as nat, i, j)
    } else {
        let place = first_place(candidates, exists_flags, (n - 1) as nat, i);
        header_directories_are_existing_and_distinct(candidates, exists_flags, (n - 1) as nat);
        assert forall|k: int| 0 <= k < n - 1 && exists_flags[k] implies #[trigger] candidates[k]
            != candidates[n - 1] by {
            assert(front.contains(candidates[k]));
        }
        (place, n - 1)
    }
}

proof fn first_place(
    candidates: Seq<Seq<char>>,
    exists_flags: Seq<bool>,
    n: nat,
    i: int,
) -> (place: int)
    requires
        n <= candidates.len(),
        candidates.len() == exists_flags.len(),
        0 <= i < existing_once(candidates, exists_flags, n).len(),
    ensures
        0 <= place < n,
        candidates[place] == existing_once(candidates, exists_flags, n)[i],
        forall|k: int|
            0 <= k < place && exists_flags[k] ==> #[trigger] candidates[k] != candidates[place],
    decreases n,
{
    let front = existing_once(candidates, exists_flags, (n - 1) as nat);
    if i < front.len() {
        first_place(candidates, exists_flags, (n - 1) as nat, i)
    } else {
        header_directories_are_existing_and_distinct(candidates, exists_flags, (n - 1) as nat);
        assert forall|k: int| 0 <= k < n - 1 && exists_flags[k] implies #[trigger] candidates[k]
            != candidates[n - 1] by {
            assert(front.contains(candidates[k]));
        }
        n - 1
    }
}

/// The directories that are handed to the compiler are the candidates that exist,
/// and no others, each once.
pub proof fn existing_candidates_are_handed_on(
    candidates: &[String],
    exists_flags: &[bool],
    r: Vec<String>,
    dir: Seq<char>,
)
    requires
        candidates@.len() == exists_flags@.len(),
        call_ensures(rocm_hiprtc_include_paths, (candidates, exists_flags), r),
    ensures
        text::texts(r@).no_duplicates(),
        text::texts(r@).contains(dir) <==> exists|i: int|
            0 <= i < candidates@.len() && exists_flags@[i] && (#[trigger] candidates@[i])@ == dir,
{
    let all = text::texts(candidates@);
    header_directories_are_existing_and_distinct(all, exists_flags@, candidates@.len());
    if exists|i: int| 0 <= i < all.len() && exists_flags@[i] && all[i] == dir {
        let i = choose|i: int| 0 <= i < all.len() && exists_flags@[i] && all[i] == dir;
        assert(candidates@[i]@ == dir);
    }
    if exists|i: int|
        0 <= i < candidates@.len() && exists_flags@[i] && (#[trigger] candidates@[i])@ == dir {
        let i = choose|i: int|
            0 <= i < candidates@.len() && exists_flags@[i] && (#[trigger] candidates@[i])@ == dir;
        assert(all[i] == dir);
    }
}

/// A version shows its thousands and then the tens of the rest; a negative one
/// like its opposite, with a minus sign before each number that is not zero.
pub proof fn versions_show_thousands_and_tens(version: i32, r: String)
    requires
        call_ensures(format_rocm_version, (version,), r),
    ensures
        version >= 0 ==> r@ == numeral::decimal_text((version / 1000) as nat) + seq!['.']
            + numeral::decimal_text((version % 1000 / 10) as nat),
        version < 0 ==> ({
            let size = -(version as int);
            r@ == numeral::signed_text(-(size / 1000)) + seq!['.'] + numeral::signed_text(
                -(size % 1000 / 10),
            )
        }),
{
    reveal_strlit(".");
    assert("."@ =~= seq!['.']);
    let v = version as int;
    let q = truncated_quotient(v, 1000);
    let rest = truncated_remainder(v, 1000);
    if v >= 0 {
        assert(q == v / 1000);
        assert(rest == v % 1000);
        assert(truncated_quotient(rest, 10) == v % 1000 / 10);
    } else {
        let size = -v;
        assert(q == -(size / 1000));
        assert(rest == -(size % 1000));
        assert(truncated_quotient(rest, 10) == -(size % 1000 / 10));
    }
}

/// The log that is reported is what was read without the NUL characters at its
/// end and the white space around the rest; where nothing is left, or nothing was
/// read, there is none.
pub proof fn logs_are_reported_whole(raw: &str, r: Option<String>, unread: Option<String>) -> (at: (
    int,
    int,
    int,
))
    requires
        call_ensures(read_hiprtc_log, (Some(raw),), r),
        call_ensures(read_hiprtc_log, (None::<&str>,), unread),
    ensures
        unread is None,
        0 <= at.0 <= at.1 <= at.2 <= raw@.len(),
        r is Some <==> at.0 < at.1,
        r is Some ==> r->0@ == raw@.subrange(at.0, at.1),
        forall|i: int| 0 <= i < at.0 ==> text::is_white_space(#[trigger] raw@[i]),
        forall|i: int| at.1 <= i < at.2 ==> text::is_white_space(#[trigger] raw@[i]),
        forall|i: int| at.2 <= i < raw@.len() ==> #[trigger] raw@[i] == '\0',
        at.2 > 0 ==> raw@[at.2 - 1] != '\0',
        at.0 < at.1 ==> !text::is_white_space(raw@[at.0]) && !text::is_white_space(
            raw@[at.1 - 1],
        ),
{
    let kept = text::trimmed_end_at(raw@, CharClass::One('\0'));
    let rest = raw@.subrange(0, kept);
    let ends = text::trimming_leaves_what_lies_between_the_ends(rest, CharClass::WhiteSpace);
    assert(rest.subrange(ends.0, ends.1) =~= raw@.subrange(ends.0, ends.1));
    assert forall|i: int| 0 <= i < ends.0 implies text::is_white_space(#[trigger] raw@[i]) by {
        assert(rest[i] == raw@[i]);
    }
    assert forall|i: int| ends.1 <= i < kept implies text::is_white_space(#[trigger] raw@[i]) by {
        assert(rest[i] == raw@[i]);
    }
    (ends.0, ends.1, kept)
}

/// A report shows the version of the driver as it was read, and none of the
/// runtime.
pub proof fn only_the_driver_version_is_shown(
    driver_version: Option<i32>,
    r: (Option<i32>, Option<i32>),
)
    requires
        call_ensures(rocm_driver_diagnostics, (driver_version,), r),
    ensures
        r.0 == driver_version,
        r.1 is None,
{
}

/// The buffer for compiled code has as many bytes as it was asked to have, none
/// of them set.
pub proof fn buffers_are_empty_and_of_their_size(size: usize, r: Vec<u8>)
    requires
        call_ensures(rocbin_buffer, (size,), r),
    ensures
        r@ == Seq::new(size as nat, |i: int| 0u8),
{
    assert(r@ =~= Seq::new(size as nat, |i: int| 0u8));
}

} // verus!
