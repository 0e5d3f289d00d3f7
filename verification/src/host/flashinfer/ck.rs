//! The Composable Kernel headers: where they are looked for, and how they are
//! fetched.
use vstd::prelude::*;
use vstd::string::*;

use crate::path;
use crate::path::join;
use crate::text;
use crate::text::{chars_of, owned};

verus! {

/// Where the Composable Kernel sources come from.
pub const CK_GIT_URL: &'static str = "https://github.com/ROCm/composable_kernel.git";

/// The commit that is fetched.
pub const CK_GIT_REV: &'static str = "d7609923b6a2fd9c83e8c40d8bd510b2c483ff91";

/// The first twelve digits of the commit, which name the directory that it is
/// fetched to.
pub const CK_SHORT_REV: &'static str = "d7609923b6a2";

/// The short form of the commit is its beginning.
pub proof fn short_rev_is_a_prefix()
    ensures
        CK_SHORT_REV@ == CK_GIT_REV@.take(12),
{
    reveal_strlit("d7609923b6a2fd9c83e8c40d8bd510b2c483ff91");
    reveal_strlit("d7609923b6a2");
    assert(CK_SHORT_REV@ =~= CK_GIT_REV@.take(12));
}

/// Whether a directory is a usable header directory: it holds the `ck_tile`
/// headers, or else the older `ck` headers.
pub fn is_ck_include_dir(has_ck_tile: bool, has_ck: bool) -> (r: bool)
    ensures
        r == (has_ck_tile || has_ck),
{
    has_ck_tile || has_ck
}

/// The two entries that make a directory a usable header directory.
pub fn ck_probes(dir: &str) -> (r: (String, String))
    ensures
        r.0@ == path::joined(dir@, "ck_tile"@),
        r.1@ == path::joined(dir@, "ck"@),
{
    (join(dir, "ck_tile"), join(dir, "ck"))
}

/// Whether `LUMINAL_CK_DIR` names a directory: it is set and not empty.
pub open spec fn has_override(luminal_ck_dir: Option<Seq<char>>) -> bool {
    luminal_ck_dir is Some && luminal_ck_dir->0.len() > 0
}

/// The header directory that `LUMINAL_CK_DIR` names.
pub open spec fn override_headers(luminal_ck_dir: Option<Seq<char>>) -> Seq<char> {
    path::joined(luminal_ck_dir->0, "include"@)
}

/// The header directory of the ROCm installation.
pub open spec fn rocm_headers(rocm_path: Option<Seq<char>>) -> Seq<char> {
    path::joined(
        match rocm_path {
            Some(rocm) => rocm,
            None => "/opt/rocm"@,
        },
        "include"@,
    )
}

/// The header directories to look at before anything is fetched, in order.
pub open spec fn header_candidates(
    luminal_ck_dir: Option<Seq<char>>,
    rocm_path: Option<Seq<char>>,
) -> Seq<Seq<char>> {
    if has_override(luminal_ck_dir) {
        seq![override_headers(luminal_ck_dir), rocm_headers(rocm_path)]
    } else {
        seq![rocm_headers(rocm_path)]
    }
}

/// The header directories to look at before anything is fetched, in order,
/// given the values of `LUMINAL_CK_DIR` and `ROCM_PATH`.
pub fn ck_header_candidates(luminal_ck_dir: Option<&str>, rocm_path: Option<&str>) -> (r: Vec<
    String,
>)
    ensures
        text::texts(r@) == header_candidates(
            text::str_text(luminal_ck_dir),
            text::str_text(rocm_path),
        ),
{
    let mut out: Vec<String> = Vec::new();
    match luminal_ck_dir {
        Some(dir) => {
            let chars = chars_of(dir);
            if chars.len() > 0 {
                out.push(join(dir, "include"));
            }
        },
        None => {},
    }
    let rocm = match rocm_path {
        Some(rocm) => rocm,
        None => "/opt/rocm",
    };
    out.push(join(rocm, "include"));
    assert(text::texts(out@) =~= header_candidates(
        text::str_text(luminal_ck_dir),
        text::str_text(rocm_path),
    ));
    out
}

/// The header directory: the first usable candidate, or else the one below the
/// fetched sources. `fetched` is the root of those, where they could be had; it
/// matters only where no candidate is usable.
pub open spec fn located_headers(
    candidates: Seq<Seq<char>>,
    usable: Seq<bool>,
    fetched: Option<Seq<char>>,
    from: nat,
) -> Option<Seq<char>>
    decreases candidates.len() - from,
{
    if from >= candidates.len() {
        match fetched {
            Some(root) => Some(path::joined(root, "include"@)),
            None => None,
        }
    } else if usable[from as int] {
        Some(candidates[from as int])
    } else {
        located_headers(candidates, usable, fetched, from + 1)
    }
}

/// The first usable candidate, if there is one.
pub fn first_usable(usable: &[bool]) -> (r: Option<usize>)
    ensures
        match r {
            Some(i) => i < usable@.len() && usable@[i as int] && forall|j: int|
                0 <= j < i ==> !usable@[j],
            None => forall|j: int| 0 <= j < usable@.len() ==> !usable@[j],
        },
{
    let mut i: usize = 0;
    while i < usable.len()
        invariant
            i <= usable@.len(),
            forall|j: int| 0 <= j < i ==> !usable@[j],
        decreases usable@.len() - i,
    {
        if usable[i] {
            return Some(i);
        }
        i += 1;
    }
    None
}

proof fn located_skips(
    candidates: Seq<Seq<char>>,
    usable: Seq<bool>,
    fetched: Option<Seq<char>>,
    from: nat,
    to: nat,
)
    requires
        from <= to <= candidates.len(),
        forall|j: int| from <= j < to ==> !usable[j],
    ensures
        located_headers(candidates, usable, fetched, from) == located_headers(
            candidates,
            usable,
            fetched,
            to,
        ),
    decreases to - from,
{
    if from < to {
        located_skips(candidates, usable, fetched, from + 1, to);
    }
}

/// The header directory: the first usable candidate, or else the one below the
/// fetched sources.
pub fn locate_ck_includes(candidates: &[String], usable: &[bool], fetched: Option<&str>) -> (r:
    Option<String>)
    requires
        candidates@.len() == usable@.len(),
    ensures
        text::string_text(r) == located_headers(
            text::texts(candidates@),
            usable@,
            text::str_text(fetched),
            0,
        ),
{
    let ghost names = text::texts(candidates@);
    match first_usable(usable) {
        Some(i) => {
            proof {
                located_skips(names, usable@, text::str_text(fetched), 0, i as nat);
            }
            assert(names[i as int] == candidates@[i as int]@);
            Some(owned(candidates[i].as_str()))
        },
        None => {
            proof {
                located_skips(names, usable@, text::str_text(fetched), 0, names.len());
            }
            match fetched {
                Some(root) => Some(join(root, "include")),
                None => None,
            }
        },
    }
}

/// Whether the sources can be had matters only where no candidate is usable.
pub proof fn fetch_matters_only_without_a_candidate(
    candidates: Seq<Seq<char>>,
    usable: Seq<bool>,
    one: Option<Seq<char>>,
    other: Option<Seq<char>>,
    at: nat,
)
    requires
        at < candidates.len(),
        usable[at as int],
    ensures
        located_headers(candidates, usable, one, 0) == located_headers(
            candidates,
            usable,
            other,
            0,
        ),
{
    located_agree(candidates, usable, one, other, 0, at);
}

proof fn located_agree(
    candidates: Seq<Seq<char>>,
    usable: Seq<bool>,
    one: Option<Seq<char>>,
    other: Option<Seq<char>>,
    from: nat,
    at: nat,
)
    requires
        from <= at < candidates.len(),
        usable[at as int],
    ensures
        located_headers(candidates, usable, one, from) == located_headers(
            candidates,
            usable,
            other,
            from,
        ),
    decreases at - from,
{
    if !usable[from as int] {
        located_agree(candidates, usable, one, other, from + 1, at);
    }
}

/// A usable directory that `LUMINAL_CK_DIR` names wins over every other.
pub proof fn override_wins(
    luminal_ck_dir: Option<Seq<char>>,
    rocm_path: Option<Seq<char>>,
    usable: Seq<bool>,
    fetched: Option<Seq<char>>,
)
    requires
        has_override(luminal_ck_dir),
        usable.len() == 2,
        usable[0],
    ensures
        located_headers(header_candidates(luminal_ck_dir, rocm_path), usable, fetched, 0) == Some(
            override_headers(luminal_ck_dir),
        ),
{
}

/// The note that a directory that `LUMINAL_CK_DIR` names is passed over.
pub open spec fn passed_over_text(luminal_ck_dir: Seq<char>) -> Seq<char> {
    "Composable Kernel: LUMINAL_CK_DIR="@ + luminal_ck_dir
        + " did not contain include/ck_tile — falling back to default locations"@
}

/// The note that the directory that `LUMINAL_CK_DIR` names is passed over, where
/// it names one that is not usable. `usable` says of each candidate whether it
/// is.
pub fn override_unusable_note(luminal_ck_dir: Option<&str>, usable: &[bool]) -> (r: Option<String>)
    requires
        usable@.len() > 0,
    ensures
        text::string_text(r) == (if has_override(text::str_text(luminal_ck_dir)) && !usable@[0] {
            Some(passed_over_text(luminal_ck_dir->0@))
        } else {
            None::<Seq<char>>
        }),
{
    match luminal_ck_dir {
        Some(dir) => {
            let chars = chars_of(dir);
            if chars.len() == 0 || usable[0] {
                return None;
            }
            let mut out = String::new();
            out.append("Composable Kernel: LUMINAL_CK_DIR=");
            out.append(dir);
            out.append(" did not contain include/ck_tile — falling back to default locations");
            assert(out@ =~= passed_over_text(dir@));
            Some(out)
        },
        None => None,
    }
}

/// The candidates are the header directory below the one that `LUMINAL_CK_DIR`
/// names, where it names one, and then that of the ROCm installation, which is in
/// its usual place where `ROCM_PATH` does not say otherwise.
pub proof fn candidates_are_the_named_directory_and_rocm(
    luminal_ck_dir: Option<&str>,
    rocm_path: Option<&str>,
    r: Vec<String>,
)
    requires
        call_ensures(ck_header_candidates, (luminal_ck_dir, rocm_path), r),
    ensures
        ({
            let named = luminal_ck_dir is Some && luminal_ck_dir->0@.len() > 0;
            let rocm = if rocm_path is Some {
                rocm_path->0@
            } else {
                "/opt/rocm"@
            };
            &&& r@.len() == if named {
                2int
            } else {
                1
            }
            &&& named ==> r@[0]@ == path::joined(luminal_ck_dir->0@, "include"@)
            &&& r@.last()@ == path::joined(rocm, "include"@)
        }),
{
    let all = text::texts(r@);
    assert(all.len() == r@.len());
    assert(all[0] == r@[0]@);
    assert(all[all.len() - 1] == r@[r@.len() - 1]@);
}

/// The headers are in the first candidate that is usable; where none is, below
/// the fetched sources; and where those could not be had, nowhere.
pub proof fn headers_are_in_the_first_usable_candidate(
    candidates: &[String],
    usable: &[bool],
    fetched: Option<&str>,
    r: Option<String>,
    at: int,
)
    requires
        candidates@.len() == usable@.len(),
        call_ensures(locate_ck_includes, (candidates, usable, fetched), r),
        0 <= at <= usable@.len(),
        forall|j: int| 0 <= j < at ==> !usable@[j],
        at < usable@.len() ==> usable@[at],
    ensures
        at < usable@.len() ==> r is Some && r->0@ == candidates@[at]@,
        at == usable@.len() ==> (r is Some <==> fetched is Some),
        at == usable@.len() && fetched is Some ==> r->0@ == path::joined(
            fetched->0@,
            "include"@,
        ),
{
    let names = text::texts(candidates@);
    located_skips(names, usable@, text::str_text(fetched), 0, at as nat);
    if at < usable@.len() {
        assert(names[at] == candidates@[at]@);
    }
}

/// A directory holds usable headers exactly when one of the two entries that are
/// looked for is in it: `ck_tile`, or the older `ck`.
pub proof fn header_directories_are_told_by_their_entries(
    dir: &str,
    has_ck_tile: bool,
    has_ck: bool,
    probes: (String, String),
    r: bool,
)
    requires
        call_ensures(ck_probes, (dir,), probes),
        call_ensures(is_ck_include_dir, (has_ck_tile, has_ck), r),
    ensures
        probes.0@ == path::joined(dir@, "ck_tile"@),
        probes.1@ == path::joined(dir@, "ck"@),
        !r <==> !has_ck_tile && !has_ck,
{
}

/// It is noted that the directory that `LUMINAL_CK_DIR` names is passed over
/// exactly where it names one and that is not usable.
pub proof fn passed_over_directories_are_noted(
    luminal_ck_dir: Option<&str>,
    usable: &[bool],
    r: Option<String>,
)
    requires
        usable@.len() > 0,
        call_ensures(override_unusable_note, (luminal_ck_dir, usable), r),
    ensures
        r is Some <==> luminal_ck_dir is Some && luminal_ck_dir->0@.len() > 0 && !usable@[0],
{
}

} // verus!
