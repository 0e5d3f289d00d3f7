//! The GPU architecture to compile for.
use vstd::prelude::*;
use vstd::string::*;

use crate::numeral;
use crate::numeral::{parse_u32, push_decimal, push_radix};
use crate::text;
use crate::text::{chars_of, owned, position_from, split_on, string_of, trimmed, CharClass};

verus! {

/// The architecture of a version "major.minor.stepping", where minor and
/// stepping are one hexadecimal digit each.
pub open spec fn gfx_text(major: u32, minor: u32, stepping: u32) -> Seq<char> {
    "gfx"@ + numeral::decimal_text(major as nat) + numeral::radix_text(minor as nat, 16)
        + numeral::radix_text(stepping as nat, 16)
}

/// The architecture that an override of the form "major.minor.stepping" names:
/// three decimal numerals, of which the last two are at most fifteen. White
/// space around the whole is ignored.
pub open spec fn overridden_arch(v: Seq<char>) -> Option<Seq<char>> {
    let parts = text::split(text::trim(v, CharClass::WhiteSpace), '.');
    if parts.len() != 3 {
        None
    } else {
        match (
            numeral::parsed_u32(parts[0]),
            numeral::parsed_u32(parts[1]),
            numeral::parsed_u32(parts[2]),
        ) {
            (Some(major), Some(minor), Some(stepping)) => if minor <= 15 && stepping <= 15 {
                Some(gfx_text(major, minor, stepping))
            } else {
                None
            },
            _ => None,
        }
    }
}

/// The architecture that an `HSA_OVERRIDE_GFX_VERSION` value names: "11.0.0"
/// stands for "gfx1100", "9.0.10" for "gfx90a" and "9.4.2" for "gfx942".
pub fn arch_from_hsa_override(v: &str) -> (r: Option<String>)
    ensures
        r is Some <==> overridden_arch(v@) is Some,
        r is Some ==> r->0@ == overridden_arch(v@)->0,
{
    let chars = trimmed(v, CharClass::WhiteSpace);
    let parts = split_on(chars.as_slice(), '.');
    if parts.len() != 3 {
        return None;
    }
    let ghost views = text::char_views(parts@);
    assert(views[0] == parts@[0]@ && views[1] == parts@[1]@ && views[2] == parts@[2]@);
    let major: u32 = match parse_u32(parts[0].as_slice()) {
        Some(n) => n,
        None => return None,
    };
    let minor: u32 = match parse_u32(parts[1].as_slice()) {
        Some(n) => n,
        None => return None,
    };
    let stepping: u32 = match parse_u32(parts[2].as_slice()) {
        Some(n) => n,
        None => return None,
    };
    if minor > 15 || stepping > 15 {
        return None;
    }
    let mut out = String::new();
    out.append("gfx");
    push_decimal(&mut out, major as u64);
    push_radix(&mut out, minor as u64, 16);
    push_radix(&mut out, stepping as u64, 16);
    assert(out@ =~= gfx_text(major, minor, stepping));
    Some(out)
}

/// The key under which `amd-smi` reports the architecture.
pub open spec fn version_key() -> Seq<char> {
    "\"target_graphics_version\""@
}

/// What stands between the first two double quotes behind the first colon
/// behind the key `"target_graphics_version"`, without the white space around
/// it; `None` where that is empty or one of these is not there.
pub open spec fn target_graphics_version(json: Seq<char>) -> Option<Seq<char>> {
    let key = version_key();
    match text::find_from(json, key, 0) {
        None => None,
        Some(at) => match text::find_from(json, seq![':'], at + key.len()) {
            None => None,
            Some(colon) => match text::find_from(json, seq!['"'], colon + 1) {
                None => None,
                Some(open) => match text::find_from(json, seq!['"'], open + 1) {
                    None => None,
                    Some(close) => {
                        let value = text::trim(
                            json.subrange(open + 1, close),
                            CharClass::WhiteSpace,
                        );
                        if value.len() == 0 {
                            None
                        } else {
                            Some(value)
                        }
                    },
                },
            },
        },
    }
}

/// The `target_graphics_version` (such as "gfx1102") in the output of
/// `amd-smi static --asic --json`.
pub fn parse_target_graphics_version(json: &str) -> (r: Option<String>)
    ensures
        r is Some <==> target_graphics_version(json@) is Some,
        r is Some ==> r->0@ == target_graphics_version(json@)->0,
{
    let chars = chars_of(json);
    let s = chars.as_slice();
    let size: usize = s.len();
    let key = chars_of("\"target_graphics_version\"");
    let colon_mark: Vec<char> = vec![':'];
    let quote_mark: Vec<char> = vec!['"'];
    assert(colon_mark@ =~= seq![':']);
    assert(quote_mark@ =~= seq!['"']);
    proof {
        text::find_from_is_first(s@, key@, 0);
    }
    let at: usize = match position_from(s, key.as_slice(), 0) {
        Some(i) => i,
        None => return None,
    };
    assert(at + key@.len() <= size);
    let after_key: usize = at + key.len();
    proof {
        text::find_from_is_first(s@, colon_mark@, after_key as int);
    }
    let colon: usize = match position_from(s, colon_mark.as_slice(), after_key) {
        Some(i) => i,
        None => return None,
    };
    assert(colon + 1 <= size);
    proof {
        text::find_from_is_first(s@, quote_mark@, colon + 1);
    }
    let open: usize = match position_from(s, quote_mark.as_slice(), colon + 1) {
        Some(i) => i,
        None => return None,
    };
    assert(open + 1 <= size);
    proof {
        text::find_from_is_first(s@, quote_mark@, open + 1);
    }
    let close: usize = match position_from(s, quote_mark.as_slice(), open + 1) {
        Some(i) => i,
        None => return None,
    };
    let inner = vstd::slice::slice_subrange(s, open + 1, close);
    let inner_text = string_of(inner);
    let value = trimmed(inner_text.as_str(), CharClass::WhiteSpace);
    if value.len() == 0 {
        None
    } else {
        Some(string_of(value.as_slice()))
    }
}

/// The architecture to compile for: the one that `FLASHINFER_ROCM_ARCH` names;
/// or else the one that `HSA_OVERRIDE_GFX_VERSION` names, since the runtime
/// then loads code for no other; or else the one that `amd-smi` reports; or
/// else gfx950.
pub open spec fn detected_arch(
    explicit: Option<Seq<char>>,
    hsa_override: Option<Seq<char>>,
    amd_smi: Option<Seq<char>>,
) -> Seq<char> {
    match explicit {
        Some(arch) => arch,
        None => if hsa_override is Some && overridden_arch(hsa_override->0) is Some {
            overridden_arch(hsa_override->0)->0
        } else if amd_smi is Some && target_graphics_version(amd_smi->0) is Some {
            target_graphics_version(amd_smi->0)->0
        } else {
            "gfx950"@
        },
    }
}

/// Whether the environment leaves the architecture open, so that `amd-smi` is
/// to be asked.
pub fn needs_amd_smi(explicit: Option<&str>, hsa_override: Option<&str>) -> (r: bool)
    ensures
        r == (explicit is None && !(hsa_override is Some && overridden_arch(
            text::str_text(hsa_override)->0,
        ) is Some)),
{
    match explicit {
        Some(_) => false,
        None => match hsa_override {
            Some(v) => arch_from_hsa_override(v).is_none(),
            None => true,
        },
    }
}

/// The architecture to compile for, given the values of `FLASHINFER_ROCM_ARCH`
/// and `HSA_OVERRIDE_GFX_VERSION` and what a successful `amd-smi` wrote.
pub fn detect_rocm_arch(
    explicit: Option<&str>,
    hsa_override: Option<&str>,
    amd_smi: Option<&str>,
) -> (r: String)
    ensures
        r@ == detected_arch(
            text::str_text(explicit),
            text::str_text(hsa_override),
            text::str_text(amd_smi),
        ),
{
    match explicit {
        Some(arch) => return owned(arch),
        None => {},
    }
    match hsa_override {
        Some(v) => match arch_from_hsa_override(v) {
            Some(arch) => return arch,
            None => {},
        },
        None => {},
    }
    match amd_smi {
        Some(json) => match parse_target_graphics_version(json) {
            Some(arch) => return arch,
            None => {},
        },
        None => {},
    }
    owned("gfx950")
}

/// An architecture named in the environment wins over what `amd-smi` reports:
/// whenever `amd-smi` need not be asked, nothing that it could say matters.
pub proof fn environment_wins_over_amd_smi(
    explicit: Option<Seq<char>>,
    hsa_override: Option<Seq<char>>,
    one: Option<Seq<char>>,
    other: Option<Seq<char>>,
)
    requires
        explicit is Some || (hsa_override is Some && overridden_arch(hsa_override->0) is Some),
    ensures
        detected_arch(explicit, hsa_override, one) == detected_arch(explicit, hsa_override, other),
{
}

/// A value that is written behind the key is read back, without the white space
/// around it: whatever stands before the key, between the key and the colon, and
/// between the colon and the value, as long as the key, a colon or a double quote
/// does not stand there earlier.
pub proof fn reported_version_reads_back(
    before: Seq<char>,
    gap: Seq<char>,
    pad: Seq<char>,
    value: Seq<char>,
    rest: Seq<char>,
)
    requires
        forall|i: int|
            0 <= i < before.len() ==> !text::occurs_at(
                before + version_key() + gap + seq![':'] + pad + seq!['"'] + value + seq!['"']
                    + rest,
                version_key(),
                i,
            ),
        !gap.contains(':'),
        !pad.contains('"'),
        !value.contains('"'),
        text::trim(value, CharClass::WhiteSpace).len() > 0,
    ensures
        target_graphics_version(
            before + version_key() + gap + seq![':'] + pad + seq!['"'] + value + seq!['"'] + rest,
        ) == Some(text::trim(value, CharClass::WhiteSpace)),
{
    let key = version_key();
    let json = before + key + gap + seq![':'] + pad + seq!['"'] + value + seq!['"'] + rest;
    let at = before.len() as int;
    let colon = at + key.len() + gap.len();
    let open = colon + 1 + pad.len();
    let close = open + 1 + value.len();
    text::find_from_is_first(json, key, 0);
    assert(json.subrange(at, at + key.len()) =~= key);
    assert(text::occurs_at(json, key, at));
    assert(text::find_from(json, key, 0) == Some(at));
    assert forall|j: int| at + key.len() <= j < colon implies json[j] != ':' by {
        assert(json[j] == gap[j - at - key.len()]);
    }
    text::find_from_of_char(json, ':', at + key.len(), colon);
    assert forall|j: int| colon + 1 <= j < open implies json[j] != '"' by {
        assert(json[j] == pad[j - colon - 1]);
    }
    text::find_from_of_char(json, '"', colon + 1, open);
    assert forall|j: int| open + 1 <= j < close implies json[j] != '"' by {
        assert(json[j] == value[j - open - 1]);
    }
    text::find_from_of_char(json, '"', open + 1, close);
    assert(json.subrange(open + 1, close) =~= value);
}

/// Every override of three numerals, the last two at most fifteen, names the
/// architecture of that version.
pub proof fn version_numerals_name_their_arch(major: u32, minor: u32, stepping: u32)
    requires
        minor <= 15,
        stepping <= 15,
    ensures
        overridden_arch(
            numeral::decimal_text(major as nat) + seq!['.'] + numeral::decimal_text(minor as nat)
                + seq!['.'] + numeral::decimal_text(stepping as nat),
        ) == Some(gfx_text(major, minor, stepping)),
{
    let a = numeral::decimal_text(major as nat);
    let b = numeral::decimal_text(minor as nat);
    let c = numeral::decimal_text(stepping as nat);
    let v = a + seq!['.'] + b + seq!['.'] + c;
    numeral::decimal_reads_back(major as nat);
    numeral::decimal_reads_back(minor as nat);
    numeral::decimal_reads_back(stepping as nat);
    assert(v[0] == a[0]);
    assert(v.last() == c.last());
    assert(numeral::is_digit(a[0]) && numeral::is_digit(c.last()));
    assert(text::trim(v, CharClass::WhiteSpace) == v);
    text::split_of_plain(a, '.');
    text::split_of_plain(b, '.');
    text::split_of_plain(c, '.');
    text::split_of_joined(a, '.', b + seq!['.'] + c);
    text::split_of_joined(b, '.', c);
    assert(v =~= a + seq!['.'] + (b + seq!['.'] + c));
    assert(text::split(v, '.') =~= seq![a, b, c]);
    assert(numeral::after_plus(a) == a);
    assert(numeral::after_plus(b) == b);
    assert(numeral::after_plus(c) == c);
}

/// The override "major.minor.stepping" names the architecture "gfx" with the
/// major number in decimal and then one hexadecimal digit each for the minor
/// number and the stepping; it names none where one of those exceeds fifteen.
pub proof fn overrides_name_architectures(
    v: &str,
    major: u32,
    minor: u32,
    stepping: u32,
    r: Option<String>,
)
    requires
        call_ensures(arch_from_hsa_override, (v,), r),
        v@ == numeral::decimal_text(major as nat) + seq!['.'] + numeral::decimal_text(minor as nat)
            + seq!['.'] + numeral::decimal_text(stepping as nat),
    ensures
        r is Some <==> minor <= 15 && stepping <= 15,
        r is Some ==> r->0@ == seq!['g', 'f', 'x'] + numeral::decimal_text(major as nat) + seq![
            numeral::digits()[minor as int],
            numeral::digits()[stepping as int],
        ],
{
    let a = numeral::decimal_text(major as nat);
    numeral::numerals_are_read_back(major);
    numeral::numerals_are_read_back(minor);
    numeral::numerals_are_read_back(stepping);
    numerals_are_the_pieces(major, minor, stepping);
    if minor <= 15 && stepping <= 15 {
        numeral::numerals_are_written_digit_by_digit(0, minor as nat, 16);
        numeral::numerals_are_written_digit_by_digit(0, stepping as nat, 16);
        reveal_strlit("gfx");
        assert("gfx"@ =~= seq!['g', 'f', 'x']);
        assert(gfx_text(major, minor, stepping) =~= seq!['g', 'f', 'x'] + a + seq![
            numeral::digits()[minor as int],
            numeral::digits()[stepping as int],
        ]);
    }
}

proof fn numerals_are_the_pieces(major: u32, minor: u32, stepping: u32)
    ensures
        ({
            let a = numeral::decimal_text(major as nat);
            let b = numeral::decimal_text(minor as nat);
            let c = numeral::decimal_text(stepping as nat);
            let v = a + seq!['.'] + b + seq!['.'] + c;
            text::split(text::trim(v, CharClass::WhiteSpace), '.') == seq![a, b, c]
        }),
{
    let a = numeral::decimal_text(major as nat);
    let b = numeral::decimal_text(minor as nat);
    let c = numeral::decimal_text(stepping as nat);
    let v = a + seq!['.'] + b + seq!['.'] + c;
    numeral::decimal_reads_back(major as nat);
    numeral::decimal_reads_back(minor as nat);
    numeral::decimal_reads_back(stepping as nat);
    assert(v[0] == a[0]);
    assert(v.last() == c.last());
    assert(numeral::is_digit(a[0]) && numeral::is_digit(c.last()));
    assert(text::trim(v, CharClass::WhiteSpace) == v);
    text::split_of_plain(a, '.');
    text::split_of_plain(b, '.');
    text::split_of_plain(c, '.');
    text::split_of_joined(a, '.', b + seq!['.'] + c);
    text::split_of_joined(b, '.', c);
    assert(v =~= a + seq!['.'] + (b + seq!['.'] + c));
    assert(text::split(v, '.') =~= seq![a, b, c]);
}

/// An override names an architecture only where it is three numbers with a dot
/// between each two, with or without white space around the whole, and then the
/// one of those numbers.
pub proof fn only_three_numbers_name_an_architecture(v: &str, r: Option<String>)
    requires
        call_ensures(arch_from_hsa_override, (v,), r),
        r is Some,
    ensures
        exists|parts: Seq<Seq<char>>, numbers: (u32, u32, u32)|
            {
                &&& parts.len() == 3
                &&& text::trim(v@, CharClass::WhiteSpace) == #[trigger] text::joined_by(parts, '.')
                &&& numeral::parsed_u32(parts[0]) == Some(numbers.0)
                &&& numeral::parsed_u32(parts[1]) == Some(numbers.1)
                &&& numeral::parsed_u32(parts[2]) == Some(numbers.2)
                &&& numbers.1 <= 15 && numbers.2 <= 15
                &&& r->0@ == #[trigger] gfx_text(numbers.0, numbers.1, numbers.2)
            },
{
    let parts = text::split(text::trim(v@, CharClass::WhiteSpace), '.');
    text::pieces_make_up_the_text(text::trim(v@, CharClass::WhiteSpace), '.');
    let numbers = (
        numeral::parsed_u32(parts[0])->0,
        numeral::parsed_u32(parts[1])->0,
        numeral::parsed_u32(parts[2])->0,
    );
    assert(text::trim(v@, CharClass::WhiteSpace) == text::joined_by(parts, '.'));
    assert(r->0@ == gfx_text(numbers.0, numbers.1, numbers.2));
}

/// The architecture is the first that can be had, in this order: the one that is
/// named outright, the one that the override names, the one that `amd-smi`
/// reports, and gfx950. And `amd-smi` is asked exactly where the first two are
/// not there.
pub proof fn architectures_are_preferred_in_order(
    explicit: Option<&str>,
    hsa_override: Option<&str>,
    amd_smi: Option<&str>,
    overridden: Option<String>,
    reported: Option<String>,
    asked: bool,
    arch: String,
)
    requires
        call_ensures(detect_rocm_arch, (explicit, hsa_override, amd_smi), arch),
        call_ensures(needs_amd_smi, (explicit, hsa_override), asked),
        hsa_override is Some ==> call_ensures(
            arch_from_hsa_override,
            (hsa_override->0,),
            overridden,
        ),
        hsa_override is None ==> overridden is None,
        amd_smi is Some ==> call_ensures(parse_target_graphics_version, (amd_smi->0,), reported),
        amd_smi is None ==> reported is None,
    ensures
        explicit is Some ==> arch@ == explicit->0@,
        explicit is None && overridden is Some ==> arch@ == overridden->0@,
        explicit is None && overridden is None && reported is Some ==> arch@ == reported->0@,
        explicit is None && overridden is None && reported is None ==> arch@ == "gfx950"@,
        asked <==> explicit is None && overridden is None,
{
}

/// What `amd-smi` reports under the key `"target_graphics_version"` is read: the
/// text in double quotes behind the colon behind the key, without the white space
/// around it.
pub proof fn reported_version_is_read(
    json: &str,
    before: Seq<char>,
    gap: Seq<char>,
    pad: Seq<char>,
    value: Seq<char>,
    rest: Seq<char>,
    r: Option<String>,
)
    requires
        call_ensures(parse_target_graphics_version, (json,), r),
        json@ == before + "\"target_graphics_version\""@ + gap + seq![':'] + pad + seq!['"'] + value
            + seq!['"'] + rest,
        forall|i: int|
            0 <= i < before.len() ==> !text::occurs_at(
                json@,
                "\"target_graphics_version\""@,
                i,
            ),
        !gap.contains(':'),
        !pad.contains('"'),
        !value.contains('"'),
    ensures
        ({
            let version = text::trim(value, CharClass::WhiteSpace);
            &&& version.len() > 0 ==> r is Some && r->0@ == version
            &&& version.len() == 0 ==> r is None
        }),
{
    let key = version_key();
    let s = json@;
    let at = before.len() as int;
    let colon = at + key.len() + gap.len();
    let open = colon + 1 + pad.len();
    let close = open + 1 + value.len();
    text::find_from_is_first(s, key, 0);
    assert(s.subrange(at, at + key.len()) =~= key);
    assert(text::occurs_at(s, key, at));
    assert(text::find_from(s, key, 0) == Some(at));
    assert forall|j: int| at + key.len() <= j < colon implies s[j] != ':' by {
        assert(s[j] == gap[j - at - key.len()]);
    }
    text::find_from_of_char(s, ':', at + key.len(), colon);
    assert forall|j: int| colon + 1 <= j < open implies s[j] != '"' by {
        assert(s[j] == pad[j - colon - 1]);
    }
    text::find_from_of_char(s, '"', colon + 1, open);
    assert forall|j: int| open + 1 <= j < close implies s[j] != '"' by {
        assert(s[j] == value[j - open - 1]);
    }
    text::find_from_of_char(s, '"', open + 1, close);
    assert(s.subrange(open + 1, close) =~= value);
}

/// Nothing is read where the key does not stand in what `amd-smi` wrote.
pub proof fn nothing_is_read_without_the_key(json: &str, r: Option<String>)
    requires
        call_ensures(parse_target_graphics_version, (json,), r),
        forall|i: int| !text::occurs_at(json@, "\"target_graphics_version\""@, i),
    ensures
        r is None,
{
    text::find_from_is_first(json@, version_key(), 0);
}

/// An override of three pieces with a dot between each two, with or without white
/// space around the whole, names an architecture exactly when the pieces are
/// numbers and the last two are at most fifteen.
pub proof fn three_pieces_name_an_architecture(
    v: &str,
    a: Seq<char>,
    b: Seq<char>,
    c: Seq<char>,
    r: Option<String>,
)
    requires
        call_ensures(arch_from_hsa_override, (v,), r),
        text::trim(v@, CharClass::WhiteSpace) == a + seq!['.'] + b + seq!['.'] + c,
        !a.contains('.'),
        !b.contains('.'),
        !c.contains('.'),
    ensures
        ({
            let major = numeral::parsed_u32(a);
            let minor = numeral::parsed_u32(b);
            let stepping = numeral::parsed_u32(c);
            &&& r is Some <==> major is Some && minor is Some && stepping is Some && minor->0 <= 15
                && stepping->0 <= 15
            &&& r is Some ==> r->0@ == seq!['g', 'f', 'x'] + numeral::decimal_text(major->0 as nat)
                + seq![numeral::digits()[minor->0 as int], numeral::digits()[stepping->0 as int]]
        }),
{
    let v = a + seq!['.'] + b + seq!['.'] + c;
    text::split_of_plain(a, '.');
    text::split_of_plain(b, '.');
    text::split_of_plain(c, '.');
    text::split_of_joined(a, '.', b + seq!['.'] + c);
    text::split_of_joined(b, '.', c);
    assert(v =~= a + seq!['.'] + (b + seq!['.'] + c));
    assert(text::split(v, '.') =~= seq![a, b, c]);
    if r is Some {
        let (major, minor, stepping) = (
            numeral::parsed_u32(a)->0,
            numeral::parsed_u32(b)->0,
            numeral::parsed_u32(c)->0,
        );
        numeral::numerals_are_written_digit_by_digit(0, minor as nat, 16);
        numeral::numerals_are_written_digit_by_digit(0, stepping as nat, 16);
        reveal_strlit("gfx");
        assert("gfx"@ =~= seq!['g', 'f', 'x']);
        assert(gfx_text(major, minor, stepping) =~= seq!['g', 'f', 'x'] + numeral::decimal_text(
            major as nat,
        ) + seq![numeral::digits()[minor as int], numeral::digits()[stepping as int]]);
    }
}

} // verus!
