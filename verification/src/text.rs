//! Text primitives: character sequences, trimming, searching and splitting.
use vstd::prelude::*;
use vstd::string::*;

verus! {

/// `String::push`: appends one character to the end of the string.
pub assume_specification[ String::push ](s: &mut String, c: char)
    ensures
        final(s)@ == old(s)@.push(c),
;

/// The characters of `s`, in order.
pub fn chars_of(s: &str) -> (r: Vec<char>)
    ensures
        r@ == s@,
{
    let mut out: Vec<char> = Vec::new();
    for c in it: s.chars()
        invariant
            out@ == it.seq().take(it.index() as int),
            it.seq() == s@,
    {
        out.push(c);
    }
    out
}

/// The string made of the characters `chars`, in order.
pub fn string_of(chars: &[char]) -> (r: String)
    ensures
        r@ == chars@,
{
    let mut out = String::new();
    let mut i: usize = 0;
    while i < chars.len()
        invariant
            i <= chars@.len(),
            out@ == chars@.take(i as int),
        decreases chars@.len() - i,
    {
        out.push(chars[i]);
        i += 1;
    }
    out
}

/// Whether the two strings hold the same characters.
pub fn same_text(a: &str, b: &str) -> (r: bool)
    ensures
        r == (a@ == b@),
{
    let x = chars_of(a);
    let y = chars_of(b);
    if x.len() != y.len() {
        return false;
    }
    let mut i: usize = 0;
    while i < x.len()
        invariant
            i <= x@.len(),
            x@.len() == y@.len(),
            x@ == a@,
            y@ == b@,
            forall|j: int| 0 <= j < i ==> x@[j] == y@[j],
        decreases x@.len() - i,
    {
        if x[i] != y[i] {
            assert(a@[i as int] != b@[i as int]);
            return false;
        }
        i += 1;
    }
    assert(a@ =~= b@);
    true
}

/// The text of an optional string slice.
pub open spec fn str_text(s: Option<&str>) -> Option<Seq<char>> {
    match s {
        Some(s) => Some(s@),
        None => None,
    }
}

/// The text of an optional string.
pub open spec fn string_text(s: Option<String>) -> Option<Seq<char>> {
    match s {
        Some(s) => Some(s@),
        None => None,
    }
}

/// The texts of a list of strings.
pub open spec fn texts(strings: Seq<String>) -> Seq<Seq<char>> {
    strings.map_values(|s: String| s@)
}

/// A string of its own with the text of `s`.
pub fn owned(s: &str) -> (r: String)
    ensures
        r@ == s@,
{
    let mut out = String::new();
    out.append(s);
    assert(out@ =~= s@);
    out
}

/// A class of characters that trimming removes.
#[derive(Clone, Copy)]
pub enum CharClass {
    /// The Unicode `White_Space` property.
    WhiteSpace,
    /// One character.
    One(char),
}

/// The code points that carry the Unicode `White_Space` property.
pub open spec fn is_white_space(c: char) -> bool {
    let n = c as u32;
    ||| 0x09 <= n <= 0x0d
    ||| n == 0x20
    ||| n == 0x85
    ||| n == 0xa0
    ||| n == 0x1680
    ||| 0x2000 <= n <= 0x200a
    ||| n == 0x2028
    ||| n == 0x2029
    ||| n == 0x202f
    ||| n == 0x205f
    ||| n == 0x3000
}

impl CharClass {
    pub open spec fn has(self, c: char) -> bool {
        match self {
            CharClass::WhiteSpace => is_white_space(c),
            CharClass::One(x) => c == x,
        }
    }

    fn holds(self, c: char) -> (r: bool)
        ensures
            r == self.has(c),
    {
        match self {
            CharClass::WhiteSpace => {
                let n: u32 = c as u32;
                (0x09 <= n && n <= 0x0d) || n == 0x20 || n == 0x85 || n == 0xa0 || n == 0x1680 || (
                0x2000 <= n && n <= 0x200a) || n == 0x2028 || n == 0x2029 || n == 0x202f || n
                    == 0x205f || n == 0x3000
            },
            CharClass::One(x) => c == x,
        }
    }
}

/// `s` without its longest prefix of characters in `class`.
pub open spec fn trim_start(s: Seq<char>, class: CharClass) -> Seq<char>
    decreases s.len(),
{
    if s.len() > 0 && class.has(s[0]) {
        trim_start(s.skip(1), class)
    } else {
        s
    }
}

/// `s` without its longest suffix of characters in `class`.
pub open spec fn trim_end(s: Seq<char>, class: CharClass) -> Seq<char>
    decreases s.len(),
{
    if s.len() > 0 && class.has(s.last()) {
        trim_end(s.drop_last(), class)
    } else {
        s
    }
}

/// `s` without the characters in `class` at either end.
pub open spec fn trim(s: Seq<char>, class: CharClass) -> Seq<char> {
    trim_end(trim_start(s, class), class)
}

/// `chars` with the trailing characters in `class` removed.
pub fn trimmed_end(chars: Vec<char>, class: CharClass) -> (r: Vec<char>)
    ensures
        r@ == trim_end(chars@, class),
{
    let ghost whole = chars@;
    let mut chars = chars;
    while chars.len() > 0 && class.holds(chars[chars.len() - 1])
        invariant
            trim_end(whole, class) == trim_end(chars@, class),
        decreases chars@.len(),
    {
        let ghost before = chars@;
        let _ = chars.pop();
        assert(chars@ =~= before.drop_last());
    }
    chars
}

/// `chars` with the leading characters in `class` removed.
pub fn trimmed_start(chars: &[char], class: CharClass) -> (r: Vec<char>)
    ensures
        r@ == trim_start(chars@, class),
{
    let mut i: usize = 0;
    assert(chars@.skip(0) =~= chars@);
    while i < chars.len() && class.holds(chars[i])
        invariant
            i <= chars@.len(),
            trim_start(chars@, class) == trim_start(chars@.skip(i as int), class),
        decreases chars@.len() - i,
    {
        assert(chars@.skip(i as int)[0] == chars@[i as int]);
        assert(chars@.skip(i as int).skip(1) =~= chars@.skip(i + 1));
        i += 1;
    }
    let mut out: Vec<char> = Vec::new();
    let ghost from = i as int;
    while i < chars.len()
        invariant
            0 <= from <= i <= chars@.len(),
            out@ == chars@.subrange(from, i as int),
        decreases chars@.len() - i,
    {
        out.push(chars[i]);
        assert(chars@.subrange(from, i as int).push(chars@[i as int]) =~= chars@.subrange(
            from,
            i + 1,
        ));
        i += 1;
    }
    assert(out@ =~= chars@.skip(from));
    assert(from < chars@.len() ==> chars@.skip(from)[0] == chars@[from]);
    out
}

/// `s` with the characters in `class` removed from both ends.
pub fn trimmed(s: &str, class: CharClass) -> (r: Vec<char>)
    ensures
        r@ == trim(s@, class),
{
    let chars = chars_of(s);
    trimmed_end(trimmed_start(chars.as_slice(), class), class)
}

/// A trimmed text neither begins nor ends with a character of the class.
pub proof fn trimmed_text_has_plain_ends(s: Seq<char>, class: CharClass)
    ensures
        trim(s, class).len() > 0 ==> !class.has(trim(s, class)[0]) && !class.has(
            trim(s, class).last(),
        ),
{
    trim_start_begins_plainly(s, class);
    trim_end_ends_plainly(trim_start(s, class), class);
}

proof fn trim_start_begins_plainly(s: Seq<char>, class: CharClass)
    ensures
        trim_start(s, class).len() > 0 ==> !class.has(trim_start(s, class)[0]),
    decreases s.len(),
{
    if s.len() > 0 && class.has(s[0]) {
        trim_start_begins_plainly(s.skip(1), class);
    }
}

proof fn trim_end_ends_plainly(s: Seq<char>, class: CharClass)
    ensures
        trim_end(s, class).len() > 0 ==> !class.has(trim_end(s, class).last()) && trim_end(
            s,
            class,
        )[0] == s[0],
    decreases s.len(),
{
    if s.len() > 0 && class.has(s.last()) {
        trim_end_ends_plainly(s.drop_last(), class);
    }
}

/// A text without characters of the class at its ends is left as it is, and one
/// such character more at each end is removed.
pub proof fn trim_removes_only_the_ends(s: Seq<char>, c: char)
    requires
        s.len() > 0,
        s[0] != c,
        s.last() != c,
    ensures
        trim(s, CharClass::One(c)) == s,
        trim(seq![c] + s + seq![c], CharClass::One(c)) == s,
{
    let class = CharClass::One(c);
    let wrapped = seq![c] + s + seq![c];
    assert(wrapped.skip(1) =~= s + seq![c]);
    assert((s + seq![c])[0] == s[0]);
    assert((s + seq![c]).drop_last() =~= s);
    assert(trim_start(s + seq![c], class) == s + seq![c]);
    assert(trim_end(s + seq![c], class) == trim_end(s, class));
}

/// Whether `pat` stands in `s` at position `i`.
pub open spec fn occurs_at(s: Seq<char>, pat: Seq<char>, i: int) -> bool {
    0 <= i && i + pat.len() <= s.len() && s.subrange(i, i + pat.len()) == pat
}

/// Whether `pat` stands somewhere in `s`.
pub open spec fn contains_text(s: Seq<char>, pat: Seq<char>) -> bool {
    exists|i: int| occurs_at(s, pat, i)
}

/// The first position at or after `from` where `pat` stands in `s`.
pub open spec fn find_from(s: Seq<char>, pat: Seq<char>, from: int) -> Option<int>
    decreases s.len() + 1 - from,
{
    if from + pat.len() > s.len() {
        None
    } else if occurs_at(s, pat, from) {
        Some(from)
    } else {
        find_from(s, pat, from + 1)
    }
}

/// `find_from` yields the least position, and none only where there is none.
pub proof fn find_from_is_first(s: Seq<char>, pat: Seq<char>, from: int)
    requires
        0 <= from,
    ensures
        match find_from(s, pat, from) {
            Some(i) => from <= i && occurs_at(s, pat, i) && forall|j: int|
                from <= j < i ==> !occurs_at(s, pat, j),
            None => forall|j: int| from <= j ==> !occurs_at(s, pat, j),
        },
    decreases s.len() + 1 - from,
{
    if from + pat.len() > s.len() {
    } else if occurs_at(s, pat, from) {
    } else {
        find_from_is_first(s, pat, from + 1);
    }
}

/// The first position of a single character is where it stands and none stood
/// before.
pub proof fn find_from_of_char(s: Seq<char>, c: char, from: int, at: int)
    requires
        0 <= from <= at < s.len(),
        s[at] == c,
        forall|j: int| from <= j < at ==> s[j] != c,
    ensures
        find_from(s, seq![c], from) == Some(at),
{
    find_from_is_first(s, seq![c], from);
    assert(s.subrange(at, at + 1) =~= seq![c]);
    assert(occurs_at(s, seq![c], at));
    assert forall|j: int| from <= j < at implies !occurs_at(s, seq![c], j) by {
        assert(s.subrange(j, j + 1)[0] == s[j]);
    }
}

fn stands_at(s: &[char], pat: &[char], i: usize) -> (r: bool)
    requires
        i + pat@.len() <= s@.len(),
    ensures
        r == occurs_at(s@, pat@, i as int),
{
    let size: usize = s.len();
    let mut j: usize = 0;
    while j < pat.len()
        invariant
            i + pat@.len() <= size,
            size == s@.len(),
            j <= pat@.len(),
            forall|k: int| 0 <= k < j ==> s@[i + k] == pat@[k],
        decreases pat@.len() - j,
    {
        if s[i + j] != pat[j] {
            assert(s@.subrange(i as int, i + pat@.len())[j as int] == s@[i + j]);
            return false;
        }
        j += 1;
    }
    assert(s@.subrange(i as int, i + pat@.len()) =~= pat@);
    true
}

/// The first position at or after `from` where `pat` stands in `s`.
pub fn position_from(s: &[char], pat: &[char], from: usize) -> (r: Option<usize>)
    ensures
        match r {
            Some(i) => find_from(s@, pat@, from as int) == Some(i as int),
            None => find_from(s@, pat@, from as int) is None,
        },
{
    if pat.len() > s.len() {
        return None;
    }
    let last: usize = s.len() - pat.len();
    let mut i: usize = from;
    while i <= last
        invariant
            last + pat@.len() == s@.len(),
            find_from(s@, pat@, from as int) == find_from(s@, pat@, i as int),
        decreases s@.len() + 1 - i,
    {
        if stands_at(s, pat, i) {
            return Some(i);
        }
        if i == last {
            assert(find_from(s@, pat@, i + 1) is None);
            return None;
        }
        i += 1;
    }
    None
}

/// Whether `pat` stands somewhere in `s`.
pub fn has_text(s: &str, pat: &str) -> (r: bool)
    ensures
        r == contains_text(s@, pat@),
{
    let a = chars_of(s);
    let b = chars_of(pat);
    proof {
        find_from_is_first(s@, pat@, 0);
    }
    position_from(a.as_slice(), b.as_slice(), 0).is_some()
}

/// The pieces of `s` between the occurrences of `sep`. There is always at
/// least one piece, and one more than there are separators.
pub open spec fn split(s: Seq<char>, sep: char) -> Seq<Seq<char>>
    decreases s.len(),
{
    if s.len() == 0 {
        seq![Seq::empty()]
    } else {
        let front = split(s.drop_last(), sep);
        if s.last() == sep {
            front.push(Seq::empty())
        } else {
            front.drop_last().push(front.last().push(s.last()))
        }
    }
}

/// A text without the separator is its own only piece.
pub proof fn split_of_plain(s: Seq<char>, sep: char)
    requires
        !s.contains(sep),
    ensures
        split(s, sep) == seq![s],
    decreases s.len(),
{
    if s.len() == 0 {
        assert(s =~= Seq::empty());
    } else {
        assert forall|c: char| s.drop_last().contains(c) implies s.contains(c) by {
            let i = choose|i: int| 0 <= i < s.drop_last().len() && s.drop_last()[i] == c;
            assert(s[i] == c);
        }
        split_of_plain(s.drop_last(), sep);
        assert(s.last() != sep);
        assert(s.drop_last().push(s.last()) =~= s);
        assert(split(s, sep) =~= seq![s]);
    }
}

/// The pieces of two texts joined by the separator are the pieces of the one
/// and then those of the other, if the first has none.
pub proof fn split_of_joined(a: Seq<char>, sep: char, b: Seq<char>)
    requires
        !a.contains(sep),
    ensures
        split(a + seq![sep] + b, sep) == seq![a] + split(b, sep),
        split(b, sep).len() > 0,
    decreases b.len(),
{
    let whole = a + seq![sep] + b;
    if b.len() == 0 {
        split_of_plain(a, sep);
        assert(whole.drop_last() =~= a);
        assert(whole.last() == sep);
        assert(split(whole, sep) =~= seq![a] + split(b, sep));
    } else {
        split_of_joined(a, sep, b.drop_last());
        assert(whole.drop_last() =~= a + seq![sep] + b.drop_last());
        assert(whole.last() == b.last());
        let front = split(b.drop_last(), sep);
        assert((seq![a] + front).drop_last() =~= seq![a] + front.drop_last());
        assert((seq![a] + front).last() == front.last());
        assert(split(whole, sep) =~= seq![a] + split(b, sep));
    }
}

/// The characters of each vector of a sequence of vectors.
pub open spec fn char_views(parts: Seq<Vec<char>>) -> Seq<Seq<char>> {
    parts.map_values(|p: Vec<char>| p@)
}

/// The pieces of `chars` between the occurrences of `sep`.
pub fn split_on(chars: &[char], sep: char) -> (r: Vec<Vec<char>>)
    ensures
        char_views(r@) == split(chars@, sep),
{
    let mut parts: Vec<Vec<char>> = Vec::new();
    let mut piece: Vec<char> = Vec::new();
    let mut i: usize = 0;
    assert(chars@.take(0) =~= Seq::empty());
    assert(char_views(parts@).push(piece@) =~= seq![Seq::empty()]);
    while i < chars.len()
        invariant
            i <= chars@.len(),
            split(chars@.take(i as int), sep) == char_views(parts@).push(piece@),
        decreases chars@.len() - i,
    {
        let ghost front = chars@.take(i as int);
        let ghost parts_before = parts@;
        let ghost piece_before = piece@;
        let c = chars[i];
        assert(chars@.take(i + 1).drop_last() =~= front);
        assert(chars@.take(i + 1).last() == c);
        if c == sep {
            let done = piece;
            piece = Vec::new();
            parts.push(done);
            assert(char_views(parts@) =~= char_views(parts_before).push(piece_before));
            assert(piece@ =~= Seq::empty());
        } else {
            piece.push(c);
            assert(char_views(parts_before).push(piece_before).drop_last() =~= char_views(
                parts_before,
            ));
        }
        i += 1;
    }
    assert(chars@.take(i as int) =~= chars@);
    let ghost parts_before = parts@;
    let ghost piece_before = piece@;
    parts.push(piece);
    assert(char_views(parts@) =~= char_views(parts_before).push(piece_before));
    parts
}

/// A text is trimmed of nothing but the longest runs of the class at its ends:
/// what is left is a part of the text, all before and behind it is of the class,
/// and neither its first nor its last character is.
pub proof fn trimming_leaves_what_lies_between_the_ends(s: Seq<char>, class: CharClass) -> (ends: (
    int,
    int,
))
    ensures
        0 <= ends.0 <= ends.1 <= s.len(),
        trim(s, class) == s.subrange(ends.0, ends.1),
        forall|i: int| 0 <= i < ends.0 ==> class.has(#[trigger] s[i]),
        forall|i: int| ends.1 <= i < s.len() ==> class.has(#[trigger] s[i]),
        ends.0 < ends.1 ==> !class.has(s[ends.0]) && !class.has(s[ends.1 - 1]),
{
    let from = trimmed_start_at(s, class);
    let rest = s.subrange(from, s.len() as int);
    let to = trimmed_end_at(rest, class);
    assert(rest.subrange(0, to) =~= s.subrange(from, from + to));
    assert forall|i: int| from + to <= i < s.len() implies class.has(#[trigger] s[i]) by {
        assert(rest[i - from] == s[i]);
    }
    if to > 0 {
        assert(rest[to - 1] == s[from + to - 1]);
        assert(rest[0] == s[from]);
    }
    (from, from + to)
}

proof fn trimmed_start_at(s: Seq<char>, class: CharClass) -> (from: int)
    ensures
        0 <= from <= s.len(),
        trim_start(s, class) == s.subrange(from, s.len() as int),
        forall|i: int| 0 <= i < from ==> class.has(#[trigger] s[i]),
        from < s.len() ==> !class.has(s[from]),
    decreases s.len(),
{
    if s.len() > 0 && class.has(s[0]) {
        let rest = s.skip(1);
        let from = trimmed_start_at(rest, class);
        assert(rest.subrange(from, rest.len() as int) =~= s.subrange(from + 1, s.len() as int));
        assert forall|i: int| 0 <= i < from + 1 implies class.has(#[trigger] s[i]) by {
            if i > 0 {
                assert(rest[i - 1] == s[i]);
            }
        }
        if from < rest.len() {
            assert(rest[from] == s[from + 1]);
        }
        from + 1
    } else {
        assert(s.subrange(0, s.len() as int) =~= s);
        0
    }
}

/// A text is trimmed at its end of nothing but the longest run of the class
/// there.
pub proof fn trimmed_end_at(s: Seq<char>, class: CharClass) -> (to: int)
    ensures
        0 <= to <= s.len(),
        trim_end(s, class) == s.subrange(0, to),
        forall|i: int| to <= i < s.len() ==> class.has(#[trigger] s[i]),
        to > 0 ==> !class.has(s[to - 1]),
    decreases s.len(),
{
    if s.len() > 0 && class.has(s.last()) {
        let rest = s.drop_last();
        let to = trimmed_end_at(rest, class);
        assert(rest.subrange(0, to) =~= s.subrange(0, to));
        assert forall|i: int| to <= i < s.len() implies class.has(#[trigger] s[i]) by {
            if i < rest.len() {
                assert(rest[i] == s[i]);
            }
        }
        to
    } else {
        assert(s.subrange(0, s.len() as int) =~= s);
        s.len() as int
    }
}

/// Characters of the class around a text are trimmed off, however many there
/// are, and the text itself is left whole.
pub proof fn trimming_undoes_padding(
    before: Seq<char>,
    s: Seq<char>,
    behind: Seq<char>,
    class: CharClass,
)
    requires
        forall|i: int| 0 <= i < before.len() ==> class.has(#[trigger] before[i]),
        forall|i: int| 0 <= i < behind.len() ==> class.has(#[trigger] behind[i]),
        s.len() > 0,
        !class.has(s[0]),
        !class.has(s.last()),
    ensures
        trim(before + s + behind, class) == s,
{
    let whole = before + s + behind;
    let ends = trimming_leaves_what_lies_between_the_ends(whole, class);
    let (from, to) = (before.len() as int, (before.len() + s.len()) as int);
    assert(whole[from] == s[0]);
    assert(whole[to - 1] == s.last());
    assert(ends.0 <= from && to <= ends.1);
    if ends.0 < from {
        assert(whole[ends.0] == before[ends.0]);
    }
    if ends.1 > to {
        assert(whole[ends.1 - 1] == behind[ends.1 - 1 - to]);
    }
    assert(whole.subrange(from, to) =~= s);
}

/// The texts with the separator between each two.
pub open spec fn joined_by(parts: Seq<Seq<char>>, sep: char) -> Seq<char>
    decreases parts.len(),
{
    if parts.len() == 0 {
        Seq::empty()
    } else if parts.len() == 1 {
        parts[0]
    } else {
        joined_by(parts.drop_last(), sep) + seq![sep] + parts.last()
    }
}

/// The pieces of a text, joined by the separator, are the text again, and none
/// of them holds the separator.
pub proof fn pieces_make_up_the_text(s: Seq<char>, sep: char)
    ensures
        split(s, sep).len() > 0,
        joined_by(split(s, sep), sep) == s,
        forall|i: int| 0 <= i < split(s, sep).len() ==> !(#[trigger] split(s, sep)[i]).contains(sep),
    decreases s.len(),
{
    let parts = split(s, sep);
    if s.len() == 0 {
        assert(joined_by(parts, sep) =~= s);
    } else {
        let rest = s.drop_last();
        let front = split(rest, sep);
        pieces_make_up_the_text(rest, sep);
        if s.last() == sep {
            assert(parts.drop_last() =~= front);
            assert(joined_by(parts, sep) =~= s);
        } else {
            let grown = front.last().push(s.last());
            assert(parts.drop_last() =~= front.drop_last());
            assert(parts.last() == grown);
            assert(!grown.contains(sep)) by {
                if grown.contains(sep) {
                    let i = choose|i: int| 0 <= i < grown.len() && grown[i] == sep;
                    assert(front.last()[i] == sep);
                    assert(front.last().contains(sep));
                }
            }
            assert(rest.push(s.last()) =~= s);
            if front.len() == 1 {
                assert(parts[0] == grown);
                assert(joined_by(parts, sep) =~= s);
            } else {
                assert(joined_by(parts, sep) =~= joined_by(front, sep).push(s.last()));
            }
        }
    }
}

/// A text is found in another exactly when the other is made up of something,
/// the text, and something more.
pub proof fn found_texts_are_parts(s: &str, pat: &str, r: bool)
    requires
        call_ensures(has_text, (s, pat), r),
    ensures
        r <==> exists|before: Seq<char>, behind: Seq<char>|
            s@ == #[trigger] (before + pat@ + behind),
{
    if r {
        let i = choose|i: int| occurs_at(s@, pat@, i);
        let before = s@.subrange(0, i);
        let behind = s@.subrange(i + pat@.len(), s@.len() as int);
        assert(s@ =~= before + pat@ + behind);
    }
    if exists|before: Seq<char>, behind: Seq<char>| s@ == #[trigger] (before + pat@ + behind) {
        let (before, behind) = choose|before: Seq<char>, behind: Seq<char>|
            s@ == #[trigger] (before + pat@ + behind);
        assert(s@.subrange(before.len() as int, (before.len() + pat@.len()) as int) =~= pat@);
        assert(occurs_at(s@, pat@, before.len() as int));
    }
}

/// White space is the tabulator and the four line breaks behind it, the space,
/// and beyond ASCII the next-line, the spaces, and the line and paragraph
/// separators.
pub proof fn white_space_is_blank_or_breaks_a_line(c: char)
    ensures
        is_white_space(c) <==> {
            ||| c == '\t' || c == '\n' || c == '\u{b}' || c == '\u{c}' || c == '\r' || c == ' '
            ||| c == '\u{85}' || c == '\u{a0}' || c == '\u{1680}'
            ||| '\u{2000}' <= c <= '\u{200a}'
            ||| c == '\u{2028}' || c == '\u{2029}' || c == '\u{202f}' || c == '\u{205f}'
            ||| c == '\u{3000}'
        },
{
}

} // verus!
