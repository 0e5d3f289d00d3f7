//! File paths, as text.
use vstd::prelude::*;
use vstd::string::*;

use crate::text::chars_of;

verus! {

/// `name` below the directory `base`. An absolute `name` stands for itself, and
/// no separator is put behind an empty `base` or behind one that ends in one.
pub open spec fn joined(base: Seq<char>, name: Seq<char>) -> Seq<char> {
    if name.len() > 0 && name[0] == '/' {
        name
    } else if base.len() == 0 || base.last() == '/' {
        base + name
    } else {
        base + seq!['/'] + name
    }
}

/// `name` below the directory `base`.
pub fn join(base: &str, name: &str) -> (r: String)
    ensures
        r@ == joined(base@, name@),
{
    let base_chars = chars_of(base);
    let name_chars = chars_of(name);
    let mut out = String::new();
    if name_chars.len() > 0 && name_chars[0] == '/' {
        out.append(name);
        assert(out@ =~= name@);
        return out;
    }
    out.append(base);
    if base_chars.len() > 0 && base_chars[base_chars.len() - 1] != '/' {
        out.push('/');
    }
    out.append(name);
    assert(out@ =~= joined(base@, name@));
    out
}

/// Different relative names below one directory are different paths.
pub proof fn joined_names_differ(base: Seq<char>, one: Seq<char>, other: Seq<char>)
    requires
        one.len() > 0 && one[0] != '/',
        other.len() > 0 && other[0] != '/',
        joined(base, one) == joined(base, other),
    ensures
        one == other,
{
    let whole = joined(base, one);
    let start = whole.len() - one.len();
    assert(one =~= whole.subrange(start, whole.len() as int));
    assert(other =~= whole.subrange(start, whole.len() as int));
}

/// A name below a directory that is itself below `base` is a longer name below
/// `base`.
pub proof fn joined_twice(base: Seq<char>, dir: Seq<char>, name: Seq<char>)
    requires
        dir.len() > 0 && dir[0] != '/' && dir.last() != '/',
        name.len() > 0 && name[0] != '/',
    ensures
        joined(joined(base, dir), name) == joined(base, dir + seq!['/'] + name),
{
    assert(joined(base, dir).last() == dir.last());
    assert((dir + seq!['/'] + name)[0] == dir[0]);
    assert(joined(joined(base, dir), name) =~= joined(base, dir + seq!['/'] + name));
}

/// A relative name below a directory begins with the directory and ends with the
/// name, with one separator between them, which a directory that ends in one
/// brings along; below the empty directory, and where it is absolute, a name
/// stands for itself.
pub proof fn names_are_joined_by_one_separator(base: &str, name: &str, r: String)
    requires
        call_ensures(join, (base, name), r),
    ensures
        name@.len() > 0 && name@[0] == '/' ==> r@ == name@,
        name@.len() > 0 && name@[0] != '/' ==> {
            &&& base@.len() == 0 ==> r@ == name@
            &&& base@.len() > 0 && base@.last() == '/' ==> r@ == base@ + name@
            &&& base@.len() > 0 && base@.last() != '/' ==> r@ == base@.push('/') + name@
        },
{
    if base@.len() == 0 {
        assert(base@ + name@ =~= name@);
    }
    assert(base@ + seq!['/'] + name@ =~= base@.push('/') + name@);
}

} // verus!
