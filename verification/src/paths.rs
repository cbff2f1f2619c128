//! Paths as plain text.
//!
//! The library never touches the file system. A path is a string, and a
//! component is appended with a forward slash, which every supported platform
//! accepts as a separator.

use vstd::prelude::*;
use vstd::string::*;

verus! {

/// The path of the entry `part` inside the directory `base`.
///
/// An empty `base` stands for the current directory, and a `base` that already
/// ends in a slash gets no second one.
pub open spec fn child_of(base: Seq<char>, part: Seq<char>) -> Seq<char> {
    if base.len() == 0 {
        part
    } else if base.last() == '/' {
        base + part
    } else {
        base + seq!['/'] + part
    }
}

/// Appends the component `part` to the directory `base`.
pub fn join_path(base: &str, part: &str) -> (path: String)
    ensures
        path@ == child_of(base@, part@),
{
    let n: usize = base.unicode_len();
    if n == 0 {
        let path = String::from_str(part);
        assert(path@ =~= child_of(base@, part@));
        path
    } else if base.get_char(n - 1) == '/' {
        let mut path = String::from_str(base);
        path.append(part);
        path
    } else {
        let mut path = String::from_str(base);
        path.append("/");
        path.append(part);
        proof {
            reveal_strlit("/");
            assert(path@ =~= child_of(base@, part@));
        }
        path
    }
}

/// The path two components below `base`.
pub open spec fn child2(base: Seq<char>, a: Seq<char>, b: Seq<char>) -> Seq<char> {
    child_of(child_of(base, a), b)
}

/// The path three components below `base`.
pub open spec fn child3(base: Seq<char>, a: Seq<char>, b: Seq<char>, c: Seq<char>) -> Seq<char> {
    child_of(child2(base, a, b), c)
}

/// The path four components below `base`.
pub open spec fn child4(
    base: Seq<char>,
    a: Seq<char>,
    b: Seq<char>,
    c: Seq<char>,
    d: Seq<char>,
) -> Seq<char> {
    child_of(child3(base, a, b, c), d)
}

/// Appends two components to `base`.
pub fn join2(base: &str, a: &str, b: &str) -> (path: String)
    ensures
        path@ == child2(base@, a@, b@),
{
    let first = join_path(base, a);
    join_path(first.as_str(), b)
}

/// Appends three components to `base`.
pub fn join3(base: &str, a: &str, b: &str, c: &str) -> (path: String)
    ensures
        path@ == child3(base@, a@, b@, c@),
{
    let first = join2(base, a, b);
    join_path(first.as_str(), c)
}

/// Appends four components to `base`.
pub fn join4(base: &str, a: &str, b: &str, c: &str, d: &str) -> (path: String)
    ensures
        path@ == child4(base@, a@, b@, c@, d@),
{
    let first = join3(base, a, b, c);
    join_path(first.as_str(), d)
}

} // verus!
