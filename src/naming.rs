//! Test names, the declaration pattern that finds them, and the toolchain
//! arguments that run exactly one of them.

use vstd::prelude::*;
use vstd::string::*;

verus! {

/// The prefix that every Go test function name carries.
pub open spec fn test_prefix() -> Seq<char> {
    seq!['T', 'e', 's', 't']
}

pub open spec fn has_test_prefix(s: Seq<char>) -> bool {
    s.len() >= test_prefix().len() && s.subrange(0, test_prefix().len() as int) == test_prefix()
}

/// A name as the user typed it, turned into the name of the test function.
pub open spec fn normalized(s: Seq<char>) -> Seq<char> {
    if has_test_prefix(s) {
        s
    } else {
        test_prefix() + s
    }
}

/// Whether `name` already starts with `Test`.
pub fn starts_with_test_prefix(name: &str) -> (r: bool)
    ensures
        r == has_test_prefix(name@),
{
    let n = name.unicode_len();
    if n < 4 {
        return false;
    }
    let r = name.get_char(0) == 'T' && name.get_char(1) == 'e' && name.get_char(2) == 's'
        && name.get_char(3) == 't';
    proof {
        if r {
            assert(name@.subrange(0, 4) =~= test_prefix());
        } else {
            assert(name@.subrange(0, 4) != test_prefix()) by {
                if name@.subrange(0, 4) == test_prefix() {
                    assert(name@.subrange(0, 4)[0] == name@[0]);
                    assert(name@.subrange(0, 4)[1] == name@[1]);
                    assert(name@.subrange(0, 4)[2] == name@[2]);
                    assert(name@.subrange(0, 4)[3] == name@[3]);
                }
            }
        }
    }
    r
}

/// The test function name for `name`: `name` itself when it starts with
/// `Test`, else `Test` followed by `name`.
pub fn normalize_test_name(name: &str) -> (r: String)
    ensures
        r@ == normalized(name@),
{
    if starts_with_test_prefix(name) {
        name.to_owned()
    } else {
        let mut r = String::from_str("Test");
        proof {
            reveal_strlit("Test");
        }
        r.append(name);
        r
    }
}

/// Normalizing puts the prefix in front of a name that lacks it, and leaves
/// a name that has it as it is; a normalized name always has the prefix.
pub proof fn lemma_normalized(s: Seq<char>)
    ensures
        !has_test_prefix(s) ==> normalized(s) == test_prefix() + s,
        has_test_prefix(s) ==> normalized(s) == s,
        has_test_prefix(normalized(s)),
        normalized(normalized(s)) == normalized(s),
{
    if !has_test_prefix(s) {
        assert((test_prefix() + s).subrange(0, 4) =~= test_prefix());
    }
}

/// The line pattern of a declaration of test function `name`: the name, then
/// one parameter list that ends in a `*testing.T` parameter.
pub open spec fn declaration_pattern_of(name: Seq<char>) -> Seq<char> {
    "func "@ + name + "\\(.* \\*testing.T\\)"@
}

/// The filter that selects exactly the test function `name`.
pub open spec fn run_filter_of(name: Seq<char>) -> Seq<char> {
    "^"@ + name + "$"@
}

pub open spec fn ends_with(s: Seq<char>, suffix: Seq<char>) -> bool {
    s.len() >= suffix.len() && s.subrange(s.len() - suffix.len(), s.len() as int) == suffix
}

/// Whether a path names a Go test file.
pub open spec fn is_test_file_path(p: Seq<char>) -> bool {
    ends_with(p, "_test.go"@)
}

/// The arguments of `go` that run test function `name` verbosely, `count`
/// times when a count is given.
pub open spec fn toolchain_args_of(name: Seq<char>, count: Option<Seq<char>>) -> Seq<Seq<char>> {
    let head = seq!["test"@, "-v"@];
    let repeat = match count {
        Some(c) => seq!["-count"@, c],
        None => Seq::empty(),
    };
    head + repeat + seq!["-run"@, run_filter_of(name)]
}

/// The line pattern that finds the declaration of test function `name`.
pub fn declaration_pattern(name: &str) -> (r: String)
    ensures
        r@ == declaration_pattern_of(name@),
{
    let mut r = String::from_str("func ");
    r.append(name);
    r.append("\\(.* \\*testing.T\\)");
    r
}

/// The anchored filter `^name$`.
pub fn run_filter(name: &str) -> (r: String)
    ensures
        r@ == run_filter_of(name@),
{
    let mut r = String::from_str("^");
    r.append(name);
    r.append("$");
    r
}

/// Whether `s` ends with `suffix`, compared character by character.
pub fn str_ends_with(s: &str, suffix: &str) -> (r: bool)
    ensures
        r == ends_with(s@, suffix@),
{
    let n = s.unicode_len();
    let m = suffix.unicode_len();
    if n < m {
        return false;
    }
    let start = n - m;
    let mut i: usize = 0;
    while i < m
        invariant
            n == s@.len(),
            m == suffix@.len(),
            start == n - m,
            i <= m,
            forall|k: int| 0 <= k < i ==> s@[start + k] == suffix@[k],
        decreases m - i,
    {
        if s.get_char(start + i) != suffix.get_char(i) {
            assert(s@.subrange(start as int, n as int)[i as int] != suffix@[i as int]);
            return false;
        }
        i = i + 1;
    }
    assert(s@.subrange(start as int, n as int) =~= suffix@);
    true
}

/// Whether `path` names a Go test file, one whose name ends in `_test.go`.
pub fn is_test_file(path: &str) -> (r: bool)
    ensures
        r == is_test_file_path(path@),
{
    str_ends_with(path, "_test.go")
}

/// The arguments of `go` that run test function `name` verbosely, with
/// `-count` when a repeat count is given.
pub fn toolchain_args(name: &str, count: Option<&str>) -> (r: Vec<String>)
    ensures
        r@.map_values(|a: String| a@) == toolchain_args_of(
            name@,
            match count {
                Some(c) => Some(c@),
                None => None,
            },
        ),
{
    let mut r: Vec<String> = Vec::new();
    r.push(String::from_str("test"));
    r.push(String::from_str("-v"));
    match count {
        Some(c) => {
            r.push(String::from_str("-count"));
            r.push(c.to_owned());
        },
        None => {},
    }
    r.push(String::from_str("-run"));
    r.push(run_filter(name));
    proof {
        let spec_count = match count {
            Some(c) => Some(c@),
            None => None,
        };
        assert(r@.map_values(|a: String| a@) =~= toolchain_args_of(name@, spec_count));
    }
    r
}

} // verus!
