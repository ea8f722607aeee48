//! The library's path-splitting rule, used for the file-backed database
//! location and for the log destination. A location string is split at its
//! last `/`: the prefix is the directory that must exist before the file can
//! be opened (empty when the file lives in the current directory), and the
//! suffix is the base file name (empty when the location ends in `/` or is
//! empty, in which case no file could be opened there).
//!
//! This rule is the library's own, chosen deliberately for its directness
//! over the platform path API's conventions: a trailing `/` is not stripped
//! (`data/` names no base file and is rejected), and a component such as
//! `.` is treated as an ordinary file name like any other.

use vstd::prelude::*;
use vstd::string::StrSliceExecFns;
use vstd::string::StringExecFns;

verus! {

/// The base file name of a location: the characters after the last `/`, or
/// the whole string when it holds no `/`.
pub open spec fn base_name(s: Seq<char>) -> Seq<char>
    decreases s.len(),
{
    if s.len() == 0 {
        Seq::empty()
    } else if s.last() == '/' {
        Seq::empty()
    } else {
        base_name(s.drop_last()).push(s.last())
    }
}

/// The directory part of a location: the characters before the last `/`, or
/// the empty string when it holds no `/`.
pub open spec fn dir_of(s: Seq<char>) -> Seq<char>
    decreases s.len(),
{
    if s.len() == 0 {
        Seq::empty()
    } else if s.last() == '/' {
        s.drop_last()
    } else {
        dir_of(s.drop_last())
    }
}

proof fn lemma_split_no_slash(s: Seq<char>)
    requires
        forall|j: int| 0 <= j < s.len() ==> s[j] != '/',
    ensures
        dir_of(s) == Seq::<char>::empty(),
        base_name(s) == s,
    decreases s.len(),
{
    if s.len() == 0 {
        assert(base_name(s) =~= s);
    } else {
        lemma_split_no_slash(s.drop_last());
        assert(base_name(s) =~= s);
    }
}

proof fn lemma_split_at_slash(s: Seq<char>, i: int)
    requires
        0 < i <= s.len(),
        s[i - 1] == '/',
        forall|j: int| i <= j < s.len() ==> s[j] != '/',
    ensures
        dir_of(s) == s.subrange(0, i - 1),
        base_name(s) == s.subrange(i, s.len() as int),
    decreases s.len(),
{
    if i == s.len() {
        assert(dir_of(s) =~= s.subrange(0, i - 1));
        assert(base_name(s) =~= s.subrange(i, s.len() as int));
    } else {
        lemma_split_at_slash(s.drop_last(), i);
        assert(dir_of(s) =~= s.subrange(0, i - 1));
        assert(base_name(s) =~= s.subrange(i, s.len() as int));
    }
}

/// Splits a location into its directory part and its base file name.
pub fn split_path(path: &str) -> (r: (String, String))
    ensures
        r.0@ == dir_of(path@),
        r.1@ == base_name(path@),
{
    let len = path.unicode_len();
    let mut i: usize = len;
    loop
        invariant_except_break
            i <= len,
            len == path@.len(),
            forall|j: int| i <= j < len ==> path@[j] != '/',
        ensures
            i <= len,
            len == path@.len(),
            i == 0 || path@[i - 1] == '/',
            forall|j: int| i <= j < len ==> path@[j] != '/',
        decreases i,
    {
        if i == 0 {
            break;
        }
        if path.get_char(i - 1) == '/' {
            break;
        }
        i -= 1;
    }
    let dir = if i == 0 {
        proof {
            lemma_split_no_slash(path@);
        }
        String::new()
    } else {
        proof {
            lemma_split_at_slash(path@, i as int);
        }
        String::from_str(path.substring_char(0, i - 1))
    };
    let name = String::from_str(path.substring_char(i, len));
    (dir, name)
}

} // verus!
