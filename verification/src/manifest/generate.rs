use vstd::prelude::*;
use crate::manifest::utils::char_count;

verus! {

/// Errors of the tool that fetches the manifest JSON schemas.
#[derive(Clone, Debug)]
pub enum Error {
    SchemaFetch(String),
}

impl Error {
    /// The message the error is displayed with.
    pub fn to_string(&self) -> (res: String)
        ensures
            match self {
                Error::SchemaFetch(s) => res@ == "Error fetching Wrap jsonschemas through HTTP: `"@ + s@
                    + "`"@,
            },
    {
        match self {
            Error::SchemaFetch(s) => crate::manifest::error::concat3(
                "Error fetching Wrap jsonschemas through HTTP: `",
                s.as_str(),
                "`",
            ),
        }
    }
}

/// `s` without the occurrences of `c`.
pub open spec fn without_char(s: Seq<char>, c: char) -> Seq<char>
    decreases s.len(),
{
    if s.len() == 0 {
        s
    } else if s.last() == c {
        without_char(s.drop_last(), c)
    } else {
        without_char(s.drop_last(), c).push(s.last())
    }
}

/// The suffix that names a format version in generated code: the version
/// without its dots when it has any, else without its underscores.
pub open spec fn spec_version_suffix(v: Seq<char>) -> Seq<char> {
    if char_count(v, '.') > 0 {
        without_char(v, '.')
    } else if char_count(v, '_') > 0 {
        without_char(v, '_')
    } else {
        v
    }
}

fn remove_char(v: &str, c: char) -> (res: (String, bool))
    ensures
        res.0@ == without_char(v@, c),
        res.1 == (char_count(v@, c) > 0),
{
    let n = v.unicode_len();
    let mut out = String::new();
    let mut found = false;
    let mut i: usize = 0;
    while i < n
        invariant
            n == v@.len(),
            i <= n,
            out@ == without_char(v@.take(i as int), c),
            found == (char_count(v@.take(i as int), c) > 0),
        decreases n - i,
    {
        let ch = v.get_char(i);
        assert(v@.take(i + 1).drop_last() == v@.take(i as int));
        if ch == c {
            found = true;
        } else {
            let piece = v.substring_char(i, i + 1);
            assert(piece@ =~= seq![ch]);
            out.append(piece);
        }
        i = i + 1;
    }
    assert(v@.take(n as int) == v@);
    (out, found)
}

/// The suffix that names format version `v` in generated code.
pub fn version_suffix(v: &str) -> (res: String)
    ensures
        res@ == spec_version_suffix(v@),
{
    let (without_dots, has_dots) = remove_char(v, '.');
    if has_dots {
        return without_dots;
    }
    let (without_underscores, has_underscores) = remove_char(v, '_');
    if has_underscores {
        return without_underscores;
    }
    String::from_str(v)
}

} // verus!
