use vstd::prelude::*;

verus! {

/// What `semver::Version::parse` makes of `s`: accepted, or refused with the
/// message of its error.
pub uninterp spec fn semver_parse(s: Seq<char>) -> Result<(), Seq<char>>;

/// The sign of the order of version `a` against version `b`, as the ordering of
/// the `semver::Version` values parsed from them gives it: semver precedence,
/// with build metadata compared last.
pub uninterp spec fn semver_precedence(a: Seq<char>, b: Seq<char>) -> int;

/// Whether `semver::Version::parse` accepts `s`.
pub open spec fn semver_valid(s: Seq<char>) -> bool {
    semver_parse(s) is Ok
}

/// The message of the parse error for the first of `a` and `b` that
/// `semver::Version::parse` refuses.
pub open spec fn semver_parse_error(a: Seq<char>, b: Seq<char>) -> Seq<char> {
    match semver_parse(a) {
        Err(m) => m,
        Ok(_) => match semver_parse(b) {
            Err(m) => m,
            Ok(_) => Seq::empty(),
        },
    }
}

/// Parses `s` with `semver::Version::parse` and keeps whether it was accepted,
/// or the text of the parse error. The contract claims that the outcome depends
/// on `s` alone.
#[verifier::external_body]
fn semver_check(s: &str) -> (res: Result<(), String>)
    ensures
        match res {
            Ok(()) => semver_parse(s@) == Ok::<(), Seq<char>>(()),
            Err(m) => semver_parse(s@) == Err::<(), Seq<char>>(m@),
        },
{
    semver::Version::parse(s).map(|_| ()).map_err(|e| e.to_string())
}

/// Compares the versions parsed from `a` and `b` with the ordering of
/// `semver::Version`. The contract claims a sign that depends on `a` and `b`
/// alone.
#[verifier::external_body]
fn semver_order(a: &str, b: &str) -> (res: i8)
    requires
        semver_valid(a@),
        semver_valid(b@),
    ensures
        -1 <= res <= 1,
        res == semver_precedence(a@, b@),
{
    let va = semver::Version::parse(a).unwrap();
    let vb = semver::Version::parse(b).unwrap();
    match va.cmp(&vb) {
        std::cmp::Ordering::Less => -1,
        std::cmp::Ordering::Equal => 0,
        std::cmp::Ordering::Greater => 1,
    }
}

/// The sign of the semver precedence of `a` against `b`, or the parse error of
/// the first of them that is no semver version.
pub fn compare_semver(a: &str, b: &str) -> (res: Result<i8, String>)
    ensures
        res is Ok <==> (semver_valid(a@) && semver_valid(b@)),
        res matches Ok(o) ==> o == semver_precedence(a@, b@) && -1 <= o <= 1,
        res matches Err(m) ==> m@ == semver_parse_error(a@, b@),
{
    match semver_check(a) {
        Err(m) => Err(m),
        Ok(()) => match semver_check(b) {
            Err(m) => Err(m),
            Ok(()) => Ok(semver_order(a, b)),
        },
    }
}

} // verus!
