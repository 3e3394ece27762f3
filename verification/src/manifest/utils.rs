use vstd::prelude::*;

verus! {

/// Number of occurrences of `c` in `s`.
pub open spec fn char_count(s: Seq<char>, c: char) -> nat
    decreases s.len(),
{
    if s.len() == 0 {
        0
    } else {
        char_count(s.drop_last(), c) + if s.last() == c { 1nat } else { 0nat }
    }
}

/// Number of pieces that splitting `s` on `.` yields.
pub open spec fn dot_separated_parts(s: Seq<char>) -> nat {
    char_count(s, '.') + 1
}

/// The version string with a `.0` patch component added when it has exactly
/// a major and a minor component.
pub open spec fn spec_sanitize_semver_version(s: Seq<char>) -> Seq<char> {
    if dot_separated_parts(s) == 2 {
        s + seq!['.', '0']
    } else {
        s
    }
}

proof fn lemma_char_count_concat(s: Seq<char>, t: Seq<char>, c: char)
    ensures
        char_count(s + t, c) == char_count(s, c) + char_count(t, c),
    decreases t.len(),
{
    if t.len() > 0 {
        lemma_char_count_concat(s, t.drop_last(), c);
        assert((s + t).drop_last() == s + t.drop_last());
    } else {
        assert(s + t == s);
    }
}

/// Sanitizing a version twice gives what sanitizing it once gives.
pub proof fn lemma_sanitize_idempotent(s: Seq<char>)
    ensures
        spec_sanitize_semver_version(spec_sanitize_semver_version(s)) == spec_sanitize_semver_version(s),
{
    if dot_separated_parts(s) == 2 {
        let t = seq!['.', '0'];
        lemma_char_count_concat(s, t, '.');
        assert(t.drop_last() == seq!['.']);
        assert(seq!['.'].drop_last() == Seq::<char>::empty());
        assert(char_count(Seq::<char>::empty(), '.') == 0);
        assert(char_count(seq!['.'], '.') == 1);
        assert(char_count(t, '.') == 1);
    }
}

/// `s` holds the character `c` at exactly one position.
pub open spec fn holds_once(s: Seq<char>, c: char) -> bool {
    exists|i: int|
        0 <= i < s.len() && s[i] == c && forall|j: int| 0 <= j < s.len() && j != i ==> s[j] != c
}

proof fn lemma_char_count_zero(s: Seq<char>, c: char)
    ensures
        char_count(s, c) == 0 <==> forall|j: int| 0 <= j < s.len() ==> s[j] != c,
    decreases s.len(),
{
    if s.len() > 0 {
        let t = s.drop_last();
        lemma_char_count_zero(t, c);
        assert forall|j: int| 0 <= j < t.len() implies t[j] == s[j] by {}
        if char_count(s, c) == 0 {
            assert forall|j: int| 0 <= j < s.len() implies s[j] != c by {
                if j < t.len() {
                    assert(t[j] == s[j]);
                }
            }
        }
    }
}

proof fn lemma_char_count_one(s: Seq<char>, c: char)
    ensures
        char_count(s, c) == 1 <==> holds_once(s, c),
    decreases s.len(),
{
    if s.len() > 0 {
        let t = s.drop_last();
        let n = (s.len() - 1) as int;
        lemma_char_count_one(t, c);
        lemma_char_count_zero(t, c);
        assert forall|j: int| 0 <= j < t.len() implies t[j] == s[j] by {}
        if char_count(s, c) == 1 {
            if s.last() == c {
                assert forall|j: int| 0 <= j < s.len() && j != n implies s[j] != c by {
                    assert(t[j] == s[j]);
                }
                assert(s[n] == c);
            } else {
                assert(holds_once(t, c));
                let i = choose|i: int|
                    0 <= i < t.len() && t[i] == c && forall|j: int|
                        0 <= j < t.len() && j != i ==> t[j] != c;
                assert(s[i] == c);
                assert forall|j: int| 0 <= j < s.len() && j != i implies s[j] != c by {
                    if j < t.len() {
                        assert(t[j] == s[j]);
                    }
                }
            }
        }
        if holds_once(s, c) {
            let i = choose|i: int|
                0 <= i < s.len() && s[i] == c && forall|j: int| 0 <= j < s.len() && j != i ==> s[j] != c;
            if i == n {
                assert forall|j: int| 0 <= j < t.len() implies t[j] != c by {
                    assert(t[j] == s[j]);
                }
            } else {
                assert(s.last() != c);
                assert(t[i] == c);
                assert forall|j: int| 0 <= j < t.len() && j != i implies t[j] != c by {
                    assert(t[j] == s[j]);
                }
                assert(holds_once(t, c));
            }
        }
    } else {
        assert(!holds_once(s, c));
    }
}

/// A version with exactly one `.` gets `.0` appended; any other string is left
/// as it is.
pub proof fn lemma_sanitize_adds_patch(s: Seq<char>)
    ensures
        holds_once(s, '.') ==> spec_sanitize_semver_version(s) == s + seq!['.', '0'],
        !holds_once(s, '.') ==> spec_sanitize_semver_version(s) == s,
{
    lemma_char_count_one(s, '.');
}

/// Turns a `major.minor` version into `major.minor.0`; any other string is
/// returned as it is.
pub fn sanitize_semver_version(version_str: &str) -> (res: String)
    ensures
        res@ == spec_sanitize_semver_version(version_str@),
{
    let n = version_str.unicode_len();
    let mut dots: usize = 0;
    let mut i: usize = 0;
    while i < n
        invariant
            n == version_str@.len(),
            i <= n,
            dots == char_count(version_str@.take(i as int), '.'),
            dots <= i,
        decreases n - i,
    {
        let c = version_str.get_char(i);
        assert(version_str@.take(i + 1).drop_last() == version_str@.take(i as int));
        if c == '.' {
            dots = dots + 1;
        }
        i = i + 1;
    }
    assert(version_str@.take(n as int) == version_str@);
    let mut res = String::from_str(version_str);
    if dots == 1 {
        let suffix = ".0";
        proof {
            reveal_strlit(".0");
        }
        res.append(suffix);
    }
    res
}

} // verus!
