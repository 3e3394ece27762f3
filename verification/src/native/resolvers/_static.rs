use vstd::prelude::*;
use crate::native::error::FFIError;
use crate::native::resolvers::uri_package_or_wrapper::{FFIUriPackageOrWrapper, UriPackageOrWrapper};
use crate::manifest::migration_path::str_eq;
use crate::native::uri::{wrap_uri_parse, FFIUri};

verus! {

/// A resolver that answers the URIs of a fixed table.
pub struct FFIStaticUriResolver<P, W> {
    /// The table: each URI with what it resolves to.
    pub uri_map: Vec<(FFIUri, UriPackageOrWrapper<P, W>)>,
}

/// The key `key` parses as a wrap URI.
pub open spec fn parses(key: Seq<char>) -> bool {
    wrap_uri_parse(key) is Ok
}

/// `u` holds the parts that parsing `key` gives.
pub open spec fn uri_of(key: Seq<char>, u: FFIUri) -> bool {
    wrap_uri_parse(key) matches Ok((a, p, full)) && u.authority@ == a && u.path@ == p && u.uri@
        == full
}

/// Every key of `entries` parses as a wrap URI.
pub open spec fn all_keys_parse<V>(entries: Seq<(String, V)>) -> bool {
    forall|i: int| 0 <= i < entries.len() ==> parses(#[trigger] entries[i].0@)
}

/// The full form of the URI that `key` parses as.
pub open spec fn full_uri(key: Seq<char>) -> Seq<char> {
    match wrap_uri_parse(key) {
        Ok((_, _, u)) => u,
        Err(_) => Seq::empty(),
    }
}

/// No entry after the `i`-th of `entries` has a key that parses as the same
/// URI: the `i`-th is the one that holds for that URI.
pub open spec fn last_for_uri<V>(entries: Seq<(String, V)>, i: int) -> bool {
    forall|j: int|
        i < j < entries.len() ==> full_uri(#[trigger] entries[j].0@) != full_uri(entries[i].0@)
}

/// `entry` is the URI and the value of the last entry of `entries` whose key
/// parses as that URI.
pub open spec fn from_last_entry<P, W>(
    entries: Seq<(String, FFIUriPackageOrWrapper<P, W>)>,
    entry: (FFIUri, UriPackageOrWrapper<P, W>),
) -> bool {
    exists|i: int|
        {
            &&& 0 <= i < entries.len()
            &&& last_for_uri(entries, i)
            &&& uri_of(#[trigger] entries[i].0@, entry.0)
            &&& entry.1 == entries[i].1.0
        }
}

/// Some entry of `table` has the URI with the full form `u`.
pub open spec fn has_uri<V>(table: Seq<(FFIUri, V)>, u: Seq<char>) -> bool {
    exists|k: int| 0 <= k < table.len() && (#[trigger] table[k]).0.uri@ == u
}

/// `table` maps the URIs that the keys of `entries` parse as to their values:
/// each URI occurs once; each entry of the table is the URI and the value of
/// the last entry whose key parses as that URI; and every key's URI has an
/// entry.
pub open spec fn table_of<P, W>(
    entries: Seq<(String, FFIUriPackageOrWrapper<P, W>)>,
    table: Seq<(FFIUri, UriPackageOrWrapper<P, W>)>,
) -> bool {
    &&& forall|a: int, b: int|
        0 <= a < b < table.len() ==> #[trigger] table[a].0.uri@ != #[trigger] table[b].0.uri@
    &&& forall|k: int| 0 <= k < table.len() ==> from_last_entry(entries, #[trigger] table[k])
    &&& forall|i: int| 0 <= i < entries.len() ==> has_uri(table, full_uri(#[trigger] entries[i].0@))
}

/// The index of the entry of `table` whose URI has the full form `u`.
fn find_uri<V>(table: &Vec<(FFIUri, V)>, u: &str) -> (res: Option<usize>)
    ensures
        match res {
            Some(k) => k < table.len() && table@[k as int].0.uri@ == u@,
            None => forall|k: int| 0 <= k < table.len() ==> table@[k].0.uri@ != u@,
        },
{
    let mut i: usize = 0;
    while i < table.len()
        invariant
            i <= table.len(),
            forall|k: int| 0 <= k < i ==> table@[k].0.uri@ != u@,
        decreases table.len() - i,
    {
        if str_eq(table[i].0.uri.as_str(), u) {
            return Some(i);
        }
        i = i + 1;
    }
    None
}

impl<P, W> FFIStaticUriResolver<P, W> {
    /// A resolver for the table `uri_map`, whose keys are parsed as wrap URIs;
    /// where several keys parse as the same URI, the last of them holds. The
    /// first key, in the order given, that does not parse makes the
    /// construction fail with that key's parse error.
    pub fn new(uri_map: Vec<(String, FFIUriPackageOrWrapper<P, W>)>) -> (res: Result<
        FFIStaticUriResolver<P, W>,
        FFIError,
    >)
        ensures
            res is Ok <==> all_keys_parse(uri_map@),
            res matches Ok(r) ==> table_of(uri_map@, r.uri_map@),
            res matches Err(e) ==> exists|i: int|
                #![trigger uri_map@[i]]
                {
                    &&& 0 <= i < uri_map@.len()
                    &&& all_keys_parse(uri_map@.take(i))
                    &&& wrap_uri_parse(uri_map@[i].0@) matches Err(m)
                    &&& e matches FFIError::UriParseError { err }
                    &&& err@ == m
                },
    {
        let ghost orig = uri_map@;
        let ghost mut src: Seq<int> = Seq::empty();
        let ghost mut n: int = 0;
        let mut rest = uri_map;
        let mut table: Vec<(FFIUri, UriPackageOrWrapper<P, W>)> = Vec::new();
        while rest.len() > 0
            invariant
                orig == uri_map@,
                0 <= n <= orig.len(),
                rest@ == orig.skip(n),
                forall|i: int| 0 <= i < n ==> parses(#[trigger] orig[i].0@),
                src.len() == table.len(),
                forall|k: int|
                    0 <= k < table.len() ==> {
                        &&& 0 <= #[trigger] src[k] < n
                        &&& uri_of(orig[src[k]].0@, table@[k].0)
                        &&& table@[k].1 == orig[src[k]].1.0
                        &&& forall|j: int|
                            src[k] < j < n ==> full_uri(#[trigger] orig[j].0@) != table@[k].0.uri@
                    },
                forall|a: int, b: int|
                    0 <= a < b < table.len() ==> #[trigger] table@[a].0.uri@ != #[trigger] table@[b].0.uri@,
                forall|i: int| 0 <= i < n ==> has_uri(table@, full_uri(#[trigger] orig[i].0@)),
            decreases rest.len(),
        {
            let (key, value) = rest.remove(0);
            assert(n < orig.len());
            assert(orig.skip(n)[0] == orig[n]);
            assert(key == orig[n].0 && value == orig[n].1);
            let parsed = FFIUri::parse(key.as_str());
            match parsed {
                Ok(uri) => {
                    let ghost prev = table@;
                    let ghost prev_src = src;
                    assert(uri_of(orig[n].0@, uri));
                    assert(uri.uri@ == full_uri(orig[n].0@));
                    let found = find_uri(&table, uri.uri.as_str());
                    let ghost slot: int;
                    match found {
                        Some(k) => {
                            table.set(k, (uri, value.0));
                            proof {
                                slot = k as int;
                                src = src.update(k as int, n);
                            }
                        },
                        None => {
                            table.push((uri, value.0));
                            proof {
                                slot = prev.len() as int;
                                src = src.push(n);
                            }
                        },
                    }
                    proof {
                        assert(table@[slot] == (uri, orig[n].1.0));
                        assert(forall|k: int|
                            0 <= k < table.len() && k != slot ==> table@[k] == prev[k] && src[k]
                                == prev_src[k]);
                        assert forall|k: int| 0 <= k < table.len() implies {
                            &&& 0 <= #[trigger] src[k] < n + 1
                            &&& uri_of(orig[src[k]].0@, table@[k].0)
                            &&& table@[k].1 == orig[src[k]].1.0
                            &&& forall|j: int|
                                src[k] < j < n + 1 ==> full_uri(#[trigger] orig[j].0@)
                                    != table@[k].0.uri@
                        } by {
                            if k != slot {
                                assert(table@[k] == prev[k]);
                                assert(src[k] == prev_src[k]);
                            }
                        }
                        assert forall|a: int, b: int|
                            0 <= a < b < table.len() implies #[trigger] table@[a].0.uri@
                            != #[trigger] table@[b].0.uri@ by {
                            if a != slot && b != slot {
                                assert(table@[a] == prev[a] && table@[b] == prev[b]);
                            } else if a == slot {
                                assert(table@[b] == prev[b]);
                            } else {
                                assert(table@[a] == prev[a]);
                            }
                        }
                        assert forall|i: int| 0 <= i < n + 1 implies has_uri(
                            table@,
                            full_uri(#[trigger] orig[i].0@),
                        ) by {
                            if i == n {
                                assert(table@[slot].0.uri@ == full_uri(orig[i].0@));
                            } else {
                                assert(has_uri(prev, full_uri(orig[i].0@)));
                                let k0 = choose|k: int|
                                    0 <= k < prev.len() && (#[trigger] prev[k]).0.uri@ == full_uri(
                                        orig[i].0@,
                                    );
                                if k0 == slot {
                                    assert(table@[k0].0.uri@ == prev[k0].0.uri@);
                                } else {
                                    assert(table@[k0] == prev[k0]);
                                }
                            }
                        }
                        n = n + 1;
                    }
                    assert(rest@ =~= orig.skip(n));
                },
                Err(e) => {
                    assert(!parses(orig[n].0@));
                    assert(!all_keys_parse(orig));
                    assert(all_keys_parse(orig.take(n))) by {
                        assert forall|i: int| 0 <= i < n implies parses(#[trigger] orig.take(n)[i].0@) by {
                            assert(orig.take(n)[i] == orig[i]);
                            assert(parses(orig[i].0@));
                        }
                    }
                    return Err(e);
                },
            }
        }
        assert(n == orig.len());
        assert forall|k: int| 0 <= k < table.len() implies from_last_entry(orig, #[trigger] table@[k]) by {
            let i = src[k];
            assert(uri_of(orig[i].0@, table@[k].0));
            assert(last_for_uri(orig, i)) by {
                assert forall|j: int| i < j < orig.len() implies full_uri(#[trigger] orig[j].0@)
                    != full_uri(orig[i].0@) by {
                    assert(full_uri(orig[j].0@) != table@[k].0.uri@);
                }
            }
        }
        assert(all_keys_parse(orig));
        Ok(FFIStaticUriResolver { uri_map: table })
    }
}

} // verus!
