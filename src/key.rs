//! Parsing of namespaced keys of the form `name` or `name@namespace`.

use vstd::prelude::*;

verus! {

/// The namespace that a key without a separator belongs to.
pub const DEFAULT_NAMESPACE: &'static str = "default";

/// The character that splits a name from its namespace.
pub const SEPARATOR: char = '@';

/// The characters of the default namespace.
pub open spec fn default_namespace() -> Seq<char> {
    seq!['d', 'e', 'f', 'a', 'u', 'l', 't']
}

/// No character of `s` is the separator.
pub open spec fn separator_free(s: Seq<char>) -> bool {
    forall|i: int| 0 <= i < s.len() ==> s[i] != '@'
}

/// `s` holds exactly one separator, at index `i`.
pub open spec fn single_separator_at(s: Seq<char>, i: int) -> bool {
    &&& 0 <= i < s.len()
    &&& s[i] == '@'
    &&& separator_free(s.subrange(0, i))
    &&& separator_free(s.subrange(i + 1, s.len() as int))
}

/// `s` is a well-formed namespaced key: at most one separator.
pub open spec fn is_key_address(s: Seq<char>) -> bool {
    separator_free(s) || exists|i: int| single_separator_at(s, i)
}

/// A parsed namespaced key.
#[derive(Debug, Clone, PartialEq, Eq)]
pub struct Key {
    pub namespace: String,
    pub name: String,
}

/// Why a namespaced key could not be parsed.
#[derive(Debug, Clone, Copy, PartialEq, Eq, Structural)]
pub enum KeyError {
    /// The key holds more than one separator, so it is ambiguous.
    AmbiguousSeparator,
}

/// `k` is what a key address `s` denotes.
pub open spec fn denotes(s: Seq<char>, k: Key) -> bool {
    ||| (separator_free(s) && k.name@ == s && k.namespace@ == default_namespace())
    ||| (exists|i: int|
        single_separator_at(s, i) && k.name@ == s.subrange(0, i) && k.namespace@ == s.subrange(
            i + 1,
            s.len() as int,
        ))
}

/// Splits `name` or `name@namespace`; a key without a separator is in the
/// default namespace, and one with two or more separators is refused.
pub fn split_maybe_qualified_key(maybe_qualified_key: &str) -> (r: Result<Key, KeyError>)
    ensures
        r is Ok <==> is_key_address(maybe_qualified_key@),
        r matches Ok(k) ==> denotes(maybe_qualified_key@, k),
{
    let s = maybe_qualified_key;
    let ghost v = s@;
    let len = s.unicode_len();
    let mut first: usize = 0;
    let mut count: usize = 0;
    let mut i: usize = 0;
    while i < len && count < 2
        invariant
            v == s@,
            len == v.len(),
            i <= len,
            count <= 2,
            count == 0 ==> separator_free(v.subrange(0, i as int)),
            count >= 1 ==> first < i && v[first as int] == '@' && separator_free(
                v.subrange(0, first as int),
            ),
            count == 1 ==> separator_free(v.subrange(first + 1, i as int)),
            count == 2 ==> exists|j: int| first < j < len && v[j] == '@',
        decreases len - i,
    {
        let c = s.get_char(i);
        if c == SEPARATOR {
            if count == 0 {
                first = i;
                count = 1;
                assert(v.subrange(0, first as int) =~= v.subrange(0, i as int));
            } else {
                assert(first < i as int && v[i as int] == '@');
                count = 2;
            }
        } else {
            proof {
                if count == 0 {
                    let w = v.subrange(0, i + 1);
                    let u = v.subrange(0, i as int);
                    assert forall|j: int| 0 <= j < w.len() implies w[j] != '@' by {
                        if j < i {
                            assert(w[j] == u[j]);
                        }
                    }
                } else if count == 1 {
                    let w = v.subrange(first + 1, i + 1);
                    let u = v.subrange(first + 1, i as int);
                    assert forall|j: int| 0 <= j < w.len() implies w[j] != '@' by {
                        if j < u.len() {
                            assert(w[j] == u[j]);
                        }
                    }
                }
            }
        }
        i = i + 1;
    }
    if count == 0 {
        assert(v.subrange(0, len as int) =~= v);
        let name = s.to_owned();
        let namespace = DEFAULT_NAMESPACE.to_owned();
        proof {
            reveal_strlit("default");
            assert(namespace@ =~= default_namespace());
        }
        Ok(Key { namespace, name })
    } else if count == 1 {
        assert(single_separator_at(v, first as int));
        let name = s.substring_char(0, first).to_owned();
        let namespace = s.substring_char(first + 1, len).to_owned();
        Ok(Key { namespace, name })
    } else {
        proof {
            let j = choose|j: int| first < j < len && v[j] == '@';
            assert(!separator_free(v));
            assert forall|m: int| !single_separator_at(v, m) by {
                if single_separator_at(v, m) {
                    if m < j {
                        assert(v.subrange(m + 1, v.len() as int)[j - m - 1] == '@');
                    } else {
                        assert(v.subrange(0, m)[first as int] == '@');
                    }
                }
            }
        }
        Err(KeyError::AmbiguousSeparator)
    }
}

} // verus!
