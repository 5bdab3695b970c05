//! The located settings container and the coercion of its whole contents
//! into the output mapping.
//!
//! Entries are coerced independently, in enumeration order; an entry whose
//! key the store could not hand over in readable form, or whose value is of
//! an unsupported kind, is dropped silently and never aborts the rest.

use vstd::prelude::*;

use crate::value::{coerce_one, spec_coerce, TypedValue};

verus! {

/// One enumerated entry of the settings container. A key the store could not
/// produce in readable form is `None`; such an entry is dropped.
pub struct Entry {
    pub key: Option<String>,
    pub value: TypedValue,
}

/// The located settings container: its entries in enumeration order.
pub struct SettingsContainer {
    pub entries: Vec<Entry>,
}

/// The output mapping, held as key/value pairs in insertion order. Its
/// meaning as a map is `as_map`, under which a later pair with the same key
/// wins.
pub struct ResultMap {
    pub entries: Vec<(String, String)>,
}

/// The pairs a list of owned strings stands for.
pub open spec fn pairs_view(s: Seq<(String, String)>) -> Seq<(Seq<char>, Seq<char>)> {
    s.map(|j: int, p: (String, String)| (p.0@, p.1@))
}

/// The mapping a pair list stands for: inserted left to right, so a later
/// pair with the same key wins.
pub open spec fn map_of_pairs(s: Seq<(Seq<char>, Seq<char>)>) -> Map<Seq<char>, Seq<char>>
    decreases s.len(),
{
    if s.len() == 0 {
        Map::empty()
    } else {
        map_of_pairs(s.drop_last()).insert(s.last().0, s.last().1)
    }
}

impl ResultMap {
    /// The key/value pairs this mapping holds, in order.
    pub open spec fn pairs(self) -> Seq<(Seq<char>, Seq<char>)> {
        pairs_view(self.entries@)
    }

    /// The mapping itself, with a later duplicate key winning.
    pub open spec fn as_map(self) -> Map<Seq<char>, Seq<char>> {
        map_of_pairs(self.pairs())
    }

    /// An empty mapping.
    pub fn new() -> (r: ResultMap)
        ensures
            r.pairs() == Seq::<(Seq<char>, Seq<char>)>::empty(),
    {
        let r = ResultMap { entries: Vec::new() };
        proof {
            assert(r.pairs() =~= Seq::<(Seq<char>, Seq<char>)>::empty());
        }
        r
    }

    /// How many pairs the mapping holds.
    pub fn len(&self) -> (n: usize)
        ensures
            n == self.pairs().len(),
    {
        self.entries.len()
    }

    /// Whether the mapping holds no pair at all.
    pub fn is_empty(&self) -> (b: bool)
        ensures
            b <==> self.pairs().len() == 0,
    {
        self.entries.len() == 0
    }
}

/// The pairs coercion keeps, in entry order: the key where it is readable,
/// beside the coerced value where the kind is supported.
pub open spec fn spec_coerced_pairs(s: Seq<Entry>) -> Seq<(Seq<char>, Seq<char>)>
    decreases s.len(),
{
    if s.len() == 0 {
        Seq::empty()
    } else {
        let rest = spec_coerced_pairs(s.drop_last());
        match (s.last().key, spec_coerce(s.last().value)) {
            (Some(k), Some(v)) => rest.push((k@, v)),
            _ => rest,
        }
    }
}

/// How many of the entries coercion keeps: those with a readable key and a
/// value of a supported kind.
pub open spec fn spec_supported_count(s: Seq<Entry>) -> nat
    decreases s.len(),
{
    if s.len() == 0 {
        0
    } else {
        spec_supported_count(s.drop_last()) + (match (
            s.last().key,
            spec_coerce(s.last().value),
        ) {
            (Some(k), Some(v)) => 1nat,
            _ => 0nat,
        })
    }
}

/// Partial failure stays partial: a container with some supported and some
/// unsupported entries yields exactly one pair per supported entry — the
/// unsupported ones contribute nothing, not even a placeholder.
pub proof fn lemma_partial_failure(s: Seq<Entry>)
    ensures
        spec_coerced_pairs(s).len() == spec_supported_count(s),
    decreases s.len(),
{
    if s.len() > 0 {
        lemma_partial_failure(s.drop_last());
    }
}

/// A key stands in the mapping only because some entry carries it readably
/// with a value of a supported kind, and the mapped string is that entry's
/// coerced value.
pub proof fn lemma_key_from_supported_entry(s: Seq<Entry>, k: Seq<char>)
    requires
        map_of_pairs(spec_coerced_pairs(s)).contains_key(k),
    ensures
        exists|j: int|
            0 <= j < s.len() && (#[trigger] s[j]).key is Some && s[j].key.unwrap()@ == k
                && spec_coerce(s[j].value) == Some(map_of_pairs(spec_coerced_pairs(s))[k]),
    decreases s.len(),
{
    let pairs = spec_coerced_pairs(s);
    let m = map_of_pairs(pairs);
    if s.len() == 0 {
        assert(false);
    } else {
        let rest = s.drop_last();
        let rest_pairs = spec_coerced_pairs(rest);
        let last = s.last();
        match (last.key, spec_coerce(last.value)) {
            (Some(kk), Some(v)) => {
                assert(pairs == rest_pairs.push((kk@, v)));
                assert(pairs.drop_last() =~= rest_pairs);
                assert(m == map_of_pairs(rest_pairs).insert(kk@, v));
                if k == kk@ {
                    let j = s.len() - 1;
                    assert(s[j] == last);
                    assert(m[k] == v);
                    assert(0 <= j < s.len() && s[j].key is Some && s[j].key.unwrap()@ == k
                        && spec_coerce(s[j].value) == Some(m[k]));
                } else {
                    assert(map_of_pairs(rest_pairs).contains_key(k));
                    lemma_key_from_supported_entry(rest, k);
                    let j = choose|j: int|
                        0 <= j < rest.len() && (#[trigger] rest[j]).key is Some
                            && rest[j].key.unwrap()@ == k && spec_coerce(rest[j].value) == Some(
                            map_of_pairs(rest_pairs)[k],
                        );
                    assert(s[j] == rest[j]);
                    assert(m[k] == map_of_pairs(rest_pairs)[k]);
                    assert(0 <= j < s.len() && s[j].key is Some && s[j].key.unwrap()@ == k
                        && spec_coerce(s[j].value) == Some(m[k]));
                }
            },
            _ => {
                assert(pairs == rest_pairs);
                lemma_key_from_supported_entry(rest, k);
                let j = choose|j: int|
                    0 <= j < rest.len() && (#[trigger] rest[j]).key is Some
                        && rest[j].key.unwrap()@ == k && spec_coerce(rest[j].value) == Some(
                        map_of_pairs(rest_pairs)[k],
                    );
                assert(s[j] == rest[j]);
                assert(0 <= j < s.len() && s[j].key is Some && s[j].key.unwrap()@ == k
                    && spec_coerce(s[j].value) == Some(m[k]));
            },
        }
    }
}

/// Coerces a whole container: every entry with a readable key and a
/// supported value contributes its pair, every other entry is dropped, and
/// no failure aborts the remaining entries.
pub fn coerce_all(c: &SettingsContainer) -> (r: ResultMap)
    ensures
        r.pairs() == spec_coerced_pairs(c.entries@),
{
    let mut out = ResultMap { entries: Vec::new() };
    proof {
        assert(out.pairs() =~= spec_coerced_pairs(c.entries@.take(0)));
    }
    let n = c.entries.len();
    let mut i: usize = 0;
    while i < n
        invariant
            i <= n,
            n == c.entries@.len(),
            out.pairs() == spec_coerced_pairs(c.entries@.take(i as int)),
        decreases n - i,
    {
        let e = &c.entries[i];
        let coerced = coerce_one(&e.value);
        proof {
            assert(c.entries@.take(i + 1).drop_last() =~= c.entries@.take(i as int));
            assert(c.entries@.take(i + 1).last() == c.entries@[i as int]);
        }
        let ghost prev = out.pairs();
        if let Some(v) = coerced {
            if let Some(k) = &e.key {
                let ghost vv = v@;
                out.entries.push((k.clone(), v));
                proof {
                    assert(out.pairs() =~= prev.push((k@, vv)));
                }
            }
        }
        proof {
            assert(out.pairs() =~= spec_coerced_pairs(c.entries@.take(i + 1)));
        }
        i += 1;
    }
    proof {
        assert(c.entries@.take(n as int) =~= c.entries@);
    }
    out
}

} // verus!
