use vstd::prelude::*;

verus! {

/// Headers are kept as an ordered list of `(name, value)` entries; the list
/// model below is shared by the client's persistent headers, the outgoing
/// request plan and the response inspection.
///
/// The views of the entries of a header list.
pub open spec fn entry_views(hs: Seq<(String, String)>) -> Seq<(Seq<char>, Seq<char>)> {
    hs.map_values(|p: (String, String)| (p.0@, p.1@))
}

/// The value stored under `key`, scanning front to back.
pub open spec fn lookup(hs: Seq<(Seq<char>, Seq<char>)>, key: Seq<char>) -> Option<Seq<char>>
    decreases hs.len(),
{
    if hs.len() == 0 {
        None
    } else if hs[0].0 == key {
        Some(hs[0].1)
    } else {
        lookup(hs.drop_first(), key)
    }
}

/// Replaces the first entry under `key` in place, or appends a new entry when
/// `key` is absent.
pub open spec fn upsert(
    hs: Seq<(Seq<char>, Seq<char>)>,
    key: Seq<char>,
    value: Seq<char>,
) -> Seq<(Seq<char>, Seq<char>)>
    decreases hs.len(),
{
    if hs.len() == 0 {
        seq![(key, value)]
    } else if hs[0].0 == key {
        seq![(key, value)] + hs.drop_first()
    } else {
        seq![hs[0]] + upsert(hs.drop_first(), key, value)
    }
}

/// No two entries share a name.
pub open spec fn unique_keys(hs: Seq<(Seq<char>, Seq<char>)>) -> bool {
    forall|i: int, j: int| 0 <= i < j < hs.len() ==> hs[i].0 != hs[j].0
}

/// When `key` first occurs at index `i`, upserting rewrites exactly that entry.
pub proof fn lemma_upsert_found(
    hs: Seq<(Seq<char>, Seq<char>)>,
    key: Seq<char>,
    value: Seq<char>,
    i: int,
)
    requires
        0 <= i < hs.len(),
        forall|j: int| 0 <= j < i ==> hs[j].0 != key,
        hs[i].0 == key,
    ensures
        upsert(hs, key, value) =~= hs.update(i, (key, value)),
    decreases i,
{
    if i == 0 {
        assert(upsert(hs, key, value) =~= hs.update(0, (key, value)));
    } else {
        lemma_upsert_found(hs.drop_first(), key, value, i - 1);
        assert(upsert(hs, key, value) =~= hs.update(i, (key, value)));
    }
}

/// When `key` occurs nowhere, upserting appends the entry.
pub proof fn lemma_upsert_missing(hs: Seq<(Seq<char>, Seq<char>)>, key: Seq<char>, value: Seq<char>)
    requires
        forall|j: int| 0 <= j < hs.len() ==> hs[j].0 != key,
    ensures
        upsert(hs, key, value) =~= hs.push((key, value)),
    decreases hs.len(),
{
    if hs.len() > 0 {
        lemma_upsert_missing(hs.drop_first(), key, value);
        assert(upsert(hs, key, value) =~= hs.push((key, value)));
    } else {
        assert(upsert(hs, key, value) =~= hs.push((key, value)));
    }
}

/// When `key` first occurs at index `i`, lookup returns that entry's value.
pub proof fn lemma_lookup_found(hs: Seq<(Seq<char>, Seq<char>)>, key: Seq<char>, i: int)
    requires
        0 <= i < hs.len(),
        forall|j: int| 0 <= j < i ==> hs[j].0 != key,
        hs[i].0 == key,
    ensures
        lookup(hs, key) == Some(hs[i].1),
    decreases i,
{
    if i > 0 {
        lemma_lookup_found(hs.drop_first(), key, i - 1);
    }
}

/// When `key` occurs nowhere, lookup returns nothing.
pub proof fn lemma_lookup_missing(hs: Seq<(Seq<char>, Seq<char>)>, key: Seq<char>)
    requires
        forall|j: int| 0 <= j < hs.len() ==> hs[j].0 != key,
    ensures
        lookup(hs, key) is None,
    decreases hs.len(),
{
    if hs.len() > 0 {
        lemma_lookup_missing(hs.drop_first(), key);
    }
}

/// After an upsert, the upserted key maps to the new value.
pub proof fn lemma_lookup_upsert_same(
    hs: Seq<(Seq<char>, Seq<char>)>,
    key: Seq<char>,
    value: Seq<char>,
)
    ensures
        lookup(upsert(hs, key, value), key) == Some(value),
    decreases hs.len(),
{
    if hs.len() > 0 && hs[0].0 != key {
        lemma_lookup_upsert_same(hs.drop_first(), key, value);
        assert(upsert(hs, key, value).drop_first() =~= upsert(hs.drop_first(), key, value));
    }
}

/// An upsert leaves every other key's value alone.
pub proof fn lemma_lookup_upsert_other(
    hs: Seq<(Seq<char>, Seq<char>)>,
    key: Seq<char>,
    value: Seq<char>,
    other: Seq<char>,
)
    requires
        other != key,
    ensures
        lookup(upsert(hs, key, value), other) == lookup(hs, other),
    decreases hs.len(),
{
    let u = upsert(hs, key, value);
    if hs.len() == 0 {
        assert(u[0].0 == key);
        assert(lookup(u, other) == lookup(u.drop_first(), other));
        assert(u.drop_first().len() == 0);
        assert(lookup(u.drop_first(), other) is None);
        assert(lookup(hs, other) is None);
    } else if hs[0].0 == key {
        assert(u.drop_first() =~= hs.drop_first());
        assert(u[0].0 == key);
        assert(lookup(u, other) == lookup(u.drop_first(), other));
        assert(lookup(hs, other) == lookup(hs.drop_first(), other));
    } else {
        lemma_lookup_upsert_other(hs.drop_first(), key, value, other);
        assert(u.drop_first() =~= upsert(hs.drop_first(), key, value));
        assert(u[0] == hs[0]);
        assert(lookup(u, other) == if u[0].0 == other {
            Some(u[0].1)
        } else {
            lookup(u.drop_first(), other)
        });
        assert(lookup(hs, other) == if hs[0].0 == other {
            Some(hs[0].1)
        } else {
            lookup(hs.drop_first(), other)
        });
    }
}

/// An upsert keeps key uniqueness.
pub proof fn lemma_upsert_unique(
    hs: Seq<(Seq<char>, Seq<char>)>,
    key: Seq<char>,
    value: Seq<char>,
)
    requires
        unique_keys(hs),
    ensures
        unique_keys(upsert(hs, key, value)),
    decreases hs.len(),
{
    if hs.len() == 0 {
    } else if hs[0].0 == key {
        assert forall|i: int, j: int|
            0 <= i < j < upsert(hs, key, value).len() implies upsert(hs, key, value)[i].0 != upsert(
            hs,
            key,
            value,
        )[j].0 by {
            assert(upsert(hs, key, value) =~= seq![(key, value)] + hs.drop_first());
            assert(hs[i] == hs.drop_first()[i - 1] || i == 0);
        }
    } else {
        assert(unique_keys(hs.drop_first()));
        lemma_upsert_unique(hs.drop_first(), key, value);
        lemma_upsert_keys(hs.drop_first(), key, value);
        let u = upsert(hs, key, value);
        assert forall|i: int, j: int| 0 <= i < j < u.len() implies u[i].0 != u[j].0 by {
            assert(u =~= seq![hs[0]] + upsert(hs.drop_first(), key, value));
            if i == 0 {
                let ut = upsert(hs.drop_first(), key, value);
                assert(u[j].0 == ut[j - 1].0);
                if ut[j - 1].0 == key {
                } else {
                    let k = choose|k: int|
                        0 <= k < hs.drop_first().len() && hs.drop_first()[k].0 == ut[j - 1].0;
                    assert(hs[k + 1].0 == ut[j - 1].0);
                }
            }
        }
    }
}

/// Every key of an upserted list is the upserted key or a key of the original.
pub proof fn lemma_upsert_keys(hs: Seq<(Seq<char>, Seq<char>)>, key: Seq<char>, value: Seq<char>)
    ensures
        forall|i: int|
            0 <= i < upsert(hs, key, value).len() ==> upsert(hs, key, value)[i].0 == key
                || exists|j: int| 0 <= j < hs.len() && hs[j].0 == #[trigger] upsert(
                hs,
                key,
                value,
            )[i].0,
    decreases hs.len(),
{
    if hs.len() == 0 {
    } else if hs[0].0 == key {
        assert forall|i: int|
            0 <= i < upsert(hs, key, value).len() implies upsert(hs, key, value)[i].0 == key
            || exists|j: int| 0 <= j < hs.len() && hs[j].0 == upsert(hs, key, value)[i].0 by {
            if i > 0 {
                assert(hs[i].0 == upsert(hs, key, value)[i].0);
            }
        }
    } else {
        lemma_upsert_keys(hs.drop_first(), key, value);
        assert forall|i: int|
            0 <= i < upsert(hs, key, value).len() implies upsert(hs, key, value)[i].0 == key
            || exists|j: int| 0 <= j < hs.len() && hs[j].0 == upsert(hs, key, value)[i].0 by {
            let u = upsert(hs, key, value);
            assert(u =~= seq![hs[0]] + upsert(hs.drop_first(), key, value));
            if i > 0 {
                let ut = upsert(hs.drop_first(), key, value);
                assert(u[i].0 == ut[i - 1].0);
                if ut[i - 1].0 != key {
                    let k = choose|k: int|
                        0 <= k < hs.drop_first().len() && hs.drop_first()[k].0 == ut[i - 1].0;
                    assert(hs[k + 1].0 == ut[i - 1].0);
                }
            }
        }
    }
}

/// Upserting a key twice is the same as upserting it once with the last value:
/// the second write overwrites, it never duplicates the entry.
pub proof fn lemma_upsert_overwrites(
    hs: Seq<(Seq<char>, Seq<char>)>,
    key: Seq<char>,
    v1: Seq<char>,
    v2: Seq<char>,
)
    ensures
        upsert(upsert(hs, key, v1), key, v2) =~= upsert(hs, key, v2),
    decreases hs.len(),
{
    if hs.len() == 0 {
        assert(upsert(upsert(hs, key, v1), key, v2) =~= upsert(hs, key, v2));
    } else if hs[0].0 == key {
        assert(upsert(hs, key, v1) =~= seq![(key, v1)] + hs.drop_first());
        assert(upsert(upsert(hs, key, v1), key, v2) =~= upsert(hs, key, v2));
    } else {
        lemma_upsert_overwrites(hs.drop_first(), key, v1, v2);
        assert(upsert(hs, key, v1).drop_first() =~= upsert(hs.drop_first(), key, v1));
        assert(upsert(upsert(hs, key, v1), key, v2) =~= seq![hs[0]] + upsert(
            upsert(hs.drop_first(), key, v1),
            key,
            v2,
        ));
        assert(upsert(upsert(hs, key, v1), key, v2) =~= upsert(hs, key, v2));
    }
}

/// An upsert grows the list exactly when the key was absent.
pub proof fn lemma_upsert_len(hs: Seq<(Seq<char>, Seq<char>)>, key: Seq<char>, value: Seq<char>)
    ensures
        lookup(hs, key) is Some ==> upsert(hs, key, value).len() == hs.len(),
        lookup(hs, key) is None ==> upsert(hs, key, value).len() == hs.len() + 1,
    decreases hs.len(),
{
    if hs.len() > 0 && hs[0].0 != key {
        lemma_upsert_len(hs.drop_first(), key, value);
    }
}

/// Replaces the value under `key`, or appends the entry when `key` is absent.
pub fn upsert_header(hs: &mut Vec<(String, String)>, key: String, value: String)
    ensures
        entry_views(final(hs)@) == upsert(entry_views(old(hs)@), key@, value@),
{
    let mut i: usize = 0;
    while i < hs.len()
        invariant
            hs@ == old(hs)@,
            0 <= i <= hs@.len(),
            forall|j: int| 0 <= j < i ==> entry_views(hs@)[j].0 != key@,
        decreases hs@.len() - i,
    {
        if hs[i].0 == key {
            let ghost before = hs@;
            proof {
                assert(entry_views(before)[i as int] == (before[i as int].0@, before[i as int].1@));
                lemma_upsert_found(entry_views(before), key@, value@, i as int);
            }
            hs[i] = (key, value);
            proof {
                assert(hs@ == before.update(i as int, (key, value)));
                assert(entry_views(hs@) =~= entry_views(before).update(i as int, (key@, value@)));
            }
            return ;
        }
        proof {
            assert(entry_views(hs@)[i as int].0 == hs@[i as int].0@);
        }
        i += 1;
    }
    let ghost before = hs@;
    proof {
        lemma_upsert_missing(entry_views(before), key@, value@);
    }
    hs.push((key, value));
    proof {
        assert(entry_views(hs@) =~= entry_views(before).push((key@, value@)));
    }
}

} // verus!
