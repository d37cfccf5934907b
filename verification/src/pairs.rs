use vstd::prelude::*;
use crate::text::str_eq;

verus! {

/// The position of the first pair named `name`, or the length of `pairs`
/// where no pair has that name.
pub open spec fn index_of(pairs: Seq<(Seq<char>, Seq<char>)>, name: Seq<char>) -> int
    decreases pairs.len(),
{
    if pairs.len() == 0 {
        0
    } else if pairs[0].0 == name {
        0
    } else {
        1 + index_of(pairs.drop_first(), name)
    }
}

/// The value of the first pair named `name`.
pub open spec fn lookup(pairs: Seq<(Seq<char>, Seq<char>)>, name: Seq<char>) -> Option<
    Seq<char>,
> {
    let at = index_of(pairs, name);
    if at < pairs.len() {
        Some(pairs[at].1)
    } else {
        None
    }
}

/// `pairs` with `name` set to `value`: the first pair of that name gets the
/// value; where there is none, the pair is added at the end.
pub open spec fn put(pairs: Seq<(Seq<char>, Seq<char>)>, name: Seq<char>, value: Seq<char>) -> Seq<
    (Seq<char>, Seq<char>),
> {
    let at = index_of(pairs, name);
    if at < pairs.len() {
        pairs.update(at, (name, value))
    } else {
        pairs.push((name, value))
    }
}

/// No name occurs twice.
pub open spec fn names_distinct(pairs: Seq<(Seq<char>, Seq<char>)>) -> bool {
    forall|i: int, j: int| 0 <= i < j < pairs.len() ==> pairs[i].0 != pairs[j].0
}

/// `index_of` is the least position that holds the name.
pub proof fn lemma_index_of(pairs: Seq<(Seq<char>, Seq<char>)>, name: Seq<char>)
    ensures
        0 <= index_of(pairs, name) <= pairs.len(),
        forall|j: int| 0 <= j < index_of(pairs, name) ==> pairs[j].0 != name,
        index_of(pairs, name) < pairs.len() ==> pairs[index_of(pairs, name)].0 == name,
    decreases pairs.len(),
{
    if pairs.len() > 0 && pairs[0].0 != name {
        let rest = pairs.drop_first();
        lemma_index_of(rest, name);
        assert forall|j: int| 0 <= j < index_of(pairs, name) implies pairs[j].0 != name by {
            if j > 0 {
                assert(pairs[j] == rest[j - 1]);
            }
        }
        if index_of(pairs, name) < pairs.len() {
            assert(pairs[index_of(pairs, name)] == rest[index_of(rest, name)]);
        }
    }
}

/// The least position that holds the name is `index_of`.
pub proof fn lemma_index_of_is(pairs: Seq<(Seq<char>, Seq<char>)>, name: Seq<char>, at: int)
    requires
        0 <= at <= pairs.len(),
        forall|j: int| 0 <= j < at ==> pairs[j].0 != name,
        at < pairs.len() ==> pairs[at].0 == name,
    ensures
        index_of(pairs, name) == at,
{
    lemma_index_of(pairs, name);
    let found = index_of(pairs, name);
    if found < at {
        assert(pairs[found].0 != name);
    }
}

/// A name that was set is found with its value.
pub proof fn lemma_put_then_lookup(
    pairs: Seq<(Seq<char>, Seq<char>)>,
    name: Seq<char>,
    value: Seq<char>,
)
    ensures
        lookup(put(pairs, name, value), name) == Some(value),
{
    lemma_index_of(pairs, name);
    let at = index_of(pairs, name);
    let after = put(pairs, name, value);
    assert forall|j: int| 0 <= j < at implies after[j].0 != name by {
        assert(after[j] == pairs[j]);
    }
    lemma_index_of_is(after, name, at);
}

/// Setting one name leaves every other name as it was.
pub proof fn lemma_put_keeps_others(
    pairs: Seq<(Seq<char>, Seq<char>)>,
    name: Seq<char>,
    value: Seq<char>,
    other: Seq<char>,
)
    requires
        other != name,
    ensures
        lookup(put(pairs, name, value), other) == lookup(pairs, other),
{
    lemma_index_of(pairs, name);
    lemma_index_of(pairs, other);
    let at = index_of(pairs, other);
    let after = put(pairs, name, value);
    assert forall|j: int| 0 <= j < at implies after[j].0 != other by {
        if j == index_of(pairs, name) {
        } else {
            assert(after[j] == pairs[j]);
        }
    }
    if at < pairs.len() {
        assert(after[at] == pairs[at]);
        lemma_index_of_is(after, other, at);
    } else {
        assert forall|j: int| 0 <= j < after.len() implies after[j].0 != other by {
            if j < pairs.len() && j != index_of(pairs, name) {
                assert(after[j] == pairs[j]);
            }
        }
        lemma_index_of_is(after, other, after.len() as int);
    }
}

/// Setting a name never makes a name occur twice.
pub proof fn lemma_put_keeps_distinct(
    pairs: Seq<(Seq<char>, Seq<char>)>,
    name: Seq<char>,
    value: Seq<char>,
)
    requires
        names_distinct(pairs),
    ensures
        names_distinct(put(pairs, name, value)),
{
    lemma_index_of(pairs, name);
    let at = index_of(pairs, name);
    let after = put(pairs, name, value);
    assert forall|i: int, j: int| 0 <= i < j < after.len() implies after[i].0 != after[j].0 by {
        if at < pairs.len() {
            assert(after[i].0 == pairs[i].0);
            assert(after[j].0 == pairs[j].0);
        } else if j < pairs.len() {
            assert(after[i] == pairs[i]);
            assert(after[j] == pairs[j]);
        } else {
            assert(after[i] == pairs[i]);
        }
    }
}

/// The position of the first pair named `name`.
pub fn find(pairs: &Vec<(String, String)>, name: &str) -> (r: Option<usize>)
    ensures
        match r {
            Some(at) => at < pairs.len() && at == index_of(pairs.deep_view(), name@),
            None => index_of(pairs.deep_view(), name@) == pairs.len(),
        },
{
    let mut at: usize = 0;
    while at < pairs.len()
        invariant
            at <= pairs.len(),
            forall|j: int| 0 <= j < at ==> pairs.deep_view()[j].0 != name@,
        decreases pairs.len() - at,
    {
        if str_eq(pairs[at].0.as_str(), name) {
            proof {
                lemma_index_of_is(pairs.deep_view(), name@, at as int);
            }
            return Some(at);
        }
        at += 1;
    }
    proof {
        lemma_index_of_is(pairs.deep_view(), name@, at as int);
    }
    None
}

/// The value of the first pair named `name`.
pub fn get<'a>(pairs: &'a Vec<(String, String)>, name: &str) -> (r: Option<&'a String>)
    ensures
        r.deep_view() == lookup(pairs.deep_view(), name@),
{
    match find(pairs, name) {
        Some(at) => Some(&pairs[at].1),
        None => None,
    }
}

/// Sets `name` to `value`: the first pair of that name gets the value; where
/// there is none, the pair is added at the end.
pub fn store(pairs: &mut Vec<(String, String)>, name: String, value: String)
    ensures
        final(pairs).deep_view() == put(old(pairs).deep_view(), name@, value@),
{
    match find(pairs, name.as_str()) {
        Some(at) => {
            pairs.set(at, (name, value));
        },
        None => {
            pairs.push((name, value));
        },
    }
    assert(pairs.deep_view() =~= put(old(pairs).deep_view(), name@, value@));
}

} // verus!
