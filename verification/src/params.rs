//! Query parameters: lists of name and value, looked up by name, and the set
//! of additional parameters that a caller attaches to a call.

use vstd::prelude::*;
use crate::text::same_text;

verus! {

/// The model of a parameter list: names and values as texts, in order.
pub type Pairs = Seq<(Seq<char>, Seq<char>)>;

/// The texts of an executable parameter list.
pub open spec fn pairs_text(v: Seq<(String, String)>) -> Pairs {
    Seq::new(v.len(), |i: int| (v[i].0@, v[i].1@))
}


/// The list of one parameter.
pub open spec fn one(name: Seq<char>, value: Seq<char>) -> Pairs {
    seq![(name, value)]
}

/// The list of a parameter that may be absent.
pub open spec fn maybe(name: Seq<char>, value: Option<Seq<char>>) -> Pairs {
    match value {
        Some(v) => seq![(name, v)],
        None => seq![],
    }
}

/// The text of a string that may be absent.
pub open spec fn option_text(value: Option<String>) -> Option<Seq<char>> {
    match value {
        Some(v) => Some(v@),
        None => None,
    }
}

/// Whether some parameter of `q` is called `name`.
pub open spec fn has_name(q: Pairs, name: Seq<char>) -> bool {
    exists|i: int| 0 <= i < q.len() && (#[trigger] q[i]).0 == name
}

/// The index of the first parameter called `name`, or the length of `q` where
/// there is none.
pub open spec fn first_index(q: Pairs, name: Seq<char>) -> int
    decreases q.len(),
{
    if q.len() == 0 {
        0
    } else if q[0].0 == name {
        0
    } else {
        1 + first_index(q.drop_first(), name)
    }
}

/// The value of the first parameter called `name`; the empty text where there
/// is none.
pub open spec fn value_of(q: Pairs, name: Seq<char>) -> Seq<char> {
    let i = first_index(q, name);
    if i < q.len() {
        q[i].1
    } else {
        Seq::empty()
    }
}

/// `q` without its first parameter called `name`.
pub open spec fn without(q: Pairs, name: Seq<char>) -> Pairs {
    let i = first_index(q, name);
    if i < q.len() {
        q.remove(i)
    } else {
        q
    }
}

/// `q` without the first parameter of each of `names`, taken in turn.
pub open spec fn without_all(q: Pairs, names: Seq<Seq<char>>) -> Pairs
    decreases names.len(),
{
    if names.len() == 0 {
        q
    } else {
        without_all(without(q, names[0]), names.drop_first())
    }
}

/// No two parameters of `q` share a name.
pub open spec fn distinct_names(q: Pairs) -> bool {
    forall|i: int, j: int| 0 <= i < j < q.len() ==> (#[trigger] q[i]).0 != (#[trigger] q[j]).0
}

/// `q` after `name` was given `value`: the value replaces that of a parameter
/// of this name, which keeps its place; a new name goes to the end.
pub open spec fn inserted(q: Pairs, name: Seq<char>, value: Seq<char>) -> Pairs {
    let i = first_index(q, name);
    if i < q.len() {
        q.update(i, (name, value))
    } else {
        q.push((name, value))
    }
}

/// A parameter list read as a map from names to values, each name with the
/// value of its first parameter.
pub open spec fn as_map(q: Pairs) -> Map<Seq<char>, Seq<char>> {
    Map::new(|name: Seq<char>| has_name(q, name), |name: Seq<char>| value_of(q, name))
}

/// `first_index` is the least index that holds the name, and the length where
/// no index does.
pub proof fn lemma_first_index(q: Pairs, name: Seq<char>)
    ensures
        0 <= first_index(q, name) <= q.len(),
        first_index(q, name) < q.len() <==> has_name(q, name),
        first_index(q, name) < q.len() ==> q[first_index(q, name)].0 == name,
        forall|j: int| 0 <= j < first_index(q, name) ==> (#[trigger] q[j]).0 != name,
    decreases q.len(),
{
    if q.len() > 0 && q[0].0 != name {
        let rest = q.drop_first();
        lemma_first_index(rest, name);
        assert forall|j: int| 0 < j < q.len() implies q[j] == rest[j - 1] by {}
    }
}

/// An index that holds the name, with none before it, is the first index.
pub proof fn lemma_first_index_at(q: Pairs, name: Seq<char>, i: int)
    requires
        0 <= i <= q.len(),
        i < q.len() ==> q[i].0 == name,
        forall|j: int| 0 <= j < i ==> (#[trigger] q[j]).0 != name,
    ensures
        first_index(q, name) == i,
{
    lemma_first_index(q, name);
}

/// Giving a name a value keeps the names distinct.
pub proof fn lemma_inserted_distinct(q: Pairs, name: Seq<char>, value: Seq<char>)
    requires
        distinct_names(q),
    ensures
        distinct_names(inserted(q, name, value)),
        has_name(inserted(q, name, value), name),
        value_of(inserted(q, name, value), name) == value,
{
    lemma_first_index(q, name);
    let r = inserted(q, name, value);
    let i = first_index(q, name);
    assert(r[i].0 == name);
    lemma_first_index_at(r, name, i);
}

/// Giving a name a value is an insertion into the map: the name has the new
/// value, and every other name has what it had.
pub proof fn lemma_inserted_is_map_insert(q: Pairs, name: Seq<char>, value: Seq<char>)
    requires
        distinct_names(q),
    ensures
        as_map(inserted(q, name, value)) == as_map(q).insert(name, value),
{
    let r = inserted(q, name, value);
    let i = first_index(q, name);
    lemma_first_index(q, name);
    lemma_inserted_distinct(q, name, value);
    assert forall|other: Seq<char>| other != name implies has_name(r, other) == has_name(q, other)
        && value_of(r, other) == value_of(q, other) by {
        let k = first_index(q, other);
        lemma_first_index(q, other);
        assert forall|j: int| 0 <= j < k implies (#[trigger] r[j]).0 != other by {
            assert(r[j].0 == q[j].0);
        }
        if k < q.len() {
            assert(r[k] == q[k]);
            lemma_first_index_at(r, other, k);
        } else {
            if i >= q.len() {
                assert(r[q.len() as int].0 == name);
            }
            lemma_first_index_at(r, other, r.len() as int);
        }
        lemma_first_index(r, other);
    }
}

/// Looks for the first parameter called `name`.
pub fn find(v: &Vec<(String, String)>, name: &str) -> (r: Option<usize>)
    ensures
        match r {
            Some(i) => i < v.len() && i == first_index(pairs_text(v@), name@),
            None => !has_name(pairs_text(v@), name@),
        },
{
    let ghost q = pairs_text(v@);
    let mut i: usize = 0;
    while i < v.len()
        invariant
            i <= v.len(),
            q == pairs_text(v@),
            forall|j: int| 0 <= j < i ==> (#[trigger] q[j]).0 != name@,
        decreases v.len() - i,
    {
        if same_text(v[i].0.as_str(), name) {
            proof {
                lemma_first_index_at(q, name@, i as int);
            }
            return Some(i);
        }
        i += 1;
    }
    proof {
        lemma_first_index(q, name@);
        lemma_first_index_at(q, name@, i as int);
    }
    None
}

/// Puts a parameter at the end of a list.
pub fn push_one(list: &mut Vec<(String, String)>, name: &str, value: String)
    ensures
        pairs_text(final(list)@) == pairs_text(old(list)@) + one(name@, value@),
{
    list.push((String::from_str(name), value));
}

/// Puts a parameter at the end of a list where it has a value.
pub fn push_some(list: &mut Vec<(String, String)>, name: &str, value: Option<String>)
    ensures
        pairs_text(final(list)@) == pairs_text(old(list)@) + maybe(name@, option_text(value)),
{
    match value {
        Some(v) => {
            list.push((String::from_str(name), v));
        },
        None => {},
    }
}

/// Puts a list of parameters behind another.
pub fn push_all(list: &mut Vec<(String, String)>, more: Vec<(String, String)>)
    ensures
        pairs_text(final(list)@) == pairs_text(old(list)@) + pairs_text(more@),
{
    let mut more = more;
    list.append(&mut more);
}

/// The additional parameters of a call: free-form names with one value each.
/// A name that is given a second value keeps its place and takes the new
/// value; the parameters are handed out in the order in which their names
/// first came.
#[derive(Debug)]
pub struct Params {
    pairs: Vec<(String, String)>,
}

impl View for Params {
    type V = Pairs;

    closed spec fn view(&self) -> Pairs {
        pairs_text(self.pairs@)
    }
}

impl Params {
    #[verifier::type_invariant]
    spec fn names_are_distinct(self) -> bool {
        distinct_names(pairs_text(self.pairs@))
    }

    /// No parameters.
    pub fn new() -> (r: Params)
        ensures
            r@ == Pairs::empty(),
    {
        Params { pairs: Vec::new() }
    }

    /// How many names have a value.
    pub fn len(&self) -> (n: usize)
        ensures
            n == self@.len(),
    {
        self.pairs.len()
    }

    /// Whether `name` has a value.
    pub fn contains_key(&self, name: &str) -> (r: bool)
        ensures
            r == has_name(self@, name@),
    {
        proof {
            lemma_first_index(self@, name@);
        }
        find(&self.pairs, name).is_some()
    }

    /// Gives `name` the value `value`.
    pub fn insert(self, name: &str, value: &str) -> (r: Params)
        ensures
            r@ == inserted(self@, name@, value@),
            distinct_names(r@),
            as_map(r@) == as_map(self@).insert(name@, value@),
    {
        proof {
            use_type_invariant(&self);
            lemma_inserted_distinct(self@, name@, value@);
            lemma_inserted_is_map_insert(self@, name@, value@);
        }
        let mut pairs = self.pairs;
        match find(&pairs, name) {
            Some(i) => {
                pairs.set(i, (name.to_owned(), value.to_owned()));
            },
            None => {
                proof {
                    lemma_first_index(self@, name@);
                }
                pairs.push((name.to_owned(), value.to_owned()));
            },
        }
        assert(pairs_text(pairs@) =~= inserted(self@, name@, value@));
        Params { pairs }
    }

    /// Calls to mind what holds of every value of this type: no two of the
    /// parameters share a name.
    pub fn well_formed(&self)
        ensures
            distinct_names(self@),
    {
        proof {
            use_type_invariant(self);
        }
    }

    /// The parameters in order; no two of them share a name.
    pub fn pairs(&self) -> (r: &Vec<(String, String)>)
        ensures
            pairs_text(r@) == self@,
            distinct_names(self@),
    {
        proof {
            use_type_invariant(self);
        }
        &self.pairs
    }
}

} // verus!
