//! The authorization scopes of a call: a set of texts, kept in the byte-wise
//! dictionary order in which it is handed to the authenticator.

use vstd::prelude::*;
use vstd::utf8::encode_utf8;
use crate::text::{
    lemma_before_irreflexive, lemma_before_total, lemma_before_transitive,
    lemma_encoding_injective, order_of, text_before, Order,
};

verus! {

/// The texts of a list of strings.
pub open spec fn texts(v: Seq<String>) -> Seq<Seq<char>> {
    Seq::new(v.len(), |i: int| v[i]@)
}

/// Every member stands before all that follow it.
pub open spec fn ascending(s: Seq<Seq<char>>) -> bool {
    forall|i: int, j: int| 0 <= i < j < s.len() ==> text_before(#[trigger] s[i], #[trigger] s[j])
}

/// How many leading members of `s` stand before `x`.
pub open spec fn rank(s: Seq<Seq<char>>, x: Seq<char>) -> int
    decreases s.len(),
{
    if s.len() == 0 {
        0
    } else if text_before(s[0], x) {
        1 + rank(s.drop_first(), x)
    } else {
        0
    }
}

/// `s` with `x` among its members: unchanged where `x` is one already, else
/// with `x` put behind the members that stand before it.
pub open spec fn with_scope(s: Seq<Seq<char>>, x: Seq<char>) -> Seq<Seq<char>> {
    let k = rank(s, x);
    if k < s.len() && s[k] == x {
        s
    } else {
        s.insert(k, x)
    }
}

/// The members before index `rank` stand before `x`; the member at `rank`, if
/// there is one, does not.
pub proof fn lemma_rank(s: Seq<Seq<char>>, x: Seq<char>)
    ensures
        0 <= rank(s, x) <= s.len(),
        forall|j: int| 0 <= j < rank(s, x) ==> text_before(#[trigger] s[j], x),
        rank(s, x) < s.len() ==> !text_before(s[rank(s, x)], x),
    decreases s.len(),
{
    if s.len() > 0 && text_before(s[0], x) {
        let rest = s.drop_first();
        lemma_rank(rest, x);
        assert forall|j: int| 0 < j < s.len() implies s[j] == rest[j - 1] by {}
    }
}

/// An index with only smaller members before it, and none such at it, is the
/// rank.
pub proof fn lemma_rank_at(s: Seq<Seq<char>>, x: Seq<char>, i: int)
    requires
        0 <= i <= s.len(),
        forall|j: int| 0 <= j < i ==> text_before(#[trigger] s[j], x),
        i < s.len() ==> !text_before(s[i], x),
    ensures
        rank(s, x) == i,
    decreases s.len(),
{
    if s.len() > 0 && i > 0 {
        let rest = s.drop_first();
        assert forall|j: int| 0 < j < s.len() implies s[j] == rest[j - 1] by {}
        lemma_rank_at(rest, x, i - 1);
    }
}

/// In an ascending list no text occurs twice.
pub proof fn lemma_ascending_distinct(s: Seq<Seq<char>>)
    requires
        ascending(s),
    ensures
        forall|i: int, j: int| 0 <= i < j < s.len() ==> #[trigger] s[i] != #[trigger] s[j],
{
    assert forall|i: int, j: int| 0 <= i < j < s.len() implies #[trigger] s[i]
        != #[trigger] s[j] by {
        assert(text_before(s[i], s[j]));
        lemma_before_irreflexive(encode_utf8(s[i]));
    }
}

/// Adding a scope keeps the list ascending, and makes the set of its members
/// the old set with the scope added.
pub proof fn lemma_with_scope(s: Seq<Seq<char>>, x: Seq<char>)
    requires
        ascending(s),
    ensures
        ascending(with_scope(s, x)),
        with_scope(s, x).to_set() == s.to_set().insert(x),
{
    lemma_rank(s, x);
    let k = rank(s, x);
    let r = with_scope(s, x);
    if k == s.len() || s[k] != x {
        assert forall|j: int| k <= j < s.len() implies text_before(x, #[trigger] s[j]) by {
            lemma_before_total(encode_utf8(s[k]), encode_utf8(x));
            if encode_utf8(s[k]) == encode_utf8(x) {
                lemma_encoding_injective(s[k], x);
            }
            assert(text_before(x, s[k]));
            if j > k {
                assert(text_before(s[k], s[j]));
                lemma_before_transitive(encode_utf8(x), encode_utf8(s[k]), encode_utf8(s[j]));
            }
        }
        assert forall|t: Seq<char>| r.to_set().contains(t) <==> s.to_set().insert(x).contains(
            t,
        ) by {
            if r.to_set().contains(t) {
                let i = choose|i: int| 0 <= i < r.len() && r[i] == t;
                if i < k {
                    assert(s[i] == t);
                } else if i > k {
                    assert(s[i - 1] == t);
                }
            }
            if s.to_set().contains(t) {
                let i = choose|i: int| 0 <= i < s.len() && s[i] == t;
                if i < k {
                    assert(r[i] == t);
                } else {
                    assert(r[i + 1] == t);
                }
            }
            if t == x {
                assert(r[k] == t);
            }
        }
    }
}

/// A set of scopes. Its members are distinct and come in the byte-wise
/// dictionary order.
#[derive(Debug)]
pub struct ScopeSet {
    names: Vec<String>,
}

impl View for ScopeSet {
    type V = Seq<Seq<char>>;

    closed spec fn view(&self) -> Seq<Seq<char>> {
        texts(self.names@)
    }
}

impl ScopeSet {
    #[verifier::type_invariant]
    spec fn members_ascend(self) -> bool {
        ascending(texts(self.names@))
    }

    /// The empty set.
    pub fn new() -> (r: ScopeSet)
        ensures
            r@ == Seq::<Seq<char>>::empty(),
    {
        ScopeSet { names: Vec::new() }
    }

    /// The number of scopes.
    pub fn len(&self) -> (n: usize)
        ensures
            n == self@.len(),
    {
        self.names.len()
    }

    /// Whether `scope` is a member.
    pub fn contains(&self, scope: &str) -> (r: bool)
        ensures
            r == self@.contains(scope@),
    {
        let ghost s = self@;
        let mut i: usize = 0;
        while i < self.names.len()
            invariant
                i <= self.names.len(),
                s == texts(self.names@),
                forall|j: int| 0 <= j < i ==> #[trigger] s[j] != scope@,
            decreases self.names.len() - i,
        {
            match order_of(self.names[i].as_str(), scope) {
                Order::Same => {
                    assert(s[i as int] == scope@);
                    return true;
                },
                _ => {},
            }
            i += 1;
        }
        false
    }

    /// Adds `scope` to the set.
    pub fn insert(self, scope: &str) -> (r: ScopeSet)
        ensures
            r@ == with_scope(self@, scope@),
            ascending(r@),
            r@.to_set() == self@.to_set().insert(scope@),
    {
        proof {
            use_type_invariant(&self);
            lemma_with_scope(self@, scope@);
        }
        let ghost s = self@;
        let mut names = self.names;
        let mut i: usize = 0;
        let mut present = false;
        while i < names.len()
            invariant_except_break
                !present,
            invariant
                i <= names.len(),
                s == texts(names@),
                forall|j: int| 0 <= j < i ==> text_before(#[trigger] s[j], scope@),
            ensures
                i < names.len() ==> !text_before(s[i as int], scope@),
                present <==> i < names.len() && s[i as int] == scope@,
            decreases names.len() - i,
        {
            match order_of(names[i].as_str(), scope) {
                Order::Before => {},
                Order::Same => {
                    proof {
                        lemma_before_irreflexive(encode_utf8(scope@));
                    }
                    present = true;
                    break ;
                },
                Order::After => {
                    break ;
                },
            }
            i += 1;
        }
        proof {
            lemma_rank_at(s, scope@, i as int);
        }
        if !present {
            names.insert(i, scope.to_owned());
        }
        assert(texts(names@) =~= with_scope(s, scope@));
        ScopeSet { names }
    }

    /// Calls to mind what holds of every value of this type: the scopes
    /// ascend.
    pub fn well_formed(&self)
        ensures
            ascending(self@),
    {
        proof {
            use_type_invariant(self);
        }
    }

    /// The scopes in order: ascending, and so without repetition.
    pub fn names(&self) -> (r: &Vec<String>)
        ensures
            texts(r@) == self@,
            ascending(self@),
    {
        proof {
            use_type_invariant(self);
        }
        &self.names
    }
}

} // verus!
