//! Ordered sets that keep their elements sorted and free of duplicates, so
//! that they are walked in the same order as a `BTreeSet` of the same items.
use crate::text::chars_of;
use vstd::prelude::*;

verus! {

// ---------------------------------------------------------------------
// Sets of enumeration values, ordered by declaration rank
// ---------------------------------------------------------------------

/// A fieldless enumeration whose derived order is its declaration order.
pub trait Ranked: Copy + Sized {
    spec fn spec_rank(self) -> nat;

    proof fn rank_identifies(a: Self, b: Self)
        ensures
            a.spec_rank() == b.spec_rank() ==> a == b,
    ;

    fn rank(&self) -> (r: u8)
        ensures
            r as nat == self.spec_rank(),
    ;
}

pub open spec fn rank_sorted<T: Ranked>(s: Seq<T>) -> bool {
    forall|i: int, j: int| 0 <= i < j < s.len() ==> s[i].spec_rank() < s[j].spec_rank()
}

/// A set of enumeration values held in increasing rank.
pub struct RankedSet<T: Ranked> {
    items: Vec<T>,
}

impl<T: Ranked> View for RankedSet<T> {
    type V = Seq<T>;

    closed spec fn view(&self) -> Seq<T> {
        self.items@
    }
}

impl<T: Ranked> RankedSet<T> {
    #[verifier::type_invariant]
    spec fn inv(self) -> bool {
        rank_sorted(self.items@)
    }

    pub fn new() -> (s: Self)
        ensures
            s@ == Seq::<T>::empty(),
    {
        RankedSet { items: Vec::new() }
    }

    pub fn len(&self) -> (n: usize)
        ensures
            n == self@.len(),
    {
        self.items.len()
    }

    /// The elements in increasing order.
    pub fn elements(&self) -> (v: Vec<T>)
        ensures
            v@ == self@,
            rank_sorted(v@),
    {
        proof {
            use_type_invariant(self);
        }
        let mut out: Vec<T> = Vec::new();
        for i in 0..self.items.len()
            invariant
                out@ == self@.take(i as int),
        {
            out.push(self.items[i]);
            assert(self@.take(i + 1) =~= self@.take(i as int).push(self@[i as int]));
        }
        assert(self@.take(self@.len() as int) =~= self@);
        out
    }

    pub fn contains(&self, x: T) -> (r: bool)
        ensures
            r == self@.contains(x),
    {
        let xr = x.rank();
        for i in 0..self.items.len()
            invariant
                xr as nat == x.spec_rank(),
                forall|k: int| 0 <= k < i ==> self@[k] != x,
        {
            if self.items[i].rank() == xr {
                proof {
                    T::rank_identifies(self@[i as int], x);
                }
                return true;
            }
            proof {
                if self@[i as int] == x {
                    assert(self@[i as int].spec_rank() == x.spec_rank());
                }
            }
        }
        false
    }

    /// Adds `x`; the set is unchanged when it already holds `x`.
    pub fn insert(&mut self, x: T)
        ensures
            final(self)@.to_set() == old(self)@.to_set().insert(x),
            old(self)@.contains(x) ==> final(self)@ == old(self)@,
            rank_sorted(final(self)@),
    {
        proof {
            use_type_invariant(&*self);
        }
        let xr = x.rank();
        let len = self.items.len();
        let mut p: usize = 0;
        while p < len && self.items[p].rank() < xr
            invariant
                len == self@.len(),
                xr as nat == x.spec_rank(),
                rank_sorted(self@),
                0 <= p <= len,
                forall|k: int| 0 <= k < p ==> self@[k].spec_rank() < x.spec_rank(),
            decreases len - p,
        {
            p = p + 1;
        }
        if p < len && self.items[p].rank() == xr {
            proof {
                T::rank_identifies(self@[p as int], x);
                assert(self@.to_set().insert(x) =~= self@.to_set());
            }
            return ;
        }
        let ghost old_items = self@;
        let mut items: Vec<T> = Vec::new();
        for i in 0..p
            invariant
                p <= len == old_items.len(),
                old_items == self@,
                items@ == old_items.take(i as int),
        {
            items.push(self.items[i]);
            assert(old_items.take(i + 1) =~= old_items.take(i as int).push(old_items[i as int]));
        }
        items.push(x);
        for i in p..len
            invariant
                p <= len == old_items.len(),
                old_items == self@,
                items@ == old_items.take(p as int).push(x) + old_items.subrange(p as int, i as int),
        {
            items.push(self.items[i]);
            assert(old_items.subrange(p as int, i + 1) =~= old_items.subrange(p as int, i as int).push(
                old_items[i as int],
            ));
        }
        let ghost new_items = items@;
        assert(new_items =~= old_items.insert(p as int, x));
        proof {
            assert forall|i: int, j: int| 0 <= i < j < new_items.len() implies new_items[i].spec_rank()
                < new_items[j].spec_rank() by {
                if j < p {
                } else if j == p {
                } else if i < p {
                    assert(new_items[j] == old_items[j - 1]);
                    if p < len {
                        assert(old_items[p as int].spec_rank() > x.spec_rank());
                    }
                } else if i == p {
                    assert(new_items[j] == old_items[j - 1]);
                    assert(old_items[p as int].spec_rank() >= x.spec_rank());
                    if p < len && j - 1 > p {
                        assert(old_items[p as int].spec_rank() < old_items[j - 1].spec_rank());
                    }
                    if old_items[p as int].spec_rank() == x.spec_rank() {
                        assert(false);
                    }
                } else {
                    assert(new_items[i] == old_items[i - 1]);
                    assert(new_items[j] == old_items[j - 1]);
                }
            }
            assert forall|y: T| new_items.contains(y) <==> old_items.to_set().insert(x).contains(y) by {
                if new_items.contains(y) {
                    let k = choose|k: int| 0 <= k < new_items.len() && new_items[k] == y;
                    if k < p {
                        assert(old_items[k] == y);
                    } else if k > p {
                        assert(old_items[k - 1] == y);
                    }
                }
                if old_items.contains(y) {
                    let k = choose|k: int| 0 <= k < old_items.len() && old_items[k] == y;
                    if k < p {
                        assert(new_items[k] == y);
                    } else {
                        assert(new_items[k + 1] == y);
                    }
                }
                if y == x {
                    assert(new_items[p as int] == x);
                }
            }
            assert(new_items.to_set() =~= old_items.to_set().insert(x));
            if old_items.contains(x) {
                let k = choose|k: int| 0 <= k < old_items.len() && old_items[k] == x;
                if k < p {
                    assert(old_items[k].spec_rank() < x.spec_rank());
                } else {
                    assert(old_items[k].spec_rank() >= old_items[p as int].spec_rank());
                    assert(old_items[p as int].spec_rank() >= x.spec_rank());
                }
                assert(false);
            }
        }
        self.items = items;
    }

    /// The set holding the given values.
    pub fn from_values(values: Vec<T>) -> (s: Self)
        ensures
            s@.to_set() == values@.to_set(),
    {
        let mut s = RankedSet::new();
        for i in 0..values.len()
            invariant
                s@.to_set() == values@.take(i as int).to_set(),
        {
            s.insert(values[i]);
            assert(values@.take(i + 1) =~= values@.take(i as int).push(values@[i as int]));
            proof {
                values@.take(i as int).lemma_push_to_set_commute(values@[i as int]);
            }
        }
        assert(values@.take(values@.len() as int) =~= values@);
        s
    }

    /// Whether every element of `required` is an element of this set.
    pub fn contains_all(&self, required: &RankedSet<T>) -> (r: bool)
        ensures
            r == required@.to_set().subset_of(self@.to_set()),
    {
        let n = required.items.len();
        for i in 0..n
            invariant
                n == required@.len(),
                forall|k: int| 0 <= k < i ==> self@.contains(#[trigger] required@[k]),
        {
            if !self.contains(required.items[i]) {
                assert(required@.to_set().contains(required@[i as int]));
                return false;
            }
        }
        assert forall|x: T| required@.to_set().contains(x) implies self@.to_set().contains(x) by {
            let k = choose|k: int| 0 <= k < required@.len() && required@[k] == x;
            assert(self@.contains(required@[k]));
        }
        true
    }
}

// ---------------------------------------------------------------------
// Sets of strings, in byte order
// ---------------------------------------------------------------------

/// The order of `String`: lexicographic by code point, which is the order
/// of the UTF-8 bytes.
pub open spec fn chars_lt(a: Seq<char>, b: Seq<char>) -> bool
    decreases a.len(),
{
    if a.len() == 0 {
        b.len() > 0
    } else if b.len() == 0 {
        false
    } else if a[0] != b[0] {
        (a[0] as u32) < (b[0] as u32)
    } else {
        chars_lt(a.drop_first(), b.drop_first())
    }
}

pub proof fn lemma_chars_lt_irreflexive(a: Seq<char>)
    ensures
        !chars_lt(a, a),
    decreases a.len(),
{
    if a.len() > 0 {
        lemma_chars_lt_irreflexive(a.drop_first());
    }
}

pub proof fn lemma_chars_lt_transitive(a: Seq<char>, b: Seq<char>, c: Seq<char>)
    requires
        chars_lt(a, b),
        chars_lt(b, c),
    ensures
        chars_lt(a, c),
    decreases a.len(),
{
    if a.len() > 0 && b.len() > 0 && c.len() > 0 {
        if a[0] == b[0] && b[0] == c[0] {
            lemma_chars_lt_transitive(a.drop_first(), b.drop_first(), c.drop_first());
        }
    }
}

pub proof fn lemma_chars_lt_total(a: Seq<char>, b: Seq<char>)
    ensures
        a == b || chars_lt(a, b) || chars_lt(b, a),
    decreases a.len(),
{
    if a.len() > 0 && b.len() > 0 {
        if a[0] != b[0] {
            vstd::utf8::char_u32_cast(a[0], a[0] as u32);
            vstd::utf8::char_u32_cast(b[0], b[0] as u32);
        }
        if a[0] == b[0] {
            lemma_chars_lt_total(a.drop_first(), b.drop_first());
            if a.drop_first() == b.drop_first() {
                assert(a =~= seq![a[0]] + a.drop_first());
                assert(b =~= seq![b[0]] + b.drop_first());
            }
        }
    } else if a.len() == 0 && b.len() == 0 {
        assert(a =~= b);
    }
}

pub proof fn lemma_chars_lt_asymmetric(a: Seq<char>, b: Seq<char>)
    requires
        chars_lt(a, b),
    ensures
        !chars_lt(b, a),
{
    if chars_lt(b, a) {
        lemma_chars_lt_transitive(a, b, a);
        lemma_chars_lt_irreflexive(a);
    }
}

/// Whether `a` sorts before `b`.
pub fn chars_less(a: &Vec<char>, b: &Vec<char>) -> (r: bool)
    ensures
        r == chars_lt(a@, b@),
{
    let mut i: usize = 0;
    assert(a@.skip(0) =~= a@);
    assert(b@.skip(0) =~= b@);
    while i < a.len() && i < b.len()
        invariant
            0 <= i <= a@.len(),
            i <= b@.len(),
            chars_lt(a@, b@) == chars_lt(a@.skip(i as int), b@.skip(i as int)),
        decreases a@.len() - i,
    {
        if a[i] != b[i] {
            assert(a@.skip(i as int)[0] == a@[i as int]);
            assert(b@.skip(i as int)[0] == b@[i as int]);
            return (a[i] as u32) < (b[i] as u32);
        }
        assert(a@.skip(i as int).drop_first() =~= a@.skip(i + 1));
        assert(b@.skip(i as int).drop_first() =~= b@.skip(i + 1));
        i = i + 1;
    }
    i < b.len()
}

pub open spec fn strictly_sorted(s: Seq<Seq<char>>) -> bool {
    forall|i: int, j: int| 0 <= i < j < s.len() ==> chars_lt(s[i], s[j])
}

pub open spec fn string_views(v: Seq<String>) -> Seq<Seq<char>> {
    v.map_values(|s: String| s@)
}

proof fn lemma_views_push(v: Seq<String>, x: String)
    ensures
        string_views(v.push(x)) == string_views(v).push(x@),
{
    assert(string_views(v.push(x)) =~= string_views(v).push(x@));
}

/// A set of strings held in increasing order.
pub struct StringSet {
    items: Vec<String>,
}

impl View for StringSet {
    type V = Seq<Seq<char>>;

    closed spec fn view(&self) -> Seq<Seq<char>> {
        string_views(self.items@)
    }
}

impl StringSet {
    #[verifier::type_invariant]
    spec fn inv(self) -> bool {
        strictly_sorted(string_views(self.items@))
    }

    pub fn new() -> (s: Self)
        ensures
            s@ == Seq::<Seq<char>>::empty(),
    {
        let s = StringSet { items: Vec::new() };
        assert(s@ =~= Seq::<Seq<char>>::empty());
        s
    }

    pub fn len(&self) -> (n: usize)
        ensures
            n == self@.len(),
    {
        self.items.len()
    }

    /// The element at position `i` of the increasing order.
    pub fn get(&self, i: usize) -> (s: &String)
        requires
            i < self@.len(),
        ensures
            s@ == self@[i as int],
    {
        &self.items[i]
    }

    pub fn contains(&self, x: &str) -> (r: bool)
        ensures
            r == self@.contains(x@),
    {
        let xc = chars_of(x);
        for i in 0..self.items.len()
            invariant
                xc@ == x@,
                forall|k: int| 0 <= k < i ==> self@[k] != x@,
        {
            let ic = chars_of(self.items[i].as_str());
            if crate::text::chars_eq(&ic, &xc) {
                assert(self@[i as int] == x@);
                return true;
            }
        }
        false
    }

    /// Adds `x`; the set is unchanged when it already holds `x`.
    pub fn insert(&mut self, x: String)
        ensures
            final(self)@.to_set() == old(self)@.to_set().insert(x@),
            old(self)@.contains(x@) ==> final(self)@ == old(self)@,
            strictly_sorted(final(self)@),
    {
        proof {
            use_type_invariant(&*self);
        }
        let ghost old_items = self@;
        let xc = chars_of(x.as_str());
        let len = self.items.len();
        let mut p: usize = 0;
        while p < len && chars_less(&chars_of(self.items[p].as_str()), &xc)
            invariant
                len == old_items.len(),
                old_items == self@,
                xc@ == x@,
                strictly_sorted(old_items),
                0 <= p <= len,
                forall|k: int| 0 <= k < p ==> chars_lt(old_items[k], x@),
            decreases len - p,
        {
            p = p + 1;
        }
        if p < len {
            let pc = chars_of(self.items[p].as_str());
            if crate::text::chars_eq(&pc, &xc) {
                proof {
                    assert(old_items[p as int] == x@);
                    assert(old_items.to_set().insert(x@) =~= old_items.to_set());
                }
                return ;
            }
        }
        let mut items: Vec<String> = Vec::new();
        for i in 0..p
            invariant
                p <= len == old_items.len(),
                old_items == self@,
                string_views(items@) == old_items.take(i as int),
        {
            let c = self.items[i].clone();
            assert(c@ == old_items[i as int]);
            let ghost before = items@;
            items.push(c);
            proof {
                lemma_views_push(before, c);
            }
            assert(string_views(items@) =~= old_items.take(i + 1));
        }
        let ghost before = items@;
        items.push(x);
        proof {
            lemma_views_push(before, items@.last());
        }
        assert(string_views(items@) =~= old_items.take(p as int).push(x@));
        for i in p..len
            invariant
                p <= len == old_items.len(),
                old_items == self@,
                string_views(items@) == old_items.take(p as int).push(x@) + old_items.subrange(
                    p as int,
                    i as int,
                ),
        {
            let c = self.items[i].clone();
            assert(c@ == old_items[i as int]);
            let ghost before = items@;
            items.push(c);
            proof {
                lemma_views_push(before, c);
            }
            assert(string_views(items@) =~= old_items.take(p as int).push(x@) + old_items.subrange(
                p as int,
                i + 1,
            ));
        }
        let ghost new_items = string_views(items@);
        assert(new_items =~= old_items.insert(p as int, x@));
        proof {
            if p < len {
                lemma_chars_lt_total(old_items[p as int], x@);
            }
            assert forall|i: int, j: int| 0 <= i < j < new_items.len() implies chars_lt(
                new_items[i],
                new_items[j],
            ) by {
                if j < p {
                } else if j == p {
                } else if i < p {
                    assert(new_items[j] == old_items[j - 1]);
                    assert(chars_lt(old_items[i], x@));
                    assert(chars_lt(x@, old_items[p as int]));
                    if j - 1 > p {
                        assert(chars_lt(old_items[p as int], old_items[j - 1]));
                        lemma_chars_lt_transitive(x@, old_items[p as int], old_items[j - 1]);
                    }
                    lemma_chars_lt_transitive(old_items[i], x@, old_items[j - 1]);
                } else if i == p {
                    assert(new_items[j] == old_items[j - 1]);
                    if j - 1 > p {
                        assert(chars_lt(old_items[p as int], old_items[j - 1]));
                        lemma_chars_lt_transitive(x@, old_items[p as int], old_items[j - 1]);
                    }
                } else {
                    assert(new_items[i] == old_items[i - 1]);
                    assert(new_items[j] == old_items[j - 1]);
                }
            }
            assert forall|y: Seq<char>| new_items.contains(y) <==> old_items.to_set().insert(
                x@,
            ).contains(y) by {
                if new_items.contains(y) {
                    let k = choose|k: int| 0 <= k < new_items.len() && new_items[k] == y;
                    if k < p {
                        assert(old_items[k] == y);
                    } else if k > p {
                        assert(old_items[k - 1] == y);
                    }
                }
                if old_items.contains(y) {
                    let k = choose|k: int| 0 <= k < old_items.len() && old_items[k] == y;
                    if k < p {
                        assert(new_items[k] == y);
                    } else {
                        assert(new_items[k + 1] == y);
                    }
                }
                if y == x@ {
                    assert(new_items[p as int] == x@);
                }
            }
            assert(new_items.to_set() =~= old_items.to_set().insert(x@));
            if old_items.contains(x@) {
                let k = choose|k: int| 0 <= k < old_items.len() && old_items[k] == x@;
                if k < p {
                    lemma_chars_lt_irreflexive(x@);
                } else if k == p {
                } else {
                    assert(chars_lt(old_items[p as int], old_items[k]));
                    lemma_chars_lt_asymmetric(x@, old_items[p as int]);
                }
                assert(false);
            }
        }
        self.items = items;
    }

    /// The set holding the given strings.
    pub fn from_strings(values: Vec<String>) -> (s: Self)
        ensures
            s@.to_set() == string_views(values@).to_set(),
            strictly_sorted(s@),
    {
        let mut s = StringSet::new();
        let ghost all = string_views(values@);
        for i in 0..values.len()
            invariant
                all == string_views(values@),
                s@.to_set() == all.take(i as int).to_set(),
                strictly_sorted(s@),
        {
            s.insert(values[i].clone());
            assert(all.take(i + 1) =~= all.take(i as int).push(all[i as int]));
            proof {
                all.take(i as int).lemma_push_to_set_commute(all[i as int]);
            }
        }
        assert(all.take(values@.len() as int) =~= all);
        s
    }
}

} // verus!
