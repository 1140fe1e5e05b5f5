//! Environment variables: an ordered map from names to values.
use vstd::prelude::*;

use crate::text::chars_of;

verus! {

/// Whether `a` comes before `b` in the order of their character codes, which
/// is the order of their UTF-8 bytes too.
pub open spec fn text_lt(a: Seq<char>, b: Seq<char>) -> bool
    decreases a.len(),
{
    if b.len() == 0 {
        false
    } else if a.len() == 0 {
        true
    } else if a[0] == b[0] {
        text_lt(a.drop_first(), b.drop_first())
    } else {
        a[0] < b[0]
    }
}

proof fn lemma_text_lt_irreflexive(a: Seq<char>)
    ensures
        !text_lt(a, a),
    decreases a.len(),
{
    if a.len() > 0 {
        lemma_text_lt_irreflexive(a.drop_first());
    }
}

proof fn lemma_text_lt_transitive(a: Seq<char>, b: Seq<char>, c: Seq<char>)
    requires
        text_lt(a, b),
        text_lt(b, c),
    ensures
        text_lt(a, c),
    decreases a.len(),
{
    if a.len() > 0 && a[0] == b[0] && b[0] == c[0] {
        lemma_text_lt_transitive(a.drop_first(), b.drop_first(), c.drop_first());
    }
}

proof fn lemma_text_lt_total(a: Seq<char>, b: Seq<char>)
    ensures
        text_lt(a, b) || a == b || text_lt(b, a),
    decreases a.len(),
{
    if a.len() == 0 {
        if b.len() == 0 {
            assert(a =~= b);
        }
    } else if b.len() > 0 && a[0] == b[0] {
        lemma_text_lt_total(a.drop_first(), b.drop_first());
        if a.drop_first() == b.drop_first() {
            assert(a =~= seq![a[0]] + a.drop_first());
            assert(b =~= seq![b[0]] + b.drop_first());
        }
    }
}

/// How two texts compare.
#[derive(Clone, Copy, PartialEq, Eq, Structural, Debug)]
pub enum TextOrder {
    Before,
    Same,
    After,
}

/// Compares two texts by their character codes.
fn order_of(a: &str, b: &str) -> (o: TextOrder)
    ensures
        o == TextOrder::Before <==> text_lt(a@, b@),
        o == TextOrder::Same <==> a@ == b@,
        o == TextOrder::After <==> text_lt(b@, a@),
{
    let x = chars_of(a);
    let y = chars_of(b);
    let mut i: usize = 0;
    proof {
        assert(x@.skip(0) =~= x@);
        assert(y@.skip(0) =~= y@);
    }
    while i < x.len() && i < y.len() && x[i] == y[i]
        invariant
            i <= x@.len(),
            i <= y@.len(),
            x@ == a@,
            y@ == b@,
            x@.take(i as int) == y@.take(i as int),
            text_lt(a@, b@) == text_lt(x@.skip(i as int), y@.skip(i as int)),
            text_lt(b@, a@) == text_lt(y@.skip(i as int), x@.skip(i as int)),
        decreases x@.len() - i,
    {
        proof {
            assert(x@.skip(i as int).drop_first() =~= x@.skip(i + 1));
            assert(y@.skip(i as int).drop_first() =~= y@.skip(i + 1));
            assert(x@.take(i + 1) =~= x@.take(i as int).push(x@[i as int]));
            assert(y@.take(i + 1) =~= y@.take(i as int).push(y@[i as int]));
        }
        i = i + 1;
    }
    proof {
        lemma_text_lt_irreflexive(a@);
        lemma_text_lt_irreflexive(b@);
    }
    if i == x.len() {
        if i == y.len() {
            proof {
                assert(x@.take(i as int) =~= x@);
                assert(y@.take(i as int) =~= y@);
            }
            TextOrder::Same
        } else {
            TextOrder::Before
        }
    } else if i == y.len() {
        TextOrder::After
    } else if x[i] < y[i] {
        TextOrder::Before
    } else {
        TextOrder::After
    }
}

/// The texts of a list of name and value pairs.
pub open spec fn pair_texts(s: Seq<(String, String)>) -> Seq<(Seq<char>, Seq<char>)> {
    s.map_values(|p: (String, String)| (p.0@, p.1@))
}

/// The map that results from inserting the pairs one after the other: of two
/// pairs with one name, the later one stays.
pub open spec fn layered(pairs: Seq<(Seq<char>, Seq<char>)>) -> Map<Seq<char>, Seq<char>>
    decreases pairs.len(),
{
    if pairs.len() == 0 {
        Map::empty()
    } else {
        layered(pairs.drop_last()).insert(pairs.last().0, pairs.last().1)
    }
}

/// Names in strictly ascending order.
pub open spec fn ascending(pairs: Seq<(Seq<char>, Seq<char>)>) -> bool {
    forall|i: int, j: int|
        0 <= i < j < pairs.len() ==> text_lt((#[trigger] pairs[i]).0, (#[trigger] pairs[j]).0)
}

/// Where the names ascend, the map holds each pair, and nothing else.
proof fn lemma_layered_ascending(pairs: Seq<(Seq<char>, Seq<char>)>)
    requires
        ascending(pairs),
    ensures
        forall|i: int|
            0 <= i < pairs.len() ==> layered(pairs).contains_key((#[trigger] pairs[i]).0) && layered(
                pairs,
            )[pairs[i].0] == pairs[i].1,
        forall|k: Seq<char>| #[trigger]
            layered(pairs).contains_key(k) ==> exists|i: int|
                0 <= i < pairs.len() && (#[trigger] pairs[i]).0 == k,
        layered(pairs).dom().finite(),
        layered(pairs).len() == pairs.len(),
    decreases pairs.len(),
{
    if pairs.len() > 0 {
        let rest = pairs.drop_last();
        assert(ascending(rest)) by {
            assert forall|i: int, j: int| 0 <= i < j < rest.len() implies text_lt(
                (#[trigger] rest[i]).0,
                (#[trigger] rest[j]).0,
            ) by {
                assert(rest[i] == pairs[i] && rest[j] == pairs[j]);
            }
        }
        lemma_layered_ascending(rest);
        let n = pairs.len() - 1;
        assert(!layered(rest).contains_key(pairs.last().0)) by {
            if layered(rest).contains_key(pairs.last().0) {
                let i = choose|i: int|
                    0 <= i < rest.len() && (#[trigger] rest[i]).0 == pairs.last().0;
                assert(rest[i] == pairs[i]);
                assert(text_lt(pairs[i].0, pairs[n].0));
                lemma_text_lt_irreflexive(pairs.last().0);
            }
        }
        assert forall|i: int| 0 <= i < pairs.len() implies layered(pairs).contains_key(
            (#[trigger] pairs[i]).0,
        ) && layered(pairs)[pairs[i].0] == pairs[i].1 by {
            if i < n {
                assert(rest[i] == pairs[i]);
                assert(text_lt(pairs[i].0, pairs[n].0));
                lemma_text_lt_irreflexive(pairs[i].0);
            }
        }
        assert forall|k: Seq<char>| #[trigger] layered(pairs).contains_key(k) implies exists|i: int|
            0 <= i < pairs.len() && (#[trigger] pairs[i]).0 == k by {
            if k != pairs.last().0 {
                let i = choose|i: int| 0 <= i < rest.len() && (#[trigger] rest[i]).0 == k;
                assert(pairs[i].0 == k);
            } else {
                assert(pairs[n].0 == k);
            }
        }
    }
}

/// Environment variables by name, held in ascending order of the names.
#[derive(Debug, PartialEq, Eq)]
pub struct EnvMap {
    entries: Vec<(String, String)>,
}

impl View for EnvMap {
    type V = Map<Seq<char>, Seq<char>>;

    closed spec fn view(&self) -> Map<Seq<char>, Seq<char>> {
        layered(pair_texts(self.entries@))
    }
}

/// Inserting a pair between two neighbours keeps the names ascending, and
/// adds that pair to the map.
proof fn lemma_insert_between(
    pairs: Seq<(Seq<char>, Seq<char>)>,
    at: int,
    k: Seq<char>,
    v: Seq<char>,
)
    requires
        ascending(pairs),
        0 <= at <= pairs.len(),
        forall|j: int| 0 <= j < at ==> text_lt((#[trigger] pairs[j]).0, k),
        forall|j: int| at <= j < pairs.len() ==> text_lt(k, (#[trigger] pairs[j]).0),
    ensures
        ascending(pairs.insert(at, (k, v))),
        layered(pairs.insert(at, (k, v))) == layered(pairs).insert(k, v),
{
    let grown = pairs.insert(at, (k, v));
    assert forall|i: int, j: int| 0 <= i < j < grown.len() implies text_lt(
        (#[trigger] grown[i]).0,
        (#[trigger] grown[j]).0,
    ) by {
        let a = if i < at { i } else { i - 1 };
        let b = if j < at { j } else { j - 1 };
        if i != at {
            assert(grown[i] == pairs[a]);
        }
        if j != at {
            assert(grown[j] == pairs[b]);
        }
    }
    lemma_layered_ascending(pairs);
    lemma_layered_ascending(grown);
    let before = layered(pairs).insert(k, v);
    let after = layered(grown);
    assert forall|x: Seq<char>|
        #![trigger after.dom().contains(x)]
        #![trigger before.dom().contains(x)]
        after.contains_key(x) == before.contains_key(x) && (after.contains_key(x) ==> after[x]
            == before[x]) by {
        if after.contains_key(x) {
            let i = choose|i: int| 0 <= i < grown.len() && (#[trigger] grown[i]).0 == x;
            if i < at {
                assert(grown[i] == pairs[i]);
                lemma_text_lt_irreflexive(k);
            } else if i > at {
                assert(grown[i] == pairs[i - 1]);
                lemma_text_lt_irreflexive(k);
            } else {
                assert(grown[at] == (k, v));
            }
        }
        if before.contains_key(x) {
            if x == k {
                assert(grown[at].0 == k);
            } else {
                let i = choose|i: int| 0 <= i < pairs.len() && (#[trigger] pairs[i]).0 == x;
                if i < at {
                    assert(grown[i] == pairs[i]);
                } else {
                    assert(grown[i + 1] == pairs[i]);
                }
            }
        }
    }
    assert(after.dom() =~= before.dom());
    assert(after =~= before);
}

/// Replacing the value beside a name replaces it in the map.
proof fn lemma_replace_value(
    pairs: Seq<(Seq<char>, Seq<char>)>,
    at: int,
    v: Seq<char>,
)
    requires
        ascending(pairs),
        0 <= at < pairs.len(),
    ensures
        ascending(pairs.update(at, (pairs[at].0, v))),
        layered(pairs.update(at, (pairs[at].0, v))) == layered(pairs).insert(pairs[at].0, v),
{
    let k = pairs[at].0;
    let changed = pairs.update(at, (k, v));
    assert forall|i: int| 0 <= i < pairs.len() implies (#[trigger] changed[i]).0 == pairs[i].0 by {
    }
    assert(ascending(changed));
    lemma_layered_ascending(pairs);
    lemma_layered_ascending(changed);
    let before = layered(pairs).insert(k, v);
    let after = layered(changed);
    assert forall|x: Seq<char>|
        #![trigger after.dom().contains(x)]
        #![trigger before.dom().contains(x)]
        after.contains_key(x) == before.contains_key(x) && (after.contains_key(x) ==> after[x]
            == before[x]) by {
        if after.contains_key(x) {
            let i = choose|i: int| 0 <= i < changed.len() && (#[trigger] changed[i]).0 == x;
            assert(pairs[i].0 == x);
            if i != at {
                assert(changed[i] == pairs[i]);
                if x == k {
                    lemma_text_lt_irreflexive(k);
                }
            }
        }
        if before.contains_key(x) {
            if x == k {
                assert(changed[at].0 == k);
            } else {
                let i = choose|i: int| 0 <= i < pairs.len() && (#[trigger] pairs[i]).0 == x;
                assert(changed[i].0 == x);
            }
        }
    }
    assert(after.dom() =~= before.dom());
    assert(after =~= before);
}

impl EnvMap {
    /// The pairs of the map in ascending order of their names.
    pub closed spec fn pairs(&self) -> Seq<(Seq<char>, Seq<char>)> {
        pair_texts(self.entries@)
    }

    #[verifier::type_invariant]
    spec fn inv(&self) -> bool {
        ascending(pair_texts(self.entries@))
    }

    /// The map without any variable.
    pub fn new() -> (m: Self)
        ensures
            m@ == Map::<Seq<char>, Seq<char>>::empty(),
    {
        let entries: Vec<(String, String)> = Vec::new();
        EnvMap { entries }
    }

    /// The number of variables.
    pub fn len(&self) -> (n: usize)
        ensures
            n == self@.len(),
            n == self.pairs().len(),
    {
        proof {
            use_type_invariant(&*self);
            lemma_layered_ascending(pair_texts(self.entries@));
        }
        self.entries.len()
    }

    /// The first place whose name does not come before `key`.
    fn place(&self, key: &str) -> (at: usize)
        ensures
            at <= self.entries@.len(),
            forall|j: int| 0 <= j < at ==> text_lt((#[trigger] self.entries@[j]).0@, key@),
            at < self.entries@.len() ==> !text_lt(self.entries@[at as int].0@, key@),
    {
        let mut i: usize = 0;
        while i < self.entries.len()
            invariant
                i <= self.entries@.len(),
                forall|j: int| 0 <= j < i ==> text_lt((#[trigger] self.entries@[j]).0@, key@),
            decreases self.entries@.len() - i,
        {
            if order_of(self.entries[i].0.as_str(), key) != TextOrder::Before {
                return i;
            }
            i = i + 1;
        }
        i
    }

    /// The value of `key`, if it is set.
    pub fn get(&self, key: &str) -> (value: Option<&String>)
        ensures
            match value {
                Some(v) => self@.contains_key(key@) && v@ == self@[key@],
                None => !self@.contains_key(key@),
            },
    {
        proof {
            use_type_invariant(&*self);
            lemma_layered_ascending(pair_texts(self.entries@));
        }
        let ghost pairs = pair_texts(self.entries@);
        let at = self.place(key);
        if at < self.entries.len() && order_of(self.entries[at].0.as_str(), key)
            == TextOrder::Same {
            assert(pairs[at as int] == (key@, self.entries@[at as int].1@));
            Some(&self.entries[at].1)
        } else {
            proof {
                if self@.contains_key(key@) {
                    let i = choose|i: int| 0 <= i < pairs.len() && (#[trigger] pairs[i]).0 == key@;
                    assert(pairs[i].0 == self.entries@[i].0@);
                    lemma_text_lt_irreflexive(key@);
                    if i > at {
                        assert(pairs[at as int].0 == self.entries@[at as int].0@);
                        assert(text_lt(pairs[at as int].0, pairs[i].0));
                    }
                }
            }
            None
        }
    }

    /// Whether `key` is set.
    pub fn contains_key(&self, key: &str) -> (yes: bool)
        ensures
            yes == self@.contains_key(key@),
    {
        self.get(key).is_some()
    }

    /// Sets `key` to `value`, in place of any value it had.
    pub fn insert(&mut self, key: String, value: String)
        ensures
            final(self)@ == old(self)@.insert(key@, value@),
    {
        proof {
            use_type_invariant(&*self);
        }
        let at = self.place(key.as_str());
        let ghost pairs = pair_texts(self.entries@);
        let ghost k = key@;
        let ghost v = value@;
        let mut entries: Vec<(String, String)> = Vec::new();
        std::mem::swap(&mut entries, &mut self.entries);
        if at < entries.len() && order_of(entries[at].0.as_str(), key.as_str())
            == TextOrder::Same {
            entries.set(at, (key, value));
            proof {
                assert(pairs[at as int].0 == k);
                lemma_replace_value(pairs, at as int, v);
                assert(pair_texts(entries@) =~= pairs.update(at as int, (k, v)));
            }
        } else {
            proof {
                assert forall|j: int| 0 <= j < at implies text_lt((#[trigger] pairs[j]).0, k) by {
                    assert(pairs[j].0 == entries@[j].0@);
                }
                assert forall|j: int| at <= j < pairs.len() implies text_lt(
                    k,
                    (#[trigger] pairs[j]).0,
                ) by {
                    lemma_text_lt_total(pairs[at as int].0, k);
                    if j > at {
                        assert(text_lt(pairs[at as int].0, pairs[j].0));
                        lemma_text_lt_transitive(k, pairs[at as int].0, pairs[j].0);
                    }
                }
                lemma_insert_between(pairs, at as int, k, v);
            }
            entries.insert(at, (key, value));
            assert(pair_texts(entries@) =~= pairs.insert(at as int, (k, v)));
        }
        self.entries = entries;
    }

    /// Sets each pair of `layer` in turn: of two with one name, the later
    /// one stays.
    pub fn extend(&mut self, layer: &Vec<(String, String)>)
        ensures
            final(self)@ == old(self)@.union_prefer_right(layered(pair_texts(layer@))),
    {
        let ghost before = self@;
        let mut i: usize = 0;
        assert(before.union_prefer_right(layered(pair_texts(layer@.take(0)))) =~= before);
        while i < layer.len()
            invariant
                i <= layer@.len(),
                self@ == before.union_prefer_right(layered(pair_texts(layer@.take(i as int)))),
            decreases layer@.len() - i,
        {
            let pair = &layer[i];
            self.insert(pair.0.clone(), pair.1.clone());
            proof {
                let now = pair_texts(layer@.take(i + 1));
                assert(now.drop_last() =~= pair_texts(layer@.take(i as int)));
                assert(now.last() == (pair.0@, pair.1@));
                assert(self@ =~= before.union_prefer_right(layered(now)));
            }
            i = i + 1;
        }
        assert(layer@.take(i as int) =~= layer@);
    }

    /// The variables in ascending order of their names.
    pub fn to_pairs(&self) -> (out: Vec<(String, String)>)
        ensures
            pair_texts(out@) == self.pairs(),
            ascending(pair_texts(out@)),
            layered(pair_texts(out@)) == self@,
    {
        proof {
            use_type_invariant(&*self);
        }
        let out = copy_pairs(&self.entries);
        out
    }
}

/// A copy of a list of pairs.
pub fn copy_pairs(from: &Vec<(String, String)>) -> (out: Vec<(String, String)>)
    ensures
        pair_texts(out@) == pair_texts(from@),
{
    let mut out: Vec<(String, String)> = Vec::new();
    let mut i: usize = 0;
    while i < from.len()
        invariant
            i <= from@.len(),
            pair_texts(out@) == pair_texts(from@).take(i as int),
        decreases from@.len() - i,
    {
        let ghost before = out@;
        out.push((from[i].0.clone(), from[i].1.clone()));
        assert(pair_texts(out@) =~= pair_texts(before).push((from@[i as int].0@, from@[i as int].1@)));
        assert(pair_texts(from@).take(i + 1) =~= pair_texts(from@).take(i as int).push(
            pair_texts(from@)[i as int],
        ));
        i = i + 1;
    }
    assert(pair_texts(from@).take(i as int) =~= pair_texts(from@));
    out
}

impl Clone for EnvMap {
    fn clone(&self) -> (copy: Self)
        ensures
            copy@ == self@,
            copy.pairs() == self.pairs(),
    {
        proof {
            use_type_invariant(&*self);
        }
        EnvMap { entries: copy_pairs(&self.entries) }
    }
}

/// Layers stack: the pairs of a later list win over those of an earlier one,
/// and what only one of them sets stays.
pub proof fn law_later_layers_win(
    below: Seq<(Seq<char>, Seq<char>)>,
    above: Seq<(Seq<char>, Seq<char>)>,
)
    ensures
        layered(below + above) == layered(below).union_prefer_right(layered(above)),
    decreases above.len(),
{
    if above.len() == 0 {
        assert(below + above =~= below);
        assert(layered(below).union_prefer_right(layered(above)) =~= layered(below));
    } else {
        law_later_layers_win(below, above.drop_last());
        assert((below + above).drop_last() =~= below + above.drop_last());
        assert((below + above).last() == above.last());
        assert(layered(below + above) =~= layered(below).union_prefer_right(layered(above)));
    }
}

impl EnvMap {
    /// These variables with those of `above` layered over them.
    pub fn overlay(&self, above: &EnvMap) -> (out: EnvMap)
        ensures
            out@ == self@.union_prefer_right(above@),
    {
        let mut out = self.clone();
        out.extend(&above.to_pairs());
        out
    }
}

/// Texts are ordered by the first character in which they differ, and a text
/// comes before every longer one that starts with it.
pub proof fn law_texts_are_ordered_by_their_first_difference(
    start: Seq<char>,
    x: char,
    y: char,
    a: Seq<char>,
    b: Seq<char>,
)
    requires
        x != y,
    ensures
        text_lt(start.push(x) + a, start.push(y) + b) <==> x < y,
        text_lt(start, start.push(x) + a),
        !text_lt(start.push(x) + a, start),
        !text_lt(start, start),
    decreases start.len(),
{
    let p = start.push(x) + a;
    let q = start.push(y) + b;
    if start.len() > 0 {
        let rest = start.drop_first();
        law_texts_are_ordered_by_their_first_difference(rest, x, y, a, b);
        assert(p.drop_first() =~= rest.push(x) + a);
        assert(q.drop_first() =~= rest.push(y) + b);
        assert(p[0] == start[0] && q[0] == start[0]);
    }
}

/// Whether a list sets a name to a value: some pair does, and no later one has
/// the name.
pub open spec fn sets(pairs: Seq<(Seq<char>, Seq<char>)>, key: Seq<char>, value: Seq<char>) -> bool {
    exists|i: int|
        0 <= i < pairs.len() && #[trigger] pairs[i] == (key, value) && forall|j: int|
            i < j < pairs.len() ==> (#[trigger] pairs[j]).0 != key
}

/// Whether no pair of a list has a name.
pub open spec fn is_silent(pairs: Seq<(Seq<char>, Seq<char>)>, key: Seq<char>) -> bool {
    forall|i: int| 0 <= i < pairs.len() ==> (#[trigger] pairs[i]).0 != key
}

/// Of the pairs with one name the last one stays, and a name that no pair has is
/// not set.
pub proof fn law_the_last_pair_stays(
    pairs: Seq<(Seq<char>, Seq<char>)>,
    key: Seq<char>,
    value: Seq<char>,
)
    ensures
        sets(pairs, key, value) ==> layered(pairs).contains_key(key) && layered(pairs)[key]
            == value,
        is_silent(pairs, key) <==> !layered(pairs).contains_key(key),
    decreases pairs.len(),
{
    if pairs.len() > 0 {
        let before = pairs.drop_last();
        law_the_last_pair_stays(before, key, value);
        let n = pairs.len() - 1;
        if sets(pairs, key, value) && pairs.last().0 != key {
            let i = choose|i: int|
                0 <= i < pairs.len() && #[trigger] pairs[i] == (key, value) && forall|j: int|
                    i < j < pairs.len() ==> (#[trigger] pairs[j]).0 != key;
            assert(before[i] == (key, value));
            assert forall|j: int| i < j < before.len() implies (#[trigger] before[j]).0 != key by {
                assert(before[j] == pairs[j]);
            }
            assert(sets(before, key, value));
        }
        if sets(pairs, key, value) && pairs.last().0 == key {
            let i = choose|i: int|
                0 <= i < pairs.len() && #[trigger] pairs[i] == (key, value) && forall|j: int|
                    i < j < pairs.len() ==> (#[trigger] pairs[j]).0 != key;
            if i < n {
                assert(pairs[n].0 != key);
            }
        }
        if is_silent(before, key) && pairs.last().0 != key {
            assert forall|i: int| 0 <= i < pairs.len() implies (#[trigger] pairs[i]).0 != key by {
                if i < n {
                    assert(before[i] == pairs[i]);
                }
            }
        }
        if is_silent(pairs, key) {
            assert(pairs[n].0 != key);
            assert forall|i: int| 0 <= i < before.len() implies (#[trigger] before[i]).0
                != key by {
                assert(before[i] == pairs[i]);
            }
        }
    }
}

/// Variables that are laid over others win, and what they do not set stays.
pub proof fn law_an_overlay_wins(
    below: &EnvMap,
    above: &EnvMap,
    out: EnvMap,
    key: Seq<char>,
)
    requires
        call_ensures(EnvMap::overlay, (below, above), out),
    ensures
        out@.contains_key(key) <==> below@.contains_key(key) || above@.contains_key(key),
        above@.contains_key(key) ==> out@[key] == above@[key],
        below@.contains_key(key) && !above@.contains_key(key) ==> out@[key] == below@[key],
{
}

/// A variable that is set has its new value afterwards, and no other changes; a
/// layer sets what it names, by its last pair of that name, and leaves the rest.
pub proof fn law_setting_a_variable_changes_that_one(
    key: String,
    value: String,
    layer: &Vec<(String, String)>,
    other: Seq<char>,
    last: Seq<char>,
)
    ensures
        forall|m: &mut EnvMap| #[trigger]
            call_ensures(EnvMap::insert, (m, key, value), ()) ==> {
                &&& final(m)@.contains_key(key@) && final(m)@[key@] == value@
                &&& other != key@ ==> (final(m)@.contains_key(other) <==> m@.contains_key(other))
                &&& other != key@ && m@.contains_key(other) ==> final(m)@[other] == m@[other]
            },
        forall|m: &mut EnvMap| #[trigger]
            call_ensures(EnvMap::extend, (m, layer), ()) ==> {
                &&& sets(pair_texts(layer@), other, last) ==> final(m)@.contains_key(other)
                    && final(m)@[other] == last
                &&& is_silent(pair_texts(layer@), other) ==> (final(m)@.contains_key(other)
                    <==> m@.contains_key(other)) && (m@.contains_key(other) ==> final(m)@[other]
                    == m@[other])
            },
{
    law_the_last_pair_stays(pair_texts(layer@), other, last);
}

/// What was set can be looked up, and nothing else; the list of all variables is
/// in the order of their names, each once.
pub proof fn law_variables_can_be_looked_up(
    m: &EnvMap,
    key: &str,
    empty: EnvMap,
    value: Option<&String>,
    there: bool,
    all: Vec<(String, String)>,
    i: int,
    j: int,
)
    requires
        call_ensures(EnvMap::new, (), empty),
        call_ensures(EnvMap::get, (m, key), value),
        call_ensures(EnvMap::contains_key, (m, key), there),
        call_ensures(EnvMap::to_pairs, (m,), all),
    ensures
        !empty@.contains_key(key@),
        there <==> m@.contains_key(key@),
        value is Some <==> m@.contains_key(key@),
        value is Some ==> value->0@ == m@[key@],
        0 <= i < j < all@.len() ==> text_lt(all@[i].0@, all@[j].0@),
        0 <= i < all@.len() ==> m@.contains_key(all@[i].0@) && m@[all@[i].0@] == all@[i].1@,
        is_silent(pair_texts(all@), key@) <==> !m@.contains_key(key@),
{
    let pairs = pair_texts(all@);
    lemma_layered_ascending(pairs);
    law_the_last_pair_stays(pairs, key@, key@);
    assert(pairs.len() == all@.len());
    if 0 <= i < all@.len() {
        assert(pairs[i] == (all@[i].0@, all@[i].1@));
    }
    if 0 <= i < j < all@.len() {
        assert(pairs[j] == (all@[j].0@, all@[j].1@));
        assert(text_lt(pairs[i].0, pairs[j].0));
    }
}

/// The texts of a list of pairs are those of its pairs, one for one and in order,
/// the name first.
pub proof fn law_a_list_has_the_texts_of_its_pairs(s: Seq<(String, String)>, i: int)
    ensures
        pair_texts(s).len() == s.len(),
        0 <= i < s.len() ==> pair_texts(s)[i].0 == s[i].0@ && pair_texts(s)[i].1 == s[i].1@,
{
}

} // verus!
