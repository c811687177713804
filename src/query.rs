//! Query parameters of a request: a mapping from names to values, kept in
//! ascending order of names.
use vstd::prelude::*;

verus! {

/// Lexicographic order on names, comparing characters by code point (the
/// order of `String`'s `Ord`).
pub open spec fn key_lt(a: Seq<char>, b: Seq<char>) -> bool
    decreases a.len(),
{
    if a.len() == 0 {
        b.len() > 0
    } else if b.len() == 0 {
        false
    } else if a[0] != b[0] {
        (a[0] as int) < (b[0] as int)
    } else {
        key_lt(a.drop_first(), b.drop_first())
    }
}

/// Whether the names of the pairs ascend strictly, so that each name
/// occurs at most once.
pub open spec fn sorted(s: Seq<(Seq<char>, Seq<char>)>) -> bool {
    forall|i: int, j: int| 0 <= i < j < s.len() ==> key_lt(#[trigger] s[i].0, #[trigger] s[j].0)
}

/// No name comes before itself.
pub proof fn lemma_key_lt_irreflexive(a: Seq<char>)
    ensures
        !key_lt(a, a),
    decreases a.len(),
{
    if a.len() > 0 {
        lemma_key_lt_irreflexive(a.drop_first());
    }
}

/// In sorted pairs each name occurs once.
pub proof fn lemma_sorted_names_unique(s: Seq<(Seq<char>, Seq<char>)>, i: int, j: int)
    requires
        sorted(s),
        0 <= i < j < s.len(),
    ensures
        s[i].0 != s[j].0,
{
    lemma_key_lt_irreflexive(s[i].0);
}

/// The order on names is transitive.
pub proof fn lemma_key_lt_transitive(a: Seq<char>, b: Seq<char>, c: Seq<char>)
    requires
        key_lt(a, b),
        key_lt(b, c),
    ensures
        key_lt(a, c),
    decreases a.len(),
{
    if a.len() > 0 && b.len() > 0 && c.len() > 0 && a[0] == b[0] && b[0] == c[0] {
        lemma_key_lt_transitive(a.drop_first(), b.drop_first(), c.drop_first());
    }
}

/// Of two different names, one comes before the other.
pub proof fn lemma_key_lt_total(a: Seq<char>, b: Seq<char>)
    requires
        a != b,
    ensures
        key_lt(a, b) || key_lt(b, a),
    decreases a.len(),
{
    if a.len() == 0 && b.len() == 0 {
        assert(a =~= b);
    }
    if a.len() > 0 && b.len() > 0 && a[0] != b[0] {
        assert((a[0] as int) != (b[0] as int));
    }
    if a.len() > 0 && b.len() > 0 && a[0] == b[0] {
        if a.drop_first() == b.drop_first() {
            assert(a =~= seq![a[0]] + a.drop_first());
            assert(b =~= seq![b[0]] + b.drop_first());
        }
        lemma_key_lt_total(a.drop_first(), b.drop_first());
    }
}

/// The ordered list of pairs after `(k, v)` is put in: an entry of the same
/// name takes the new value, otherwise the pair goes before the first larger
/// name.
pub open spec fn insert_pair(
    s: Seq<(Seq<char>, Seq<char>)>,
    k: Seq<char>,
    v: Seq<char>,
) -> Seq<(Seq<char>, Seq<char>)>
    decreases s.len(),
{
    if s.len() == 0 {
        seq![(k, v)]
    } else if s[0].0 == k {
        seq![(k, v)] + s.drop_first()
    } else if key_lt(k, s[0].0) {
        seq![(k, v)] + s
    } else {
        seq![s[0]] + insert_pair(s.drop_first(), k, v)
    }
}

/// The mapping that a list of pairs denotes; the earliest pair of a name wins.
pub open spec fn map_of(s: Seq<(Seq<char>, Seq<char>)>) -> Map<Seq<char>, Seq<char>>
    decreases s.len(),
{
    if s.len() == 0 {
        Map::empty()
    } else {
        map_of(s.drop_first()).insert(s[0].0, s[0].1)
    }
}

/// Putting a pair in changes the mapping as `Map::insert` does.
pub proof fn lemma_insert_pair_map(s: Seq<(Seq<char>, Seq<char>)>, k: Seq<char>, v: Seq<char>)
    ensures
        map_of(insert_pair(s, k, v)) == map_of(s).insert(k, v),
    decreases s.len(),
{
    if s.len() == 0 {
        assert(seq![(k, v)].drop_first() =~= Seq::<(Seq<char>, Seq<char>)>::empty());
        assert(map_of(Seq::<(Seq<char>, Seq<char>)>::empty()) == Map::<Seq<char>, Seq<char>>::empty());
    } else if s[0].0 == k {
        assert((seq![(k, v)] + s.drop_first()).drop_first() =~= s.drop_first());
        assert(map_of(s.drop_first()).insert(k, v) =~= map_of(s.drop_first()).insert(
            s[0].0,
            s[0].1,
        ).insert(k, v));
    } else if key_lt(k, s[0].0) {
        assert((seq![(k, v)] + s).drop_first() =~= s);
    } else {
        let rest = insert_pair(s.drop_first(), k, v);
        assert((seq![s[0]] + rest).drop_first() =~= rest);
        lemma_insert_pair_map(s.drop_first(), k, v);
        assert(map_of(s.drop_first()).insert(k, v).insert(s[0].0, s[0].1) =~= map_of(
            s.drop_first(),
        ).insert(s[0].0, s[0].1).insert(k, v));
    }
}

/// A name below `k` and below every name of `s` is below every name after
/// `(k, v)` is put in.
proof fn lemma_insert_pair_bound(s: Seq<(Seq<char>, Seq<char>)>, k: Seq<char>, v: Seq<char>, b: Seq<char>)
    requires
        key_lt(b, k),
        forall|j: int| 0 <= j < s.len() ==> key_lt(b, #[trigger] s[j].0),
    ensures
        forall|i: int|
            0 <= i < insert_pair(s, k, v).len() ==> key_lt(b, #[trigger] insert_pair(s, k, v)[i].0),
    decreases s.len(),
{
    let r = insert_pair(s, k, v);
    if s.len() == 0 {
    } else if s[0].0 == k {
        assert forall|i: int| 0 <= i < r.len() implies key_lt(b, #[trigger] r[i].0) by {
            if i > 0 {
                assert(r[i] == s[i]);
            }
        }
    } else if key_lt(k, s[0].0) {
        assert forall|i: int| 0 <= i < r.len() implies key_lt(b, #[trigger] r[i].0) by {
            if i > 0 {
                assert(r[i] == s[i - 1]);
            }
        }
    } else {
        let t = s.drop_first();
        assert forall|j: int| 0 <= j < t.len() implies key_lt(b, #[trigger] t[j].0) by {
            assert(t[j] == s[j + 1]);
        }
        lemma_insert_pair_bound(t, k, v, b);
        let rest = insert_pair(t, k, v);
        assert forall|i: int| 0 <= i < r.len() implies key_lt(b, #[trigger] r[i].0) by {
            if i > 0 {
                assert(r[i] == rest[i - 1]);
            }
        }
    }
}

/// Putting a pair in keeps the names in strictly ascending order.
pub proof fn lemma_insert_pair_sorted(s: Seq<(Seq<char>, Seq<char>)>, k: Seq<char>, v: Seq<char>)
    requires
        sorted(s),
    ensures
        sorted(insert_pair(s, k, v)),
    decreases s.len(),
{
    let r = insert_pair(s, k, v);
    if s.len() == 0 {
    } else if s[0].0 == k {
        assert forall|i: int, j: int| 0 <= i < j < r.len() implies key_lt(
            #[trigger] r[i].0,
            #[trigger] r[j].0,
        ) by {
            assert(r[j] == s[j]);
            if i > 0 {
                assert(r[i] == s[i]);
            }
        }
    } else if key_lt(k, s[0].0) {
        assert forall|i: int, j: int| 0 <= i < j < r.len() implies key_lt(
            #[trigger] r[i].0,
            #[trigger] r[j].0,
        ) by {
            assert(r[j] == s[j - 1]);
            if i > 0 {
                assert(r[i] == s[i - 1]);
            } else if j > 1 {
                assert(key_lt(s[0].0, s[j - 1].0));
                lemma_key_lt_transitive(k, s[0].0, s[j - 1].0);
            }
        }
    } else {
        lemma_key_lt_total(s[0].0, k);
        let t = s.drop_first();
        assert forall|i: int, j: int| 0 <= i < j < t.len() implies key_lt(
            #[trigger] t[i].0,
            #[trigger] t[j].0,
        ) by {
            assert(t[i] == s[i + 1] && t[j] == s[j + 1]);
        }
        lemma_insert_pair_sorted(t, k, v);
        assert forall|j: int| 0 <= j < t.len() implies key_lt(s[0].0, #[trigger] t[j].0) by {
            assert(t[j] == s[j + 1]);
        }
        lemma_insert_pair_bound(t, k, v, s[0].0);
        let rest = insert_pair(t, k, v);
        assert forall|i: int, j: int| 0 <= i < j < r.len() implies key_lt(
            #[trigger] r[i].0,
            #[trigger] r[j].0,
        ) by {
            assert(r[j] == rest[j - 1]);
            if i > 0 {
                assert(r[i] == rest[i - 1]);
            }
        }
    }
}

/// Scanning past pairs that neither match nor follow `k` leaves them in
/// front of where `k` goes.
proof fn lemma_insert_pair_skip(s: Seq<(Seq<char>, Seq<char>)>, k: Seq<char>, v: Seq<char>, i: int)
    requires
        0 <= i <= s.len(),
        forall|j: int| 0 <= j < i ==> s[j].0 != k && !key_lt(k, #[trigger] s[j].0),
    ensures
        insert_pair(s, k, v) == s.subrange(0, i) + insert_pair(s.subrange(i, s.len() as int), k, v),
    decreases i,
{
    if i == 0 {
        assert(s.subrange(0, 0) + insert_pair(s.subrange(0, s.len() as int), k, v) =~= insert_pair(
            s,
            k,
            v,
        )) by {
            assert(s.subrange(0, s.len() as int) =~= s);
        }
    } else {
        let t = s.drop_first();
        assert forall|j: int| 0 <= j < i - 1 implies t[j].0 != k && !key_lt(k, #[trigger] t[j].0) by {
            assert(t[j] == s[j + 1]);
        }
        lemma_insert_pair_skip(t, k, v, i - 1);
        assert(s[0].0 != k && !key_lt(k, s[0].0));
        assert(t.subrange(i - 1, t.len() as int) =~= s.subrange(i, s.len() as int));
        assert(seq![s[0]] + t.subrange(0, i - 1) =~= s.subrange(0, i));
        assert(insert_pair(s, k, v) == seq![s[0]] + insert_pair(t, k, v));
        assert(seq![s[0]] + (t.subrange(0, i - 1) + insert_pair(s.subrange(i, s.len() as int), k, v))
            =~= s.subrange(0, i) + insert_pair(s.subrange(i, s.len() as int), k, v));
    }
}

/// Whether `a` comes before `b` by code point order.
pub fn key_less(a: &str, b: &str) -> (r: bool)
    ensures
        r == key_lt(a@, b@),
{
    let la = a.unicode_len();
    let lb = b.unicode_len();
    let mut i: usize = 0;
    assert(a@.skip(0) =~= a@);
    assert(b@.skip(0) =~= b@);
    while i < la && i < lb
        invariant
            la == a@.len(),
            lb == b@.len(),
            i <= la,
            i <= lb,
            key_lt(a@, b@) == key_lt(a@.skip(i as int), b@.skip(i as int)),
        decreases la - i,
    {
        let ca = a.get_char(i);
        let cb = b.get_char(i);
        assert(a@.skip(i as int)[0] == ca);
        assert(b@.skip(i as int)[0] == cb);
        if ca != cb {
            return (ca as u32) < (cb as u32);
        }
        assert(a@.skip(i as int).drop_first() =~= a@.skip(i + 1));
        assert(b@.skip(i as int).drop_first() =~= b@.skip(i + 1));
        i = i + 1;
    }
    i < lb
}

/// The views of an optional string.
pub open spec fn opt_view(o: Option<String>) -> Option<Seq<char>> {
    match o {
        Some(s) => Some(s@),
        None => None,
    }
}

/// The pairs after an optional value is put in under `k`; nothing changes
/// when the value is absent.
pub open spec fn put_opt(
    s: Seq<(Seq<char>, Seq<char>)>,
    k: Seq<char>,
    v: Option<Seq<char>>,
) -> Seq<(Seq<char>, Seq<char>)> {
    match v {
        Some(x) => insert_pair(s, k, x),
        None => s,
    }
}

/// Query parameters, in ascending order of names, each name at most once.
#[derive(Debug, PartialEq, Eq)]
pub struct QueryParams {
    entries: Vec<(String, String)>,
}

/// The views of a list of string pairs.
pub open spec fn pairs_view(v: Seq<(String, String)>) -> Seq<(Seq<char>, Seq<char>)> {
    v.map_values(|p: (String, String)| (p.0@, p.1@))
}

impl View for QueryParams {
    type V = Seq<(Seq<char>, Seq<char>)>;

    closed spec fn view(&self) -> Seq<(Seq<char>, Seq<char>)> {
        pairs_view(self.entries@)
    }
}

impl Clone for QueryParams {
    fn clone(&self) -> (r: QueryParams)
        ensures
            r@ == self@,
    {
        self.duplicate()
    }
}

impl Default for QueryParams {
    fn default() -> (r: QueryParams)
        ensures
            r@ == Seq::<(Seq<char>, Seq<char>)>::empty(),
    {
        QueryParams::new()
    }
}

impl QueryParams {
    /// The names ascend strictly.
    #[verifier::type_invariant]
    spec fn names_ascend(&self) -> bool {
        sorted(pairs_view(self.entries@))
    }

    /// No parameters.
    pub fn new() -> (r: QueryParams)
        ensures
            r@ == Seq::<(Seq<char>, Seq<char>)>::empty(),
    {
        let r = QueryParams { entries: Vec::new() };
        assert(r@ =~= Seq::<(Seq<char>, Seq<char>)>::empty());
        r
    }

    /// The mapping from names to values.
    pub open spec fn map(&self) -> Map<Seq<char>, Seq<char>> {
        map_of(self@)
    }

    /// Sets `key` to `value`, replacing an earlier value of `key`.
    pub fn insert(&mut self, key: String, value: String)
        ensures
            final(self)@ == insert_pair(old(self)@, key@, value@),
            final(self).map() == old(self).map().insert(key@, value@),
            sorted(final(self)@),
    {
        proof {
            use_type_invariant(&*self);
            lemma_insert_pair_map(self@, key@, value@);
            lemma_insert_pair_sorted(self@, key@, value@);
        }
        let n = self.entries.len();
        let mut i: usize = 0;
        while i < n
            invariant
                n == self.entries.len(),
                self@ == old(self)@,
                i <= n,
                forall|j: int| 0 <= j < i ==> self@[j].0 != key@ && !key_lt(key@, #[trigger] self@[j].0),
            ensures
                i <= n,
                i < n ==> (self@[i as int].0 == key@ || key_lt(key@, self@[i as int].0)),
            decreases n - i,
        {
            let stop = self.entries[i].0 == key || key_less(key.as_str(), self.entries[i].0.as_str());
            if stop {
                break;
            }
            i = i + 1;
        }
        let ghost s = self@;
        proof {
            lemma_insert_pair_skip(s, key@, value@, i as int);
        }
        let replace = i < n && self.entries[i].0 == key;
        let resume: usize = if replace {
            i + 1
        } else {
            i
        };
        let ghost k = key@;
        let ghost v = value@;
        let mut entries: Vec<(String, String)> = Vec::new();
        let mut j: usize = 0;
        while j < i
            invariant
                n == self.entries@.len(),
                s == self@,
                i <= n,
                j <= i,
                pairs_view(entries@) =~= s.subrange(0, j as int),
            decreases i - j,
        {
            let e = (self.entries[j].0.clone(), self.entries[j].1.clone());
            let ghost prev = entries@;
            entries.push(e);
            assert(s[j as int] == (self.entries@[j as int].0@, self.entries@[j as int].1@));
            assert(pairs_view(entries@) =~= pairs_view(prev).push((e.0@, e.1@)));
            assert(s.subrange(0, j + 1) =~= s.subrange(0, j as int).push(s[j as int]));
            j = j + 1;
        }
        let ghost prev = entries@;
        entries.push((key, value));
        assert(pairs_view(entries@) =~= pairs_view(prev).push((k, v)));
        assert(pairs_view(entries@) =~= s.subrange(0, i as int) + seq![(k, v)]);
        let mut j: usize = resume;
        while j < n
            invariant
                n == self.entries@.len(),
                s == self@,
                resume <= j <= n,
                pairs_view(entries@) =~= s.subrange(0, i as int) + seq![(k, v)] + s.subrange(
                    resume as int,
                    j as int,
                ),
            decreases n - j,
        {
            let e = (self.entries[j].0.clone(), self.entries[j].1.clone());
            let ghost prev = entries@;
            entries.push(e);
            assert(s[j as int] == (self.entries@[j as int].0@, self.entries@[j as int].1@));
            assert(pairs_view(entries@) =~= pairs_view(prev).push((e.0@, e.1@)));
            assert(s.subrange(resume as int, j + 1) =~= s.subrange(resume as int, j as int).push(
                s[j as int],
            ));
            j = j + 1;
        }
        proof {
            let t = s.subrange(i as int, s.len() as int);
            if i < n {
                assert(t[0] == s[i as int]);
            }
            if replace {
                assert(t.drop_first() =~= s.subrange(resume as int, n as int));
            } else if i < n {
                assert(insert_pair(t, k, v) == seq![(k, v)] + t);
            } else {
                assert(t =~= Seq::<(Seq<char>, Seq<char>)>::empty());
            }
            assert(pairs_view(entries@) =~= s.subrange(0, i as int) + insert_pair(t, k, v));
        }
        self.entries = entries;
    }

    /// Sets `key` to `value` when a value is given.
    pub fn insert_opt(&mut self, key: &str, value: Option<String>)
        ensures
            final(self)@ == put_opt(old(self)@, key@, opt_view(value)),
    {
        match value {
            Some(v) => self.insert(String::from_str(key), v),
            None => {},
        }
    }

    /// A copy with the same pairs.
    pub fn duplicate(&self) -> (r: QueryParams)
        ensures
            r@ == self@,
    {
        proof {
            use_type_invariant(self);
        }
        let mut entries: Vec<(String, String)> = Vec::new();
        let n = self.entries.len();
        let mut i: usize = 0;
        while i < n
            invariant
                n == self.entries@.len(),
                i <= n,
                entries@.len() == i,
                forall|j: int|
                    0 <= j < i ==> (#[trigger] entries@[j]).0@ == self.entries@[j].0@ && entries@[j].1@
                        == self.entries@[j].1@,
            decreases n - i,
        {
            let k = self.entries[i].0.clone();
            let v = self.entries[i].1.clone();
            let ghost prev = entries@;
            entries.push((k, v));
            assert(entries@ == prev.push((k, v)));
            assert(k@ == self.entries@[i as int].0@ && v@ == self.entries@[i as int].1@);
            i = i + 1;
        }
        assert(pairs_view(entries@) =~= pairs_view(self.entries@));
        QueryParams { entries }
    }

    /// The pairs, in strictly ascending order of names.
    pub fn pairs(&self) -> (r: &Vec<(String, String)>)
        ensures
            pairs_view(r@) == self@,
            sorted(self@),
    {
        proof {
            use_type_invariant(self);
        }
        &self.entries
    }

    /// The number of parameters.
    pub fn len(&self) -> (r: usize)
        ensures
            r == self@.len(),
    {
        self.entries.len()
    }
}

} // verus!
