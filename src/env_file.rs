use vstd::prelude::*;
use vstd::string::*;
use crate::text::{
    chars_of, is_ascii_alnum, is_space, push_char, string_of_range, trim,
    trim_range,
};

verus! {

/// Where the first `c` stands in `s`; `s.len()` where there is none.
pub open spec fn index_of(s: Seq<char>, c: char) -> nat
    decreases s.len(),
{
    if s.len() == 0 {
        0
    } else if s[0] == c {
        0
    } else {
        1 + index_of(s.drop_first(), c)
    }
}

pub proof fn lemma_index_of(s: Seq<char>, c: char, k: int)
    requires
        0 <= k <= s.len(),
        forall|j: int| 0 <= j < k ==> s[j] != c,
        k == s.len() || s[k] == c,
    ensures
        index_of(s, c) == k,
    decreases k,
{
    if k > 0 {
        lemma_index_of(s.drop_first(), c, k - 1);
    }
}

/// Finds the first `c` in `cs[lo..hi]`; `hi` where there is none.
pub fn find_char(cs: &Vec<char>, lo: usize, hi: usize, c: char) -> (r: usize)
    requires
        lo <= hi <= cs@.len(),
    ensures
        lo <= r <= hi,
        r - lo == index_of(cs@.subrange(lo as int, hi as int), c),
{
    let mut e: usize = lo;
    while e < hi && cs[e] != c
        invariant
            lo <= e <= hi <= cs@.len(),
            forall|j: int| lo <= j < e ==> cs@[j] != c,
        decreases hi - e,
    {
        e = e + 1;
    }
    proof {
        let s = cs@.subrange(lo as int, hi as int);
        assert forall|j: int| 0 <= j < e - lo implies s[j] != c by {
            assert(s[j] == cs@[lo + j]);
        }
        lemma_index_of(s, c, e - lo);
    }
    e
}

/// The settings that a sequence of assignments leaves, later ones winning.
pub open spec fn assign_all(
    m: Map<Seq<char>, Seq<char>>,
    s: Seq<(Seq<char>, Seq<char>)>,
) -> Map<Seq<char>, Seq<char>>
    decreases s.len(),
{
    if s.len() == 0 {
        m
    } else {
        assign_all(m.insert(s[0].0, s[0].1), s.drop_first())
    }
}

pub proof fn lemma_assign_all_push(
    m: Map<Seq<char>, Seq<char>>,
    s: Seq<(Seq<char>, Seq<char>)>,
    x: (Seq<char>, Seq<char>),
)
    ensures
        assign_all(m, s.push(x)) == assign_all(m, s).insert(x.0, x.1),
    decreases s.len(),
{
    if s.len() > 0 {
        assert(s.push(x).drop_first() =~= s.drop_first().push(x));
        assert(s.push(x)[0] == s[0]);
        lemma_assign_all_push(m.insert(s[0].0, s[0].1), s.drop_first(), x);
    } else {
        let e = Seq::<(Seq<char>, Seq<char>)>::empty();
        assert(s.push(x).drop_first() =~= e);
        assert(s.push(x)[0] == x);
        assert(assign_all(m.insert(x.0, x.1), e) == m.insert(x.0, x.1));
        assert(assign_all(m, s) == m);
    }
}

pub open spec fn keys_unique(s: Seq<(Seq<char>, Seq<char>)>) -> bool {
    forall|i: int, j: int| 0 <= i < s.len() && 0 <= j < s.len() && i != j ==> s[i].0 != s[j].0
}

/// Under unique keys, each entry's value is what the key maps to, and
/// nothing else is mapped.
pub proof fn lemma_assign_all_unique(s: Seq<(Seq<char>, Seq<char>)>)
    requires
        keys_unique(s),
    ensures
        forall|i: int|
            0 <= i < s.len() ==> #[trigger] assign_all(Map::empty(), s).contains_key(s[i].0)
                && assign_all(Map::empty(), s)[s[i].0] == s[i].1,
        forall|k: Seq<char>|
            #[trigger] assign_all(Map::empty(), s).contains_key(k) ==> exists|i: int|
                0 <= i < s.len() && s[i].0 == k,
    decreases s.len(),
{
    if s.len() > 0 {
        let t = s.drop_last();
        assert(s =~= t.push(s.last()));
        assert(keys_unique(t)) by {
            assert forall|i: int, j: int|
                0 <= i < t.len() && 0 <= j < t.len() && i != j implies t[i].0 != t[j].0 by {
                assert(t[i] == s[i] && t[j] == s[j]);
            }
        }
        lemma_assign_all_unique(t);
        lemma_assign_all_push(Map::empty(), t, s.last());
        assert forall|k: Seq<char>| #[trigger]
            assign_all(Map::empty(), s).contains_key(k) implies exists|i: int|
            0 <= i < s.len() && s[i].0 == k by {
            if k != s.last().0 {
                let i = choose|i: int| 0 <= i < t.len() && t[i].0 == k;
                assert(s[i] == t[i]);
            }
        }
        assert forall|i: int| 0 <= i < s.len() implies #[trigger] assign_all(
            Map::empty(),
            s,
        ).contains_key(s[i].0) && assign_all(Map::empty(), s)[s[i].0] == s[i].1 by {
            if i < s.len() - 1 {
                assert(s[i] == t[i]);
                assert(s[i].0 != s[s.len() - 1].0);
            }
        }
    }
}

/// Settings held as `key=value` pairs, each key at most once, in the order in
/// which the keys were first set.
pub struct EnvVars {
    entries: Vec<(String, String)>,
}

impl EnvVars {
    pub closed spec fn pairs(&self) -> Seq<(Seq<char>, Seq<char>)> {
        self.entries@.map_values(|e: (String, String)| (e.0@, e.1@))
    }

    /// Each key occurs once.
    pub closed spec fn wf(&self) -> bool {
        keys_unique(self.pairs())
    }

    pub closed spec fn view(&self) -> Map<Seq<char>, Seq<char>> {
        assign_all(Map::empty(), self.pairs())
    }

    /// No settings.
    pub fn new() -> (r: EnvVars)
        ensures
            r.wf(),
            r.view() == Map::<Seq<char>, Seq<char>>::empty(),
            r.pairs().len() == 0,
    {
        let r = EnvVars { entries: Vec::new() };
        assert(r.pairs() =~= Seq::empty());
        r
    }

    fn position(&self, key: &str) -> (r: Option<usize>)
        ensures
            match r {
                Some(i) => i < self.pairs().len() && self.pairs()[i as int].0 == key@,
                None => forall|i: int| 0 <= i < self.pairs().len() ==> self.pairs()[i].0 != key@,
            },
    {
        let mut i: usize = 0;
        while i < self.entries.len()
            invariant
                i <= self.entries@.len(),
                forall|j: int| 0 <= j < i ==> self.pairs()[j].0 != key@,
            decreases self.entries@.len() - i,
        {
            if crate::text::str_eq(self.entries[i].0.as_str(), key) {
                return Some(i);
            }
            i = i + 1;
        }
        None
    }

    /// The value set for `key`, if any.
    pub fn get(&self, key: &str) -> (r: Option<String>)
        requires
            self.wf(),
        ensures
            match r {
                Some(v) => self.view().contains_key(key@) && self.view()[key@] == v@,
                None => !self.view().contains_key(key@),
            },
    {
        proof {
            lemma_assign_all_unique(self.pairs());
        }
        match self.position(key) {
            Some(i) => {
                assert(self.view().contains_key(self.pairs()[i as int].0));
                Some(self.entries[i].1.clone())
            },
            None => None,
        }
    }

    /// Whether `key` is set.
    pub fn contains_key(&self, key: &str) -> (r: bool)
        requires
            self.wf(),
        ensures
            r == self.view().contains_key(key@),
    {
        proof {
            lemma_assign_all_unique(self.pairs());
        }
        self.position(key).is_some()
    }

    /// Sets `key` to `value`, in place where the key is set already, else at
    /// the end.
    pub fn insert(&mut self, key: String, value: String)
        requires
            old(self).wf(),
        ensures
            final(self).wf(),
            final(self).view() == old(self).view().insert(key@, value@),
    {
        let ghost before = self.pairs();
        proof {
            lemma_assign_all_unique(before);
        }
        match self.position(key.as_str()) {
            Some(i) => {
                let ghost k = key@;
                let ghost v = value@;
                self.entries.set(i, (key, value));
                let ghost after = self.pairs();
                assert(after =~= before.update(i as int, (k, v)));
                assert(keys_unique(after)) by {
                    assert forall|a: int, b: int|
                        0 <= a < after.len() && 0 <= b < after.len() && a != b implies after[a].0
                        != after[b].0 by {
                        if a != i && b != i {
                            assert(after[a] == before[a] && after[b] == before[b]);
                        } else if a == i {
                            assert(after[b] == before[b]);
                        } else {
                            assert(after[a] == before[a]);
                        }
                    }
                }
                proof {
                    lemma_assign_all_unique(after);
                    let m1 = assign_all(Map::<Seq<char>, Seq<char>>::empty(), after);
                    let m0 = assign_all(Map::<Seq<char>, Seq<char>>::empty(), before);
                    let m2 = m0.insert(k, v);
                    assert(after[i as int] == (k, v));
                    assert(m1.contains_key(after[i as int].0));
                    assert forall|x: Seq<char>| m1.contains_key(x) <==> m2.contains_key(x) by {
                        if m1.contains_key(x) {
                            let j = choose|j: int| 0 <= j < after.len() && after[j].0 == x;
                            if j != i {
                                assert(after[j] == before[j]);
                                assert(m0.contains_key(before[j].0));
                            }
                        }
                        if m2.contains_key(x) && x != k {
                            let j = choose|j: int| 0 <= j < before.len() && before[j].0 == x;
                            assert(after[j] == before[j]);
                            assert(m1.contains_key(after[j].0));
                        }
                    }
                    assert forall|x: Seq<char>| #[trigger] m1.contains_key(x) implies m1[x]
                        == m2[x] by {
                        let j = choose|j: int| 0 <= j < after.len() && after[j].0 == x;
                        assert(m1.contains_key(after[j].0));
                        if j != i {
                            assert(after[j] == before[j]);
                            assert(m0.contains_key(before[j].0));
                        }
                    }
                    assert(m1 =~= m2);
                }
            },
            None => {
                let ghost k = key@;
                let ghost v = value@;
                self.entries.push((key, value));
                let ghost after = self.pairs();
                assert(after =~= before.push((k, v)));
                proof {
                    lemma_assign_all_push(Map::empty(), before, (k, v));
                }
                assert(keys_unique(after)) by {
                    assert forall|a: int, b: int|
                        0 <= a < after.len() && 0 <= b < after.len() && a != b implies after[a].0
                        != after[b].0 by {
                        if a < before.len() {
                            assert(after[a] == before[a]);
                        }
                        if b < before.len() {
                            assert(after[b] == before[b]);
                        }
                    }
                }
            },
        }
    }

    /// Removes `key`, handing back the value it had.
    pub fn remove(&mut self, key: &str) -> (r: Option<String>)
        requires
            old(self).wf(),
        ensures
            final(self).wf(),
            final(self).view() == old(self).view().remove(key@),
            match r {
                Some(v) => old(self).view().contains_key(key@) && old(self).view()[key@] == v@,
                None => !old(self).view().contains_key(key@),
            },
    {
        let ghost before = self.pairs();
        proof {
            lemma_assign_all_unique(before);
        }
        match self.position(key) {
            Some(i) => {
                assert(before[i as int].0 == key@);
                assert(assign_all(Map::<Seq<char>, Seq<char>>::empty(), before).contains_key(
                    before[i as int].0,
                ));
                let e = self.entries.remove(i);
                let ghost after = self.pairs();
                assert(after =~= before.remove(i as int));
                assert(keys_unique(after)) by {
                    assert forall|a: int, b: int|
                        0 <= a < after.len() && 0 <= b < after.len() && a != b implies after[a].0
                        != after[b].0 by {
                        let a2 = if a < i {
                            a
                        } else {
                            a + 1
                        };
                        let b2 = if b < i {
                            b
                        } else {
                            b + 1
                        };
                        assert(after[a] == before[a2] && after[b] == before[b2]);
                    }
                }
                proof {
                    lemma_assign_all_unique(after);
                    let m1 = assign_all(Map::<Seq<char>, Seq<char>>::empty(), after);
                    let m2 = assign_all(Map::<Seq<char>, Seq<char>>::empty(), before).remove(
                        key@,
                    );
                    assert forall|x: Seq<char>| m1.contains_key(x) <==> m2.contains_key(x) by {
                        if m1.contains_key(x) {
                            let j = choose|j: int| 0 <= j < after.len() && after[j].0 == x;
                            let j2 = if j < i {
                                j
                            } else {
                                j + 1
                            };
                            assert(after[j] == before[j2]);
                        }
                        if m2.contains_key(x) {
                            let j = choose|j: int| 0 <= j < before.len() && before[j].0 == x;
                            assert(j != i);
                            let j2 = if j < i {
                                j
                            } else {
                                j - 1
                            };
                            assert(after[j2] == before[j]);
                        }
                    }
                    assert forall|x: Seq<char>| #[trigger] m1.contains_key(x) implies m1[x]
                        == m2[x] by {
                        let j = choose|j: int| 0 <= j < after.len() && after[j].0 == x;
                        let j2 = if j < i {
                            j
                        } else {
                            j + 1
                        };
                        assert(after[j] == before[j2]);
                    }
                    assert(m1 =~= m2);
                }
                Some(e.1)
            },
            None => {
                proof {
                    assert(!assign_all(Map::<Seq<char>, Seq<char>>::empty(), before).contains_key(
                        key@,
                    ));
                    assert(assign_all(Map::<Seq<char>, Seq<char>>::empty(), before).remove(key@)
                        =~= assign_all(Map::<Seq<char>, Seq<char>>::empty(), before));
                }
                None
            },
        }
    }

    /// Whether no setting is held.
    pub fn is_empty(&self) -> (r: bool)
        requires
            self.wf(),
        ensures
            r == (self.view() =~= Map::<Seq<char>, Seq<char>>::empty()),
    {
        proof {
            lemma_assign_all_unique(self.pairs());
            if self.pairs().len() > 0 {
                assert(self.view().contains_key(self.pairs()[0].0));
            } else {
                assert(self.view() =~= Map::<Seq<char>, Seq<char>>::empty());
            }
        }
        self.entries.len() == 0
    }

    /// The number of settings.
    pub fn len(&self) -> (r: usize)
        requires
            self.wf(),
        ensures
            r == self.view().dom().len(),
    {
        proof {
            lemma_len_unique(self.pairs());
        }
        self.entries.len()
    }

    /// The settings as `(key, value)` pairs, in order.
    pub fn to_pairs(&self) -> (r: Vec<(String, String)>)
        requires
            self.wf(),
        ensures
            r@.len() == self.pairs().len(),
            forall|i: int|
                0 <= i < r@.len() ==> (#[trigger] r@[i]).0@ == self.pairs()[i].0 && r@[i].1@
                    == self.pairs()[i].1,
            forall|i: int|
                0 <= i < r@.len() ==> self.view().contains_key(#[trigger] r@[i].0@)
                    && self.view()[r@[i].0@] == r@[i].1@,
    {
        proof {
            lemma_assign_all_unique(self.pairs());
        }
        let mut out: Vec<(String, String)> = Vec::new();
        let mut i: usize = 0;
        while i < self.entries.len()
            invariant
                i <= self.entries@.len(),
                out@.len() == i,
                forall|j: int|
                    0 <= j < i ==> (#[trigger] out@[j]).0@ == self.pairs()[j].0 && out@[j].1@
                        == self.pairs()[j].1,
            decreases self.entries@.len() - i,
        {
            let k = self.entries[i].0.clone();
            let v = self.entries[i].1.clone();
            out.push((k, v));
            i = i + 1;
        }
        out
    }
}

/// Whether text `a` sorts no later than `b` as `String`s compare: character
/// by character (the order of their UTF-8 bytes is that of the code points),
/// a prefix first.
pub open spec fn text_le(a: Seq<char>, b: Seq<char>) -> bool
    decreases a.len(),
{
    if a.len() == 0 {
        true
    } else if b.len() == 0 {
        false
    } else if a[0] as u32 != b[0] as u32 {
        (a[0] as u32) < (b[0] as u32)
    } else {
        text_le(a.drop_first(), b.drop_first())
    }
}

proof fn lemma_text_le_total(a: Seq<char>, b: Seq<char>)
    ensures
        text_le(a, b) || text_le(b, a),
    decreases a.len(),
{
    if a.len() > 0 && b.len() > 0 && a[0] as u32 == b[0] as u32 {
        lemma_text_le_total(a.drop_first(), b.drop_first());
    }
}

proof fn lemma_text_le_trans(a: Seq<char>, b: Seq<char>, c: Seq<char>)
    requires
        text_le(a, b),
        text_le(b, c),
    ensures
        text_le(a, c),
    decreases a.len(),
{
    if a.len() > 0 && b.len() > 0 && c.len() > 0 && a[0] as u32 == b[0] as u32 && b[0] as u32
        == c[0] as u32 {
        lemma_text_le_trans(a.drop_first(), b.drop_first(), c.drop_first());
    }
}

/// Whether `a` sorts no later than `b`.
pub fn text_le_exec(a: &String, b: &String) -> (r: bool)
    ensures
        r == text_le(a@, b@),
{
    let x = chars_of(a.as_str());
    let y = chars_of(b.as_str());
    let mut i: usize = 0;
    assert(x@.subrange(0, x@.len() as int) =~= x@);
    assert(y@.subrange(0, y@.len() as int) =~= y@);
    while i < x.len() && i < y.len() && x[i] as u32 == y[i] as u32
        invariant
            i <= x@.len(),
            i <= y@.len(),
            x@ == a@,
            y@ == b@,
            text_le(a@, b@) == text_le(
                x@.subrange(i as int, x@.len() as int),
                y@.subrange(i as int, y@.len() as int),
            ),
        decreases x@.len() - i,
    {
        assert(x@.subrange(i as int, x@.len() as int).drop_first() =~= x@.subrange(
            i + 1,
            x@.len() as int,
        ));
        assert(y@.subrange(i as int, y@.len() as int).drop_first() =~= y@.subrange(
            i + 1,
            y@.len() as int,
        ));
        i = i + 1;
    }
    if i == x.len() {
        true
    } else if i == y.len() {
        false
    } else {
        (x[i] as u32) < (y[i] as u32)
    }
}

pub open spec fn pair_views(v: Seq<(String, String)>) -> Seq<(Seq<char>, Seq<char>)> {
    v.map_values(|e: (String, String)| (e.0@, e.1@))
}

/// Pairs in strictly increasing key order.
pub open spec fn sorted_by_key(s: Seq<(Seq<char>, Seq<char>)>) -> bool {
    forall|i: int, j: int|
        0 <= i < j < s.len() ==> text_le(s[i].0, s[j].0) && #[trigger] s[i].0 != #[trigger] s[j].0
}

impl EnvVars {
    /// The settings as `(key, value)` pairs, in key order.
    pub fn sorted_pairs(&self) -> (r: Vec<(String, String)>)
        requires
            self.wf(),
        ensures
            r@.len() == self.view().dom().len(),
            sorted_by_key(pair_views(r@)),
            forall|i: int|
                0 <= i < r@.len() ==> self.view().contains_key(#[trigger] r@[i].0@)
                    && self.view()[r@[i].0@] == r@[i].1@,
    {
        let ghost ps = self.pairs();
        let mut out: Vec<(String, String)> = Vec::new();
        let mut i: usize = 0;
        while i < self.entries.len()
            invariant
                i <= self.entries@.len(),
                ps == self.pairs(),
                keys_unique(ps),
                out@.len() == i,
                sorted_by_key(pair_views(out@)),
                forall|m: int|
                    0 <= m < out@.len() ==> exists|j: int|
                        0 <= j < i && #[trigger] pair_views(out@)[m] == ps[j],
            decreases self.entries@.len() - i,
        {
            let ghost old_out = pair_views(out@);
            let key = self.entries[i].0.clone();
            let value = self.entries[i].1.clone();
            let ghost e = (key@, value@);
            assert(e == ps[i as int]);
            let mut k: usize = 0;
            while k < out.len() && text_le_exec(&out[k].0, &key)
                invariant
                    k <= out@.len(),
                    old_out == pair_views(out@),
                    e.0 == key@,
                    forall|m: int| 0 <= m < k ==> text_le(#[trigger] old_out[m].0, e.0),
                decreases out@.len() - k,
            {
                assert(old_out[k as int] == (out@[k as int].0@, out@[k as int].1@));
                k = k + 1;
            }
            proof {
                assert forall|m: int| 0 <= m < old_out.len() implies #[trigger] old_out[m].0 != e.0 by {
                    let j = choose|j: int| 0 <= j < i && #[trigger] pair_views(out@)[m] == ps[j];
                    assert(ps[j].0 != ps[i as int].0);
                }
                if k < old_out.len() {
                    lemma_text_le_total(old_out[k as int].0, e.0);
                }
            }
            out.insert(k, (key, value));
            let ghost new_out = pair_views(out@);
            assert(new_out =~= old_out.insert(k as int, e));
            proof {
                assert forall|a: int, b: int| 0 <= a < b < new_out.len() implies text_le(
                    new_out[a].0,
                    new_out[b].0,
                ) && #[trigger] new_out[a].0 != #[trigger] new_out[b].0 by {
                    if b < k {
                        assert(new_out[a] == old_out[a] && new_out[b] == old_out[b]);
                    } else if b == k {
                        assert(new_out[a] == old_out[a]);
                    } else if a == k {
                        assert(new_out[b] == old_out[b - 1]);
                        if b - 1 > k {
                            assert(old_out[k as int].0 != old_out[b - 1].0);
                            lemma_text_le_trans(e.0, old_out[k as int].0, old_out[b - 1].0);
                        }
                    } else if a < k {
                        assert(new_out[a] == old_out[a] && new_out[b] == old_out[b - 1]);
                        assert(old_out[a].0 != old_out[b - 1].0);
                    } else {
                        assert(new_out[a] == old_out[a - 1] && new_out[b] == old_out[b - 1]);
                        assert(old_out[a - 1].0 != old_out[b - 1].0);
                    }
                }
                assert forall|m: int| 0 <= m < new_out.len() implies exists|j: int|
                    0 <= j < i + 1 && #[trigger] pair_views(out@)[m] == ps[j] by {
                    if m < k {
                        assert(new_out[m] == old_out[m]);
                        let j = choose|j: int| 0 <= j < i && old_out[m] == ps[j];
                        assert(pair_views(out@)[m] == ps[j]);
                    } else if m == k {
                        assert(pair_views(out@)[m] == ps[i as int]);
                    } else {
                        assert(new_out[m] == old_out[m - 1]);
                        let j = choose|j: int| 0 <= j < i && old_out[m - 1] == ps[j];
                        assert(pair_views(out@)[m] == ps[j]);
                    }
                }
            }
            i = i + 1;
        }
        proof {
            lemma_assign_all_unique(ps);
            lemma_len_unique(ps);
            assert forall|m: int| 0 <= m < out@.len() implies self.view().contains_key(
                #[trigger] out@[m].0@,
            ) && self.view()[out@[m].0@] == out@[m].1@ by {
                let j = choose|j: int| 0 <= j < i && #[trigger] pair_views(out@)[m] == ps[j];
                assert(pair_views(out@)[m] == (out@[m].0@, out@[m].1@));
            }
        }
        out
    }
}

proof fn lemma_len_unique(s: Seq<(Seq<char>, Seq<char>)>)
    requires
        keys_unique(s),
    ensures
        assign_all(Map::empty(), s).dom().len() == s.len(),
        assign_all(Map::empty(), s).dom().finite(),
    decreases s.len(),
{
    if s.len() == 0 {
        assert(assign_all(Map::<Seq<char>, Seq<char>>::empty(), s).dom() =~= Set::empty());
    } else {
        let t = s.drop_last();
        assert(s =~= t.push(s.last()));
        assert(keys_unique(t)) by {
            assert forall|i: int, j: int|
                0 <= i < t.len() && 0 <= j < t.len() && i != j implies t[i].0 != t[j].0 by {
                assert(t[i] == s[i] && t[j] == s[j]);
            }
        }
        lemma_len_unique(t);
        lemma_assign_all_unique(t);
        lemma_assign_all_push(Map::empty(), t, s.last());
        let m = assign_all(Map::<Seq<char>, Seq<char>>::empty(), t);
        if m.contains_key(s.last().0) {
            let j = choose|j: int| 0 <= j < t.len() && t[j].0 == s.last().0;
            assert(t[j] == s[j]);
            assert(false);
        }
        assert(m.insert(s.last().0, s.last().1).dom() =~= m.dom().insert(s.last().0));
    }
}

/// What one line of an env file does to the settings read so far: blank
/// lines, `#` comments and lines without `=` change nothing; any other line
/// sets the trimmed text before its first `=` to the trimmed text after it.
pub open spec fn apply_line(m: Map<Seq<char>, Seq<char>>, line: Seq<char>) -> Map<
    Seq<char>,
    Seq<char>,
> {
    let t = trim(line);
    if t.len() == 0 || t[0] == '#' {
        m
    } else {
        let q = index_of(t, '=');
        if q < t.len() {
            m.insert(trim(t.subrange(0, q as int)), trim(t.subrange((q + 1) as int, t.len() as int)))
        } else {
            m
        }
    }
}

/// The settings after reading the `\n`-separated lines of `s` in order.
pub open spec fn read_lines(m: Map<Seq<char>, Seq<char>>, s: Seq<char>) -> Map<
    Seq<char>,
    Seq<char>,
>
    decreases s.len(),
{
    if s.len() == 0 {
        m
    } else {
        let e = index_of(s, '\n');
        let m2 = apply_line(m, s.subrange(0, e as int));
        if e < s.len() {
            read_lines(m2, s.subrange((e + 1) as int, s.len() as int))
        } else {
            m2
        }
    }
}

/// The settings that the text of an env file holds.
pub open spec fn parse_env(s: Seq<char>) -> Map<Seq<char>, Seq<char>> {
    read_lines(Map::empty(), s)
}

/// The text of one `key=value` line.
pub open spec fn env_line(e: (Seq<char>, Seq<char>)) -> Seq<char> {
    e.0 + seq!['='] + e.1 + seq!['\n']
}

/// The text of an env file holding the given pairs, one line each, in order.
pub open spec fn env_text(s: Seq<(Seq<char>, Seq<char>)>) -> Seq<char>
    decreases s.len(),
{
    if s.len() == 0 {
        Seq::empty()
    } else {
        env_line(s[0]) + env_text(s.drop_first())
    }
}

proof fn lemma_env_text_push(s: Seq<(Seq<char>, Seq<char>)>, x: (Seq<char>, Seq<char>))
    ensures
        env_text(s.push(x)) == env_text(s) + env_line(x),
    decreases s.len(),
{
    if s.len() == 0 {
        assert(s.push(x).drop_first() =~= Seq::<(Seq<char>, Seq<char>)>::empty());
        assert(s.push(x)[0] == x);
        assert(env_text(Seq::<(Seq<char>, Seq<char>)>::empty()) == Seq::<char>::empty());
        assert(env_text(s.push(x)) =~= env_line(x));
    } else {
        assert(s.push(x).drop_first() =~= s.drop_first().push(x));
        lemma_env_text_push(s.drop_first(), x);
        assert(env_text(s.push(x)) =~= env_text(s) + env_line(x));
    }
}

/// Applies one line, `cs[lo..hi]`, to the settings.
fn read_line(vars: &mut EnvVars, cs: &Vec<char>, lo: usize, hi: usize)
    requires
        old(vars).wf(),
        lo <= hi <= cs@.len(),
    ensures
        final(vars).wf(),
        final(vars).view() == apply_line(old(vars).view(), cs@.subrange(lo as int, hi as int)),
{
    let (a, b) = trim_range(cs, lo, hi);
    let ghost t = cs@.subrange(a as int, b as int);
    if a == b || cs[a] == '#' {
        return ;
    }
    let q = find_char(cs, a, b, '=');
    if q == b {
        return ;
    }
    assert(t.subrange(0, q - a) =~= cs@.subrange(a as int, q as int));
    assert(t.subrange(q - a + 1, t.len() as int) =~= cs@.subrange(q + 1, b as int));
    let (ka, kb) = trim_range(cs, a, q);
    let (va, vb) = trim_range(cs, q + 1, b);
    let key = string_of_range(cs, ka, kb);
    let value = string_of_range(cs, va, vb);
    vars.insert(key, value);
}

/// Reads the text of an env file: one `key=value` setting per line, keys and
/// values trimmed; blank lines, `#` comments and lines without `=` are
/// skipped; a later line wins over an earlier one with the same key.
pub fn parse_env_content(content: &str) -> (r: EnvVars)
    ensures
        r.wf(),
        r.view() == parse_env(content@),
{
    let cs = chars_of(content);
    let n = cs.len();
    let mut vars = EnvVars::new();
    let mut start: usize = 0;
    assert(cs@.subrange(0, n as int) =~= cs@);
    while start < n
        invariant
            start <= n,
            n == cs@.len(),
            cs@ == content@,
            vars.wf(),
            parse_env(content@) == read_lines(vars.view(), cs@.subrange(start as int, n as int)),
        decreases n - start,
    {
        let ghost rest = cs@.subrange(start as int, n as int);
        let e = find_char(&cs, start, n, '\n');
        assert(rest.subrange(0, e - start) =~= cs@.subrange(start as int, e as int));
        read_line(&mut vars, &cs, start, e);
        if e < n {
            assert(rest.subrange(e - start + 1, rest.len() as int) =~= cs@.subrange(
                e + 1,
                n as int,
            ));
            start = e + 1;
        } else {
            assert(cs@.subrange(n as int, n as int) =~= Seq::<char>::empty());
            start = n;
        }
    }
    vars
}

/// The text of an env file holding `vars`: a `key=value` line for each
/// setting, in order. Comments are not kept.
pub fn render_env_content(vars: &EnvVars) -> (r: String)
    ensures
        r@ == env_text(vars.pairs()),
{
    let mut out = String::new();
    let mut i: usize = 0;
    let ghost ps = vars.pairs();
    assert(ps.subrange(0, 0) =~= Seq::<(Seq<char>, Seq<char>)>::empty());
    while i < vars.entries.len()
        invariant
            i <= vars.entries@.len(),
            ps == vars.pairs(),
            out@ == env_text(ps.subrange(0, i as int)),
        decreases vars.entries@.len() - i,
    {
        let ghost before = out@;
        out.append(vars.entries[i].0.as_str());
        push_char(&mut out, '=');
        out.append(vars.entries[i].1.as_str());
        push_char(&mut out, '\n');
        proof {
            assert(ps.subrange(0, i + 1) =~= ps.subrange(0, i as int).push(ps[i as int]));
            lemma_env_text_push(ps.subrange(0, i as int), ps[i as int]);
            assert(out@ =~= before + env_line(ps[i as int]));
        }
        i = i + 1;
    }
    assert(ps.subrange(0, ps.len() as int) =~= ps);
    out
}

/// A key that an env file can hold: one or more of `[A-Za-z0-9_]`.
pub open spec fn valid_key(k: Seq<char>) -> bool {
    k.len() > 0 && forall|i: int| 0 <= i < k.len() ==> is_ascii_alnum(#[trigger] k[i]) || k[i] == '_'
}

/// A value that an env file line can hold: no line break, and no white space
/// at either end.
pub open spec fn valid_value(v: Seq<char>) -> bool {
    (forall|i: int| 0 <= i < v.len() ==> #[trigger] v[i] != '\n') && (v.len() == 0 || (!is_space(
        v[0],
    ) && !is_space(v.last())))
}

/// Settings that a file round-trips: every key and value valid.
pub open spec fn well_formed_settings(m: Map<Seq<char>, Seq<char>>) -> bool {
    forall|k: Seq<char>| #[trigger] m.contains_key(k) ==> valid_key(k) && valid_value(m[k])
}

proof fn lemma_trim_plain(s: Seq<char>)
    requires
        s.len() == 0 || (!is_space(s[0]) && !is_space(s.last())),
    ensures
        trim(s) == s,
{
}

proof fn lemma_read_line_text(m: Map<Seq<char>, Seq<char>>, e: (Seq<char>, Seq<char>))
    requires
        valid_key(e.0),
        valid_value(e.1),
    ensures
        apply_line(m, e.0 + seq!['='] + e.1) == m.insert(e.0, e.1),
{
    let k = e.0;
    let v = e.1;
    let line = k + seq!['='] + v;
    assert(!is_space(k[0]));
    assert(line[0] == k[0]);
    if v.len() > 0 {
        assert(line.last() == v.last());
    } else {
        assert(line.last() == '=');
    }
    lemma_trim_plain(line);
    assert forall|j: int| 0 <= j < k.len() implies line[j] != '=' by {
        assert(line[j] == k[j]);
    }
    lemma_index_of(line, '=', k.len() as int);
    assert(line.subrange(0, k.len() as int) =~= k);
    assert(line.subrange((k.len() + 1) as int, line.len() as int) =~= v);
    assert(!is_space(k.last()));
    lemma_trim_plain(k);
    lemma_trim_plain(v);
}

proof fn lemma_read_env_text(m: Map<Seq<char>, Seq<char>>, s: Seq<(Seq<char>, Seq<char>)>)
    requires
        forall|i: int| 0 <= i < s.len() ==> valid_key(#[trigger] s[i].0) && valid_value(s[i].1),
    ensures
        read_lines(m, env_text(s)) == assign_all(m, s),
    decreases s.len(),
{
    if s.len() > 0 {
        let e = s[0];
        let line = e.0 + seq!['='] + e.1;
        let rest = env_text(s.drop_first());
        let text = env_text(s);
        assert(text =~= line + seq!['\n'] + rest);
        assert forall|j: int| 0 <= j < line.len() implies text[j] != '\n' by {
            assert(text[j] == line[j]);
            if j < e.0.len() {
                assert(line[j] == e.0[j]);
                assert(is_ascii_alnum(e.0[j]) || e.0[j] == '_');
            } else if j > e.0.len() {
                assert(line[j] == e.1[j - e.0.len() - 1]);
            }
        }
        lemma_index_of(text, '\n', line.len() as int);
        assert(text.subrange(0, line.len() as int) =~= line);
        assert(text.subrange((line.len() + 1) as int, text.len() as int) =~= rest);
        lemma_read_line_text(m, e);
        assert forall|i: int| 0 <= i < s.drop_first().len() implies valid_key(
            #[trigger] s.drop_first()[i].0,
        ) && valid_value(s.drop_first()[i].1) by {
            assert(s.drop_first()[i] == s[i + 1]);
        }
        lemma_read_env_text(m.insert(e.0, e.1), s.drop_first());
    }
}

/// Writing settings to an env file and reading the file back gives the same
/// settings, for every key of `[A-Za-z0-9_]+` and every value without line
/// breaks or surrounding white space.
pub proof fn lemma_env_round_trip(vars: EnvVars)
    requires
        vars.wf(),
        well_formed_settings(vars.view()),
    ensures
        parse_env(env_text(vars.pairs())) == vars.view(),
{
    let s = vars.pairs();
    lemma_assign_all_unique(s);
    assert forall|i: int| 0 <= i < s.len() implies valid_key(#[trigger] s[i].0) && valid_value(
        s[i].1,
    ) by {
        assert(vars.view().contains_key(s[i].0));
    }
    lemma_read_env_text(Map::empty(), s);
}

} // verus!
