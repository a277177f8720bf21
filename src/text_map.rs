use vstd::prelude::*;
use vstd::string::StrSliceExecFns;

verus! {

/// Strict lexicographic order on character sequences, by code point.
/// This is the order of `String`'s `Ord`: UTF-8 byte order is code point order.
pub open spec fn text_lt(a: Seq<char>, b: Seq<char>) -> bool {
    exists|i: int| #[trigger] text_lt_at(a, b, i)
}

/// `a` and `b` agree before position `i`, and `i` is where `a` is first smaller.
pub open spec fn text_lt_at(a: Seq<char>, b: Seq<char>, i: int) -> bool {
    &&& 0 <= i <= a.len()
    &&& i < b.len()
    &&& a.subrange(0, i) == b.subrange(0, i)
    &&& (i == a.len() || (a[i] as u32) < (b[i] as u32))
}

pub proof fn lemma_text_lt_irreflexive(a: Seq<char>, b: Seq<char>)
    requires
        text_lt(a, b),
    ensures
        a != b,
        !text_lt(b, a),
{
    let i = choose|i: int| text_lt_at(a, b, i);
    if exists|j: int| text_lt_at(b, a, j) {
        let j = choose|j: int| text_lt_at(b, a, j);
        if j < i {
            assert(a.subrange(0, i)[j] == b.subrange(0, i)[j]);
        } else if i < j {
            assert(a.subrange(0, j)[i] == b.subrange(0, j)[i]);
        }
    }
}

pub proof fn lemma_text_lt_transitive(a: Seq<char>, b: Seq<char>, c: Seq<char>)
    requires
        text_lt(a, b),
        text_lt(b, c),
    ensures
        text_lt(a, c),
{
    let i = choose|i: int| text_lt_at(a, b, i);
    let j = choose|j: int| text_lt_at(b, c, j);
    let k = if i < j { i } else { j };
    assert forall|x: int| 0 <= x < k implies a[x] == c[x] by {
        assert(a.subrange(0, i)[x] == b.subrange(0, i)[x]);
        assert(b.subrange(0, j)[x] == c.subrange(0, j)[x]);
    }
    assert(a.subrange(0, k) =~= c.subrange(0, k));
    if i < j {
        assert(b.subrange(0, j)[i] == c.subrange(0, j)[i]);
    } else if j < i {
        assert(a.subrange(0, i)[j] == b.subrange(0, i)[j]);
    }
    assert(text_lt_at(a, c, k));
}

pub enum Ordering {
    Less,
    Equal,
    Greater,
}

/// Compares two texts in lexicographic code point order.
pub fn compare_text(a: &str, b: &str) -> (r: Ordering)
    ensures
        r is Less <==> text_lt(a@, b@),
        r is Equal <==> a@ == b@,
        r is Greater <==> text_lt(b@, a@),
{
    let la = a.unicode_len();
    let lb = b.unicode_len();
    let mut i: usize = 0;
    while i < la && i < lb
        invariant
            la == a@.len(),
            lb == b@.len(),
            i <= la,
            i <= lb,
            a@.subrange(0, i as int) == b@.subrange(0, i as int),
        decreases la - i,
    {
        let ca = a.get_char(i);
        let cb = b.get_char(i);
        if (ca as u32) < (cb as u32) {
            assert(text_lt_at(a@, b@, i as int));
            proof {
                lemma_text_lt_irreflexive(a@, b@);
            }
            return Ordering::Less;
        }
        if (cb as u32) < (ca as u32) {
            assert(text_lt_at(b@, a@, i as int));
            proof {
                lemma_text_lt_irreflexive(b@, a@);
            }
            return Ordering::Greater;
        }
        assert(a@.subrange(0, i + 1) =~= a@.subrange(0, i as int).push(ca));
        assert(b@.subrange(0, i + 1) =~= b@.subrange(0, i as int).push(cb));
        i = i + 1;
    }
    if la < lb {
        assert(text_lt_at(a@, b@, i as int));
        proof {
            lemma_text_lt_irreflexive(a@, b@);
        }
        Ordering::Less
    } else if lb < la {
        assert(text_lt_at(b@, a@, i as int));
        proof {
            lemma_text_lt_irreflexive(b@, a@);
        }
        Ordering::Greater
    } else {
        assert(a@ =~= a@.subrange(0, i as int));
        assert(b@ =~= b@.subrange(0, i as int));
        assert(!text_lt(a@, b@)) by {
            if exists|j: int| text_lt_at(a@, b@, j) {
                let j = choose|j: int| text_lt_at(a@, b@, j);
                assert(a@.subrange(0, i as int)[j] == b@.subrange(0, i as int)[j]);
            }
        }
        assert(!text_lt(b@, a@)) by {
            if exists|j: int| text_lt_at(b@, a@, j) {
                let j = choose|j: int| text_lt_at(b@, a@, j);
                assert(a@.subrange(0, i as int)[j] == b@.subrange(0, i as int)[j]);
            }
        }
        Ordering::Equal
    }
}

/// A map from text keys to text values whose entries are kept in ascending key order,
/// as a `BTreeMap<String, String>` walks them.
pub struct TextMap {
    keys: Vec<String>,
    values: Vec<String>,
}

/// Keys strictly ascending, hence distinct.
pub open spec fn entries_sorted(s: Seq<(Seq<char>, Seq<char>)>) -> bool {
    forall|i: int, j: int| 0 <= i < j < s.len() ==> text_lt(#[trigger] s[i].0, #[trigger] s[j].0)
}

/// `s` holds the entry `(k, v)`.
pub open spec fn has_entry(s: Seq<(Seq<char>, Seq<char>)>, k: Seq<char>, v: Seq<char>) -> bool {
    exists|i: int| 0 <= i < s.len() && #[trigger] s[i] == (k, v)
}

/// `s` holds exactly the entries of `s0`, with `value` under `key` in place of what
/// `key` held there.
pub open spec fn inserted(
    s0: Seq<(Seq<char>, Seq<char>)>,
    s: Seq<(Seq<char>, Seq<char>)>,
    key: Seq<char>,
    value: Seq<char>,
) -> bool {
    forall|k: Seq<char>, v: Seq<char>|
        has_entry(s, k, v) <==> ((k == key && v == value) || (k != key && has_entry(s0, k, v)))
}

/// `s` holds some entry under key `k`.
pub open spec fn has_key(s: Seq<(Seq<char>, Seq<char>)>, k: Seq<char>) -> bool {
    exists|i: int| 0 <= i < s.len() && #[trigger] s[i].0 == k
}

proof fn lemma_replaced(
    s0: Seq<(Seq<char>, Seq<char>)>,
    s: Seq<(Seq<char>, Seq<char>)>,
    i: int,
    k0: Seq<char>,
    v0: Seq<char>,
)
    requires
        entries_sorted(s0),
        0 <= i < s0.len(),
        s0[i].0 == k0,
        s == s0.update(i, (k0, v0)),
    ensures
        entries_sorted(s),
        inserted(s0, s, k0, v0),
{
    assert forall|a: int, b: int| 0 <= a < b < s.len() implies text_lt(
        #[trigger] s[a].0,
        #[trigger] s[b].0,
    ) by {
        assert(s[a].0 == s0[a].0);
        assert(s[b].0 == s0[b].0);
    }
    assert forall|k: Seq<char>, v: Seq<char>|
        has_entry(s, k, v) <==> ((k == k0 && v == v0) || (k != k0 && has_entry(s0, k, v))) by {
        if has_entry(s, k, v) {
            let x = choose|x: int| 0 <= x < s.len() && #[trigger] s[x] == (k, v);
            if x != i {
                assert(s0[x] == (k, v));
                if x < i {
                    lemma_text_lt_irreflexive(s0[x].0, s0[i].0);
                } else {
                    lemma_text_lt_irreflexive(s0[i].0, s0[x].0);
                }
            }
        }
        if k == k0 && v == v0 {
            assert(s[i] == (k, v));
        }
        if k != k0 && has_entry(s0, k, v) {
            let x = choose|x: int| 0 <= x < s0.len() && #[trigger] s0[x] == (k, v);
            assert(s[x] == (k, v));
        }
    }
}

pub proof fn lemma_entry_has_key(s: Seq<(Seq<char>, Seq<char>)>, k: Seq<char>, v: Seq<char>)
    requires
        has_entry(s, k, v),
    ensures
        has_key(s, k),
{
    let i = choose|i: int| 0 <= i < s.len() && #[trigger] s[i] == (k, v);
    assert(s[i].0 == k);
}

impl View for TextMap {
    type V = Seq<(Seq<char>, Seq<char>)>;

    /// The entries, in ascending key order.
    closed spec fn view(&self) -> Seq<(Seq<char>, Seq<char>)> {
        Seq::new(self.keys@.len(), |i: int| (self.keys@[i]@, self.values@[i]@))
    }
}

impl TextMap {
    pub closed spec fn wf(&self) -> bool {
        &&& self.keys@.len() == self.values@.len()
        &&& entries_sorted(self@)
    }

    pub fn new() -> (r: Self)
        ensures
            r.wf(),
            r@.len() == 0,
    {
        TextMap { keys: Vec::new(), values: Vec::new() }
    }

    pub fn len(&self) -> (r: usize)
        requires
            self.wf(),
        ensures
            r == self@.len(),
    {
        self.keys.len()
    }

    pub fn is_empty(&self) -> (r: bool)
        requires
            self.wf(),
        ensures
            r == (self@.len() == 0),
    {
        self.keys.len() == 0
    }

    pub fn key_at(&self, i: usize) -> (r: &String)
        requires
            self.wf(),
            i < self@.len(),
        ensures
            r@ == self@[i as int].0,
    {
        &self.keys[i]
    }

    pub fn value_at(&self, i: usize) -> (r: &String)
        requires
            self.wf(),
            i < self@.len(),
        ensures
            r@ == self@[i as int].1,
    {
        &self.values[i]
    }

    /// Inserts `value` under `key`, replacing what the key held before.
    pub fn insert(&mut self, key: String, value: String)
        requires
            old(self).wf(),
        ensures
            final(self).wf(),
            entries_sorted(final(self)@),
            inserted(old(self)@, final(self)@, key@, value@),
    {
        let ghost s0 = self@;
        let n = self.keys.len();
        let mut i: usize = 0;
        #[verifier::loop_isolation(false)]
        while i < n
            invariant
                self.wf(),
                self@ == s0,
                n == s0.len(),
                i <= n,
                forall|j: int| 0 <= j < i ==> text_lt(#[trigger] s0[j].0, key@),
            decreases n - i,
        {
            match compare_text(self.keys[i].as_str(), key.as_str()) {
                Ordering::Less => {
                    assert(s0[i as int].0 == self.keys@[i as int]@);
                    i = i + 1;
                },
                Ordering::Equal => {
                    let ghost k0 = key@;
                    let ghost v0 = value@;
                    self.values.set(i, value);
                    proof {
                        assert(self@ =~= s0.update(i as int, (k0, v0)));
                        lemma_replaced(s0, self@, i as int, k0, v0);
                    }
                    return ;
                },
                Ordering::Greater => {
                    let ghost k0 = key@;
                    let ghost v0 = value@;
                    self.keys.insert(i, key);
                    self.values.insert(i, value);
                    proof {
                        self.lemma_inserted(s0, i as int, k0, v0);
                    }
                    return ;
                },
            }
        }
        let ghost k0 = key@;
        let ghost v0 = value@;
        self.keys.push(key);
        self.values.push(value);
        proof {
            assert(self@ =~= s0.insert(n as int, (k0, v0)));
            self.lemma_inserted(s0, n as int, k0, v0);
        }
    }

    proof fn lemma_inserted(&self, s0: Seq<(Seq<char>, Seq<char>)>, i: int, k0: Seq<char>, v0: Seq<char>)
        requires
            entries_sorted(s0),
            0 <= i <= s0.len(),
            self.keys@.len() == self.values@.len(),
            self@ =~= s0.insert(i, (k0, v0)),
            forall|j: int| 0 <= j < i ==> text_lt(#[trigger] s0[j].0, k0),
            i < s0.len() ==> text_lt(k0, s0[i].0),
        ensures
            self.wf(),
            inserted(s0, self@, k0, v0),
    {
        let s = self@;
        assert forall|a: int, b: int| 0 <= a < b < s.len() implies text_lt(
            #[trigger] s[a].0,
            #[trigger] s[b].0,
        ) by {
            if a < i && b < i {
                assert(s[a] == s0[a] && s[b] == s0[b]);
            } else if a < i && b == i {
                assert(s[a] == s0[a]);
            } else if a < i {
                assert(s[a] == s0[a] && s[b] == s0[b - 1]);
                lemma_text_lt_transitive(s0[a].0, k0, s0[i].0);
                if b - 1 > i {
                    lemma_text_lt_transitive(s0[a].0, s0[i].0, s0[b - 1].0);
                }
            } else if a == i {
                assert(s[b] == s0[b - 1]);
                if b - 1 > i {
                    lemma_text_lt_transitive(k0, s0[i].0, s0[b - 1].0);
                }
            } else {
                assert(s[a] == s0[a - 1] && s[b] == s0[b - 1]);
            }
        }
        assert forall|k: Seq<char>, v: Seq<char>|
            has_entry(s, k, v) <==> ((k == k0 && v == v0) || (k != k0 && has_entry(s0, k, v))) by {
            if has_entry(s, k, v) {
                let x = choose|x: int| 0 <= x < s.len() && #[trigger] s[x] == (k, v);
                if x < i {
                    assert(s0[x] == (k, v));
                    assert(text_lt(s0[x].0, k0));
                    lemma_text_lt_irreflexive(k, k0);
                } else if x > i {
                    assert(s0[x - 1] == (k, v));
                    if x - 1 > i {
                        assert(text_lt(s0[i].0, s0[x - 1].0));
                        lemma_text_lt_transitive(k0, s0[i].0, s0[x - 1].0);
                    }
                    lemma_text_lt_irreflexive(k0, k);
                }
            }
            if k == k0 && v == v0 {
                assert(s[i] == (k, v));
            }
            if k != k0 && has_entry(s0, k, v) {
                let x = choose|x: int| 0 <= x < s0.len() && #[trigger] s0[x] == (k, v);
                if x < i {
                    assert(s[x] == (k, v));
                } else {
                    assert(s[x + 1] == (k, v));
                }
            }
        }
    }

    /// The value under `key`, if any.
    pub fn get(&self, key: &str) -> (r: Option<&String>)
        requires
            self.wf(),
        ensures
            r is Some ==> has_entry(self@, key@, r->0@),
            r is None ==> !has_key(self@, key@),
    {
        let mut i: usize = 0;
        while i < self.keys.len()
            invariant
                self.wf(),
                i <= self@.len(),
                forall|j: int| 0 <= j < i ==> #[trigger] self@[j].0 != key@,
            decreases self@.len() - i,
        {
            if let Ordering::Equal = compare_text(self.keys[i].as_str(), key) {
                assert(self@[i as int] == (key@, self.values@[i as int]@));
                return Some(&self.values[i]);
            }
            i = i + 1;
        }
        None
    }

    /// A map of the one entry `(key, value)`.
    pub fn single(key: String, value: String) -> (r: Self)
        ensures
            r.wf(),
            r@ == seq![(key@, value@)],
    {
        let mut keys = Vec::new();
        keys.push(key);
        let mut values = Vec::new();
        values.push(value);
        let r = TextMap { keys, values };
        assert(r@ =~= seq![(key@, value@)]);
        r
    }

    /// A copy with the same entries.
    pub fn copy(&self) -> (r: Self)
        requires
            self.wf(),
        ensures
            r.wf(),
            r@ == self@,
    {
        let r = TextMap { keys: self.keys.clone(), values: self.values.clone() };
        assert(r@ =~= self@);
        r
    }

    /// Whether both hold the same entries.
    pub fn same_entries(&self, other: &TextMap) -> (r: bool)
        requires
            self.wf(),
            other.wf(),
        ensures
            r == (self@ == other@),
    {
        let n = self.keys.len();
        if n != other.keys.len() {
            return false;
        }
        let mut i: usize = 0;
        while i < n
            invariant
                self.wf(),
                other.wf(),
                n == self@.len(),
                n == other@.len(),
                i <= n,
                forall|j: int| 0 <= j < i ==> self@[j] == other@[j],
            decreases n - i,
        {
            if self.keys[i] != other.keys[i] || self.values[i] != other.values[i] {
                assert(self@[i as int] != other@[i as int]);
                return false;
            }
            i = i + 1;
        }
        assert(self@ =~= other@);
        true
    }
}

/// Whether two optional maps hold the same entries.
pub fn text_map_opt_eq(a: &Option<TextMap>, b: &Option<TextMap>) -> (r: bool)
    requires
        a is Some ==> a->0.wf(),
        b is Some ==> b->0.wf(),
    ensures
        r == (text_map_opt_view(*a) == text_map_opt_view(*b)),
{
    match a {
        Some(x) => match b {
            Some(y) => x.same_entries(y),
            None => false,
        },
        None => b.is_none(),
    }
}

pub open spec fn text_map_opt_view(a: Option<TextMap>) -> Option<Seq<(Seq<char>, Seq<char>)>> {
    match a {
        Some(m) => Some(m@),
        None => None,
    }
}

pub open spec fn text_map_opt_wf(a: Option<TextMap>) -> bool {
    a is Some ==> a->0.wf()
}

/// A copy of an optional map.
pub fn text_map_opt_copy(a: &Option<TextMap>) -> (r: Option<TextMap>)
    requires
        text_map_opt_wf(*a),
    ensures
        text_map_opt_wf(r),
        text_map_opt_view(r) == text_map_opt_view(*a),
{
    match a {
        Some(m) => Some(m.copy()),
        None => None,
    }
}

} // verus!
