//! The cache of leaf certificates minted per authority. Minting itself is
//! cryptography and is done by the caller; the cache decides when a leaf
//! already minted is to be used again.
use vstd::prelude::*;

verus! {

/// Whether `c` is an ASCII upper-case letter.
pub open spec fn is_upper(c: char) -> bool {
    65 <= c as u32 <= 90
}

/// The code of `c` with an ASCII upper-case letter folded to lower case.
pub open spec fn folded(c: char) -> u32 {
    if is_upper(c) {
        (c as u32 + 32) as u32
    } else {
        c as u32
    }
}

/// Whether two characters are equal once ASCII letters are folded to lower
/// case.
pub open spec fn fold_eq(a: char, b: char) -> bool {
    folded(a) == folded(b)
}

/// Whether `s` ends with `suffix`.
pub open spec fn has_suffix(s: Seq<char>, suffix: Seq<char>) -> bool {
    suffix.len() <= s.len() && s.subrange(s.len() - suffix.len(), s.len() as int) == suffix
}

/// How many characters of an authority remain once a default port (`:443`
/// or `:80`) is elided.
pub open spec fn canonical_len(a: Seq<char>) -> int {
    if has_suffix(a, ":443"@) {
        a.len() - 4
    } else if has_suffix(a, ":80"@) {
        a.len() - 3
    } else {
        a.len() as int
    }
}

/// Whether two authorities name the same cache entry: equal once default
/// ports are elided and ASCII letters folded to lower case.
pub open spec fn same_authority(a: Seq<char>, b: Seq<char>) -> bool {
    canonical_len(a) == canonical_len(b) && forall|i: int| 0 <= i < canonical_len(a) ==> fold_eq(#[trigger] a[i], b[i])
}

proof fn lemma_canonical_len_bounds(a: Seq<char>)
    ensures
        0 <= canonical_len(a) <= a.len(),
{
    reveal_strlit(":443");
    reveal_strlit(":80");
}

/// Whether `s` ends with `suffix`.
fn ends_with(s: &str, suffix: &str) -> (r: bool)
    ensures
        r == has_suffix(s@, suffix@),
{
    let n = s.unicode_len();
    let m = suffix.unicode_len();
    if m > n {
        return false;
    }
    let mut i: usize = 0;
    while i < m
        invariant
            n == s@.len(),
            m == suffix@.len(),
            m <= n,
            i <= m,
            forall|j: int| 0 <= j < i ==> s@[n - m + j] == suffix@[j],
        decreases m - i,
    {
        if s.get_char(n - m + i) != suffix.get_char(i) {
            assert(s@.subrange(n - m, n as int)[i as int] != suffix@[i as int]);
            return false;
        }
        i = i + 1;
    }
    assert(s@.subrange(n - m, n as int) =~= suffix@);
    true
}

fn canonical_length(a: &str) -> (r: usize)
    ensures
        r == canonical_len(a@),
{
    proof {
        reveal_strlit(":443");
        reveal_strlit(":80");
    }
    let n = a.unicode_len();
    if ends_with(a, ":443") {
        n - 4
    } else if ends_with(a, ":80") {
        n - 3
    } else {
        n
    }
}

/// Whether two authorities name the same cache entry.
pub fn same_authority_exec(a: &str, b: &str) -> (r: bool)
    ensures
        r == same_authority(a@, b@),
{
    let la = canonical_length(a);
    let lb = canonical_length(b);
    proof {
        lemma_canonical_len_bounds(a@);
        lemma_canonical_len_bounds(b@);
    }
    if la != lb {
        return false;
    }
    let mut i: usize = 0;
    while i < la
        invariant
            la == canonical_len(a@),
            lb == la,
            la <= a@.len(),
            la <= b@.len(),
            i <= la,
            forall|j: int| 0 <= j < i ==> fold_eq(#[trigger] a@[j], b@[j]),
        decreases la - i,
    {
        let x = a.get_char(i) as u32;
        let y = b.get_char(i) as u32;
        let fx = if 65 <= x && x <= 90 { x + 32 } else { x };
        let fy = if 65 <= y && y <= 90 { y + 32 } else { y };
        let same = fx == fy;
        if !same {
            assert(!fold_eq(a@[i as int], b@[i as int]));
            return false;
        }
        i = i + 1;
    }
    true
}

proof fn lemma_same_authority_sym(a: Seq<char>, b: Seq<char>)
    requires
        same_authority(a, b),
    ensures
        same_authority(b, a),
{
    assert forall|i: int| 0 <= i < canonical_len(b) implies fold_eq(#[trigger] b[i], a[i]) by {
        assert(fold_eq(a[i], b[i]));
    }
}

proof fn lemma_same_authority_trans(a: Seq<char>, b: Seq<char>, c: Seq<char>)
    requires
        same_authority(a, b),
        same_authority(b, c),
    ensures
        same_authority(a, c),
{
    assert forall|i: int| 0 <= i < canonical_len(a) implies fold_eq(#[trigger] a[i], c[i]) by {
        assert(fold_eq(a[i], b[i]));
        assert(fold_eq(b[i], c[i]));
    }
}

/// The leaf cached for `key` among the entries from position `k` on: that of
/// the first entry with the same authority.
pub open spec fn cached_from<L>(e: Seq<(String, L)>, key: Seq<char>, k: int) -> Option<L>
    decreases e.len() - k,
{
    if k < 0 || k >= e.len() {
        None
    } else if same_authority(e[k].0@, key) {
        Some(e[k].1)
    } else {
        cached_from(e, key, k + 1)
    }
}

/// The leaf cached for `key`.
pub open spec fn cached<L>(e: Seq<(String, L)>, key: Seq<char>) -> Option<L> {
    cached_from(e, key, 0)
}

/// Leaves by authority, kept for the life of the process.
pub struct LeafCache<L> {
    entries: Vec<(String, L)>,
}

impl<L> View for LeafCache<L> {
    type V = Seq<(String, L)>;

    closed spec fn view(&self) -> Seq<(String, L)> {
        self.entries@
    }
}

impl<L> LeafCache<L> {
    /// An empty cache.
    pub fn new() -> (r: LeafCache<L>)
        ensures
            r@.len() == 0,
    {
        LeafCache { entries: Vec::new() }
    }

    /// The leaf cached for `authority`, if any.
    pub fn get(&self, authority: &str) -> (r: Option<&L>)
        ensures
            match r {
                Some(l) => cached(self@, authority@) == Some(*l),
                None => cached(self@, authority@) is None,
            },
    {
        let mut k: usize = 0;
        while k < self.entries.len()
            invariant
                k <= self.entries@.len(),
                cached(self.entries@, authority@) == cached_from(self.entries@, authority@, k as int),
            decreases self.entries.len() - k,
        {
            if same_authority_exec(self.entries[k].0.as_str(), authority) {
                return Some(&self.entries[k].1);
            }
            k = k + 1;
        }
        None
    }

    /// Caches `leaf` for `authority`. A leaf already cached for the same
    /// authority keeps precedence.
    pub fn insert(&mut self, authority: String, leaf: L)
        ensures
            final(self)@ == old(self)@.push((authority, leaf)),
    {
        self.entries.push((authority, leaf));
    }
}

proof fn lemma_cached_push<L>(e: Seq<(String, L)>, x: (String, L), key: Seq<char>, k: int)
    requires
        0 <= k <= e.len(),
    ensures
        cached_from(e.push(x), key, k) == match cached_from(e, key, k) {
            Some(l) => Some(l),
            None => if same_authority(x.0@, key) {
                Some(x.1)
            } else {
                None
            },
        },
    decreases e.len() - k,
{
    if k < e.len() {
        assert(e.push(x)[k] == e[k]);
        lemma_cached_push(e, x, key, k + 1);
    } else {
        assert(e.push(x)[k] == x);
        assert(cached_from(e.push(x), key, k + 1) is None);
    }
}

proof fn lemma_cached_none_for_same<L>(e: Seq<(String, L)>, a: Seq<char>, b: Seq<char>, k: int)
    requires
        0 <= k <= e.len(),
        same_authority(a, b),
        cached_from(e, a, k) is None,
    ensures
        cached_from(e, b, k) is None,
    decreases e.len() - k,
{
    if k < e.len() {
        if same_authority(e[k].0@, b) {
            lemma_same_authority_sym(a, b);
            lemma_same_authority_trans(e[k].0@, b, a);
        }
        lemma_cached_none_for_same(e, a, b, k + 1);
    }
}

/// Once a leaf has been minted and cached for an authority that had none,
/// every later request for the same authority (up to case and default port)
/// gets that very leaf.
pub proof fn law_same_authority_same_leaf<L>(e: Seq<(String, L)>, authority: String, leaf: L, other: Seq<char>)
    requires
        cached(e, authority@) is None,
        same_authority(authority@, other),
    ensures
        cached(e.push((authority, leaf)), other) == Some(leaf),
{
    lemma_cached_none_for_same(e, authority@, other, 0);
    lemma_cached_push(e, (authority, leaf), other, 0);
}

/// Caching a leaf for one authority leaves what is cached for every other
/// authority as it was.
pub proof fn law_other_authority_unchanged<L>(e: Seq<(String, L)>, authority: String, leaf: L, other: Seq<char>)
    requires
        !same_authority(authority@, other),
    ensures
        cached(e.push((authority, leaf)), other) == cached(e, other),
{
    lemma_cached_push(e, (authority, leaf), other, 0);
}

} // verus!
