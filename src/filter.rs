//! Capture filters: title filters over `"{METHOD} {URL}"` and MIME filters
//! over the response `Content-Type`.
use vstd::prelude::*;
use crate::text::{contains, contains_seq, has_prefix, starts_with};

verus! {

/// Whether the pattern `p` from position `i` on matches the text `t` from
/// position `j` on, where `*` in the pattern stands for any run of
/// characters (the empty one included) and every other character stands
/// for itself.
pub open spec fn glob_from(p: Seq<char>, t: Seq<char>, i: int, j: int) -> bool
    decreases (p.len() - i) + (t.len() - j),
{
    if j > t.len() || i < 0 || j < 0 {
        false
    } else if i >= p.len() {
        j == t.len()
    } else if p[i] == '*' {
        glob_from(p, t, i + 1, j) || (j < t.len() && glob_from(p, t, i, j + 1))
    } else {
        j < t.len() && p[i] == t[j] && glob_from(p, t, i + 1, j + 1)
    }
}

/// Whether the whole of `t` matches the glob pattern `p`.
pub open spec fn glob_match(p: Seq<char>, t: Seq<char>) -> bool {
    glob_from(p, t, 0, 0)
}

/// Whether `pattern` holds a `*`, which makes it a glob.
pub open spec fn is_glob(pattern: Seq<char>) -> bool {
    exists|k: int| 0 <= k < pattern.len() && pattern[k] == '*'
}

/// One title filter.
#[derive(Debug)]
pub enum Filter {
    /// Matches a title that holds the text anywhere.
    Substring(String),
    /// Matches a title that the whole pattern matches, `*` standing for any
    /// run of characters.
    Glob(String),
}

/// The mathematical form of a title filter.
pub enum FilterView {
    Substring(Seq<char>),
    Glob(Seq<char>),
}

impl View for Filter {
    type V = FilterView;

    open spec fn view(&self) -> FilterView {
        match self {
            Filter::Substring(s) => FilterView::Substring(s@),
            Filter::Glob(s) => FilterView::Glob(s@),
        }
    }
}

/// Whether one title filter accepts the title `title`.
pub open spec fn filter_accepts(f: FilterView, title: Seq<char>) -> bool {
    match f {
        FilterView::Substring(s) => contains_seq(title, s),
        FilterView::Glob(p) => glob_match(p, title),
    }
}

/// Whether a list of title filters lets `title` through: an empty list lets
/// everything through, else some filter must accept it.
pub open spec fn title_passes(filters: Seq<FilterView>, title: Seq<char>) -> bool {
    filters.len() == 0 || exists|k: int| 0 <= k < filters.len() && filter_accepts(#[trigger] filters[k], title)
}

/// Whether a list of MIME filters lets the `Content-Type` value `value`
/// through: an empty list lets everything through, else the value must
/// begin with some filter.
pub open spec fn type_passes(filters: Seq<Seq<char>>, value: Seq<char>) -> bool {
    filters.len() == 0 || exists|k: int| 0 <= k < filters.len() && has_prefix(value, #[trigger] filters[k])
}

/// The view of a list of title filters.
pub open spec fn filters_view(filters: Seq<Filter>) -> Seq<FilterView> {
    filters.map_values(|f: Filter| f@)
}

/// The view of a list of strings.
pub open spec fn strings_view(v: Seq<String>) -> Seq<Seq<char>> {
    v.map_values(|s: String| s@)
}

/// Whether the whole of `text` matches the glob `pattern`.
pub fn glob_matches(pattern: &str, text: &str) -> (r: bool)
    ensures
        r == glob_match(pattern@, text@),
{
    let plen = pattern.unicode_len();
    let tlen = text.unicode_len();
    let ghost p = pattern@;
    let ghost t = text@;
    // The row of the pattern position past the end: only the end of the
    // text matches.
    let mut next: Vec<bool> = Vec::new();
    while next.len() < tlen
        invariant
            tlen == t.len(),
            plen == p.len(),
            next.len() <= tlen,
            forall|j: int| 0 <= j < next.len() ==> next@[j] == glob_from(p, t, plen as int, j),
        decreases tlen - next.len(),
    {
        next.push(false);
    }
    let mut next_last = true;
    let mut i: usize = plen;
    while i > 0
        invariant
            plen == p.len(),
            tlen == t.len(),
            p == pattern@,
            t == text@,
            i <= plen,
            next.len() == tlen,
            forall|j: int| 0 <= j < tlen ==> next@[j] == glob_from(p, t, i as int, j),
            next_last == glob_from(p, t, i as int, tlen as int),
        decreases i,
    {
        let ii = i - 1;
        let c = pattern.get_char(ii);
        let star = c == '*';
        let cur_last = star && next_last;
        let mut cur: Vec<bool> = Vec::new();
        while cur.len() < tlen
            invariant
                cur.len() <= tlen,
            decreases tlen - cur.len(),
        {
            cur.push(false);
        }
        let mut k: usize = tlen;
        while k > 0
            invariant
                plen == p.len(),
                tlen == t.len(),
                p == pattern@,
                t == text@,
                ii < plen,
                c == p[ii as int],
                star == (c == '*'),
                k <= tlen,
                cur.len() == tlen,
                next.len() == tlen,
                forall|j: int| 0 <= j < tlen ==> next@[j] == glob_from(p, t, ii + 1, j),
                next_last == glob_from(p, t, ii + 1, tlen as int),
                cur_last == glob_from(p, t, ii as int, tlen as int),
                forall|j: int| k <= j < tlen ==> cur@[j] == glob_from(p, t, ii as int, j),
            decreases k,
        {
            let j = k - 1;
            let after = if j + 1 == tlen { cur_last } else { cur[j + 1] };
            let v = if star {
                next[j] || after
            } else {
                let after_next = if j + 1 == tlen { next_last } else { next[j + 1] };
                c == text.get_char(j) && after_next
            };
            cur.set(j, v);
            k = j;
        }
        next = cur;
        next_last = cur_last;
        i = ii;
    }
    if tlen == 0 {
        next_last
    } else {
        next[0]
    }
}

impl Filter {
    /// Makes a title filter from its text: a glob where the text holds a
    /// `*`, a substring filter otherwise.
    pub fn new(pattern: &str) -> (r: Filter)
        ensures
            r@ == (if is_glob(pattern@) {
                FilterView::Glob(pattern@)
            } else {
                FilterView::Substring(pattern@)
            }),
    {
        if contains(pattern, "*") {
            proof {
                reveal_strlit("*");
                let k = choose|k: int| 0 <= k && k + 1 <= pattern@.len() && #[trigger] pattern@.subrange(k, k + 1) == "*"@;
                assert(pattern@.subrange(k, k + 1)[0] == pattern@[k]);
            }
            Filter::Glob(String::from_str(pattern))
        } else {
            proof {
                reveal_strlit("*");
                assert forall|k: int| 0 <= k < pattern@.len() implies pattern@[k] != '*' by {
                    if pattern@[k] == '*' {
                        assert(pattern@.subrange(k, k + 1) =~= "*"@);
                    }
                }
            }
            Filter::Substring(String::from_str(pattern))
        }
    }

    /// Whether this filter accepts `title`.
    pub fn accepts(&self, title: &str) -> (r: bool)
        ensures
            r == filter_accepts(self@, title@),
    {
        match self {
            Filter::Substring(s) => contains(title, s.as_str()),
            Filter::Glob(p) => glob_matches(p.as_str(), title),
        }
    }
}

/// Whether the title filters let `title` (`"{METHOD} {URL}"`) through.
pub fn is_match_title(filters: &Vec<Filter>, title: &str) -> (r: bool)
    ensures
        r == title_passes(filters_view(filters@), title@),
{
    let ghost fv = filters_view(filters@);
    if filters.len() == 0 {
        return true;
    }
    let mut k: usize = 0;
    while k < filters.len()
        invariant
            fv == filters_view(filters@),
            fv.len() == filters@.len(),
            k <= filters.len(),
            forall|j: int| 0 <= j < k ==> !filter_accepts(#[trigger] fv[j], title@),
        decreases filters.len() - k,
    {
        if filters[k].accepts(title) {
            assert(filter_accepts(fv[k as int], title@));
            return true;
        }
        k = k + 1;
    }
    false
}

/// Whether the MIME filters let the `Content-Type` value `value` through.
pub fn is_match_type(mime_filters: &Vec<String>, value: &str) -> (r: bool)
    ensures
        r == type_passes(strings_view(mime_filters@), value@),
{
    let ghost fv = strings_view(mime_filters@);
    if mime_filters.len() == 0 {
        return true;
    }
    let mut k: usize = 0;
    while k < mime_filters.len()
        invariant
            fv == strings_view(mime_filters@),
            fv.len() == mime_filters@.len(),
            k <= mime_filters.len(),
            forall|j: int| 0 <= j < k ==> !has_prefix(value@, #[trigger] fv[j]),
        decreases mime_filters.len() - k,
    {
        if starts_with(value, mime_filters[k].as_str()) {
            assert(has_prefix(value@, fv[k as int]));
            return true;
        }
        k = k + 1;
    }
    false
}

} // verus!
