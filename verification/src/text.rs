use vstd::prelude::*;

verus! {

/// `pat` occurs in `s` starting at position `i`.
pub open spec fn occurs_at(s: Seq<char>, pat: Seq<char>, i: int) -> bool {
    &&& 0 <= i
    &&& i + pat.len() <= s.len()
    &&& s.subrange(i, i + pat.len()) == pat
}

/// `i` is the leftmost position at which `pat` occurs in `s`.
pub open spec fn first_occurrence(s: Seq<char>, pat: Seq<char>, i: int) -> bool {
    &&& occurs_at(s, pat, i)
    &&& forall|k: int| 0 <= k < i ==> !occurs_at(s, pat, k)
}

/// Position of the leftmost occurrence of `pat` in `s`, if there is one
/// (what `str::find` returns, counted in characters).
pub open spec fn spec_find(s: Seq<char>, pat: Seq<char>) -> Option<int> {
    if exists|i: int| first_occurrence(s, pat, i) {
        Some(choose|i: int| first_occurrence(s, pat, i))
    } else {
        None
    }
}

/// There is at most one leftmost occurrence.
pub proof fn lemma_first_occurrence_unique(s: Seq<char>, pat: Seq<char>, i: int, j: int)
    requires
        first_occurrence(s, pat, i),
        first_occurrence(s, pat, j),
    ensures
        i == j,
{
    if i < j {
        assert(!occurs_at(s, pat, i));
    } else if j < i {
        assert(!occurs_at(s, pat, j));
    }
}

/// Once an occurrence is known to be the leftmost one, `spec_find` names it.
pub proof fn lemma_spec_find_is(s: Seq<char>, pat: Seq<char>, i: int)
    requires
        first_occurrence(s, pat, i),
    ensures
        spec_find(s, pat) == Some(i),
{
    let c = choose|k: int| first_occurrence(s, pat, k);
    lemma_first_occurrence_unique(s, pat, i, c);
}

/// Any occurrence has a leftmost occurrence at or before it.
pub proof fn lemma_first_occurrence_exists(s: Seq<char>, pat: Seq<char>, k: int)
    requires
        occurs_at(s, pat, k),
    ensures
        exists|i: int| 0 <= i <= k && first_occurrence(s, pat, i),
    decreases k,
{
    if forall|m: int| 0 <= m < k ==> !occurs_at(s, pat, m) {
        assert(first_occurrence(s, pat, k));
    } else {
        let m = choose|m: int| 0 <= m < k && occurs_at(s, pat, m);
        lemma_first_occurrence_exists(s, pat, m);
    }
}

/// With no occurrence at all, `spec_find` finds nothing.
pub proof fn lemma_spec_find_none(s: Seq<char>, pat: Seq<char>)
    requires
        forall|k: int| !occurs_at(s, pat, k),
    ensures
        spec_find(s, pat) is None,
{
}

/// The characters of a string, one per element.
pub fn chars_of(s: &str) -> (v: Vec<char>)
    ensures
        v@ == s@,
{
    let mut v: Vec<char> = Vec::new();
    for c in it: s.chars()
        invariant
            v@ == it.seq().take(it.index() as int),
            it.seq() == s@,
    {
        v.push(c);
    }
    v
}

/// Leftmost occurrence of `pat` in `text` at or after position `from`.
pub fn find_from(text: &Vec<char>, from: usize, pat: &[char]) -> (r: Option<usize>)
    requires
        from <= text@.len(),
        pat@.len() > 0,
    ensures
        match spec_find(text@.skip(from as int), pat@) {
            Some(j) => r == Some((from + j) as usize),
            None => r is None,
        },
        r matches Some(k) ==> from <= k && k + pat@.len() <= text@.len(),
{
    let ghost rest = text@.skip(from as int);
    let n = text.len();
    let m = pat.len();
    let mut i: usize = from;
    while i < n && n - i >= m
        invariant
            from <= i <= n,
            n == text@.len(),
            m == pat@.len(),
            m > 0,
            rest == text@.skip(from as int),
            forall|k: int| 0 <= k < i - from ==> !occurs_at(rest, pat@, k),
        decreases n - i,
    {
        let mut j: usize = 0;
        let mut matched = true;
        while j < m
            invariant
                0 <= j <= m,
                i + m <= n,
                n == text@.len(),
                m == pat@.len(),
                matched <==> forall|t: int| 0 <= t < j ==> text@[i + t] == pat@[t],
            decreases m - j,
        {
            if text[i + j] != pat[j] {
                matched = false;
            }
            j = j + 1;
        }
        let ghost k = i - from;
        if matched {
            assert(rest.subrange(k, k + m) =~= pat@);
            assert(first_occurrence(rest, pat@, k));
            proof {
                lemma_spec_find_is(rest, pat@, k);
            }
            return Some(i);
        }
        assert(!occurs_at(rest, pat@, k)) by {
            if occurs_at(rest, pat@, k) {
                let t = choose|t: int| 0 <= t < m && text@[i + t] != pat@[t];
                assert(rest.subrange(k, k + m)[t] == text@[i + t]);
            }
        }
        i = i + 1;
    }
    assert forall|k: int| !occurs_at(rest, pat@, k) by {
        if 0 <= k && k >= i - from {
            assert(k + m > rest.len());
        }
    }
    proof {
        lemma_spec_find_none(rest, pat@);
    }
    None
}

} // verus!
