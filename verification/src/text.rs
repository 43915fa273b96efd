//! Character-sequence helpers: whitespace trimming and comparison.
//!
//! Operand tokens are compared by their trimmed textual rendering, so the
//! trimming function and its algebra live here.

use vstd::prelude::*;

verus! {

/// A whitespace character, as far as trimming is concerned.
pub open spec fn is_space(c: char) -> bool {
    c == ' ' || c == '\t' || c == '\n' || c == '\r'
}

/// `s` with its leading whitespace removed.
pub open spec fn trim_front(s: Seq<char>) -> Seq<char>
    decreases s.len(),
{
    if s.len() > 0 && is_space(s[0]) {
        trim_front(s.drop_first())
    } else {
        s
    }
}

/// `s` with its trailing whitespace removed.
pub open spec fn trim_back(s: Seq<char>) -> Seq<char>
    decreases s.len(),
{
    if s.len() > 0 && is_space(s.last()) {
        trim_back(s.drop_last())
    } else {
        s
    }
}

/// `s` with both leading and trailing whitespace removed.
pub open spec fn trimmed(s: Seq<char>) -> Seq<char> {
    trim_back(trim_front(s))
}

/// Decides `is_space`.
pub fn is_space_char(c: char) -> (b: bool)
    ensures
        b == is_space(c),
{
    c == ' ' || c == '\t' || c == '\n' || c == '\r'
}

/// Returns a copy of `s` with leading and trailing whitespace removed.
pub fn trim_chars(s: &Vec<char>) -> (r: Vec<char>)
    ensures
        r@ == trimmed(s@),
{
    let n = s.len();
    proof {
        assert(s@.subrange(0, n as int) =~= s@);
    }
    let mut lo: usize = 0;
    while lo < n && is_space_char(s[lo])
        invariant
            lo <= n,
            n == s@.len(),
            trim_front(s@) == trim_front(s@.subrange(lo as int, n as int)),
        decreases n - lo,
    {
        proof {
            let sub = s@.subrange(lo as int, n as int);
            assert(sub[0] == s@[lo as int]);
            assert(sub.drop_first() =~= s@.subrange(lo as int + 1, n as int));
        }
        lo = lo + 1;
    }
    proof {
        let sub = s@.subrange(lo as int, n as int);
        if lo < n {
            assert(sub[0] == s@[lo as int]);
        }
        assert(trim_front(s@) == sub);
    }
    let mut hi: usize = n;
    while hi > lo && is_space_char(s[hi - 1])
        invariant
            lo <= hi <= n,
            n == s@.len(),
            trim_front(s@) == s@.subrange(lo as int, n as int),
            trim_back(s@.subrange(lo as int, n as int)) == trim_back(
                s@.subrange(lo as int, hi as int),
            ),
        decreases hi - lo,
    {
        proof {
            let sub = s@.subrange(lo as int, hi as int);
            assert(sub.last() == s@[hi - 1]);
            assert(sub.drop_last() =~= s@.subrange(lo as int, hi as int - 1));
        }
        hi = hi - 1;
    }
    proof {
        let sub = s@.subrange(lo as int, hi as int);
        if hi > lo {
            assert(sub.last() == s@[hi - 1]);
        }
        assert(trim_back(sub) == sub);
        assert(trimmed(s@) == sub);
    }
    let mut r: Vec<char> = Vec::new();
    let mut j: usize = lo;
    while j < hi
        invariant
            lo <= j <= hi <= n,
            n == s@.len(),
            r@ == s@.subrange(lo as int, j as int),
        decreases hi - j,
    {
        r.push(s[j]);
        proof {
            assert(s@.subrange(lo as int, j + 1) =~= s@.subrange(lo as int, j as int).push(
                s@[j as int],
            ));
        }
        j = j + 1;
    }
    r
}

/// Decides whether two character vectors hold the same characters.
pub fn chars_equal(a: &Vec<char>, b: &Vec<char>) -> (r: bool)
    ensures
        r == (a@ == b@),
{
    if a.len() != b.len() {
        return false;
    }
    let mut i: usize = 0;
    while i < a.len()
        invariant
            i <= a@.len(),
            a@.len() == b@.len(),
            forall|j: int| 0 <= j < i ==> a@[j] == b@[j],
        decreases a@.len() - i,
    {
        if a[i] != b[i] {
            return false;
        }
        i = i + 1;
    }
    proof {
        assert(a@ =~= b@);
    }
    true
}

/// Returns a copy of `s`.
pub fn copy_chars(s: &Vec<char>) -> (r: Vec<char>)
    ensures
        r@ == s@,
{
    let mut r: Vec<char> = Vec::new();
    let mut i: usize = 0;
    while i < s.len()
        invariant
            i <= s@.len(),
            r@ == s@.subrange(0, i as int),
        decreases s@.len() - i,
    {
        r.push(s[i]);
        proof {
            assert(s@.subrange(0, i + 1) =~= s@.subrange(0, i as int).push(s@[i as int]));
        }
        i = i + 1;
    }
    proof {
        assert(s@.subrange(0, s@.len() as int) =~= s@);
    }
    r
}

/// A sequence of whitespace characters trims from the front to nothing.
proof fn lemma_all_spaces_trim_front_empty(s: Seq<char>)
    requires
        forall|i: int| 0 <= i < s.len() ==> is_space(s[i]),
    ensures
        trim_front(s) == Seq::<char>::empty(),
    decreases s.len(),
{
    if s.len() > 0 {
        lemma_all_spaces_trim_front_empty(s.drop_first());
    } else {
        assert(s =~= Seq::<char>::empty());
    }
}

/// Whitespace prepended to a sequence does not change its front trim.
proof fn lemma_trim_front_prepend_spaces(pre: Seq<char>, s: Seq<char>)
    requires
        forall|i: int| 0 <= i < pre.len() ==> is_space(pre[i]),
    ensures
        trim_front(pre + s) == trim_front(s),
    decreases pre.len(),
{
    if pre.len() == 0 {
        assert(pre + s =~= s);
    } else {
        assert((pre + s)[0] == pre[0]);
        assert((pre + s).drop_first() =~= pre.drop_first() + s);
        lemma_trim_front_prepend_spaces(pre.drop_first(), s);
    }
}

/// Whitespace appended to a sequence does not change its back trim.
proof fn lemma_trim_back_append_spaces(s: Seq<char>, post: Seq<char>)
    requires
        forall|i: int| 0 <= i < post.len() ==> is_space(post[i]),
    ensures
        trim_back(s + post) == trim_back(s),
    decreases post.len(),
{
    if post.len() == 0 {
        assert(s + post =~= s);
    } else {
        assert((s + post).last() == post.last());
        assert((s + post).drop_last() =~= s + post.drop_last());
        lemma_trim_back_append_spaces(s, post.drop_last());
    }
}

/// When `s` holds a non-whitespace character, front-trimming `s + post`
/// front-trims `s` and leaves `post` alone.
proof fn lemma_trim_front_append(s: Seq<char>, post: Seq<char>)
    requires
        exists|i: int| 0 <= i < s.len() && !is_space(s[i]),
    ensures
        trim_front(s + post) == trim_front(s) + post,
    decreases s.len(),
{
    let w = choose|i: int| 0 <= i < s.len() && !is_space(s[i]);
    if is_space(s[0]) {
        assert((s + post)[0] == s[0]);
        assert((s + post).drop_first() =~= s.drop_first() + post);
        assert(0 <= w - 1 < s.drop_first().len() && !is_space(s.drop_first()[w - 1]));
        lemma_trim_front_append(s.drop_first(), post);
    } else {
        assert((s + post).len() > 0 && !is_space((s + post)[0]));
    }
}

/// Whitespace-only padding around a rendering does not change its trimmed
/// form: trimming `pre + s + post` gives the same characters as trimming
/// `s` alone, whenever `pre` and `post` are all whitespace.
pub proof fn lemma_trimmed_ignores_padding(pre: Seq<char>, s: Seq<char>, post: Seq<char>)
    requires
        forall|i: int| 0 <= i < pre.len() ==> is_space(pre[i]),
        forall|i: int| 0 <= i < post.len() ==> is_space(post[i]),
    ensures
        trimmed(pre + s + post) == trimmed(s),
{
    assert(pre + s + post =~= pre + (s + post));
    lemma_trim_front_prepend_spaces(pre, s + post);
    if exists|i: int| 0 <= i < s.len() && !is_space(s[i]) {
        lemma_trim_front_append(s, post);
        lemma_trim_back_append_spaces(trim_front(s), post);
    } else {
        lemma_all_spaces_trim_front_empty(s);
        assert(forall|i: int| 0 <= i < (s + post).len() ==> is_space((s + post)[i]));
        lemma_all_spaces_trim_front_empty(s + post);
    }
}

} // verus!
