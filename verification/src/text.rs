//! Searching and cutting text, stated over sequences of characters.
use vstd::prelude::*;
use vstd::string::*;

verus! {

/// `text` with every occurrence of `pattern` taken out, found from left to right
/// without overlap.
pub open spec fn without(text: Seq<char>, pattern: Seq<char>) -> Seq<char>
    recommends
        pattern.len() > 0,
    decreases text.len(),
{
    if pattern.len() == 0 || text.len() == 0 {
        text
    } else if pattern.is_prefix_of(text) {
        without(text.skip(pattern.len() as int), pattern)
    } else {
        seq![text[0]] + without(text.skip(1), pattern)
    }
}

/// The texts that strings hold, in their order.
pub open spec fn texts(strings: Seq<String>) -> Seq<Seq<char>> {
    strings.map_values(|s: String| s@)
}

/// The characters of a string slice, in order.
pub fn chars_of(s: &str) -> (v: Vec<char>)
    ensures
        v@ == s@,
{
    let mut v: Vec<char> = Vec::new();
    for c in it: s.chars()
        invariant
            it.seq() == s@,
            v@ == it.seq().take(it.index() as int),
    {
        v.push(c);
    }
    v
}

/// Whether `pattern` stands in `text` at position `at`.
pub fn occurs_at(text: &Vec<char>, at: usize, pattern: &Vec<char>) -> (r: bool)
    requires
        at <= text.len(),
    ensures
        r == pattern@.is_prefix_of(text@.skip(at as int)),
{
    let n: usize = pattern.len();
    if text.len() - at < n {
        return false;
    }
    let mut i: usize = 0;
    while i < n
        invariant
            i <= n,
            n == pattern.len(),
            at + n <= text.len(),
            forall|j: int| 0 <= j < i ==> text@[at + j] == pattern@[j],
        decreases n - i,
    {
        if text[at + i] != pattern[i] {
            assert(text@.skip(at as int).subrange(0, n as int)[i as int] != pattern@[i as int]);
            return false;
        }
        i += 1;
    }
    assert(pattern@ =~= text@.skip(at as int).subrange(0, n as int));
    true
}

/// Whether two string slices hold the same text.
pub fn same(a: &str, b: &str) -> (r: bool)
    ensures
        r == (a@ == b@),
{
    let x = chars_of(a);
    let y = chars_of(b);
    if x.len() != y.len() {
        return false;
    }
    assert(y@.skip(0) =~= y@);
    let r = occurs_at(&y, 0, &x);
    assert(r == (x@ =~= y@));
    r
}

/// Whether `text` begins with `prefix`.
pub fn starts_with(text: &str, prefix: &str) -> (r: bool)
    ensures
        r == prefix@.is_prefix_of(text@),
{
    let t = chars_of(text);
    let p = chars_of(prefix);
    assert(t@.skip(0) =~= t@);
    occurs_at(&t, 0, &p)
}

/// Where no occurrence of `pattern` begins at `at`, the character there is kept
/// and the search goes on behind it.
proof fn lemma_without_keeps(text: Seq<char>, pattern: Seq<char>, at: int)
    requires
        pattern.len() > 0,
        0 <= at < text.len(),
        !pattern.is_prefix_of(text.skip(at)),
    ensures
        without(text.skip(at), pattern) == seq![text[at]] + without(text.skip(at + 1), pattern),
{
    assert(text.skip(at).skip(1) =~= text.skip(at + 1));
}

/// Where an occurrence of `pattern` begins at `at`, the search goes on behind it.
proof fn lemma_without_cuts(text: Seq<char>, pattern: Seq<char>, at: int)
    requires
        pattern.len() > 0,
        0 <= at <= text.len(),
        pattern.is_prefix_of(text.skip(at)),
    ensures
        at + pattern.len() <= text.len(),
        without(text.skip(at), pattern) == without(text.skip(at + pattern.len()), pattern),
{
    assert(text.skip(at).skip(pattern.len() as int) =~= text.skip(at + pattern.len()));
}

/// A copy of `text` from which every occurrence of `pattern` is removed.
pub fn remove_all(text: &str, pattern: &str) -> (r: String)
    requires
        pattern@.len() > 0,
    ensures
        r@ == without(text@, pattern@),
{
    let t = chars_of(text);
    let p = chars_of(pattern);
    let n: usize = p.len();
    let mut out = String::new();
    let mut from: usize = 0;
    let mut i: usize = 0;
    assert(t@.skip(0) =~= t@);
    assert(out@ + t@.subrange(0, 0) =~= Seq::<char>::empty());
    while i < t.len()
        invariant
            from <= i <= t.len(),
            t@ == text@,
            p@ == pattern@,
            n == p.len(),
            n > 0,
            without(text@, pattern@) == out@ + t@.subrange(from as int, i as int) + without(
                t@.skip(i as int),
                pattern@,
            ),
        decreases t.len() - i,
    {
        if occurs_at(&t, i, &p) {
            proof {
                lemma_without_cuts(t@, p@, i as int);
            }
            out.append(text.substring_char(from, i));
            i += n;
            from = i;
            assert(t@.subrange(from as int, i as int) =~= Seq::<char>::empty());
        } else {
            proof {
                lemma_without_keeps(t@, p@, i as int);
                assert(t@.subrange(from as int, i as int) + seq![t@[i as int]] =~= t@.subrange(
                    from as int,
                    i + 1,
                ));
            }
            i += 1;
        }
    }
    assert(t@.skip(t@.len() as int) =~= Seq::<char>::empty());
    out.append(text.substring_char(from, i));
    out
}

} // verus!
