//! Keeping tracks and playlists ordered by name, the way `str::cmp` orders
//! the names.
use vstd::prelude::*;
use crate::text::chars_of;
use crate::track::{Playlist, Track};

verus! {

/// A value with a display name it is ordered by.
pub trait Named: Sized {
    /// The name.
    spec fn name_of(&self) -> Seq<char>;

    /// The name as a string slice.
    fn name_str(&self) -> (name: &str)
        ensures
            name@ == self.name_of(),
    ;

    /// An identical copy.
    fn duplicate(&self) -> (copy: Self)
        ensures
            copy == *self,
    ;
}

impl Named for Track {
    open spec fn name_of(&self) -> Seq<char> {
        self.name@
    }

    fn name_str(&self) -> (name: &str) {
        self.name.as_str()
    }

    fn duplicate(&self) -> (copy: Self) {
        self.clone()
    }
}

impl Named for Playlist {
    open spec fn name_of(&self) -> Seq<char> {
        self.name@
    }

    fn name_str(&self) -> (name: &str) {
        self.name.as_str()
    }

    fn duplicate(&self) -> (copy: Self) {
        self.clone()
    }
}

broadcast use vstd::seq_lib::to_multiset_insert;

/// `a <= b` in the lexicographic order of characters (which is the order
/// `str::cmp` gives, as UTF-8 preserves the order of code points).
pub open spec fn name_le(a: Seq<char>, b: Seq<char>) -> bool
    decreases a.len(),
{
    if a.len() == 0 {
        true
    } else if b.len() == 0 {
        false
    } else if a[0] != b[0] {
        (a[0] as int) < (b[0] as int)
    } else {
        name_le(a.drop_first(), b.drop_first())
    }
}

/// `a <= b` by name.
pub open spec fn track_le<T: Named>(a: T, b: T) -> bool {
    name_le(a.name_of(), b.name_of())
}

/// The tracks are in order of their names.
pub open spec fn sorted_by_name<T: Named>(s: Seq<T>) -> bool {
    forall|i: int, j: int| 0 <= i < j < s.len() ==> track_le(#[trigger] s[i], #[trigger] s[j])
}

/// Where `t` goes in the sorted `s`: after every track whose name is not
/// greater than its own.
pub open spec fn insert_position<T: Named>(s: Seq<T>, t: T) -> int
    decreases s.len(),
{
    if s.len() == 0 {
        0
    } else if track_le(s.last(), t) {
        s.len() as int
    } else {
        insert_position(s.drop_last(), t)
    }
}

/// `s` with `t` inserted after every track whose name is not greater.
pub open spec fn insert_by_name<T: Named>(s: Seq<T>, t: T) -> Seq<T> {
    s.insert(insert_position(s, t), t)
}

/// The tracks ordered by name; tracks of equal name keep their relative
/// order (a stable sort, as `sort_by` on the names).
pub open spec fn sort_by_name<T: Named>(s: Seq<T>) -> Seq<T>
    decreases s.len(),
{
    if s.len() == 0 {
        s
    } else {
        insert_by_name(sort_by_name(s.drop_last()), s.last())
    }
}

/// Names are ordered lexicographically by code point: when `a` and `b` agree
/// on their first `k` characters, `a` comes first if it ends there, `b` comes
/// first if it ends there and `a` does not, and otherwise the character at `k`
/// decides: `a <= b` iff `a[k]` has the smaller code point.
pub proof fn lemma_name_le_lexicographic(a: Seq<char>, b: Seq<char>, k: int)
    requires
        0 <= k <= a.len(),
        k <= b.len(),
        a.subrange(0, k) == b.subrange(0, k),
    ensures
        k == a.len() ==> name_le(a, b),
        k < a.len() && k == b.len() ==> !name_le(a, b),
        k < a.len() && k < b.len() && a[k] != b[k] ==> (name_le(a, b) <==> (a[k] as int) < (b[k] as int)),
    decreases k,
{
    if k > 0 {
        assert(a[0] == a.subrange(0, k)[0]);
        assert(b[0] == b.subrange(0, k)[0]);
        assert(a.drop_first().subrange(0, k - 1) =~= a.subrange(0, k).drop_first());
        assert(b.drop_first().subrange(0, k - 1) =~= b.subrange(0, k).drop_first());
        lemma_name_le_lexicographic(a.drop_first(), b.drop_first(), k - 1);
        if k < a.len() {
            assert(a.drop_first()[k - 1] == a[k]);
        }
        if k < b.len() {
            assert(b.drop_first()[k - 1] == b[k]);
        }
    }
}

/// The name order is total.
pub proof fn lemma_name_le_total(a: Seq<char>, b: Seq<char>)
    ensures
        name_le(a, b) || name_le(b, a),
    decreases a.len(),
{
    if a.len() > 0 && b.len() > 0 && a[0] == b[0] {
        lemma_name_le_total(a.drop_first(), b.drop_first());
    } else if a.len() > 0 && b.len() > 0 {
        assert((a[0] as int) != (b[0] as int));
    }
}

/// The name order is transitive.
pub proof fn lemma_name_le_transitive(a: Seq<char>, b: Seq<char>, c: Seq<char>)
    requires
        name_le(a, b),
        name_le(b, c),
    ensures
        name_le(a, c),
    decreases a.len(),
{
    if a.len() > 0 && b.len() > 0 && c.len() > 0 && a[0] == b[0] && b[0] == c[0] {
        lemma_name_le_transitive(a.drop_first(), b.drop_first(), c.drop_first());
    }
}

/// The name order is reflexive.
pub proof fn lemma_name_le_reflexive(a: Seq<char>)
    ensures
        name_le(a, a),
    decreases a.len(),
{
    if a.len() > 0 {
        lemma_name_le_reflexive(a.drop_first());
    }
}

/// In a sorted list, the insert position splits the tracks into those not
/// greater than `t` and those greater.
pub proof fn lemma_insert_position<T: Named>(s: Seq<T>, t: T)
    requires
        sorted_by_name(s),
    ensures
        0 <= insert_position(s, t) <= s.len(),
        forall|i: int| 0 <= i < insert_position(s, t) ==> track_le(#[trigger] s[i], t),
        forall|i: int| insert_position(s, t) <= i < s.len() ==> !track_le(#[trigger] s[i], t),
    decreases s.len(),
{
    if s.len() > 0 {
        if track_le(s.last(), t) {
            assert forall|i: int| 0 <= i < s.len() implies track_le(#[trigger] s[i], t) by {
                if i < s.len() - 1 {
                    assert(track_le(s[i], s[s.len() - 1]));
                    lemma_name_le_transitive(s[i].name_of(), s.last().name_of(), t.name_of());
                }
            }
        } else {
            let d = s.drop_last();
            assert(sorted_by_name(d)) by {
                assert forall|i: int, j: int| 0 <= i < j < d.len() implies track_le(
                    #[trigger] d[i],
                    #[trigger] d[j],
                ) by {
                    assert(d[i] == s[i] && d[j] == s[j]);
                }
            }
            lemma_insert_position(d, t);
            assert forall|i: int| insert_position(s, t) <= i < s.len() implies !track_le(
                #[trigger] s[i],
                t,
            ) by {
                if i < d.len() {
                    assert(d[i] == s[i]);
                }
            }
            assert forall|i: int| 0 <= i < insert_position(s, t) implies track_le(
                #[trigger] s[i],
                t,
            ) by {
                assert(d[i] == s[i]);
            }
        }
    }
}

/// Inserting at the insert position keeps the list sorted.
pub proof fn lemma_insert_by_name_sorted<T: Named>(s: Seq<T>, t: T)
    requires
        sorted_by_name(s),
    ensures
        sorted_by_name(insert_by_name(s, t)),
        insert_by_name(s, t).to_multiset() == s.to_multiset().insert(t),
        insert_by_name(s, t).len() == s.len() + 1,
{
    lemma_insert_position(s, t);
    let p = insert_position(s, t);
    let r = s.insert(p, t);
    assert forall|i: int, j: int| 0 <= i < j < r.len() implies track_le(#[trigger] r[i], #[trigger] r[j]) by {
        if j < p {
            assert(r[i] == s[i] && r[j] == s[j]);
        } else if j == p {
            assert(r[i] == s[i]);
        } else if i < p {
            assert(r[i] == s[i] && r[j] == s[j - 1]);
            assert(track_le(s[i], t));
            assert(!track_le(s[j - 1], t));
            lemma_name_le_total(s[j - 1].name_of(), t.name_of());
            lemma_name_le_transitive(s[i].name_of(), t.name_of(), s[j - 1].name_of());
        } else if i == p {
            assert(r[j] == s[j - 1]);
            lemma_name_le_total(s[j - 1].name_of(), t.name_of());
        } else {
            assert(r[i] == s[i - 1] && r[j] == s[j - 1]);
        }
    }
}

/// Sorting by name yields a sorted permutation of the tracks.
pub proof fn lemma_sort_by_name<T: Named>(s: Seq<T>)
    ensures
        sorted_by_name(sort_by_name(s)),
        sort_by_name(s).to_multiset() == s.to_multiset(),
        sort_by_name(s).len() == s.len(),
    decreases s.len(),
{
    if s.len() > 0 {
        lemma_sort_by_name(s.drop_last());
        lemma_insert_by_name_sorted(sort_by_name(s.drop_last()), s.last());
        assert(s =~= s.drop_last().push(s.last()));
        vstd::seq_lib::to_multiset_build(s.drop_last(), s.last());
    }
}

/// `a <= b` by name, on character vectors.
pub fn chars_le(a: &Vec<char>, b: &Vec<char>) -> (le: bool)
    ensures
        le == name_le(a@, b@),
{
    let mut i: usize = 0;
    assert(a@.skip(0) =~= a@);
    assert(b@.skip(0) =~= b@);
    while i < a.len() && i < b.len() && a[i] == b[i]
        invariant
            i <= a.len(),
            i <= b.len(),
            a@.take(i as int) == b@.take(i as int),
            name_le(a@, b@) == name_le(a@.skip(i as int), b@.skip(i as int)),
        decreases a.len() - i,
    {
        assert(a@.skip(i as int).drop_first() =~= a@.skip(i + 1));
        assert(b@.skip(i as int).drop_first() =~= b@.skip(i + 1));
        assert(a@.take(i + 1) =~= a@.take(i as int).push(a@[i as int]));
        assert(b@.take(i + 1) =~= b@.take(i as int).push(b@[i as int]));
        i = i + 1;
    }
    if i == a.len() {
        true
    } else if i == b.len() {
        false
    } else {
        a[i] < b[i]
    }
}

/// `a <= b` by name.
pub fn track_le_exec<T: Named>(a: &T, b: &T) -> (le: bool)
    ensures
        le == track_le(*a, *b),
{
    chars_le(&chars_of(a.name_str()), &chars_of(b.name_str()))
}

/// Inserts `t` into the sorted `v` after every track whose name is not greater
/// (binary search).
pub fn insert_sorted<T: Named>(v: &mut Vec<T>, t: T)
    requires
        sorted_by_name(old(v)@),
    ensures
        final(v)@ == insert_by_name(old(v)@, t),
        sorted_by_name(final(v)@),
{
    proof {
        lemma_insert_position(v@, t);
        lemma_insert_by_name_sorted(v@, t);
    }
    let ghost p = insert_position(v@, t);
    let mut lo: usize = 0;
    let mut hi: usize = v.len();
    while lo < hi
        invariant
            0 <= lo <= hi <= v.len(),
            lo <= p <= hi,
            forall|i: int| 0 <= i < p ==> track_le(#[trigger] v@[i], t),
            forall|i: int| p <= i < v@.len() ==> !track_le(#[trigger] v@[i], t),
        decreases hi - lo,
    {
        let mid = lo + (hi - lo) / 2;
        if track_le_exec(&v[mid], &t) {
            lo = mid + 1;
        } else {
            hi = mid;
        }
    }
    v.insert(lo, t);
}

/// The tracks ordered by name, stably.
pub fn sorted_tracks<T: Named>(tracks: Vec<T>) -> (sorted: Vec<T>)
    ensures
        sorted@ == sort_by_name(tracks@),
        sorted_by_name(sorted@),
        sorted@.to_multiset() == tracks@.to_multiset(),
{
    let mut sorted: Vec<T> = Vec::new();
    let ghost given = tracks@;
    let n = tracks.len();
    let mut k: usize = 0;
    while k < n
        invariant
            n == given.len(),
            tracks@ == given,
            k <= n,
            sorted@ == sort_by_name(given.take(k as int)),
            sorted_by_name(sorted@),
        decreases n - k,
    {
        let t = tracks[k].duplicate();
        proof {
            assert(given.take(k + 1).drop_last() =~= given.take(k as int));
            assert(given.take(k + 1).last() == given[k as int]);
        }
        insert_sorted(&mut sorted, t);
        k = k + 1;
    }
    proof {
        assert(given.take(n as int) =~= given);
        lemma_sort_by_name(given);
    }
    sorted
}

} // verus!
