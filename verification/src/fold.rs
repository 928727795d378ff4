//! The fold operations: single-character fold, string fold, case-insensitive
//! equality and case-insensitive prefix stripping, together with the laws
//! that hold of them.
use vstd::prelude::*;
use vstd::string::StrSliceExecFns;
use crate::table::TABLE_LEN;
use crate::table::pair_at;
use crate::table::pair_exec;
use crate::table::table;
use crate::table::upper_at;
use crate::table::lower_at;
use crate::table::gap_at;
use crate::table::lower_separated;
use crate::table::lemma_table_sorted;
use crate::table::lemma_table_gaps;
use crate::table::lemma_table_len;
use crate::table::lemma_table_first;

verus! {

/// Relies on String::push: appends the given character to the end of the string.
pub assume_specification[ String::push ](s: &mut String, c: char)
    ensures
        final(s)@ == old(s)@.push(c),
;


/// What the ASCII fast path does to one character: `A`-`Z` go to their
/// ASCII lower-case forms, every other ASCII character stays as it is.
pub open spec fn spec_ascii_fold(c: char) -> char {
    match c {
        'A' => 'a',
        'B' => 'b',
        'C' => 'c',
        'D' => 'd',
        'E' => 'e',
        'F' => 'f',
        'G' => 'g',
        'H' => 'h',
        'I' => 'i',
        'J' => 'j',
        'K' => 'k',
        'L' => 'l',
        'M' => 'm',
        'N' => 'n',
        'O' => 'o',
        'P' => 'p',
        'Q' => 'q',
        'R' => 'r',
        'S' => 's',
        'T' => 't',
        'U' => 'u',
        'V' => 'v',
        'W' => 'w',
        'X' => 'x',
        'Y' => 'y',
        'Z' => 'z',
        _ => c,
    }
}

fn ascii_fold(c: char) -> (r: char)
    ensures
        r == spec_ascii_fold(c),
{
    match c {
        'A' => 'a',
        'B' => 'b',
        'C' => 'c',
        'D' => 'd',
        'E' => 'e',
        'F' => 'f',
        'G' => 'g',
        'H' => 'h',
        'I' => 'i',
        'J' => 'j',
        'K' => 'k',
        'L' => 'l',
        'M' => 'm',
        'N' => 'n',
        'O' => 'o',
        'P' => 'p',
        'Q' => 'q',
        'R' => 'r',
        'S' => 's',
        'T' => 't',
        'U' => 'u',
        'V' => 'v',
        'W' => 'w',
        'X' => 'x',
        'Y' => 'y',
        'Z' => 'z',
        _ => c,
    }
}


/// The first entry of `s` at or after `i` whose upper equals `c`, if any.
pub open spec fn lookup_from(s: Seq<(char, char)>, c: char, i: int) -> Option<char>
    decreases s.len() - i,
{
    if i < 0 || i >= s.len() {
        None
    } else if s[i].0 == c {
        Some(s[i].1)
    } else {
        lookup_from(s, c, i + 1)
    }
}

/// The table's answer for `c`: the mapped lower-case character, or nothing.
pub open spec fn table_lookup(c: char) -> Option<char> {
    lookup_from(table(), c, 0)
}

/// One folded character: ASCII by the direct rule, everything else by the
/// table, and characters the table does not know pass through unchanged.
pub open spec fn spec_fold_char(c: char) -> char {
    if (c as u32) < 128 {
        spec_ascii_fold(c)
    } else {
        match table_lookup(c) {
            Some(l) => l,
            None => c,
        }
    }
}

/// A sequence folded pointwise, in order.
pub open spec fn spec_fold_seq(s: Seq<char>) -> Seq<char> {
    s.map_values(|c: char| spec_fold_char(c))
}

/// Two sequences are equal ignoring case when their folds coincide.
pub open spec fn spec_eq_ignore_case(a: Seq<char>, b: Seq<char>) -> bool {
    spec_fold_seq(a) == spec_fold_seq(b)
}

/// The remainder of `s` after a case-insensitively matching prefix `p`,
/// or nothing when the fold of `p` is not a prefix of the fold of `s`.
pub open spec fn spec_strip_prefix(s: Seq<char>, p: Seq<char>) -> Option<Seq<char>> {
    if p.len() <= s.len() && spec_fold_seq(s.take(p.len() as int)) == spec_fold_seq(p) {
        Some(s.skip(p.len() as int))
    } else {
        None
    }
}

proof fn lemma_lookup_none(s: Seq<(char, char)>, c: char, i: int)
    requires
        0 <= i <= s.len(),
        forall|j: int| i <= j < s.len() ==> (#[trigger] s[j]).0 != c,
    ensures
        lookup_from(s, c, i) is None,
    decreases s.len() - i,
{
    if i < s.len() {
        lemma_lookup_none(s, c, i + 1);
    }
}

proof fn lemma_lookup_hit(s: Seq<(char, char)>, c: char, i: int, j: int)
    requires
        0 <= i <= j < s.len(),
        s[j].0 == c,
        forall|k: int| i <= k < j ==> (#[trigger] s[k]).0 != c,
    ensures
        lookup_from(s, c, i) == Some(s[j].1),
    decreases j - i,
{
    if i < j {
        lemma_lookup_hit(s, c, i + 1, j);
    }
}

/// Any two entries of the table are in strictly ascending upper order.
pub proof fn lemma_table_ordered(i: int, j: int)
    requires
        0 <= i < j < 867,
    ensures
        (upper_at(i) as u32) < (upper_at(j) as u32),
    decreases j - i,
{
    lemma_table_sorted();
    if i + 1 < j {
        lemma_table_ordered(i + 1, j);
    }
}

/// No other entry shares the upper of entry `j`.
proof fn lemma_upper_unique(j: int)
    requires
        0 <= j < 867,
    ensures
        forall|k: int| 0 <= k < 867 && k != j ==> (#[trigger] upper_at(k)) != upper_at(j),
{
    assert forall|k: int| 0 <= k < 867 && k != j implies (#[trigger] upper_at(k)) != upper_at(j) by {
        if k < j {
            lemma_table_ordered(k, j);
        } else {
            lemma_table_ordered(j, k);
        }
    }
}

fn lookup_char(t: &Vec<(char, char)>, c: char) -> (r: Option<char>)
    requires
        t@ == table(),
    ensures
        r == table_lookup(c),
{
    proof {
        lemma_table_len();
    }
    let mut lo: usize = 0;
    let mut hi: usize = t.len();
    while lo < hi
        invariant
            t@ == table(),
            t@.len() == 867,
            lo <= hi <= 867,
            forall|j: int| 0 <= j < 867 && !(lo <= j < hi) ==> (#[trigger] upper_at(j)) != c,
        decreases hi - lo,
    {
        let mid = lo + (hi - lo) / 2;
        let p = t[mid];
        proof {
            assert(p.0 == upper_at(mid as int));
        }
        if p.0 == c {
            proof {
                assert forall|k: int| 0 <= k < mid implies (#[trigger] table()[k]).0 != c by {
                    lemma_table_ordered(k, mid as int);
                    assert(upper_at(k) != upper_at(mid as int));
                }
                lemma_lookup_hit(table(), c, 0, mid as int);
            }
            return Some(p.1);
        } else if (p.0 as u32) < (c as u32) {
            proof {
                assert forall|j: int| lo <= j <= mid implies (#[trigger] upper_at(j)) != c by {
                    if j < mid {
                        lemma_table_ordered(j, mid as int);
                    }
                    assert((upper_at(j) as u32) < (c as u32));
                }
            }
            lo = mid + 1;
        } else {
            proof {
                assert forall|j: int| mid <= j < hi implies (#[trigger] upper_at(j)) != c by {
                    if mid < j {
                        lemma_table_ordered(mid as int, j);
                        assert((upper_at(j) as u32) != (c as u32));
                    } else {
                        assert(upper_at(j) == p.0);
                    }
                }
            }
            hi = mid;
        }
    }
    proof {
        assert forall|j: int| 0 <= j < table().len() implies (#[trigger] table()[j]).0 != c by {
            assert(upper_at(j) != c);
        }
        lemma_lookup_none(table(), c, 0);
    }
    None
}

fn fold_char_with(t: &Vec<(char, char)>, c: char) -> (r: char)
    requires
        t@ == table(),
    ensures
        r == spec_fold_char(c),
{
    let cu = c as u32;
    if cu < 128 {
        ascii_fold(c)
    } else {
        match lookup_char(t, c) {
            Some(l) => l,
            None => c,
        }
    }
}

/// Case-fold one character to lower case under the legacy rule set.  A
/// character that is no upper-case character according to the mapping is
/// returned unchanged.
pub fn dbx_lowercase(c: char) -> (r: char)
    ensures
        r == spec_fold_char(c),
{
    let cu = c as u32;
    if cu < 128 {
        ascii_fold(c)
    } else {
        let t = map_pairs();
        match lookup_char(&t, c) {
            Some(l) => l,
            None => c,
        }
    }
}

/// Case-fold a string to lower case, character by character, in order.  The
/// number of characters never changes.
pub fn dbx_str_lowercase(s: &str) -> (r: String)
    ensures
        r@ == spec_fold_seq(s@),
        r@.len() == s@.len(),
{
    let t = map_pairs();
    let n = s.unicode_len();
    let mut out = String::new();
    let mut i: usize = 0;
    while i < n
        invariant
            t@ == table(),
            n == s@.len(),
            0 <= i <= n,
            out@ == spec_fold_seq(s@.take(i as int)),
        decreases n - i,
    {
        let c = s.get_char(i);
        let f = fold_char_with(&t, c);
        out.push(f);
        proof {
            assert(out@ =~= spec_fold_seq(s@.take(i as int + 1)));
        }
        i = i + 1;
    }
    proof {
        assert(s@.take(n as int) =~= s@);
    }
    out
}

/// Whether two strings are equal, ignoring case under the legacy rule set.
pub fn dbx_eq_ignore_case(a: &str, b: &str) -> (r: bool)
    ensures
        r == spec_eq_ignore_case(a@, b@),
{
    let na = a.unicode_len();
    let nb = b.unicode_len();
    if na != nb {
        proof {
            assert(spec_fold_seq(a@).len() != spec_fold_seq(b@).len());
        }
        return false;
    }
    let t = map_pairs();
    let mut i: usize = 0;
    while i < na
        invariant
            t@ == table(),
            na == a@.len(),
            nb == b@.len(),
            na == nb,
            0 <= i <= na,
            forall|j: int| 0 <= j < i ==> #[trigger] spec_fold_char(a@[j]) == spec_fold_char(b@[j]),
        decreases na - i,
    {
        let ca = a.get_char(i);
        let cb = b.get_char(i);
        let fa = fold_char_with(&t, ca);
        let fb = fold_char_with(&t, cb);
        if fa != fb {
            proof {
                assert(spec_fold_seq(a@)[i as int] != spec_fold_seq(b@)[i as int]);
            }
            return false;
        }
        i = i + 1;
    }
    proof {
        assert(spec_fold_seq(a@) =~= spec_fold_seq(b@));
    }
    true
}

/// Strip a case-insensitively matching prefix from `s`, returning the
/// remainder after the matched characters, or nothing when the folded
/// `prefix` is not a prefix of the folded `s`.  An empty prefix always
/// matches and leaves `s` unchanged.
pub fn dbx_strip_prefix_ignore_case<'a>(s: &'a str, prefix: &str) -> (r: Option<&'a str>)
    ensures
        match r {
            Some(rest) => spec_strip_prefix(s@, prefix@) == Some(rest@),
            None => spec_strip_prefix(s@, prefix@) is None,
        },
{
    let n = prefix.unicode_len();
    let m = s.unicode_len();
    if n > m {
        return None;
    }
    let t = map_pairs();
    let mut i: usize = 0;
    while i < n
        invariant
            t@ == table(),
            n == prefix@.len(),
            m == s@.len(),
            n <= m,
            0 <= i <= n,
            forall|j: int| 0 <= j < i ==> #[trigger] spec_fold_char(s@[j]) == spec_fold_char(prefix@[j]),
        decreases n - i,
    {
        let cs = s.get_char(i);
        let cp = prefix.get_char(i);
        let fs = fold_char_with(&t, cs);
        let fp = fold_char_with(&t, cp);
        if fs != fp {
            proof {
                let pl = n as int;
                assert(spec_fold_seq(s@.take(pl))[i as int] == spec_fold_char(s@[i as int]));
                assert(spec_fold_seq(prefix@)[i as int] == spec_fold_char(prefix@[i as int]));
                assert(spec_fold_seq(s@.take(pl)) != spec_fold_seq(prefix@));
            }
            return None;
        }
        i = i + 1;
    }
    let rest = s.substring_char(n, m);
    proof {
        assert(spec_fold_seq(s@.take(n as int)) =~= spec_fold_seq(prefix@));
        assert(rest@ =~= s@.skip(n as int));
    }
    Some(rest)
}

/// Law: folding any lower-case value of the table leaves it unchanged.
pub proof fn lemma_fold_fixes_table_lowers()
    ensures
        forall|i: int| 0 <= i < 867 ==> spec_fold_char(#[trigger] lower_at(i)) == lower_at(i),
{
    lemma_table_len();
    lemma_table_gaps();
    assert forall|i: int| 0 <= i < 867 implies spec_fold_char(#[trigger] lower_at(i)) == lower_at(i) by {
        assert(lower_separated(i));
        let l = lower_at(i);
        let b = gap_at(i);
        if (l as u32) < 128 {
            assert(spec_ascii_fold(l) == l);
        } else {
            assert forall|k: int| 0 <= k < table().len() implies (#[trigger] table()[k]).0 != l by {
                if 0 <= k <= b {
                    if k < b {
                        lemma_table_ordered(k, b);
                    }
                    assert((upper_at(k) as u32) < (l as u32));
                } else {
                    assert(b + 1 <= k);
                    if b + 1 < k {
                        lemma_table_ordered(b + 1, k);
                    }
                    assert((l as u32) < (upper_at(k) as u32));
                }
            }
            lemma_lookup_none(table(), l, 0);
        }
    }
}

/// Law: folding the upper of any table entry yields exactly its paired lower.
pub proof fn lemma_fold_maps_table_uppers()
    ensures
        forall|i: int| 0 <= i < 867 ==> spec_fold_char(#[trigger] upper_at(i)) == lower_at(i),
{
    lemma_table_len();
    lemma_table_first();
    assert forall|i: int| 0 <= i < 867 implies spec_fold_char(#[trigger] upper_at(i)) == lower_at(i) by {
        let u = upper_at(i);
        if 0 < i {
            lemma_table_ordered(0, i);
        }
        assert((u as u32) >= 192);
        lemma_upper_unique(i);
        assert forall|k: int| 0 <= k < i implies (#[trigger] table()[k]).0 != u by {
            assert(upper_at(k) != upper_at(i));
        }
        lemma_lookup_hit(table(), u, 0, i);
    }
}

/// Law: a character that is no upper of the table and no ASCII capital
/// letter folds to itself.
pub proof fn lemma_fold_identity_outside_table(c: char)
    requires
        !(65 <= (c as u32) <= 90),
        forall|i: int| 0 <= i < 867 ==> (#[trigger] upper_at(i)) != c,
    ensures
        spec_fold_char(c) == c,
{
    lemma_table_len();
    if (c as u32) >= 128 {
        assert forall|k: int| 0 <= k < table().len() implies (#[trigger] table()[k]).0 != c by {
            assert(upper_at(k) != c);
        }
        lemma_lookup_none(table(), c, 0);
    }
}

/// Law: folding preserves the number of characters of any sequence.
pub proof fn lemma_fold_preserves_len(s: Seq<char>)
    ensures
        spec_fold_seq(s).len() == s.len(),
{
}

/// Law: equality ignoring case is reflexive, the empty sequence included.
pub proof fn lemma_eq_ignore_case_reflexive(x: Seq<char>)
    ensures
        spec_eq_ignore_case(x, x),
{
}

/// Law: equality ignoring case is symmetric.
pub proof fn lemma_eq_ignore_case_symmetric(a: Seq<char>, b: Seq<char>)
    ensures
        spec_eq_ignore_case(a, b) == spec_eq_ignore_case(b, a),
{
}

/// Law: stripping the empty prefix always succeeds and returns the string
/// unchanged.
pub proof fn lemma_strip_prefix_empty(s: Seq<char>)
    ensures
        spec_strip_prefix(s, Seq::<char>::empty()) == Some(s),
{
    assert(s.take(0) =~= Seq::<char>::empty());
    assert(s.skip(0) =~= s);
}

/// Law: a prefix with more characters than the string itself never matches.
pub proof fn lemma_strip_prefix_longer(s: Seq<char>, p: Seq<char>)
    requires
        p.len() > s.len(),
    ensures
        spec_strip_prefix(s, p) is None,
{
}


/// The mapping table itself, as upper/lower pairs in ascending upper order,
/// for introspection and testing.
pub fn map_pairs() -> (v: Vec<(char, char)>)
    ensures
        v@ == table(),
        v@.len() == TABLE_LEN,
{
    let mut v: Vec<(char, char)> = Vec::new();
    let mut i: usize = 0;
    while i < TABLE_LEN
        invariant
            0 <= i <= 867,
            v@.len() == i,
            forall|j: int| 0 <= j < i ==> v@[j] == pair_at(j),
        decreases 867 - i,
    {
        let p = pair_exec(i);
        v.push(p);
        i = i + 1;
    }
    proof {
        lemma_table_len();
        assert(v@ =~= table());
    }
    v
}

} // verus!
