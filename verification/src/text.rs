//! Small verified string utilities: equality, lexicographic order,
//! ASCII case-insensitive comparison, trimming, joining, membership.

use vstd::prelude::*;
use vstd::string::StrSliceExecFns;

verus! {

broadcast use vstd::utf8::char_is_scalar;

/// Character-by-character equality of two strings, written out so the
/// rest of the crate can reason about string comparisons exactly.
pub fn str_eq(a: &str, b: &str) -> (r: bool)
    ensures
        r == (a@ == b@),
{
    let la = a.unicode_len();
    let lb = b.unicode_len();
    if la != lb {
        assert(a@ != b@) by {
            assert(a@.len() != b@.len());
        }
        return false;
    }
    let mut i: usize = 0;
    while i < la
        invariant
            la == a@.len(),
            lb == b@.len(),
            la == lb,
            i <= la,
            forall|j: int| 0 <= j < i ==> a@[j] == b@[j],
        decreases la - i,
    {
        let ca = a.get_char(i);
        let cb = b.get_char(i);
        if ca != cb {
            return false;
        }
        i = i + 1;
    }
    assert(a@ =~= b@);
    true
}

/// Equality of two owned strings.
pub fn string_eq(a: &String, b: &String) -> (r: bool)
    ensures
        r == (a@ == b@),
{
    str_eq(a.as_str(), b.as_str())
}

/// Lexicographic "less than or equal" on character sequences, by code point.
pub open spec fn lex_leq(a: Seq<char>, b: Seq<char>) -> bool
    decreases a.len(),
{
    if a.len() == 0 {
        true
    } else if b.len() == 0 {
        false
    } else if a[0] == b[0] {
        lex_leq(a.skip(1), b.skip(1))
    } else {
        (a[0] as u32) < (b[0] as u32)
    }
}

/// The lexicographic order is total.
pub proof fn lemma_lex_leq_total(a: Seq<char>, b: Seq<char>)
    ensures
        lex_leq(a, b) || lex_leq(b, a),
    decreases a.len(),
{
    if a.len() == 0 || b.len() == 0 {
    } else if a[0] == b[0] {
        lemma_lex_leq_total(a.skip(1), b.skip(1));
    } else {
        assert(a[0] as u32 != b[0] as u32) by {
            vstd::utf8::char_u32_cast(a[0], a[0] as u32);
            vstd::utf8::char_u32_cast(b[0], b[0] as u32);
        }
    }
}

/// Decides `lex_leq` on two strings.
pub fn str_leq(a: &str, b: &str) -> (r: bool)
    ensures
        r == lex_leq(a@, b@),
{
    let la = a.unicode_len();
    let lb = b.unicode_len();
    let mut i: usize = 0;
    proof {
        assert(a@.skip(0) =~= a@);
        assert(b@.skip(0) =~= b@);
    }
    loop
        invariant
            la == a@.len(),
            lb == b@.len(),
            i <= la,
            i <= lb,
            lex_leq(a@, b@) == lex_leq(a@.skip(i as int), b@.skip(i as int)),
        decreases la - i,
    {
        if i >= la {
            return true;
        }
        if i >= lb {
            return false;
        }
        let ca = a.get_char(i);
        let cb = b.get_char(i);
        if ca != cb {
            return (ca as u32) < (cb as u32);
        }
        proof {
            assert(a@.skip(i as int).skip(1) =~= a@.skip(i + 1));
            assert(b@.skip(i as int).skip(1) =~= b@.skip(i + 1));
        }
        i = i + 1;
    }
}

/// Strict lexicographic order.
pub open spec fn lex_lt(a: Seq<char>, b: Seq<char>) -> bool {
    lex_leq(a, b) && a != b
}

/// The lexicographic order is antisymmetric.
pub proof fn lemma_lex_leq_antisym(a: Seq<char>, b: Seq<char>)
    requires
        lex_leq(a, b),
        lex_leq(b, a),
    ensures
        a == b,
    decreases a.len(),
{
    if a.len() == 0 {
        assert(b.len() == 0);
        assert(a =~= b);
    } else {
        assert(b.len() > 0);
        if a[0] == b[0] {
            lemma_lex_leq_antisym(a.skip(1), b.skip(1));
            assert(a =~= b) by {
                assert(a.skip(1).len() == a.len() - 1);
                assert(b.skip(1).len() == b.len() - 1);
                assert(a.len() == b.len());
                assert(forall|j: int| 1 <= j < a.len() ==> a[j] == a.skip(1)[j - 1]
                    && b[j] == b.skip(1)[j - 1]);
            }
        } else {
            assert((a[0] as u32) < (b[0] as u32) && (b[0] as u32) < (a[0] as u32));
        }
    }
}

/// The lexicographic order is transitive.
pub proof fn lemma_lex_leq_trans(a: Seq<char>, b: Seq<char>, c: Seq<char>)
    requires
        lex_leq(a, b),
        lex_leq(b, c),
    ensures
        lex_leq(a, c),
    decreases a.len(),
{
    if a.len() == 0 || c.len() == 0 {
        if a.len() > 0 {
            assert(b.len() > 0);
        }
    } else {
        assert(b.len() > 0);
        if a[0] == b[0] {
            if b[0] == c[0] {
                lemma_lex_leq_trans(a.skip(1), b.skip(1), c.skip(1));
            } else {
                assert((b[0] as u32) < (c[0] as u32));
                assert(a[0] as u32 != c[0] as u32) by {
                    vstd::utf8::char_u32_cast(a[0], a[0] as u32);
                    vstd::utf8::char_u32_cast(c[0], c[0] as u32);
                }
            }
        } else {
            assert((a[0] as u32) < (b[0] as u32));
            if b[0] == c[0] {
                assert(a[0] as u32 != c[0] as u32) by {
                    vstd::utf8::char_u32_cast(a[0], a[0] as u32);
                    vstd::utf8::char_u32_cast(c[0], c[0] as u32);
                }
            } else {
                assert((b[0] as u32) < (c[0] as u32));
                assert(a[0] as u32 != c[0] as u32) by {
                    vstd::utf8::char_u32_cast(a[0], a[0] as u32);
                    vstd::utf8::char_u32_cast(c[0], c[0] as u32);
                }
            }
        }
    }
}

/// The strict order is transitive.
pub proof fn lemma_lex_lt_trans(a: Seq<char>, b: Seq<char>, c: Seq<char>)
    requires
        lex_lt(a, b),
        lex_lt(b, c),
    ensures
        lex_lt(a, c),
{
    lemma_lex_leq_trans(a, b, c);
    if a == c {
        lemma_lex_leq_antisym(a, b);
    }
}

/// Decides `lex_lt` on two strings.
pub fn str_lt(a: &str, b: &str) -> (r: bool)
    ensures
        r == lex_lt(a@, b@),
{
    str_leq(a, b) && !str_eq(a, b)
}

/// Strictly ascending, hence duplicate-free, list of strings.
pub open spec fn str_sorted(s: Seq<Seq<char>>) -> bool {
    forall|i: int, j: int| 0 <= i < j < s.len() ==> lex_lt(#[trigger] s[i], #[trigger] s[j])
}

/// What `Seq::insert` does to membership.
pub proof fn lemma_insert_contains<A>(s: Seq<A>, j: int, x: A, k: A)
    requires
        0 <= j <= s.len(),
    ensures
        s.insert(j, x).contains(k) <==> (s.contains(k) || k == x),
{
    let s2 = s.insert(j, x);
    if s2.contains(k) {
        let i = choose|i: int| 0 <= i < s2.len() && s2[i] == k;
        if i < j {
            assert(s[i] == k);
        } else if i == j {
        } else {
            assert(s[i - 1] == k);
        }
    }
    if k == x {
        assert(s2[j] == k);
    }
    if s.contains(k) {
        let i = choose|i: int| 0 <= i < s.len() && s[i] == k;
        if i < j {
            assert(s2[i] == k);
        } else {
            assert(s2[i + 1] == k);
        }
    }
}

/// Inserts a string into a strictly sorted list, keeping it strictly
/// sorted; a string already present leaves the list unchanged.
pub fn insert_unique_sorted(v: &mut Vec<String>, s: &str)
    requires
        str_sorted(old(v).deep_view()),
    ensures
        str_sorted(final(v).deep_view()),
        old(v).deep_view().contains(s@) ==> final(v).deep_view() == old(v).deep_view(),
        !old(v).deep_view().contains(s@) ==> exists|j: int|
            0 <= j <= old(v).deep_view().len() && final(v).deep_view() == old(
                v,
            ).deep_view().insert(j, s@),
        forall|k: Seq<char>|
            final(v).deep_view().contains(k) <==> (old(v).deep_view().contains(k) || k == s@),
{
    let ghost dv = old(v).deep_view();
    let mut j: usize = 0;
    while j < v.len() && str_lt(v[j].as_str(), s)
        invariant
            dv == v.deep_view(),
            v@ == old(v)@,
            dv.len() == v.len(),
            j <= v.len(),
            str_sorted(dv),
            forall|m: int| 0 <= m < j ==> lex_lt(#[trigger] dv[m], s@),
        decreases v.len() - j,
    {
        assert(dv[j as int] == v@[j as int]@);
        j = j + 1;
    }
    assert(j < v.len() ==> !lex_lt(dv[j as int], s@));
    if j < v.len() && str_eq(v[j].as_str(), s) {
        // already present
        assert(dv[j as int] == s@);
        assert(dv.contains(s@));
        assert(forall|k: Seq<char>| dv.contains(k) ==> (dv.contains(k) || k == s@));
        return ;
    }
    proof {
        // s@ differs from every element: strictly below position j,
        // strictly above from position j on
        if j < dv.len() {
            assert(dv[j as int] != s@);
            assert(!lex_leq(dv[j as int], s@));
            lemma_lex_leq_total(dv[j as int], s@);
            assert(lex_lt(s@, dv[j as int]));
        }
        assert forall|m: int| 0 <= m < dv.len() implies dv[m] != s@ by {
            if m < j {
                assert(lex_lt(dv[m], s@));
            } else if m == j {
            } else {
                assert(lex_lt(dv[j as int], dv[m]));
                lemma_lex_lt_trans(s@, dv[j as int], dv[m]);
            }
        }
        assert(!dv.contains(s@));
    }
    v.insert(j, String::from_str(s));
    proof {
        let dv2 = v.deep_view();
        assert(dv2 =~= dv.insert(j as int, s@));
        assert forall|a: int, b: int| 0 <= a < b < dv2.len() implies lex_lt(
            #[trigger] dv2[a],
            #[trigger] dv2[b],
        ) by {
            if b < j {
                assert(dv2[a] == dv[a] && dv2[b] == dv[b]);
            } else if a < j && b == j {
                assert(dv2[a] == dv[a]);
                assert(lex_lt(dv[a], s@));
            } else if a < j && b > j {
                assert(dv2[a] == dv[a] && dv2[b] == dv[b - 1]);
            } else if a == j {
                assert(dv2[b] == dv[b - 1]);
                assert(lex_lt(s@, dv[j as int]));
                if b - 1 > j {
                    assert(lex_lt(dv[j as int], dv[b - 1]));
                    lemma_lex_lt_trans(s@, dv[j as int], dv[b - 1]);
                }
            } else {
                assert(dv2[a] == dv[a - 1] && dv2[b] == dv[b - 1]);
            }
        }
        assert forall|k: Seq<char>| #![all_triggers] dv2.contains(k) <==> (dv.contains(k) || k
            == s@) by {
            lemma_insert_contains(dv, j as int, s@, k);
        }
    }
}

/// The code-point value of a character with ASCII upper case folded to
/// lower case.
pub open spec fn lower_val(c: char) -> int {
    if 65 <= c as int && c as int <= 90 {
        c as int + 32
    } else {
        c as int
    }
}

/// Equality of two character sequences up to ASCII case.
pub open spec fn seq_eq_ci(a: Seq<char>, b: Seq<char>) -> bool {
    a.len() == b.len() && forall|i: int| 0 <= i < a.len() ==> lower_val(a[i]) == lower_val(b[i])
}

fn lower_u32(c: char) -> (r: u32)
    ensures
        r == lower_val(c),
{
    let v = c as u32;
    if 65 <= v && v <= 90 {
        v + 32
    } else {
        v
    }
}

/// Decides equality of two strings up to ASCII case.
pub fn str_eq_ci(a: &str, b: &str) -> (r: bool)
    ensures
        r == seq_eq_ci(a@, b@),
{
    let la = a.unicode_len();
    let lb = b.unicode_len();
    if la != lb {
        return false;
    }
    let mut i: usize = 0;
    while i < la
        invariant
            la == a@.len(),
            lb == b@.len(),
            la == lb,
            i <= la,
            forall|j: int| 0 <= j < i ==> lower_val(a@[j]) == lower_val(b@[j]),
        decreases la - i,
    {
        let ca = lower_u32(a.get_char(i));
        let cb = lower_u32(b.get_char(i));
        if ca != cb {
            return false;
        }
        i = i + 1;
    }
    true
}

/// Whitespace as far as trimming is concerned.
pub open spec fn is_wspace(c: char) -> bool {
    c == ' ' || c == '\t' || c == '\n' || c == '\r'
}

fn is_wspace_exec(c: char) -> (r: bool)
    ensures
        r == is_wspace(c),
{
    c == ' ' || c == '\t' || c == '\n' || c == '\r'
}

/// The sequence with leading whitespace removed.
pub open spec fn trim_front(s: Seq<char>) -> Seq<char>
    decreases s.len(),
{
    if s.len() > 0 && is_wspace(s[0]) {
        trim_front(s.skip(1))
    } else {
        s
    }
}

/// The sequence with trailing whitespace removed.
pub open spec fn trim_back(s: Seq<char>) -> Seq<char>
    decreases s.len(),
{
    if s.len() > 0 && is_wspace(s[s.len() - 1]) {
        trim_back(s.drop_last())
    } else {
        s
    }
}

/// The sequence with whitespace removed from both ends.
pub open spec fn trim_spec(s: Seq<char>) -> Seq<char> {
    trim_back(trim_front(s))
}

proof fn lemma_trim_front_skip(s: Seq<char>, i: int)
    requires
        0 <= i <= s.len(),
        forall|j: int| 0 <= j < i ==> is_wspace(s[j]),
    ensures
        trim_front(s) == trim_front(s.skip(i)),
    decreases i,
{
    if i > 0 {
        assert(is_wspace(s[0]));
        assert(s.skip(1).skip(i - 1) =~= s.skip(i));
        lemma_trim_front_skip(s.skip(1), i - 1);
    } else {
        assert(s.skip(0) =~= s);
    }
}

proof fn lemma_trim_back_take(s: Seq<char>, i: int)
    requires
        0 <= i <= s.len(),
        forall|j: int| i <= j < s.len() ==> is_wspace(s[j]),
    ensures
        trim_back(s) == trim_back(s.take(i)),
    decreases s.len() - i,
{
    if i < s.len() {
        assert(is_wspace(s[s.len() - 1]));
        assert(s.drop_last() =~= s.take(s.len() - 1));
        lemma_trim_back_take(s.take(s.len() - 1), i);
        assert(s.take(s.len() - 1).take(i) =~= s.take(i));
    } else {
        assert(s.take(i) =~= s);
    }
}

/// Removes leading and trailing whitespace from a string.
pub fn trim_str(s: &str) -> (r: String)
    ensures
        r@ == trim_spec(s@),
{
    let len = s.unicode_len();
    let mut start: usize = 0;
    while start < len && is_wspace_exec(s.get_char(start))
        invariant
            len == s@.len(),
            start <= len,
            forall|j: int| 0 <= j < start ==> is_wspace(s@[j]),
        decreases len - start,
    {
        start = start + 1;
    }
    proof {
        lemma_trim_front_skip(s@, start as int);
    }
    if start == len {
        proof {
            assert(s@.skip(start as int) =~= Seq::<char>::empty());
            assert(trim_back(Seq::<char>::empty()) =~= Seq::<char>::empty());
        }
        return String::new();
    }
    // s[start] is not whitespace, so trim_front(s@) == s@.skip(start)
    assert(trim_front(s@.skip(start as int)) == s@.skip(start as int));
    let mut end: usize = len;
    while end > start && is_wspace_exec(s.get_char(end - 1))
        invariant
            len == s@.len(),
            start <= end <= len,
            forall|j: int| end <= j < len ==> is_wspace(s@[j]),
        decreases end,
    {
        end = end - 1;
    }
    // s[end - 1] is not whitespace
    let sub = s.substring_char(start, end);
    proof {
        let mid = s@.skip(start as int);
        lemma_trim_back_take(mid, end - start);
        assert(mid.take(end - start) =~= s@.subrange(start as int, end as int));
        assert(end > start);
        assert(!is_wspace(s@[end - 1]));
        let t = mid.take(end - start);
        assert(t.len() == end - start);
        assert(t[t.len() - 1] == s@[end - 1]);
        assert(trim_back(t) == t);
    }
    String::from_str(sub)
}

/// Relies on String::push: appends exactly the given character.
#[verifier::external_body]
pub fn push_char(s: &mut String, c: char)
    ensures
        final(s)@ == old(s)@.push(c),
{
    s.push(c);
}

/// Inserts a character at a character position.
pub fn insert_char(s: &mut String, i: usize, c: char)
    requires
        i <= old(s)@.len(),
    ensures
        final(s)@ == old(s)@.insert(i as int, c),
{
    let len = s.unicode_len();
    let mut r = String::from_str(s.as_str().substring_char(0, i));
    push_char(&mut r, c);
    r.append(s.as_str().substring_char(i, len));
    proof {
        assert(r@ =~= s@.insert(i as int, c));
    }
    *s = r;
}

/// Removes and returns the character at a character position.
pub fn remove_char(s: &mut String, i: usize) -> (c: char)
    requires
        i < old(s)@.len(),
    ensures
        final(s)@ == old(s)@.remove(i as int),
        c == old(s)@[i as int],
{
    let len = s.unicode_len();
    let c = s.as_str().get_char(i);
    let mut r = String::from_str(s.as_str().substring_char(0, i));
    r.append(s.as_str().substring_char(i + 1, len));
    proof {
        assert(r@ =~= s@.remove(i as int));
    }
    *s = r;
    c
}

/// Removes the last character, if any.
pub fn pop_char(s: &mut String) -> (c: Option<char>)
    ensures
        old(s)@.len() == 0 ==> final(s)@ == old(s)@ && c is None,
        old(s)@.len() > 0 ==> final(s)@ == old(s)@.drop_last() && c == Some(old(s)@.last()),
{
    let len = s.unicode_len();
    if len == 0 {
        return None;
    }
    let c = remove_char(s, len - 1);
    proof {
        assert(s@ =~= old(s)@.drop_last());
    }
    Some(c)
}

/// The index of the last space strictly before position `n`, or -1.
pub open spec fn last_space_before(s: Seq<char>, n: int) -> int
    decreases n,
{
    if n <= 0 {
        -1
    } else if 0 <= n - 1 < s.len() && s[n - 1] == ' ' {
        n - 1
    } else {
        last_space_before(s, n - 1)
    }
}

/// Where deleting one word backward from position `n` lands: right after
/// the last space before the trailing whitespace, or at the start.
pub open spec fn spec_word_start(s: Seq<char>, n: int) -> int {
    last_space_before(s, trim_back(s.take(n)).len() as int) + 1
}

proof fn lemma_trim_back_len(s: Seq<char>, e: int)
    requires
        0 <= e <= s.len(),
        forall|j: int| e <= j < s.len() ==> is_wspace(s[j]),
        e > 0 ==> !is_wspace(s[e - 1]),
    ensures
        trim_back(s).len() == e,
{
    lemma_trim_back_take(s, e);
    assert(trim_back(s.take(e)) == s.take(e));
}

/// Finds the character position where a backward word deletion from
/// position `n` lands.
pub fn find_word_start(s: &str, n: usize) -> (k: usize)
    requires
        n <= s@.len(),
    ensures
        k == spec_word_start(s@, n as int),
        k <= n,
{
    let ghost sv = s@;
    let mut e: usize = n;
    while e > 0 && is_wspace_exec(s.get_char(e - 1))
        invariant
            e <= n <= sv.len(),
            sv == s@,
            forall|j: int| e <= j < n ==> is_wspace(sv[j]),
        decreases e,
    {
        e = e - 1;
    }
    proof {
        assert(sv.take(n as int).len() == n);
        assert(forall|j: int| e <= j < n ==> is_wspace(sv.take(n as int)[j]));
        assert(e > 0 ==> !is_wspace(sv.take(n as int)[e - 1]));
        lemma_trim_back_len(sv.take(n as int), e as int);
    }
    // e == trim_back(s.take(n)).len(); now find the last space before e
    let mut m: usize = e;
    while m > 0 && s.get_char(m - 1) != ' '
        invariant
            m <= e <= sv.len(),
            sv == s@,
            last_space_before(sv, e as int) == last_space_before(sv, m as int),
        decreases m,
    {
        m = m - 1;
    }
    if m == 0 {
        assert(last_space_before(sv, e as int) == -1);
        0
    } else {
        assert(sv[m - 1] == ' ');
        assert(last_space_before(sv, m as int) == m - 1);
        m
    }
}

/// The parts joined in order with the separator between neighbours.
pub open spec fn join_spec(parts: Seq<Seq<char>>, sep: Seq<char>) -> Seq<char>
    decreases parts.len(),
{
    if parts.len() == 0 {
        Seq::<char>::empty()
    } else if parts.len() == 1 {
        parts[0]
    } else {
        join_spec(parts.drop_last(), sep) + sep + parts.last()
    }
}

/// Joins strings with a separator.
pub fn join_with(parts: &Vec<String>, sep: &str) -> (r: String)
    ensures
        r@ == join_spec(parts.deep_view(), sep@),
{
    let mut acc = String::new();
    let mut i: usize = 0;
    while i < parts.len()
        invariant
            i <= parts.len(),
            acc@ == join_spec(parts.deep_view().take(i as int), sep@),
        decreases parts.len() - i,
    {
        if i > 0 {
            acc.append(sep);
        }
        acc.append(parts[i].as_str());
        proof {
            let dv = parts.deep_view();
            assert(dv.take(i + 1).drop_last() =~= dv.take(i as int));
            assert(dv.take(i + 1).last() == dv[i as int]);
        }
        i = i + 1;
    }
    proof {
        assert(parts.deep_view().take(parts.deep_view().len() as int) =~= parts.deep_view());
    }
    acc
}

/// Filtering by a predicate that holds everywhere changes nothing.
pub proof fn lemma_filter_all_true<A>(s: Seq<A>, pred: spec_fn(A) -> bool)
    requires
        forall|i: int| 0 <= i < s.len() ==> pred(#[trigger] s[i]),
    ensures
        s.filter(pred) == s,
    decreases s.len(),
{
    reveal(Seq::filter);
    if s.len() > 0 {
        assert(forall|i: int| 0 <= i < s.drop_last().len() ==> pred(#[trigger] s.drop_last()[i]));
        lemma_filter_all_true(s.drop_last(), pred);
        assert(s.drop_last().push(s.last()) =~= s);
    }
}

/// Filtering a strictly sorted string list keeps it strictly sorted.
pub proof fn lemma_filter_sorted(s: Seq<Seq<char>>, pred: spec_fn(Seq<char>) -> bool)
    requires
        str_sorted(s),
    ensures
        str_sorted(s.filter(pred)),
    decreases s.len(),
{
    broadcast use vstd::prelude::Seq::lemma_filter_contains_rev;

    reveal(Seq::filter);
    if s.len() > 0 {
        let s0 = s.drop_last();
        assert(str_sorted(s0)) by {
            assert(forall|i: int, j: int| 0 <= i < j < s0.len() ==> s0[i] == s[i] && s0[j] == s[j]);
        }
        lemma_filter_sorted(s0, pred);
        let f0 = s0.filter(pred);
        if pred(s.last()) {
            let f = f0.push(s.last());
            assert forall|a: int| 0 <= a < f0.len() implies lex_lt(f0[a], s.last()) by {
                assert(f0.contains(f0[a]));
                assert(s0.contains(f0[a]));
                let m = choose|m: int| 0 <= m < s0.len() && s0[m] == f0[a];
                assert(lex_lt(s[m], s[s.len() - 1]));
            }
            assert forall|a: int, b: int| 0 <= a < b < f.len() implies lex_lt(
                #[trigger] f[a],
                #[trigger] f[b],
            ) by {
                if b < f0.len() {
                    assert(lex_lt(f0[a], f0[b]));
                } else {
                    assert(f[b] == s.last());
                }
            }
        }
    }
}

/// One unfolding step of `Seq::filter` along a growing prefix.
pub proof fn lemma_filter_step<A>(s: Seq<A>, pred: spec_fn(A) -> bool, i: int)
    requires
        0 <= i < s.len(),
    ensures
        s.take(i + 1).filter(pred) == if pred(s[i]) {
            s.take(i).filter(pred).push(s[i])
        } else {
            s.take(i).filter(pred)
        },
{
    reveal(Seq::filter);
    assert(s.take(i + 1).drop_last() =~= s.take(i));
    assert(s.take(i + 1).last() == s[i]);
}

/// Keeping everything but one string: the predicate the removals filter by.
pub open spec fn neq_pred(t: Seq<char>) -> spec_fn(Seq<char>) -> bool {
    |x: Seq<char>| x != t
}

/// The list without every occurrence of the given string, order kept.
pub fn retain_not_equal(v: &Vec<String>, s: &str) -> (r: Vec<String>)
    ensures
        r.deep_view() == v.deep_view().filter(neq_pred(s@)),
{
    let ghost pred = neq_pred(s@);
    let mut out: Vec<String> = Vec::new();
    proof {
        assert(v.deep_view().take(0).filter(pred) =~= Seq::<Seq<char>>::empty());
        reveal(Seq::filter);
    }
    let mut i: usize = 0;
    while i < v.len()
        invariant
            i <= v.len(),
            v.deep_view().len() == v.len(),
            out.deep_view() == v.deep_view().take(i as int).filter(pred),
            pred == neq_pred(s@),
        decreases v.len() - i,
    {
        proof {
            lemma_filter_step(v.deep_view(), pred, i as int);
            assert(v.deep_view()[i as int] == v@[i as int]@);
        }
        if !str_eq(v[i].as_str(), s) {
            out.push(v[i].clone());
            proof {
                assert(out.deep_view() =~= v.deep_view().take(i + 1).filter(pred));
            }
        }
        i = i + 1;
    }
    proof {
        assert(v.deep_view().take(v.deep_view().len() as int) =~= v.deep_view());
    }
    out
}

/// Whether some element of the list equals the given string.
pub fn vec_contains_string(v: &Vec<String>, s: &str) -> (r: bool)
    ensures
        r == v.deep_view().contains(s@),
{
    let mut i: usize = 0;
    while i < v.len()
        invariant
            i <= v.len(),
            forall|j: int| 0 <= j < i ==> v.deep_view()[j] != s@,
        decreases v.len() - i,
    {
        if str_eq(v[i].as_str(), s) {
            assert(v.deep_view()[i as int] == s@);
            return true;
        }
        i = i + 1;
    }
    assert(forall|j: int| 0 <= j < v.deep_view().len() ==> v.deep_view()[j] != s@);
    false
}

} // verus!
