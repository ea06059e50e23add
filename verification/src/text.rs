//! Text as sequences of characters: the string operations that the drivers
//! share, each with the sequence it computes.
use vstd::prelude::*;

verus! {

/// `String::push` appends one character.
pub assume_specification[ String::push ](s: &mut String, c: char)
    ensures
        final(s)@ == old(s)@.push(c),
;

/// `String::push_str` appends a string slice.
pub assume_specification[ String::push_str ](s: &mut String, t: &str)
    ensures
        final(s)@ == old(s)@ + t@,
;

/// Equality of string slices compares their characters.
pub assume_specification[ <str as PartialEq>::eq ](a: &str, b: &str) -> (r: bool)
    ensures
        r == (a@ == b@),
;

/// Whether two strings hold the same characters.
pub fn same(a: &str, b: &str) -> (r: bool)
    ensures
        r == (a@ == b@),
{
    *a == *b
}

/// The characters of a string.
pub fn chars_of(s: &str) -> (r: Vec<char>)
    ensures
        r@ == s@,
{
    let mut out: Vec<char> = Vec::new();
    for c in it: s.chars()
        invariant
            out@ == s@.take(it.index()),
            it.seq() == s@,
    {
        out.push(c);
    }
    out
}

/// The string made of the characters from `from` up to `to`.
pub fn slice_string(chars: &Vec<char>, from: usize, to: usize) -> (r: String)
    requires
        from <= to <= chars@.len(),
    ensures
        r@ == chars@.subrange(from as int, to as int),
{
    let mut out = String::new();
    let mut i: usize = from;
    while i < to
        invariant
            from <= i <= to <= chars@.len(),
            out@ == chars@.subrange(from as int, i as int),
        decreases to - i,
    {
        out.push(chars[i]);
        i = i + 1;
        assert(out@ =~= chars@.subrange(from as int, i as int));
    }
    out
}

/// The string made of all the characters.
pub fn string_of(chars: &Vec<char>) -> (r: String)
    ensures
        r@ == chars@,
{
    let r = slice_string(chars, 0, chars.len());
    assert(chars@.subrange(0, chars@.len() as int) =~= chars@);
    r
}

// ---------------------------------------------------------------------------
// Whitespace
// ---------------------------------------------------------------------------

/// Unicode White_Space.
pub open spec fn is_space(c: char) -> bool {
    let n = c as u32;
    9 <= n <= 13 || n == 0x20 || n == 0x85 || n == 0xa0 || n == 0x1680 || 0x2000 <= n <= 0x200a || n
        == 0x2028 || n == 0x2029 || n == 0x202f || n == 0x205f || n == 0x3000
}

pub fn space(c: char) -> (r: bool)
    ensures
        r == is_space(c),
{
    let n: u32 = c as u32;
    (9 <= n && n <= 13) || n == 0x20 || n == 0x85 || n == 0xa0 || n == 0x1680 || (0x2000 <= n && n
        <= 0x200a) || n == 0x2028 || n == 0x2029 || n == 0x202f || n == 0x205f || n == 0x3000
}

/// The text without leading whitespace.
pub open spec fn trim_start(s: Seq<char>) -> Seq<char>
    decreases s.len(),
{
    if s.len() > 0 && is_space(s[0]) {
        trim_start(s.drop_first())
    } else {
        s
    }
}

/// The text without trailing whitespace.
pub open spec fn trim_end(s: Seq<char>) -> Seq<char>
    decreases s.len(),
{
    if s.len() > 0 && is_space(s.last()) {
        trim_end(s.drop_last())
    } else {
        s
    }
}

/// The text without leading and trailing whitespace.
pub open spec fn trim(s: Seq<char>) -> Seq<char> {
    trim_end(trim_start(s))
}

/// No whitespace at either end.
pub open spec fn is_trimmed(s: Seq<char>) -> bool {
    s.len() > 0 ==> !is_space(s[0]) && !is_space(s.last())
}

proof fn lemma_trim_end_prefix(s: Seq<char>)
    ensures
        trim_end(s).len() <= s.len(),
        trim_end(s) == s.take(trim_end(s).len() as int),
        trim_end(s).len() > 0 ==> !is_space(trim_end(s).last()),
        forall|i: int| trim_end(s).len() <= i < s.len() ==> is_space(s[i]),
    decreases s.len(),
{
    if s.len() > 0 && is_space(s.last()) {
        lemma_trim_end_prefix(s.drop_last());
        assert forall|i: int| trim_end(s).len() <= i < s.len() implies is_space(s[i]) by {
            if i < s.len() - 1 {
                assert(s.drop_last()[i] == s[i]);
            }
        }
        assert(trim_end(s) =~= s.take(trim_end(s).len() as int));
    } else {
        assert(s =~= s.take(s.len() as int));
    }
}

proof fn lemma_trim_start_suffix(s: Seq<char>)
    ensures
        trim_start(s).len() <= s.len(),
        trim_start(s) == s.skip(s.len() - trim_start(s).len()),
        trim_start(s).len() > 0 ==> !is_space(trim_start(s)[0]),
        forall|i: int| 0 <= i < s.len() - trim_start(s).len() ==> is_space(s[i]),
    decreases s.len(),
{
    if s.len() > 0 && is_space(s[0]) {
        lemma_trim_start_suffix(s.drop_first());
        assert forall|i: int| 0 <= i < s.len() - trim_start(s).len() implies is_space(s[i]) by {
            if i > 0 {
                assert(s.drop_first()[i - 1] == s[i]);
            }
        }
        assert(trim_start(s) =~= s.skip(s.len() - trim_start(s).len()));
    } else {
        assert(s =~= s.skip(0));
    }
}

/// Trimming takes whitespace off both ends and nothing else: what is left is a
/// stretch of the text that has no whitespace at its ends.
pub proof fn law_trim(s: Seq<char>)
    ensures
        is_trimmed(trim(s)),
        exists|a: int, b: int|
            #![trigger s.subrange(a, b)]
            0 <= a <= b <= s.len() && trim(s) == s.subrange(a, b) && (forall|i: int|
                0 <= i < s.len() && (i < a || b <= i) ==> is_space(#[trigger] s[i])),
{
    let t = trim_start(s);
    lemma_trim_start_suffix(s);
    lemma_trim_end_prefix(t);
    let a = s.len() - t.len();
    let b = a + trim(s).len();
    assert(trim(s) =~= s.subrange(a, b));
    assert forall|i: int| 0 <= i < s.len() && (i < a || b <= i) implies is_space(
        #[trigger] s[i],
    ) by {
        if b <= i {
            assert(t[i - a] == s[i]);
        }
    }
    if trim(s).len() > 0 {
        assert(trim(s)[0] == t[0]);
    }
}

/// Trimming does not lengthen a text.
pub proof fn lemma_trim_len(s: Seq<char>)
    ensures
        trim(s).len() <= s.len(),
{
    lemma_trim_start_suffix(s);
    lemma_trim_end_prefix(trim_start(s));
}

/// Text without whitespace at its ends is its own trimming.
pub proof fn law_trim_fixed(s: Seq<char>)
    requires
        is_trimmed(s),
    ensures
        trim(s) == s,
{
}

/// The bounds of the trimmed text within `chars`.
pub fn trim_bounds(chars: &Vec<char>) -> (r: (usize, usize))
    ensures
        r.0 <= r.1 <= chars@.len(),
        chars@.subrange(r.0 as int, r.1 as int) == trim(chars@),
{
    let n: usize = chars.len();
    let mut a: usize = 0;
    assert(chars@.skip(0) =~= chars@);
    while a < n && space(chars[a])
        invariant
            a <= n == chars@.len(),
            trim_start(chars@.skip(a as int)) == trim_start(chars@),
        decreases n - a,
    {
        assert(chars@.skip(a as int).drop_first() =~= chars@.skip(a + 1));
        a = a + 1;
    }
    let ghost t = chars@.skip(a as int);
    assert(trim_start(t) == t);
    let mut b: usize = n;
    assert(t.take(t.len() as int) =~= t);
    while b > a && space(chars[b - 1])
        invariant
            a <= b <= n == chars@.len(),
            t == chars@.skip(a as int),
            trim_end(t.take(b - a)) == trim_end(t),
        decreases b - a,
    {
        assert(t.take(b - a).last() == chars@[b - 1]);
        assert(t.take(b - a).drop_last() =~= t.take(b - a - 1));
        b = b - 1;
    }
    proof {
        if b > a {
            assert(t.take(b - a).last() == chars@[b - 1]);
        }
        assert(chars@.subrange(a as int, b as int) =~= t.take(b - a));
    }
    (a, b)
}

/// The end of the text without trailing whitespace.
pub fn trim_end_bound(chars: &Vec<char>) -> (r: usize)
    ensures
        r <= chars@.len(),
        chars@.subrange(0, r as int) == trim_end(chars@),
{
    let mut b: usize = chars.len();
    assert(chars@.take(b as int) =~= chars@);
    while b > 0 && space(chars[b - 1])
        invariant
            b <= chars@.len(),
            trim_end(chars@.take(b as int)) == trim_end(chars@),
        decreases b,
    {
        assert(chars@.take(b as int).last() == chars@[b - 1]);
        assert(chars@.take(b as int).drop_last() =~= chars@.take(b - 1));
        b = b - 1;
    }
    proof {
        if b > 0 {
            assert(chars@.take(b as int).last() == chars@[b - 1]);
        }
        assert(chars@.subrange(0, b as int) =~= chars@.take(b as int));
    }
    b
}

/// A string without leading and trailing whitespace.
pub fn trimmed(s: &str) -> (r: String)
    ensures
        r@ == trim(s@),
{
    let chars = chars_of(s);
    let (a, b) = trim_bounds(&chars);
    slice_string(&chars, a, b)
}

// ---------------------------------------------------------------------------
// Order
// ---------------------------------------------------------------------------

/// Whether `a` comes before `b` in the order of texts: by the first character in
/// which they differ, a shorter text before its continuations.
pub open spec fn precedes(a: Seq<char>, b: Seq<char>) -> bool
    decreases b.len(),
{
    b.len() > 0 && (a.len() == 0 || a[0] < b[0] || (a[0] == b[0] && precedes(
        a.drop_first(),
        b.drop_first(),
    )))
}

proof fn lemma_not_before_itself(a: Seq<char>)
    ensures
        !precedes(a, a),
    decreases a.len(),
{
    if a.len() > 0 {
        lemma_not_before_itself(a.drop_first());
    }
}

/// The order of texts is strict and total.
pub proof fn law_order_total(a: Seq<char>, b: Seq<char>)
    ensures
        precedes(a, b) || precedes(b, a) || a == b,
        !(precedes(a, b) && precedes(b, a)),
        !precedes(a, a),
    decreases a.len() + b.len(),
{
    lemma_not_before_itself(a);
    if a.len() > 0 && b.len() > 0 {
        law_order_total(a.drop_first(), b.drop_first());
        if a[0] == b[0] && a.drop_first() == b.drop_first() {
            assert(a =~= seq![a[0]] + a.drop_first());
            assert(b =~= seq![b[0]] + b.drop_first());
        }
    }
    if a.len() == 0 && b.len() == 0 {
        assert(a =~= b);
    }
}

/// The order of texts is transitive.
pub proof fn law_order_transitive(a: Seq<char>, b: Seq<char>, c: Seq<char>)
    requires
        precedes(a, b),
        precedes(b, c),
    ensures
        precedes(a, c),
    decreases a.len(),
{
    if a.len() > 0 && a[0] == b[0] && b[0] == c[0] {
        law_order_transitive(a.drop_first(), b.drop_first(), c.drop_first());
    }
}

/// Whether `a` comes before `b` in the order of texts.
pub fn is_before(a: &str, b: &str) -> (r: bool)
    ensures
        r == precedes(a@, b@),
{
    let ac = chars_of(a);
    let bc = chars_of(b);
    let mut i: usize = 0;
    assert(a@.skip(0) =~= a@);
    assert(b@.skip(0) =~= b@);
    while i < ac.len() && i < bc.len()
        invariant
            i <= ac@.len(),
            i <= bc@.len(),
            ac@ == a@,
            bc@ == b@,
            precedes(a@, b@) == precedes(a@.skip(i as int), b@.skip(i as int)),
        decreases ac@.len() - i,
    {
        let ghost ra = a@.skip(i as int);
        let ghost rb = b@.skip(i as int);
        assert(ra.drop_first() =~= a@.skip(i + 1));
        assert(rb.drop_first() =~= b@.skip(i + 1));
        assert(ra[0] == ac@[i as int]);
        assert(rb[0] == bc@[i as int]);
        if ac[i] < bc[i] {
            return true;
        }
        if bc[i] < ac[i] {
            return false;
        }
        i = i + 1;
    }
    i < bc.len()
}

// ---------------------------------------------------------------------------
// Searching and replacing
// ---------------------------------------------------------------------------

/// Whether `pat` stands in `s` at position `i`.
pub open spec fn occurs_at(s: Seq<char>, pat: Seq<char>, i: int) -> bool {
    0 <= i && i + pat.len() <= s.len() && s.subrange(i, i + pat.len()) == pat
}

/// Whether `s` begins with `pat`.
pub open spec fn has_prefix(s: Seq<char>, pat: Seq<char>) -> bool {
    occurs_at(s, pat, 0)
}

/// Whether `s` ends with `pat`.
pub open spec fn has_suffix(s: Seq<char>, pat: Seq<char>) -> bool {
    occurs_at(s, pat, s.len() - pat.len())
}

/// The first position from `i` on at which `pat` stands in `s`.
pub open spec fn find_from(s: Seq<char>, pat: Seq<char>, i: int) -> Option<int>
    decreases s.len() + 1 - i,
{
    if i < 0 || i + pat.len() > s.len() {
        None
    } else if occurs_at(s, pat, i) {
        Some(i)
    } else {
        find_from(s, pat, i + 1)
    }
}

/// Whether `pat` stands anywhere in `s`.
pub open spec fn holds(s: Seq<char>, pat: Seq<char>) -> bool {
    exists|i: int| occurs_at(s, pat, i)
}

/// The text from position `i` on, with each occurrence of `pat` replaced by
/// `rep`, from left to right, without overlaps.
pub open spec fn replace_from(s: Seq<char>, pat: Seq<char>, rep: Seq<char>, i: int) -> Seq<char>
    decreases s.len() - i,
{
    if i < 0 || i >= s.len() {
        Seq::empty()
    } else if pat.len() > 0 && occurs_at(s, pat, i) {
        rep + replace_from(s, pat, rep, i + pat.len())
    } else {
        seq![s[i]] + replace_from(s, pat, rep, i + 1)
    }
}

/// The text with each occurrence of `pat` replaced by `rep`.
pub open spec fn replace(s: Seq<char>, pat: Seq<char>, rep: Seq<char>) -> Seq<char> {
    replace_from(s, pat, rep, 0)
}

/// Text in which a pattern does not occur is left as it is by a replacement.
pub proof fn law_replace_absent(s: Seq<char>, pat: Seq<char>, rep: Seq<char>)
    requires
        !holds(s, pat),
    ensures
        replace(s, pat, rep) == s,
{
    lemma_replace_absent_from(s, pat, rep, 0);
    assert(s.skip(0) =~= s);
}

/// The text with each `q` in it written twice.
pub open spec fn doubled(s: Seq<char>, q: char) -> Seq<char>
    decreases s.len(),
{
    if s.len() == 0 {
        Seq::empty()
    } else if s[0] == q {
        seq![q, q] + doubled(s.skip(1), q)
    } else {
        seq![s[0]] + doubled(s.skip(1), q)
    }
}

proof fn lemma_doubled_from(s: Seq<char>, q: char, i: int)
    requires
        0 <= i <= s.len(),
    ensures
        replace_from(s, seq![q], seq![q, q], i) == doubled(s.skip(i), q),
    decreases s.len() - i,
{
    if i < s.len() {
        lemma_doubled_from(s, q, i + 1);
        assert(s.skip(i).skip(1) =~= s.skip(i + 1));
        assert(s.subrange(i, i + 1) =~= seq![s[i]]);
        assert(seq![s[i]][0] == s[i]);
        assert(seq![q][0] == q);
    }
}

proof fn lemma_halved_from(before: Seq<char>, s: Seq<char>, q: char)
    ensures
        replace_from(before + doubled(s, q), seq![q, q], seq![q], before.len() as int) == s,
    decreases s.len(),
{
    let t = before + doubled(s, q);
    let n = before.len() as int;
    if s.len() == 0 {
        assert(replace_from(t, seq![q, q], seq![q], n) =~= s);
    } else if s[0] == q {
        let next = before + seq![q, q];
        assert(next + doubled(s.skip(1), q) =~= t);
        lemma_halved_from(next, s.skip(1), q);
        assert(t.subrange(n, n + 2) =~= seq![q, q]);
        assert(seq![q] + s.skip(1) =~= s);
    } else {
        let next = before + seq![s[0]];
        assert(next + doubled(s.skip(1), q) =~= t);
        lemma_halved_from(next, s.skip(1), q);
        assert(t[n] == s[0]);
        assert(!occurs_at(t, seq![q, q], n)) by {
            if occurs_at(t, seq![q, q], n) {
                assert(t.subrange(n, n + 2)[0] == t[n]);
                assert(seq![q, q][0] == q);
            }
        }
        assert(seq![s[0]] + s.skip(1) =~= s);
    }
}

/// Doubling a character can be undone: replacing each pair by one gives the text
/// back.
pub proof fn law_doubling_undone(s: Seq<char>, q: char)
    ensures
        replace(s, seq![q], seq![q, q]) == doubled(s, q),
        replace(replace(s, seq![q], seq![q, q]), seq![q, q], seq![q]) == s,
{
    lemma_doubled_from(s, q, 0);
    assert(s.skip(0) =~= s);
    lemma_halved_from(Seq::empty(), s, q);
    assert(Seq::<char>::empty() + doubled(s, q) =~= doubled(s, q));
}

proof fn lemma_replace_absent_from(s: Seq<char>, pat: Seq<char>, rep: Seq<char>, i: int)
    requires
        !holds(s, pat),
        0 <= i <= s.len(),
    ensures
        replace_from(s, pat, rep, i) == s.skip(i),
    decreases s.len() - i,
{
    if i < s.len() {
        assert(!occurs_at(s, pat, i));
        lemma_replace_absent_from(s, pat, rep, i + 1);
    }
    assert(replace_from(s, pat, rep, i) =~= s.skip(i));
}

/// Whether `pat` stands in `s` at position `i`.
pub fn matches_at(s: &Vec<char>, pat: &Vec<char>, i: usize) -> (r: bool)
    requires
        i <= s@.len(),
    ensures
        r == occurs_at(s@, pat@, i as int),
{
    let n: usize = pat.len();
    if n > s.len() - i {
        return false;
    }
    let mut k: usize = 0;
    while k < n
        invariant
            k <= n == pat@.len(),
            i + n <= s.len(),
            forall|j: int| 0 <= j < k ==> s@[i + j] == pat@[j],
        decreases n - k,
    {
        if s[i + k] != pat[k] {
            assert(s@.subrange(i as int, i + n)[k as int] != pat@[k as int]);
            return false;
        }
        k = k + 1;
    }
    assert(s@.subrange(i as int, i + n) =~= pat@);
    true
}

/// Whether `s` begins with `pat`.
pub fn starts_with(s: &str, pat: &str) -> (r: bool)
    ensures
        r == has_prefix(s@, pat@),
{
    matches_at(&chars_of(s), &chars_of(pat), 0)
}

/// Whether `s` ends with `pat`.
pub fn ends_with(s: &str, pat: &str) -> (r: bool)
    ensures
        r == has_suffix(s@, pat@),
{
    let sc = chars_of(s);
    let pc = chars_of(pat);
    if pc.len() > sc.len() {
        return false;
    }
    matches_at(&sc, &pc, sc.len() - pc.len())
}

/// The rest of `s` behind `pat`, where `s` begins with it.
pub fn strip_prefix(s: &str, pat: &str) -> (r: Option<String>)
    ensures
        match r {
            Some(t) => has_prefix(s@, pat@) && t@ == s@.skip(pat@.len() as int),
            None => !has_prefix(s@, pat@),
        },
{
    let sc = chars_of(s);
    let pc = chars_of(pat);
    if matches_at(&sc, &pc, 0) {
        let t = slice_string(&sc, pc.len(), sc.len());
        assert(t@ =~= s@.skip(pat@.len() as int));
        Some(t)
    } else {
        None
    }
}

proof fn lemma_find_has(s: Seq<char>, pat: Seq<char>, i: int)
    requires
        0 <= i,
    ensures
        find_from(s, pat, i) matches Some(k) ==> i <= k && occurs_at(s, pat, k),
        find_from(s, pat, i) is None ==> forall|k: int| i <= k ==> !occurs_at(s, pat, k),
    decreases s.len() + 1 - i,
{
    if i + pat.len() <= s.len() && !occurs_at(s, pat, i) {
        lemma_find_has(s, pat, i + 1);
    }
}

/// The first position of `pat` in `s`.
pub fn find(s: &Vec<char>, pat: &Vec<char>) -> (r: Option<usize>)
    ensures
        match r {
            Some(k) => find_from(s@, pat@, 0) == Some(k as int) && k + pat@.len() <= s@.len(),
            None => find_from(s@, pat@, 0) is None,
        },
{
    if pat.len() > s.len() {
        return None;
    }
    let last: usize = s.len() - pat.len();
    let mut i: usize = 0;
    while i <= last
        invariant
            i <= last + 1,
            last + pat@.len() == s@.len(),
            find_from(s@, pat@, 0) == find_from(s@, pat@, i as int),
        decreases last + 1 - i,
    {
        if matches_at(s, pat, i) {
            return Some(i);
        }
        if i == last {
            assert(find_from(s@, pat@, i + 1) is None);
            return None;
        }
        i = i + 1;
    }
    None
}

/// Whether `pat` stands anywhere in `s`.
pub fn contains(s: &str, pat: &str) -> (r: bool)
    ensures
        r == holds(s@, pat@),
{
    proof {
        lemma_find_has(s@, pat@, 0);
    }
    find(&chars_of(s), &chars_of(pat)).is_some()
}

/// The text with each occurrence of `pat` replaced by `rep`.
pub fn replaced(s: &str, pat: &str, rep: &str) -> (r: String)
    requires
        pat@.len() > 0,
    ensures
        r@ == replace(s@, pat@, rep@),
{
    let sc = chars_of(s);
    let pc = chars_of(pat);
    let mut out = String::new();
    let mut i: usize = 0;
    while i < sc.len()
        invariant
            i <= sc@.len(),
            sc@ == s@,
            pc@ == pat@,
            pat@.len() > 0,
            out@ + replace_from(s@, pat@, rep@, i as int) == replace(s@, pat@, rep@),
        decreases sc@.len() - i,
    {
        if matches_at(&sc, &pc, i) {
            assert(out@ + (rep@ + replace_from(s@, pat@, rep@, i + pat@.len())) =~= (out@ + rep@)
                + replace_from(s@, pat@, rep@, i + pat@.len()));
            out.push_str(rep);
            i = i + pc.len();
        } else {
            assert(out@ + (seq![s@[i as int]] + replace_from(s@, pat@, rep@, i + 1)) =~= out@.push(
                s@[i as int],
            ) + replace_from(s@, pat@, rep@, i + 1));
            out.push(sc[i]);
            i = i + 1;
        }
    }
    assert(out@ + Seq::<char>::empty() =~= out@);
    out
}

/// Text between two `q`, with each `q` inside written twice.
pub open spec fn quoted(s: Seq<char>, q: char) -> Seq<char> {
    seq![q] + doubled(s, q) + seq![q]
}

/// Text in quotes can be read back: what stands between the quotes, with each
/// pair of quotes replaced by one, is the text.
pub proof fn law_quoted(s: Seq<char>, q: char)
    ensures
        quoted(s, q).len() >= 2,
        quoted(s, q).first() == q,
        quoted(s, q).last() == q,
        replace(quoted(s, q).subrange(1, quoted(s, q).len() - 1), seq![q, q], seq![q]) == s,
{
    law_doubling_undone(s, q);
    assert(quoted(s, q).subrange(1, quoted(s, q).len() - 1) =~= doubled(s, q));
}

/// The text with each `q` written twice.
pub fn doubling(s: &str, q: char) -> (r: String)
    ensures
        r@ == doubled(s@, q),
{
    let sc = chars_of(s);
    let mut out = String::new();
    let mut i: usize = 0;
    assert(s@.skip(0) =~= s@);
    assert(out@ + doubled(s@, q) =~= doubled(s@, q));
    while i < sc.len()
        invariant
            i <= sc@.len(),
            sc@ == s@,
            out@ + doubled(s@.skip(i as int), q) == doubled(s@, q),
        decreases sc@.len() - i,
    {
        let ghost rest = s@.skip(i as int);
        assert(rest.skip(1) =~= s@.skip(i + 1));
        if sc[i] == q {
            assert(out@ + (seq![q, q] + doubled(rest.skip(1), q)) =~= out@.push(q).push(q)
                + doubled(rest.skip(1), q));
            out.push(q);
            out.push(q);
        } else {
            assert(out@ + (seq![rest[0]] + doubled(rest.skip(1), q)) =~= out@.push(rest[0])
                + doubled(rest.skip(1), q));
            out.push(sc[i]);
        }
        i = i + 1;
    }
    assert(out@ + Seq::<char>::empty() =~= out@);
    out
}

/// The text between two `q`, with each `q` inside written twice.
pub fn in_quotes(s: &str, q: char) -> (r: String)
    ensures
        r@ == quoted(s@, q),
{
    let mut out = String::new();
    out.push(q);
    out.push_str(doubling(s, q).as_str());
    out.push(q);
    assert(out@ =~= quoted(s@, q));
    out
}

// ---------------------------------------------------------------------------
// Splitting and joining
// ---------------------------------------------------------------------------

/// The pieces of `s` between occurrences of `sep` from position `i` on, where
/// the first piece has begun with `cur`.
pub open spec fn split_from(s: Seq<char>, sep: char, cur: Seq<char>, i: int) -> Seq<Seq<char>>
    decreases s.len() - i,
{
    if i < 0 || i >= s.len() {
        seq![cur]
    } else if s[i] == sep {
        seq![cur] + split_from(s, sep, Seq::empty(), i + 1)
    } else {
        split_from(s, sep, cur.push(s[i]), i + 1)
    }
}

/// The pieces of `s` between occurrences of `sep`.
pub open spec fn split(s: Seq<char>, sep: char) -> Seq<Seq<char>> {
    split_from(s, sep, Seq::empty(), 0)
}

/// The parts one after the other, with `sep` between them.
pub open spec fn join(parts: Seq<Seq<char>>, sep: Seq<char>) -> Seq<char>
    decreases parts.len(),
{
    if parts.len() == 0 {
        Seq::empty()
    } else if parts.len() == 1 {
        parts[0]
    } else {
        join(parts.drop_last(), sep) + sep + parts.last()
    }
}

pub proof fn lemma_join_first(parts: Seq<Seq<char>>, sep: Seq<char>)
    requires
        parts.len() >= 2,
    ensures
        join(parts, sep) == parts[0] + sep + join(parts.drop_first(), sep),
    decreases parts.len(),
{
    if parts.len() == 2 {
        assert(parts.drop_last() =~= seq![parts[0]]);
        assert(parts.drop_first() =~= seq![parts[1]]);
        reveal_with_fuel(join, 2);
    } else {
        lemma_join_first(parts.drop_last(), sep);
        assert(parts.drop_last().drop_first() =~= parts.drop_first().drop_last());
        assert(parts.drop_first().last() == parts.last());
        assert(join(parts, sep) =~= parts[0] + sep + join(parts.drop_first(), sep));
    }
}

proof fn lemma_split_join_from(s: Seq<char>, sep: char, cur: Seq<char>, i: int)
    requires
        0 <= i <= s.len(),
    ensures
        split_from(s, sep, cur, i).len() > 0,
        join(split_from(s, sep, cur, i), seq![sep]) == cur + s.skip(i),
    decreases s.len() - i,
{
    if i < s.len() {
        if s[i] == sep {
            lemma_split_join_from(s, sep, Seq::empty(), i + 1);
            let rest = split_from(s, sep, Seq::empty(), i + 1);
            let all = split_from(s, sep, cur, i);
            assert(all.drop_first() =~= rest);
            lemma_join_first(all, seq![sep]);
            assert(cur + seq![sep] + (Seq::<char>::empty() + s.skip(i + 1)) =~= cur + s.skip(i));
        } else {
            lemma_split_join_from(s, sep, cur.push(s[i]), i + 1);
            assert(cur.push(s[i]) + s.skip(i + 1) =~= cur + s.skip(i));
        }
    } else {
        assert(s.skip(i) =~= Seq::<char>::empty());
        assert(cur + Seq::<char>::empty() =~= cur);
    }
}

/// Splitting loses nothing: the pieces joined by the separator are the text.
pub proof fn law_split_join(s: Seq<char>, sep: char)
    ensures
        split(s, sep).len() > 0,
        join(split(s, sep), seq![sep]) == s,
{
    lemma_split_join_from(s, sep, Seq::empty(), 0);
    assert(Seq::<char>::empty() + s.skip(0) =~= s);
}

proof fn lemma_split_run(s: Seq<char>, sep: char, cur: Seq<char>, i: int, j: int)
    requires
        0 <= i <= j <= s.len(),
        forall|k: int| i <= k < j ==> #[trigger] s[k] != sep,
    ensures
        split_from(s, sep, cur, i) == split_from(s, sep, cur + s.subrange(i, j), j),
    decreases j - i,
{
    if i < j {
        assert(s[i] != sep);
        lemma_split_run(s, sep, cur.push(s[i]), i + 1, j);
        assert(cur.push(s[i]) + s.subrange(i + 1, j) =~= cur + s.subrange(i, j));
    } else {
        assert(cur + s.subrange(i, j) =~= cur);
    }
}

/// The parts of a text, extended by one character: a separator begins a new
/// part, anything else continues the last.
pub open spec fn extended(parts: Seq<Seq<char>>, sep: char, c: char) -> Seq<Seq<char>> {
    if c == sep {
        parts.push(Seq::empty())
    } else {
        parts.drop_last().push(parts.last().push(c))
    }
}

proof fn lemma_split_push_from(s: Seq<char>, sep: char, cur: Seq<char>, i: int, c: char)
    requires
        0 <= i <= s.len(),
    ensures
        split_from(s, sep, cur, i).len() > 0,
        split_from(s.push(c), sep, cur, i) == extended(split_from(s, sep, cur, i), sep, c),
    decreases s.len() - i,
{
    let t = s.push(c);
    if i == s.len() {
        assert(t[i] == c);
        reveal_with_fuel(split_from, 2);
        assert(split_from(t, sep, cur, i) =~= extended(seq![cur], sep, c));
    } else {
        assert(t[i] == s[i]);
        if s[i] == sep {
            lemma_split_push_from(s, sep, Seq::empty(), i + 1, c);
            let rest = split_from(s, sep, Seq::empty(), i + 1);
            assert(seq![cur] + extended(rest, sep, c) =~= extended(seq![cur] + rest, sep, c));
        } else {
            lemma_split_push_from(s, sep, cur.push(s[i]), i + 1, c);
        }
    }
}

/// How the parts of a text change where a character is added to it.
pub proof fn law_split_push(s: Seq<char>, sep: char, c: char)
    ensures
        split(s, sep).len() > 0,
        split(s.push(c), sep) == extended(split(s, sep), sep, c),
{
    lemma_split_push_from(s, sep, Seq::empty(), 0, c);
}

/// Text without the separator continues the last part.
pub proof fn law_split_append(s: Seq<char>, t: Seq<char>, sep: char)
    requires
        !t.contains(sep),
    ensures
        split(s, sep).len() > 0,
        split(s + t, sep) == split(s, sep).drop_last().push(split(s, sep).last() + t),
    decreases t.len(),
{
    if t.len() == 0 {
        law_split_push(s, sep, sep);
        assert(s + t =~= s);
        assert(split(s, sep).last() + t =~= split(s, sep).last());
        assert(split(s, sep).drop_last().push(split(s, sep).last()) =~= split(s, sep));
    } else {
        let u = t.drop_last();
        assert(!u.contains(sep)) by {
            if u.contains(sep) {
                let k = choose|k: int| 0 <= k < u.len() && u[k] == sep;
                assert(t[k] == sep);
            }
        }
        law_split_append(s, u, sep);
        assert(t[t.len() - 1] == t.last());
        assert((s + u).push(t.last()) =~= s + t);
        law_split_push(s + u, sep, t.last());
        let p = split(s, sep);
        assert((p.last() + u).push(t.last()) =~= p.last() + t);
        assert(p.drop_last().push(p.last() + u).drop_last() =~= p.drop_last());
    }
}

/// Two texts without the separator, joined by it, split into the two.
pub proof fn law_split_two(a: Seq<char>, b: Seq<char>, sep: char)
    requires
        !a.contains(sep),
        !b.contains(sep),
    ensures
        split(a + seq![sep] + b, sep) == seq![a, b],
{
    let s = a + seq![sep] + b;
    let n = a.len() as int;
    assert forall|k: int| 0 <= k < n implies #[trigger] s[k] != sep by {
        assert(s[k] == a[k]);
    }
    lemma_split_run(s, sep, Seq::empty(), 0, n);
    assert(Seq::<char>::empty() + s.subrange(0, n) =~= a);
    assert(s[n] == sep);
    assert forall|k: int| n + 1 <= k < s.len() implies #[trigger] s[k] != sep by {
        assert(s[k] == b[k - n - 1]);
    }
    lemma_split_run(s, sep, Seq::empty(), n + 1, s.len() as int);
    assert(Seq::<char>::empty() + s.subrange(n + 1, s.len() as int) =~= b);
    assert(split(s, sep) =~= seq![a, b]);
}

/// The contents of a list of strings.
pub open spec fn texts(v: Seq<String>) -> Seq<Seq<char>> {
    Seq::new(v.len(), |i: int| v[i]@)
}

pub proof fn lemma_texts_push(v: Seq<String>, s: String)
    ensures
        texts(v.push(s)) == texts(v).push(s@),
{
    assert(texts(v.push(s)) =~= texts(v).push(s@));
}

/// The pieces of `s` between occurrences of `sep`.
pub fn split_on(s: &str, sep: char) -> (r: Vec<String>)
    ensures
        texts(r@) == split(s@, sep),
        r@.len() > 0,
{
    let sc = chars_of(s);
    let mut out: Vec<String> = Vec::new();
    let mut cur = String::new();
    let mut i: usize = 0;
    proof {
        assert(texts(out@) + split(s@, sep) =~= split(s@, sep));
    }
    while i < sc.len()
        invariant
            i <= sc@.len(),
            sc@ == s@,
            texts(out@) + split_from(s@, sep, cur@, i as int) == split(s@, sep),
        decreases sc@.len() - i,
    {
        if sc[i] == sep {
            let ghost rest = split_from(s@, sep, Seq::empty(), i + 1);
            proof {
                lemma_texts_push(out@, cur);
                assert(texts(out@) + (seq![cur@] + rest) =~= texts(out@).push(cur@) + rest);
            }
            out.push(cur);
            cur = String::new();
        } else {
            cur.push(sc[i]);
        }
        i = i + 1;
    }
    proof {
        lemma_texts_push(out@, cur);
        assert(texts(out@) + seq![cur@] =~= texts(out@).push(cur@));
    }
    out.push(cur);
    out
}

/// The parts one after the other, with `sep` between them.
pub fn joined(parts: &Vec<String>, sep: &str) -> (r: String)
    ensures
        r@ == join(texts(parts@), sep@),
{
    let mut out = String::new();
    let mut i: usize = 0;
    while i < parts.len()
        invariant
            i <= parts@.len(),
            out@ == join(texts(parts@).take(i as int), sep@),
        decreases parts@.len() - i,
    {
        let ghost so_far = texts(parts@).take(i as int);
        let ghost more = texts(parts@).take(i + 1);
        assert(more.drop_last() =~= so_far);
        assert(more.last() == parts@[i as int]@);
        if i > 0 {
            out.push_str(sep);
        }
        out.push_str(parts[i].as_str());
        assert(i == 0 ==> out@ =~= parts@[0]@);
        i = i + 1;
    }
    assert(texts(parts@).take(i as int) =~= texts(parts@));
    out
}

/// The words of `s` from position `i` on, where the first has begun with `cur`.
pub open spec fn words_from(s: Seq<char>, cur: Seq<char>, i: int) -> Seq<Seq<char>>
    decreases s.len() - i,
{
    if i < 0 || i >= s.len() {
        if cur.len() > 0 {
            seq![cur]
        } else {
            Seq::empty()
        }
    } else if is_space(s[i]) {
        if cur.len() > 0 {
            seq![cur] + words_from(s, Seq::empty(), i + 1)
        } else {
            words_from(s, Seq::empty(), i + 1)
        }
    } else {
        words_from(s, cur.push(s[i]), i + 1)
    }
}

/// The longest stretches of `s` without whitespace.
pub open spec fn words(s: Seq<char>) -> Seq<Seq<char>> {
    words_from(s, Seq::empty(), 0)
}

/// The longest stretches of `s` without whitespace.
pub fn split_words(s: &str) -> (r: Vec<String>)
    ensures
        texts(r@) == words(s@),
{
    let sc = chars_of(s);
    let mut out: Vec<String> = Vec::new();
    let mut cur = String::new();
    let mut i: usize = 0;
    proof {
        assert(texts(out@) + words(s@) =~= words(s@));
    }
    while i < sc.len()
        invariant
            i <= sc@.len(),
            sc@ == s@,
            texts(out@) + words_from(s@, cur@, i as int) == words(s@),
        decreases sc@.len() - i,
    {
        if space(sc[i]) {
            if !cur.as_str().is_empty() {
                let ghost rest = words_from(s@, Seq::empty(), i + 1);
                proof {
                    lemma_texts_push(out@, cur);
                    assert(texts(out@) + (seq![cur@] + rest) =~= texts(out@).push(cur@) + rest);
                }
                out.push(cur);
            } else {
                assert(cur@ =~= Seq::empty());
            }
            cur = String::new();
        } else {
            cur.push(sc[i]);
        }
        i = i + 1;
    }
    if !cur.as_str().is_empty() {
        proof {
            lemma_texts_push(out@, cur);
            assert(texts(out@) + seq![cur@] =~= texts(out@).push(cur@));
        }
        out.push(cur);
    } else {
        assert(texts(out@) + Seq::<Seq<char>>::empty() =~= texts(out@));
    }
    out
}

// ---------------------------------------------------------------------------
// Letter case
// ---------------------------------------------------------------------------

/// An ASCII capital letter made small; any other character as it is.
pub open spec fn ascii_lower_char(c: char) -> char {
    if 'A' <= c && c <= 'Z' {
        (c as u32 + 32) as char
    } else {
        c
    }
}

/// The text with its ASCII capital letters made small.
pub open spec fn ascii_lower(s: Seq<char>) -> Seq<char> {
    Seq::new(s.len(), |i: int| ascii_lower_char(s[i]))
}

fn lower_char(c: char) -> (r: char)
    ensures
        r == ascii_lower_char(c),
{
    if 'A' <= c && c <= 'Z' {
        ((c as u8) + 32) as char
    } else {
        c
    }
}

/// The text with its ASCII capital letters made small.
pub fn to_ascii_lower(s: &str) -> (r: String)
    ensures
        r@ == ascii_lower(s@),
{
    let sc = chars_of(s);
    let mut out = String::new();
    let mut i: usize = 0;
    while i < sc.len()
        invariant
            i <= sc@.len(),
            sc@ == s@,
            out@ == ascii_lower(s@).take(i as int),
        decreases sc@.len() - i,
    {
        out.push(lower_char(sc[i]));
        i = i + 1;
        assert(out@ =~= ascii_lower(s@).take(i as int));
    }
    assert(ascii_lower(s@).take(i as int) =~= ascii_lower(s@));
    out
}

// ---------------------------------------------------------------------------
// Pieces put together
// ---------------------------------------------------------------------------

/// Two strings one after the other.
pub fn concat2(a: &str, b: &str) -> (r: String)
    ensures
        r@ == a@ + b@,
{
    let mut out = String::new();
    out.push_str(a);
    out.push_str(b);
    assert(out@ =~= a@ + b@);
    out
}

/// Three strings one after the other.
pub fn concat3(a: &str, b: &str, c: &str) -> (r: String)
    ensures
        r@ == a@ + b@ + c@,
{
    let mut out = concat2(a, b);
    out.push_str(c);
    out
}

/// Four strings one after the other.
pub fn concat4(a: &str, b: &str, c: &str, d: &str) -> (r: String)
    ensures
        r@ == a@ + b@ + c@ + d@,
{
    let mut out = concat3(a, b, c);
    out.push_str(d);
    out
}

/// Five strings one after the other.
pub fn concat5(a: &str, b: &str, c: &str, d: &str, e: &str) -> (r: String)
    ensures
        r@ == a@ + b@ + c@ + d@ + e@,
{
    let mut out = concat4(a, b, c, d);
    out.push_str(e);
    out
}

// ---------------------------------------------------------------------------
// Positions in bytes
// ---------------------------------------------------------------------------

/// How many bytes UTF-8 takes for a character.
pub open spec fn utf8_width(c: char) -> nat {
    if (c as int) < 0x80 {
        1
    } else if (c as int) < 0x800 {
        2
    } else if (c as int) < 0x1_0000 {
        3
    } else {
        4
    }
}

/// How many bytes UTF-8 takes for a text.
pub open spec fn utf8_len(s: Seq<char>) -> nat
    decreases s.len(),
{
    if s.len() == 0 {
        0
    } else {
        utf8_len(s.drop_last()) + utf8_width(s.last())
    }
}

/// The number of characters in front of the byte at position `at`; nothing where
/// it lies within a character or behind the text.
pub open spec fn char_position(s: Seq<char>, at: int) -> Option<int>
    decreases s.len(),
{
    if at == 0 {
        Some(0)
    } else if s.len() == 0 || at < utf8_width(s[0]) {
        None
    } else {
        match char_position(s.drop_first(), at - utf8_width(s[0])) {
            Some(k) => Some(k + 1),
            None => None,
        }
    }
}

fn width(c: char) -> (r: u128)
    ensures
        r == utf8_width(c),
{
    if (c as u32) < 0x80 {
        1
    } else if (c as u32) < 0x800 {
        2
    } else if (c as u32) < 0x1_0000 {
        3
    } else {
        4
    }
}

/// How many bytes UTF-8 takes for the first `n` characters.
pub fn utf8_length(chars: &Vec<char>, n: usize) -> (r: u128)
    requires
        n <= chars@.len(),
    ensures
        r == utf8_len(chars@.take(n as int)),
        r <= 4 * n,
{
    let mut total: u128 = 0;
    let mut i: usize = 0;
    while i < n
        invariant
            i <= n <= chars@.len(),
            total == utf8_len(chars@.take(i as int)),
            total <= 4 * i,
        decreases n - i,
    {
        assert(chars@.take(i + 1).drop_last() =~= chars@.take(i as int));
        total = total + width(chars[i]);
        i = i + 1;
    }
    total
}

/// The number of characters in front of the byte at position `at`.
pub fn position_of_byte(chars: &Vec<char>, at: u128) -> (r: Option<usize>)
    ensures
        match r {
            Some(k) => k <= chars@.len() && char_position(chars@, at as int) == Some(k as int),
            None => char_position(chars@, at as int) is None,
        },
{
    let mut left: u128 = at;
    let mut i: usize = 0;
    assert(chars@.skip(0) =~= chars@);
    while left > 0
        invariant
            i <= chars@.len(),
            char_position(chars@, at as int) == match char_position(
                chars@.skip(i as int),
                left as int,
            ) {
                Some(k) => Some(k + i),
                None => None,
            },
        decreases left,
    {
        if i == chars.len() {
            return None;
        }
        let w: u128 = width(chars[i]);
        assert(chars@.skip(i as int).drop_first() =~= chars@.skip(i + 1));
        if left < w {
            return None;
        }
        left = left - w;
        i = i + 1;
    }
    Some(i)
}

// ---------------------------------------------------------------------------
// Laws
// ---------------------------------------------------------------------------

/// Whitespace is what Unicode counts as such; of the ASCII characters the blank, the
/// tab, the line feed, the vertical tab, the form feed and the carriage return.
pub proof fn law_spaces(c: char)
    ensures
        (c as int) < 128 ==> (is_space(c) <==> c == ' ' || c == '\t' || c == '\n' || c as int == 11
            || c as int == 12 || c == '\r'),
        c as int >= 128 ==> (is_space(c) <==> c as int == 0x85 || c as int == 0xa0 || c as int
            == 0x1680 || 0x2000 <= c as int <= 0x200a || c as int == 0x2028 || c as int == 0x2029
            || c as int == 0x202f || c as int == 0x205f || c as int == 0x3000),
{
}

/// Trimming takes whitespace off both ends, whatever stands in between.
pub proof fn law_trim_around(a: Seq<char>, s: Seq<char>, b: Seq<char>)
    requires
        forall|i: int| 0 <= i < a.len() ==> is_space(#[trigger] a[i]),
        forall|i: int| 0 <= i < b.len() ==> is_space(#[trigger] b[i]),
        s.len() > 0,
        !is_space(s[0]),
        !is_space(s.last()),
    ensures
        trim(a + s + b) == s,
    decreases a.len() + b.len(),
{
    let t = a + s + b;
    if a.len() > 0 {
        assert(is_space(a[0]));
        assert(t[0] == a[0]);
        assert(t.drop_first() =~= a.drop_first() + s + b);
        assert forall|i: int| 0 <= i < a.drop_first().len() implies is_space(
            #[trigger] a.drop_first()[i],
        ) by {
            assert(a.drop_first()[i] == a[i + 1]);
        }
        law_trim_around(a.drop_first(), s, b);
    } else if b.len() > 0 {
        assert(t[0] == s[0]);
        assert(trim_start(t) == t);
        assert(is_space(b[b.len() - 1]));
        assert(t.last() == b.last());
        assert(t.drop_last() =~= a + s + b.drop_last());
        assert forall|i: int| 0 <= i < b.drop_last().len() implies is_space(
            #[trigger] b.drop_last()[i],
        ) by {
            assert(b.drop_last()[i] == b[i]);
        }
        law_trim_around(a, s, b.drop_last());
        assert(t.drop_last()[0] == s[0]);
        assert(trim_start(t.drop_last()) == t.drop_last());
    } else {
        assert(t =~= s);
    }
}

/// A text begins with what is put in front of it, ends with what is put behind it, and
/// holds what is put in between.
pub proof fn law_occurs(a: Seq<char>, pat: Seq<char>, b: Seq<char>)
    ensures
        has_prefix(pat + b, pat),
        has_suffix(a + pat, pat),
        holds(a + pat + b, pat),
{
    assert((pat + b).subrange(0, pat.len() as int) =~= pat);
    assert((a + pat).subrange(a.len() as int, a.len() as int + pat.len()) =~= pat);
    assert((a + pat + b).subrange(a.len() as int, a.len() as int + pat.len()) =~= pat);
    assert(occurs_at(a + pat + b, pat, a.len() as int));
}

/// Only then: a text that begins with a pattern, ends with it or holds it is made of it
/// and what stands around it.
pub proof fn law_occurrence(s: Seq<char>, pat: Seq<char>)
    ensures
        has_prefix(s, pat) ==> s.len() >= pat.len() && s == pat + s.skip(pat.len() as int),
        has_suffix(s, pat) ==> s.len() >= pat.len() && s == s.take(s.len() - pat.len()) + pat,
        holds(s, pat) ==> exists|i: int|
            0 <= i <= s.len() - pat.len() && s == #[trigger] s.take(i) + pat + s.skip(
                i + pat.len(),
            ),
{
    if has_prefix(s, pat) {
        assert(s =~= pat + s.skip(pat.len() as int)) by {
            assert forall|k: int| 0 <= k < pat.len() implies s[k] == pat[k] by {
                assert(s.subrange(0, pat.len() as int)[k] == pat[k]);
            }
        }
    }
    if has_suffix(s, pat) {
        let n = s.len() - pat.len();
        assert(s =~= s.take(n) + pat) by {
            assert forall|k: int| 0 <= k < pat.len() implies s[n + k] == pat[k] by {
                assert(s.subrange(n, n + pat.len())[k] == pat[k]);
            }
        }
    }
    if holds(s, pat) {
        let i = choose|i: int| occurs_at(s, pat, i);
        assert(s =~= s.take(i) + pat + s.skip(i + pat.len())) by {
            assert forall|k: int| 0 <= k < pat.len() implies s[i + k] == pat[k] by {
                assert(s.subrange(i, i + pat.len())[k] == pat[k]);
            }
        }
    }
}

proof fn lemma_find_first(s: Seq<char>, pat: Seq<char>, from: int, i: int)
    requires
        0 <= from <= i,
        i + pat.len() <= s.len(),
        s.subrange(i, i + pat.len()) == pat,
        forall|k: int| from <= k < i ==> #[trigger] s.subrange(k, k + pat.len()) != pat,
    ensures
        find_from(s, pat, from) == Some(i),
    decreases i - from,
{
    if from < i {
        assert(s.subrange(from, from + pat.len()) != pat);
        lemma_find_first(s, pat, from + 1, i);
    }
}

/// The position that is found is the first at which the pattern stands.
pub proof fn law_find(a: Seq<char>, pat: Seq<char>, b: Seq<char>)
    requires
        forall|k: int|
            0 <= k < a.len() ==> #[trigger] (a + pat + b).subrange(k, k + pat.len()) != pat,
    ensures
        find_from(a + pat + b, pat, 0) == Some(a.len() as int),
{
    let s = a + pat + b;
    assert(s.subrange(a.len() as int, a.len() as int + pat.len()) =~= pat);
    lemma_find_first(s, pat, 0, a.len() as int);
}

/// Where a pattern does not occur nothing is found.
pub proof fn law_find_none(s: Seq<char>, pat: Seq<char>, i: int)
    requires
        !holds(s, pat),
        0 <= i,
    ensures
        find_from(s, pat, i) is None,
    decreases s.len() + 1 - i,
{
    if i + pat.len() <= s.len() {
        assert(!occurs_at(s, pat, i));
        law_find_none(s, pat, i + 1);
    }
}

proof fn lemma_replace_shift(s: Seq<char>, n: int, pat: Seq<char>, rep: Seq<char>, i: int)
    requires
        0 <= n <= s.len(),
        0 <= i <= s.len() - n,
    ensures
        replace_from(s, pat, rep, n + i) == replace_from(s.skip(n), pat, rep, i),
    decreases s.len() - n - i,
{
    let t = s.skip(n);
    if i < t.len() {
        if i + pat.len() <= t.len() {
            assert(t.subrange(i, i + pat.len()) =~= s.subrange(n + i, n + i + pat.len()));
        }
        if pat.len() > 0 && occurs_at(t, pat, i) {
            lemma_replace_shift(s, n, pat, rep, i + pat.len());
        } else {
            assert(s[n + i] == t[i]);
            lemma_replace_shift(s, n, pat, rep, i + 1);
        }
    }
}

proof fn lemma_replace_up_to(s: Seq<char>, pat: Seq<char>, rep: Seq<char>, i: int, n: int)
    requires
        0 <= i <= n,
        n + pat.len() <= s.len(),
        pat.len() > 0,
        forall|k: int| i <= k < n ==> #[trigger] s.subrange(k, k + pat.len()) != pat,
    ensures
        replace_from(s, pat, rep, i) == s.subrange(i, n) + replace_from(s, pat, rep, n),
    decreases n - i,
{
    if i < n {
        assert(s.subrange(i, i + pat.len()) != pat);
        lemma_replace_up_to(s, pat, rep, i + 1, n);
        assert(seq![s[i]] + (s.subrange(i + 1, n) + replace_from(s, pat, rep, n)) =~= s.subrange(
            i,
            n,
        ) + replace_from(s, pat, rep, n));
    } else {
        assert(s.subrange(i, n) + replace_from(s, pat, rep, n) =~= replace_from(s, pat, rep, n));
    }
}

/// A replacement puts the new text where the pattern first stands, leaves what stands in
/// front of it, and goes on behind it.
pub proof fn law_replace(a: Seq<char>, pat: Seq<char>, b: Seq<char>, rep: Seq<char>)
    requires
        pat.len() > 0,
        forall|k: int|
            0 <= k < a.len() ==> #[trigger] (a + pat + b).subrange(k, k + pat.len()) != pat,
    ensures
        replace(a + pat + b, pat, rep) == a + rep + replace(b, pat, rep),
{
    let s = a + pat + b;
    let n = a.len() as int;
    assert(s.subrange(n, n + pat.len()) =~= pat);
    lemma_replace_up_to(s, pat, rep, 0, n);
    assert(s.subrange(0, n) =~= a);
    assert(occurs_at(s, pat, n));
    assert(s.skip(n + pat.len()) =~= b);
    lemma_replace_shift(s, n + pat.len(), pat, rep, 0);
    assert(a + (rep + replace(b, pat, rep)) =~= a + rep + replace(b, pat, rep));
}

/// Lower case, letter by letter: of the ASCII letters, and of nothing else.
pub proof fn law_ascii_lower(s: Seq<char>, i: int)
    requires
        0 <= i < s.len(),
    ensures
        ascii_lower(s).len() == s.len(),
        'A' <= s[i] && s[i] <= 'Z' ==> ascii_lower(s)[i] as int - 'a' as int == s[i] as int
            - 'A' as int,
        !('A' <= s[i] && s[i] <= 'Z') ==> ascii_lower(s)[i] == s[i],
{
}

proof fn lemma_words_append(a: Seq<char>, c: char, b: Seq<char>, cur: Seq<char>, i: int)
    requires
        is_space(c),
        0 <= i <= a.len(),
    ensures
        words_from(a + seq![c] + b, cur, i) == words_from(a, cur, i) + words(b),
    decreases a.len() - i,
{
    let s = a + seq![c] + b;
    if i == a.len() {
        assert(s[i] == c);
        lemma_words_shift(s, i + 1, b, Seq::empty(), 0);
        assert(Seq::<Seq<char>>::empty() + words(b) =~= words(b));
    } else {
        assert(s[i] == a[i]);
        if is_space(a[i]) {
            lemma_words_append(a, c, b, Seq::empty(), i + 1);
            if cur.len() > 0 {
                let rest = words_from(a, Seq::empty(), i + 1);
                assert(seq![cur] + (rest + words(b)) =~= (seq![cur] + rest) + words(b));
            }
        } else {
            lemma_words_append(a, c, b, cur.push(a[i]), i + 1);
        }
    }
}

proof fn lemma_words_shift(s: Seq<char>, n: int, b: Seq<char>, cur: Seq<char>, i: int)
    requires
        0 <= n,
        s.len() == n + b.len(),
        0 <= i <= b.len(),
        forall|k: int| 0 <= k < b.len() ==> #[trigger] b[k] == s[n + k],
    ensures
        words_from(s, cur, n + i) == words_from(b, cur, i),
    decreases b.len() - i,
{
    if i < b.len() {
        assert(b[i] == s[n + i]);
        if is_space(b[i]) {
            lemma_words_shift(s, n, b, Seq::empty(), i + 1);
        } else {
            lemma_words_shift(s, n, b, cur.push(b[i]), i + 1);
        }
    }
}

/// The words on both sides of whitespace are the words of the whole.
pub proof fn law_words_append(a: Seq<char>, c: char, b: Seq<char>)
    requires
        is_space(c),
    ensures
        words(a + seq![c] + b) == words(a) + words(b),
{
    lemma_words_append(a, c, b, Seq::empty(), 0);
}

proof fn lemma_one_word(w: Seq<char>, cur: Seq<char>, i: int)
    requires
        0 <= i <= w.len(),
        forall|k: int| 0 <= k < w.len() ==> !is_space(#[trigger] w[k]),
        cur == w.take(i),
        w.len() > 0,
    ensures
        words_from(w, cur, i) == seq![w],
    decreases w.len() - i,
{
    if i < w.len() {
        assert(!is_space(w[i]));
        assert(cur.push(w[i]) =~= w.take(i + 1));
        lemma_one_word(w, cur.push(w[i]), i + 1);
    } else {
        assert(cur =~= w);
    }
}

/// A text without whitespace is one word.
pub proof fn law_one_word(w: Seq<char>)
    requires
        forall|k: int| 0 <= k < w.len() ==> !is_space(#[trigger] w[k]),
    ensures
        words(w) == if w.len() > 0 {
            seq![w]
        } else {
            Seq::empty()
        },
{
    if w.len() > 0 {
        assert(w.take(0) =~= Seq::empty());
        lemma_one_word(w, Seq::empty(), 0);
    }
}

/// Joined texts stand in order, with the separator between each two and nowhere else.
pub proof fn law_join(parts: Seq<Seq<char>>, p: Seq<char>, sep: Seq<char>)
    ensures
        join(seq![p], sep) == p,
        parts.len() > 0 ==> join(parts.push(p), sep) == join(parts, sep) + sep + p,
        join(Seq::<Seq<char>>::empty(), sep) == Seq::<char>::empty(),
{
    assert(parts.push(p).drop_last() =~= parts);
}

/// In a text of ASCII characters bytes are counted like characters.
pub proof fn law_ascii_bytes(s: Seq<char>, at: int)
    requires
        forall|k: int| 0 <= k < s.len() ==> (#[trigger] s[k] as int) < 128,
        0 <= at,
    ensures
        utf8_len(s) == s.len(),
        char_position(s, at) == if at <= s.len() {
            Some(at)
        } else {
            None
        },
    decreases s.len(),
{
    if s.len() > 0 {
        let front = s.drop_last();
        assert forall|k: int| 0 <= k < front.len() implies (#[trigger] front[k] as int) < 128 by {
            assert(front[k] == s[k]);
        }
        law_ascii_bytes(front, at);
        assert((s[s.len() - 1] as int) < 128);
        assert((s[0] as int) < 128);
        if at > 0 {
            let rest = s.drop_first();
            assert forall|k: int| 0 <= k < rest.len() implies (#[trigger] rest[k] as int)
                < 128 by {
                assert(rest[k] == s[k + 1]);
            }
            law_ascii_bytes(rest, at - 1);
        }
    }
}

/// The order of texts goes by the first character in which they differ.
pub proof fn law_order_first(p: Seq<char>, a: Seq<char>, b: Seq<char>)
    requires
        a.len() > 0,
        b.len() > 0,
        a[0] < b[0],
    ensures
        precedes(p + a, p + b),
        precedes(p, p + b),
    decreases p.len(),
{
    if p.len() > 0 {
        law_order_first(p.drop_first(), a, b);
        assert((p + a).drop_first() =~= p.drop_first() + a);
        assert((p + b).drop_first() =~= p.drop_first() + b);
        assert((p + a)[0] == p[0] && (p + b)[0] == p[0]);
    } else {
        assert(p + a =~= a);
        assert(p + b =~= b);
    }
}

/// A character takes one byte below 128, two below 2048, three below 65536 and four from there.
pub proof fn law_utf8_width(c: char, s: Seq<char>)
    ensures
        (c as int) < 128 ==> utf8_width(c) == 1,
        128 <= (c as int) < 2048 ==> utf8_width(c) == 2,
        2048 <= (c as int) < 65536 ==> utf8_width(c) == 3,
        65536 <= (c as int) ==> utf8_width(c) == 4,
        utf8_len(Seq::empty()) == 0,
        utf8_len(s.push(c)) == utf8_len(s) + utf8_width(c),
{
    assert(s.push(c).drop_last() =~= s);
}

} // verus!
