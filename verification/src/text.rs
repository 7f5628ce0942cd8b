use vstd::prelude::*;
use vstd::string::*;

verus! {

/// `String::push` appends one character to the end of the string.
pub assume_specification[ std::string::String::push ](s: &mut std::string::String, ch: char)
    ensures
        final(s)@ == old(s)@.push(ch),
;

/// Unicode `White_Space`, the property that `char::is_whitespace` tests.
pub open spec fn is_ws(c: char) -> bool {
    let u = c as u32;
    (0x09 <= u && u <= 0x0d) || u == 0x20 || u == 0x85 || u == 0xa0 || u == 0x1680
        || (0x2000 <= u && u <= 0x200a) || u == 0x2028 || u == 0x2029 || u == 0x202f
        || u == 0x205f || u == 0x3000
}

/// Executable whitespace test, equal to `is_ws`.
pub fn char_is_ws(c: char) -> (r: bool)
    ensures
        r == is_ws(c),
{
    let u = c as u32;
    (0x09 <= u && u <= 0x0d) || u == 0x20 || u == 0x85 || u == 0xa0 || u == 0x1680
        || (0x2000 <= u && u <= 0x200a) || u == 0x2028 || u == 0x2029 || u == 0x202f
        || u == 0x205f || u == 0x3000
}

/// The text with leading whitespace removed (`str::trim_start`).
pub open spec fn trim_start(s: Seq<char>) -> Seq<char>
    decreases s.len(),
{
    if s.len() > 0 && is_ws(s[0]) {
        trim_start(s.drop_first())
    } else {
        s
    }
}

/// The text with trailing whitespace removed (`str::trim_end`).
pub open spec fn trim_end(s: Seq<char>) -> Seq<char>
    decreases s.len(),
{
    if s.len() > 0 && is_ws(s.last()) {
        trim_end(s.drop_last())
    } else {
        s
    }
}

/// The text with whitespace removed at both ends (`str::trim`).
pub open spec fn trim(s: Seq<char>) -> Seq<char> {
    trim_end(trim_start(s))
}

/// `s` begins with `p`.
pub open spec fn starts_with(s: Seq<char>, p: Seq<char>) -> bool {
    p.len() <= s.len() && s.subrange(0, p.len() as int) == p
}

proof fn lemma_trim_start_skip(s: Seq<char>, i: int)
    requires
        0 <= i < s.len(),
        is_ws(s[i]),
    ensures
        trim_start(s.skip(i)) == trim_start(s.skip(i + 1)),
{
    assert(s.skip(i).drop_first() =~= s.skip(i + 1));
}

proof fn lemma_trim_end_take(s: Seq<char>, i: int)
    requires
        0 < i <= s.len(),
        is_ws(s[i - 1]),
    ensures
        trim_end(s.take(i)) == trim_end(s.take(i - 1)),
{
    assert(s.take(i).drop_last() =~= s.take(i - 1));
}

/// `str::trim_start`.
pub fn str_trim_start(s: &str) -> (r: &str)
    ensures
        r@ == trim_start(s@),
{
    let n = s.unicode_len();
    let mut i: usize = 0;
    proof {
        assert(s@.skip(0) =~= s@);
    }
    while i < n && char_is_ws(s.get_char(i))
        invariant
            n == s@.len(),
            i <= n,
            trim_start(s@.skip(i as int)) == trim_start(s@),
        decreases n - i,
    {
        proof {
            lemma_trim_start_skip(s@, i as int);
        }
        i = i + 1;
    }
    let r = s.substring_char(i, n);
    proof {
        assert(r@ =~= s@.skip(i as int));
        if i < n {
            assert(r@[0] == s@[i as int]);
        }
    }
    r
}

/// `str::trim_end`.
pub fn str_trim_end(s: &str) -> (r: &str)
    ensures
        r@ == trim_end(s@),
{
    let n = s.unicode_len();
    let mut i: usize = n;
    proof {
        assert(s@.take(n as int) =~= s@);
    }
    while i > 0 && char_is_ws(s.get_char(i - 1))
        invariant
            n == s@.len(),
            i <= n,
            trim_end(s@.take(i as int)) == trim_end(s@),
        decreases i,
    {
        proof {
            lemma_trim_end_take(s@, i as int);
        }
        i = i - 1;
    }
    let r = s.substring_char(0, i);
    proof {
        assert(r@ =~= s@.take(i as int));
        if i > 0 {
            assert(r@.last() == s@[i - 1]);
        }
    }
    r
}

/// `str::trim`.
pub fn str_trim(s: &str) -> (r: &str)
    ensures
        r@ == trim(s@),
{
    str_trim_end(str_trim_start(s))
}

/// `str::starts_with` for a string pattern.
pub fn str_starts_with(s: &str, p: &str) -> (r: bool)
    ensures
        r == starts_with(s@, p@),
{
    let n = s.unicode_len();
    let m = p.unicode_len();
    if m > n {
        return false;
    }
    let mut i: usize = 0;
    while i < m
        invariant
            n == s@.len(),
            m == p@.len(),
            m <= n,
            i <= m,
            forall|j: int| 0 <= j < i ==> s@[j] == p@[j],
        decreases m - i,
    {
        if s.get_char(i) != p.get_char(i) {
            proof {
                assert(s@.subrange(0, m as int)[i as int] != p@[i as int]);
            }
            return false;
        }
        i = i + 1;
    }
    proof {
        assert(s@.subrange(0, m as int) =~= p@);
    }
    true
}


/// `p` occurs in `s` at position `i`.
pub open spec fn is_match_at(s: Seq<char>, p: Seq<char>, i: int) -> bool {
    0 <= i && i + p.len() <= s.len() && s.subrange(i, i + p.len() as int) == p
}

/// The first position at or after `i` where `p` occurs in `s`.
pub open spec fn find_from(s: Seq<char>, p: Seq<char>, i: int) -> Option<int>
    decreases s.len() + 1 - i,
{
    if i < 0 || i + p.len() > s.len() {
        None
    } else if is_match_at(s, p, i) {
        Some(i)
    } else {
        find_from(s, p, i + 1)
    }
}

/// The first position where `p` occurs in `s` (`str::find`).
pub open spec fn find(s: Seq<char>, p: Seq<char>) -> Option<int> {
    find_from(s, p, 0)
}

/// `p` occurs somewhere in `s` (`str::contains`).
pub open spec fn contains(s: Seq<char>, p: Seq<char>) -> bool {
    find(s, p) is Some
}

/// `s` with every non-overlapping occurrence of `p`, scanned from the left,
/// replaced by `r` (`str::replace` for a non-empty pattern).
pub open spec fn replace_all(s: Seq<char>, p: Seq<char>, r: Seq<char>) -> Seq<char>
    recommends
        p.len() > 0,
    decreases s.len(),
{
    if s.len() == 0 || p.len() == 0 {
        s
    } else if starts_with(s, p) {
        r + replace_all(s.skip(p.len() as int), p, r)
    } else {
        seq![s[0]] + replace_all(s.drop_first(), p, r)
    }
}

/// `s` with every leading repetition of `p` removed (`str::trim_start_matches`).
pub open spec fn trim_start_matches(s: Seq<char>, p: Seq<char>) -> Seq<char>
    decreases s.len(),
{
    if p.len() > 0 && starts_with(s, p) {
        trim_start_matches(s.skip(p.len() as int), p)
    } else {
        s
    }
}

/// The number of characters before the first whitespace character.
pub open spec fn word_len(s: Seq<char>) -> nat
    decreases s.len(),
{
    if s.len() == 0 || is_ws(s[0]) {
        0
    } else {
        1 + word_len(s.drop_first())
    }
}

pub proof fn lemma_word_len_bound(s: Seq<char>)
    ensures
        word_len(s) <= s.len(),
    decreases s.len(),
{
    if s.len() > 0 && !is_ws(s[0]) {
        lemma_word_len_bound(s.drop_first());
    }
}

/// The maximal runs of non-whitespace characters (`str::split_whitespace`).
pub open spec fn words(s: Seq<char>) -> Seq<Seq<char>>
    decreases s.len(),
{
    if s.len() == 0 {
        seq![]
    } else if is_ws(s[0]) {
        words(s.drop_first())
    } else {
        let k = word_len(s);
        proof {
            lemma_word_len_bound(s);
        }
        seq![s.take(k as int)] + words(s.skip(k as int))
    }
}

/// The parts laid end to end with `sep` between neighbours (`[String]::join`).
pub open spec fn join(parts: Seq<Seq<char>>, sep: Seq<char>) -> Seq<char>
    decreases parts.len(),
{
    if parts.len() == 0 {
        seq![]
    } else if parts.len() == 1 {
        parts[0]
    } else {
        join(parts.drop_last(), sep) + sep + parts.last()
    }
}

/// The views of a vector of strings.
pub open spec fn views(v: Seq<String>) -> Seq<Seq<char>> {
    v.map_values(|x: String| x@)
}

/// Whether `p` occurs in `s` at position `i`.
pub fn match_at(s: &str, p: &str, i: usize) -> (r: bool)
    requires
        i <= s@.len(),
    ensures
        r == is_match_at(s@, p@, i as int),
{
    let n = s.unicode_len();
    let m = p.unicode_len();
    if m > n - i {
        return false;
    }
    let mut j: usize = 0;
    while j < m
        invariant
            n == s@.len(),
            m == p@.len(),
            i + m <= n,
            j <= m,
            forall|k: int| 0 <= k < j ==> s@[i + k] == p@[k],
        decreases m - j,
    {
        if s.get_char(i + j) != p.get_char(j) {
            proof {
                assert(s@.subrange(i as int, i + m)[j as int] != p@[j as int]);
            }
            return false;
        }
        j = j + 1;
    }
    proof {
        assert(s@.subrange(i as int, i + m) =~= p@);
    }
    true
}

/// What `find_from` finds is a match.
pub proof fn lemma_find_from_matches(s: Seq<char>, p: Seq<char>, i: int)
    ensures
        find_from(s, p, i) matches Some(j) ==> is_match_at(s, p, j) && i <= j,
    decreases s.len() + 1 - i,
{
    if i >= 0 && i + p.len() <= s.len() && !is_match_at(s, p, i) {
        lemma_find_from_matches(s, p, i + 1);
    }
}

/// `str::find` for a string pattern, as a character index.
pub fn str_find(s: &str, p: &str) -> (r: Option<usize>)
    ensures
        r is Some <==> find(s@, p@) is Some,
        r is Some ==> r->0 as int == find(s@, p@)->0,
        r is Some ==> is_match_at(s@, p@, r->0 as int),
{
    proof {
        lemma_find_from_matches(s@, p@, 0);
    }
    let n = s.unicode_len();
    let m = p.unicode_len();
    let mut i: usize = 0;
    while i <= n && m <= n - i
        invariant
            n == s@.len(),
            m == p@.len(),
            find_from(s@, p@, i as int) == find(s@, p@),
        decreases n + 1 - i,
    {
        if match_at(s, p, i) {
            return Some(i);
        }
        if i == n {
            proof {
                assert(find_from(s@, p@, i + 1) is None);
            }
            return None;
        }
        i = i + 1;
    }
    None
}

/// `str::contains` for a string pattern.
pub fn str_contains(s: &str, p: &str) -> (r: bool)
    ensures
        r == contains(s@, p@),
{
    str_find(s, p).is_some()
}

/// `str::replace` for a non-empty pattern.
pub fn str_replace(s: &str, p: &str, r: &str) -> (out: String)
    requires
        p@.len() > 0,
    ensures
        out@ == replace_all(s@, p@, r@),
{
    let n = s.unicode_len();
    let m = p.unicode_len();
    let mut out = String::new();
    let mut i: usize = 0;
    proof {
        assert(s@.skip(0) =~= s@);
    }
    while i < n
        invariant
            n == s@.len(),
            m == p@.len(),
            m > 0,
            i <= n,
            out@ + replace_all(s@.skip(i as int), p@, r@) == replace_all(s@, p@, r@),
        decreases n - i,
    {
        let ghost rest = s@.skip(i as int);
        if match_at(s, p, i) {
            proof {
                assert(rest.subrange(0, m as int) =~= s@.subrange(i as int, i + m));
                assert(rest.skip(m as int) =~= s@.skip(i + m));
                assert(out@ + replace_all(rest, p@, r@) =~= (out@ + r@) + replace_all(s@.skip(i + m), p@, r@));
            }
            out.append(r);
            i = i + m;
        } else {
            let c = s.get_char(i);
            proof {
                if m <= rest.len() {
                    assert(rest.subrange(0, m as int) =~= s@.subrange(i as int, i + m));
                }
                assert(rest.drop_first() =~= s@.skip(i + 1));
                assert(rest[0] == c);
                assert(out@ + replace_all(rest, p@, r@) =~= out@.push(c) + replace_all(s@.skip(i + 1), p@, r@));
            }
            out.push(c);
            i = i + 1;
        }
    }
    proof {
        assert(s@.skip(n as int) =~= Seq::<char>::empty());
        assert(out@ + Seq::<char>::empty() =~= out@);
    }
    out
}

/// `str::trim_start_matches` for a non-empty string pattern.
pub fn str_trim_start_matches<'a>(s: &'a str, p: &str) -> (r: &'a str)
    requires
        p@.len() > 0,
    ensures
        r@ == trim_start_matches(s@, p@),
{
    let n = s.unicode_len();
    let m = p.unicode_len();
    let mut i: usize = 0;
    proof {
        assert(s@.skip(0) =~= s@);
    }
    while i < n && match_at(s, p, i)
        invariant
            n == s@.len(),
            m == p@.len(),
            m > 0,
            i <= n,
            trim_start_matches(s@.skip(i as int), p@) == trim_start_matches(s@, p@),
        decreases n - i,
    {
        proof {
            let rest = s@.skip(i as int);
            assert(rest.subrange(0, m as int) =~= s@.subrange(i as int, i + m));
            assert(rest.skip(m as int) =~= s@.skip(i + m));
        }
        i = i + m;
    }
    let r = s.substring_char(i, n);
    proof {
        assert(r@ =~= s@.skip(i as int));
        if i < n {
            let rest = s@.skip(i as int);
            if starts_with(rest, p@) {
                assert(rest.subrange(0, m as int) =~= s@.subrange(i as int, i + m));
            }
        }
    }
    r
}

/// `str::split_whitespace`, collected into owned strings.
pub fn split_whitespace(s: &str) -> (r: Vec<String>)
    ensures
        views(r@) == words(s@),
{
    let n = s.unicode_len();
    let mut r: Vec<String> = Vec::new();
    let mut i: usize = 0;
    proof {
        assert(s@.skip(0) =~= s@);
        assert(views(r@) =~= Seq::<Seq<char>>::empty());
    }
    while i < n
        invariant
            n == s@.len(),
            i <= n,
            views(r@) + words(s@.skip(i as int)) == words(s@),
        decreases n - i,
    {
        let c = s.get_char(i);
        let ghost rest = s@.skip(i as int);
        if char_is_ws(c) {
            proof {
                assert(rest[0] == c);
                assert(rest.drop_first() =~= s@.skip(i + 1));
            }
            i = i + 1;
        } else {
            let mut j: usize = i + 1;
            proof {
                assert(rest[0] == c);
                assert(rest.drop_first() =~= s@.skip(i + 1));
            }
            while j < n && !char_is_ws(s.get_char(j))
                invariant
                    n == s@.len(),
                    i < j <= n,
                    rest == s@.skip(i as int),
                    word_len(rest) == (j - i) + word_len(s@.skip(j as int)),
                decreases n - j,
            {
                proof {
                    let t = s@.skip(j as int);
                    assert(t[0] == s@[j as int]);
                    assert(t.drop_first() =~= s@.skip(j + 1));
                }
                j = j + 1;
            }
            proof {
                let t = s@.skip(j as int);
                if j < n {
                    assert(t[0] == s@[j as int]);
                }
                assert(word_len(t) == 0);
                assert(rest.take(j - i) =~= s@.subrange(i as int, j as int));
                assert(rest.skip(j - i) =~= s@.skip(j as int));
            }
            let w = s.substring_char(i, j);
            let ws = String::from_str(w);
            let ghost old_r = r@;
            r.push(ws);
            proof {
                assert(views(r@) =~= views(old_r).push(ws@));
                assert(words(rest) == seq![rest.take(j - i)] + words(rest.skip(j - i)));
                assert(views(r@) + words(s@.skip(j as int)) =~= views(old_r) + words(rest));
            }
            i = j;
        }
    }
    proof {
        assert(s@.skip(n as int) =~= Seq::<char>::empty());
        assert(views(r@) + Seq::<Seq<char>>::empty() =~= views(r@));
    }
    r
}

/// `[String]::join`.
pub fn join_strings(parts: &Vec<String>, sep: &str) -> (r: String)
    ensures
        r@ == join(views(parts@), sep@),
{
    let mut r = String::new();
    let n = parts.len();
    let mut i: usize = 0;
    while i < n
        invariant
            n == parts@.len(),
            i <= n,
            r@ == join(views(parts@.take(i as int)), sep@),
        decreases n - i,
    {
        let ghost prev = views(parts@.take(i as int));
        let ghost next = views(parts@.take(i + 1));
        proof {
            assert(next.drop_last() =~= prev);
            assert(next.last() == parts@[i as int]@);
        }
        if i > 0 {
            r.append(sep);
        }
        r.append(parts[i].as_str());
        proof {
            if i == 0 {
                assert(prev.len() == 0);
                assert(r@ =~= next[0]);
            }
        }
        i = i + 1;
    }
    proof {
        assert(parts@.take(n as int) =~= parts@);
    }
    r
}


/// What `str::to_lowercase` gives for a text: the Unicode lowercase mapping of
/// every character.
pub uninterp spec fn lowercase(s: Seq<char>) -> Seq<char>;

/// `str::to_lowercase`. The contract says only that the result is the name
/// `lowercase` of the input; the Unicode case tables are not restated.
#[verifier::external_body]
pub(crate) fn str_to_lowercase(s: &str) -> (r: String)
    ensures
        r@ == lowercase(s@),
{
    s.to_lowercase()
}

/// Equality of two texts.
pub fn str_equals(a: &str, b: &str) -> (r: bool)
    ensures
        r == (a@ == b@),
{
    if a.unicode_len() != b.unicode_len() {
        return false;
    }
    let r = match_at(a, b, 0);
    proof {
        assert(a@.subrange(0, b@.len() as int) =~= a@);
    }
    r
}


/// Replacing a pattern whose first character does not occur changes nothing.
pub proof fn lemma_replace_absent(s: Seq<char>, p: Seq<char>, r: Seq<char>)
    requires
        p.len() > 0,
        forall|i: int| 0 <= i < s.len() ==> s[i] != p[0],
    ensures
        replace_all(s, p, r) == s,
    decreases s.len(),
{
    if s.len() > 0 {
        assert(!starts_with(s, p)) by {
            if starts_with(s, p) {
                assert(s.subrange(0, p.len() as int)[0] == s[0]);
            }
        }
        let t = s.drop_first();
        assert forall|i: int| 0 <= i < t.len() implies t[i] != p[0] by {
            assert(t[i] == s[i + 1]);
        }
        lemma_replace_absent(t, p, r);
        assert(seq![s[0]] + t =~= s);
    }
}

/// Replacing a one-character pattern works piece by piece.
pub proof fn lemma_replace_single_concat(a: Seq<char>, b: Seq<char>, p: Seq<char>, r: Seq<char>)
    requires
        p.len() == 1,
    ensures
        replace_all(a + b, p, r) == replace_all(a, p, r) + replace_all(b, p, r),
    decreases a.len(),
{
    if a.len() == 0 {
        assert(a + b =~= b);
        assert(replace_all(a, p, r) =~= Seq::<char>::empty());
        assert(Seq::<char>::empty() + replace_all(b, p, r) =~= replace_all(b, p, r));
    } else {
        let ab = a + b;
        assert(ab[0] == a[0]);
        assert(starts_with(ab, p) == starts_with(a, p)) by {
            assert(ab.subrange(0, 1) =~= seq![ab[0]]);
            assert(a.subrange(0, 1) =~= seq![a[0]]);
        }
        assert(ab.skip(1) =~= a.skip(1) + b);
        assert(ab.drop_first() =~= a.drop_first() + b);
        assert(a.skip(1) =~= a.drop_first());
        lemma_replace_single_concat(a.drop_first(), b, p, r);
        if starts_with(a, p) {
            assert(replace_all(ab, p, r) == r + replace_all(ab.skip(1), p, r));
            assert(replace_all(a, p, r) == r + replace_all(a.skip(1), p, r));
            assert(r + (replace_all(a.drop_first(), p, r) + replace_all(b, p, r))
                =~= (r + replace_all(a.drop_first(), p, r)) + replace_all(b, p, r));
        } else {
            assert(seq![a[0]] + (replace_all(a.drop_first(), p, r) + replace_all(b, p, r))
                =~= (seq![a[0]] + replace_all(a.drop_first(), p, r)) + replace_all(b, p, r));
        }
    }
}


/// Every character is whitespace.
pub open spec fn all_ws(s: Seq<char>) -> bool {
    forall|i: int| 0 <= i < s.len() ==> is_ws(#[trigger] s[i])
}

/// No character is whitespace.
pub open spec fn no_ws(s: Seq<char>) -> bool {
    forall|i: int| 0 <= i < s.len() ==> !is_ws(#[trigger] s[i])
}

pub proof fn lemma_trim_all_ws(s: Seq<char>)
    requires
        all_ws(s),
    ensures
        trim_start(s) == Seq::<char>::empty(),
        trim_end(s) == Seq::<char>::empty(),
    decreases s.len(),
{
    if s.len() > 0 {
        let t = s.drop_first();
        assert(all_ws(t)) by {
            assert forall|i: int| 0 <= i < t.len() implies is_ws(#[trigger] t[i]) by {
                assert(t[i] == s[i + 1]);
            }
        }
        let u = s.drop_last();
        assert(all_ws(u)) by {
            assert forall|i: int| 0 <= i < u.len() implies is_ws(#[trigger] u[i]) by {
                assert(u[i] == s[i]);
            }
        }
        assert(is_ws(s[0]));
        assert(is_ws(s[s.len() - 1]));
        lemma_trim_all_ws(t);
        lemma_trim_all_ws(u);
    }
}

/// Trailing whitespace of a concatenation, when the second part is not all
/// whitespace, comes from the second part alone; when it is, from the first.
pub proof fn lemma_trim_end_concat(a: Seq<char>, b: Seq<char>)
    ensures
        !all_ws(b) ==> trim_end(a + b) == a + trim_end(b),
        all_ws(b) ==> trim_end(a + b) == trim_end(a),
    decreases b.len(),
{
    if b.len() == 0 {
        assert(a + b =~= a);
    } else {
        let ab = a + b;
        assert(ab.last() == b.last());
        assert(ab.drop_last() =~= a + b.drop_last());
        let bl = b.drop_last();
        lemma_trim_end_concat(a, bl);
        if is_ws(b.last()) {
            if all_ws(b) {
                assert(all_ws(bl)) by {
                    assert forall|i: int| 0 <= i < bl.len() implies is_ws(#[trigger] bl[i]) by {
                        assert(bl[i] == b[i]);
                    }
                }
            } else {
                assert(!all_ws(bl)) by {
                    let j = choose|j: int| 0 <= j < b.len() && !is_ws(#[trigger] b[j]);
                    assert(j < b.len() - 1);
                    assert(bl[j] == b[j]);
                }
            }
        } else {
            assert(!all_ws(b)) by {
                assert(!is_ws(b[b.len() - 1]));
            }
        }
    }
}

/// Trimming at the start and at the end can be done in either order.
pub proof fn lemma_trim_commute(r: Seq<char>)
    ensures
        trim_start(trim_end(r)) == trim_end(trim_start(r)),
    decreases r.len(),
{
    if r.len() == 0 {
    } else if all_ws(r) {
        lemma_trim_all_ws(r);
        assert(trim_end(Seq::<char>::empty()) == Seq::<char>::empty());
    } else {
        let head = seq![r[0]];
        let tail = r.drop_first();
        assert(head + tail =~= r);
        lemma_trim_end_concat(head, tail);
        if is_ws(r[0]) {
            assert(!all_ws(tail)) by {
                let j = choose|j: int| 0 <= j < r.len() && !is_ws(#[trigger] r[j]);
                assert(j > 0);
                assert(tail[j - 1] == r[j]);
            }
            lemma_trim_commute(tail);
            let te = trim_end(tail);
            assert((head + te)[0] == r[0]);
            assert((head + te).drop_first() =~= te);
        } else {
            if all_ws(tail) {
                assert(trim_end(head) =~= head) by {
                    assert(head.last() == r[0]);
                }
            }
            let e = trim_end(r);
            assert(e.len() > 0 && e[0] == r[0]);
        }
    }
}

/// Trimming the end first does not change the trimmed text.
pub proof fn lemma_trim_of_trim_end(r: Seq<char>)
    ensures
        trim(trim_end(r)) == trim(r),
{
    lemma_trim_commute(r);
    lemma_trim_end_idempotent(trim_start(r));
}

pub proof fn lemma_trim_end_idempotent(s: Seq<char>)
    ensures
        trim_end(trim_end(s)) == trim_end(s),
    decreases s.len(),
{
    if s.len() > 0 && is_ws(s.last()) {
        lemma_trim_end_idempotent(s.drop_last());
    }
}

/// A word without whitespace, followed by nothing or by whitespace, is the
/// first word.
pub proof fn lemma_word_len_concat(w: Seq<char>, x: Seq<char>)
    requires
        no_ws(w),
        x.len() == 0 || is_ws(x[0]),
    ensures
        word_len(w + x) == w.len(),
    decreases w.len(),
{
    if w.len() == 0 {
        assert(w + x =~= x);
    } else {
        let t = w.drop_first();
        assert(no_ws(t)) by {
            assert forall|i: int| 0 <= i < t.len() implies !is_ws(#[trigger] t[i]) by {
                assert(t[i] == w[i + 1]);
            }
        }
        assert((w + x).drop_first() =~= t + x);
        assert((w + x)[0] == w[0]);
        lemma_word_len_concat(t, x);
    }
}

} // verus!
