use vstd::prelude::*;
use vstd::string::*;
use crate::text::{find, find_from, is_match_at, lemma_find_from_matches, str_find};

verus! {

/// A Postgres URL fit for the logs: everything up to the first `@` is replaced
/// by `postgresql://*****`.
pub open spec fn sanitized_postgres(url: Seq<char>) -> Seq<char> {
    match find(url, "@"@) {
        Some(pos) => "postgresql://*****@"@ + url.skip(pos + 1),
        None => url,
    }
}

/// A Redis URL fit for the logs: between the scheme and the first `@` after it,
/// the credentials are replaced by `*****`.
pub open spec fn sanitized_redis(url: Seq<char>) -> Seq<char> {
    match find(url, "://"@) {
        Some(pos) => {
            let rest = url.skip(pos + 3);
            match find(rest, "@"@) {
                Some(at) => url.take(pos + 3) + "*****@"@ + rest.skip(at + 1),
                None => url,
            }
        },
        None => url,
    }
}

/// Hides the credentials of a Postgres URL.
pub fn sanitize_postgres_url(url: &str) -> (r: String)
    ensures
        r@ == sanitized_postgres(url@),
{
    match str_find(url, "@") {
        Some(pos) => {
            proof {
                reveal_strlit("@");
            }
            let mut r = String::from_str("postgresql://*****@");
            let n = url.unicode_len();
            r.append(url.substring_char(pos + 1, n));
            proof {
                assert(url@.subrange(pos + 1, n as int) =~= url@.skip(pos + 1));
            }
            r
        },
        None => String::from_str(url),
    }
}

/// Hides the credentials of a Redis URL.
pub fn sanitize_redis_url(url: &str) -> (r: String)
    ensures
        r@ == sanitized_redis(url@),
{
    proof {
        reveal_strlit("://");
        reveal_strlit("@");
    }
    match str_find(url, "://") {
        Some(pos) => {
            let n = url.unicode_len();
            let scheme = url.substring_char(0, pos + 3);
            let rest = url.substring_char(pos + 3, n);
            proof {
                assert(rest@ =~= url@.skip(pos + 3));
                assert(scheme@ =~= url@.take(pos + 3));
            }
            match str_find(rest, "@") {
                Some(at) => {
                    let m = rest.unicode_len();
                    let mut r = String::from_str(scheme);
                    r.append("*****@");
                    r.append(rest.substring_char(at + 1, m));
                    proof {
                        assert(rest@.subrange(at + 1, m as int) =~= rest@.skip(at + 1));
                    }
                    r
                },
                None => String::from_str(url),
            }
        },
        None => String::from_str(url),
    }
}

/// The first occurrence of a one-character pattern is the first position that
/// holds the character.
proof fn lemma_find_char(s: Seq<char>, c: char, i: int, j: int)
    requires
        0 <= i <= j < s.len(),
        s[j] == c,
        forall|k: int| i <= k < j ==> s[k] != c,
    ensures
        find_from(s, seq![c], i) == Some(j),
    decreases j - i,
{
    if s[i] == c {
        assert(s.subrange(i, i + 1) =~= seq![c]);
    } else {
        assert(!is_match_at(s, seq![c], i)) by {
            if s.subrange(i, i + 1) == seq![c] {
                assert(s.subrange(i, i + 1)[0] == s[i]);
            }
        }
        lemma_find_char(s, c, i + 1, j);
    }
}

/// Two texts that agree on their first `k` characters have the same first
/// occurrence of a pattern, when it ends within those characters.
proof fn lemma_find_prefix(s: Seq<char>, t: Seq<char>, p: Seq<char>, i: int, j: int, k: int)
    requires
        0 <= i <= j,
        j + p.len() <= k <= s.len(),
        k <= t.len(),
        s.take(k) == t.take(k),
        find_from(s, p, i) == Some(j),
    ensures
        find_from(t, p, i) == Some(j),
    decreases j - i,
{
    assert(s.subrange(i, i + p.len() as int) =~= s.take(k).subrange(i, i + p.len() as int));
    assert(t.subrange(i, i + p.len() as int) =~= t.take(k).subrange(i, i + p.len() as int));
    assert(is_match_at(s, p, i) == is_match_at(t, p, i));
    lemma_find_from_matches(s, p, i);
    if i < j {
        assert(!is_match_at(s, p, i));
        assert(find_from(s, p, i + 1) == Some(j));
        lemma_find_prefix(s, t, p, i + 1, j, k);
    }
}

/// Sanitizing a URL that was sanitized already changes nothing: what is logged
/// stays as it was, for Postgres and for Redis URLs alike.
pub proof fn law_sanitizing_is_idempotent(url: Seq<char>)
    ensures
        sanitized_postgres(sanitized_postgres(url)) == sanitized_postgres(url),
        sanitized_redis(sanitized_redis(url)) == sanitized_redis(url),
{
    reveal_strlit("@");
    reveal_strlit("postgresql://*****@");
    reveal_strlit("*****@");
    reveal_strlit("://");
    let at = "@"@;
    assert(at =~= seq!['@']);
    // Postgres.
    if let Some(pos) = find(url, at) {
        let head = "postgresql://*****@"@;
        let once = head + url.skip(pos + 1);
        assert(head.len() == 19);
        assert forall|k: int| 0 <= k < 18 implies once[k] != '@' by {
            assert(once[k] == head[k]);
        }
        lemma_find_char(once, '@', 0, 18);
        assert(once.skip(19) =~= url.skip(pos + 1));
    }
    // Redis.
    let sep = "://"@;
    if let Some(pos) = find(url, sep) {
        let rest = url.skip(pos + 3);
        if let Some(a) = find(rest, at) {
            lemma_find_from_matches(url, sep, 0);
            let stars = "*****@"@;
            let tail = rest.skip(a + 1);
            let once = url.take(pos + 3) + stars + tail;
            assert(once.take(pos + 3) =~= url.take(pos + 3));
            lemma_find_prefix(url, once, sep, 0, pos, pos + 3);
            let rest2 = once.skip(pos + 3);
            assert(rest2 =~= stars + tail);
            assert(stars.len() == 6);
            assert forall|k: int| 0 <= k < 5 implies rest2[k] != '@' by {
                assert(rest2[k] == stars[k]);
            }
            lemma_find_char(rest2, '@', 0, 5);
            assert(rest2.skip(6) =~= tail);
            assert(url.take(pos + 3) + stars + tail =~= once.take(pos + 3) + stars + rest2.skip(6));
        }
    }
}

} // verus!
