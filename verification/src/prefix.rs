use vstd::prelude::*;
use vstd::string::*;
use crate::ids::{BotIdentity, get_bot_id};
use crate::numbers::{dec, push_dec};
use crate::text::{all_ws, char_is_ws, is_ws, lemma_trim_all_ws, lemma_trim_end_concat, lemma_trim_of_trim_end, lemma_word_len_concat, no_ws, starts_with, str_starts_with, str_trim, str_trim_start, trim, trim_end, trim_start, word_len};

verus! {

/// A mention of the bot followed by a space: `<@id> `, or `<@!id> ` when `bang`.
pub open spec fn mention(bot_id: nat, bang: bool) -> Seq<char> {
    (if bang { seq!['<', '@', '!'] } else { seq!['<', '@'] }) + dec(bot_id) + seq!['>', ' ']
}

/// What is left of a (trimmed) message after the prefix or a mention of the bot,
/// if it starts with either; a mention counts only once the bot's id is known.
pub open spec fn strip_invocation(content: Seq<char>, prefix: Seq<char>, bot_id: nat) -> Option<Seq<char>> {
    if starts_with(content, prefix) {
        Some(content.skip(prefix.len() as int))
    } else if bot_id != 0 && starts_with(content, mention(bot_id, false)) {
        Some(content.skip(mention(bot_id, false).len() as int))
    } else if bot_id != 0 && starts_with(content, mention(bot_id, true)) {
        Some(content.skip(mention(bot_id, true).len() as int))
    } else {
        None
    }
}

/// The command word and the rest of the line: the text up to the first
/// whitespace character, and what follows that character, trimmed.
pub open spec fn split_command(t: Seq<char>) -> (Seq<char>, Seq<char>) {
    let k = word_len(t);
    (t.take(k as int), if k < t.len() { trim(t.skip((k + 1) as int)) } else { Seq::<char>::empty() })
}

/// The command and its argument text that a message invokes, if any.
pub open spec fn parse_invocation(content: Seq<char>, prefix: Seq<char>, bot_id: nat) -> Option<(Seq<char>, Seq<char>)> {
    match strip_invocation(trim(content), prefix, bot_id) {
        None => None,
        Some(s) => {
            let t = trim_start(s);
            if t.len() == 0 {
                None
            } else {
                Some(split_command(t))
            }
        },
    }
}

/// Recognises prefix commands in chat messages.
pub struct PrefixRouter {
    prefix: String,
}

impl PrefixRouter {
    /// The prefix that commands start with.
    pub closed spec fn prefix(&self) -> Seq<char> {
        self.prefix@
    }

    /// A router for the given prefix.
    pub fn new(prefix: String) -> (r: PrefixRouter)
        ensures
            r.prefix() == prefix@,
    {
        PrefixRouter { prefix }
    }

    /// Splits a message into the command it invokes and the rest of the line.
    /// A message invokes a command when, once trimmed, it starts with the prefix
    /// or (when the bot's id is known) with a mention of the bot and a space.
    pub fn parse_prefix<'a>(&self, content: &'a str, identity: &BotIdentity) -> (r: Option<(&'a str, &'a str)>)
        ensures
            match r {
                None => parse_invocation(content@, self.prefix(), identity@ as nat) is None,
                Some((command, rest)) => parse_invocation(content@, self.prefix(), identity@ as nat)
                    == Some((command@, rest@)),
            },
    {
        let content = str_trim(content);
        let bot_id = get_bot_id(identity);
        let n = content.unicode_len();
        let stripped: &'a str;
        if str_starts_with(content, self.prefix.as_str()) {
            let m = self.prefix.unicode_len();
            stripped = content.substring_char(m, n);
            proof {
                assert(stripped@ =~= content@.skip(m as int));
            }
        } else if bot_id != 0 {
            let mut mention1 = String::from_str("<@");
            push_dec(&mut mention1, bot_id);
            mention1.append("> ");
            let mut mention2 = String::from_str("<@!");
            push_dec(&mut mention2, bot_id);
            mention2.append("> ");
            proof {
                reveal_strlit("<@");
                reveal_strlit("<@!");
                reveal_strlit("> ");
                assert(mention1@ =~= mention(bot_id as nat, false));
                assert(mention2@ =~= mention(bot_id as nat, true));
            }
            if str_starts_with(content, mention1.as_str()) {
                let m = mention1.unicode_len();
                stripped = content.substring_char(m, n);
                proof {
                    assert(stripped@ =~= content@.skip(m as int));
                }
            } else if str_starts_with(content, mention2.as_str()) {
                let m = mention2.unicode_len();
                stripped = content.substring_char(m, n);
                proof {
                    assert(stripped@ =~= content@.skip(m as int));
                }
            } else {
                return None;
            }
        } else {
            return None;
        }
        let t = str_trim_start(stripped);
        let tn = t.unicode_len();
        if tn == 0 {
            return None;
        }
        let mut k: usize = 0;
        proof {
            assert(t@.skip(0) =~= t@);
        }
        while k < tn && !char_is_ws(t.get_char(k))
            invariant
                tn == t@.len(),
                k <= tn,
                word_len(t@) == k + word_len(t@.skip(k as int)),
            decreases tn - k,
        {
            proof {
                let u = t@.skip(k as int);
                assert(u[0] == t@[k as int]);
                assert(u.drop_first() =~= t@.skip(k + 1));
            }
            k = k + 1;
        }
        proof {
            let u = t@.skip(k as int);
            if k < tn {
                assert(u[0] == t@[k as int]);
            }
            assert(word_len(u) == 0);
        }
        let command = t.substring_char(0, k);
        let rest: &'a str = if k < tn {
            let after = t.substring_char(k + 1, tn);
            proof {
                assert(after@ =~= t@.skip(k + 1));
            }
            str_trim(after)
        } else {
            let empty = t.substring_char(tn, tn);
            proof {
                assert(empty@ =~= Seq::<char>::empty());
            }
            empty
        };
        proof {
            assert(command@ =~= t@.take(k as int));
        }
        Some((command, rest))
    }
}

/// A command word typed right after the prefix is recognised, and the rest of
/// the line, trimmed, becomes its argument text; with nothing after the word the
/// argument text is empty. This holds whatever the bot's id.
pub proof fn law_prefixed_command(p: Seq<char>, w: Seq<char>, rest: Seq<char>, bot_id: nat)
    requires
        p.len() > 0,
        !is_ws(p[0]),
        w.len() > 0,
        no_ws(w),
    ensures
        parse_invocation(p + w + seq![' '] + rest, p, bot_id) == Some((w, trim(rest))),
        parse_invocation(p + w, p, bot_id) == Some((w, Seq::<char>::empty())),
{
    let a = p + w;
    let sp = seq![' '];
    assert(is_ws(' '));
    assert(a.last() == w.last());
    assert(!is_ws(w[w.len() - 1]));
    assert(trim_end(a) == a);
    assert(trim_start(w) == w) by {
        assert(!is_ws(w[0]));
    }
    // Without arguments.
    assert(trim_start(a) == a) by {
        assert(a[0] == p[0]);
    }
    assert(a.subrange(0, p.len() as int) =~= p);
    assert(a.skip(p.len() as int) =~= w);
    lemma_word_len_concat(w, Seq::<char>::empty());
    assert(w + Seq::<char>::empty() =~= w);
    assert(w.take(w.len() as int) =~= w);
    // With arguments.
    let c = a + sp + rest;
    assert(c =~= p + w + seq![' '] + rest);
    assert(trim_start(c) == c) by {
        assert(c[0] == p[0]);
    }
    let b = sp + rest;
    assert(c =~= a + b);
    lemma_trim_end_concat(a, b);
    lemma_trim_end_concat(sp, rest);
    if all_ws(rest) {
        assert(all_ws(b)) by {
            assert forall|i: int| 0 <= i < b.len() implies is_ws(#[trigger] b[i]) by {
                if i > 0 {
                    assert(b[i] == rest[i - 1]);
                }
            }
        }
        lemma_trim_all_ws(rest);
        assert(trim(rest) == Seq::<char>::empty());
    } else {
        assert(!all_ws(b)) by {
            let j = choose|j: int| 0 <= j < rest.len() && !is_ws(#[trigger] rest[j]);
            assert(b[j + 1] == rest[j]);
        }
        let te = trim_end(rest);
        let t = c.skip(p.len() as int);
        let trimmed = a + (sp + te);
        assert(trim(c) == trimmed);
        assert(trimmed.subrange(0, p.len() as int) =~= p);
        let stripped = trimmed.skip(p.len() as int);
        assert(stripped =~= w + (sp + te));
        assert(trim_start(stripped) == stripped) by {
            assert(stripped[0] == w[0]);
        }
        lemma_word_len_concat(w, sp + te);
        assert(stripped.take(w.len() as int) =~= w);
        assert(stripped.skip((w.len() + 1) as int) =~= te);
        lemma_trim_of_trim_end(rest);
    }
}

} // verus!
