//! Repair of backslash escapes that the pattern dialect does not need.

use vstd::prelude::*;
use crate::text::push_char;

verus! {

/// The characters that some rule sources escape although the pattern
/// dialect takes them bare: `!`, space and `/`.
pub open spec fn is_needless_escape(c: char) -> bool {
    c == '!' || c == ' ' || c == '/'
}

/// Whether `s` begins with a backslash followed by a needlessly escaped
/// character.
pub open spec fn starts_with_escape(s: Seq<char>) -> bool {
    s.len() >= 2 && s[0] == '\\' && is_needless_escape(s[1])
}

/// The pattern `s` after repair: read from the left, each backslash that
/// stands before `!`, space or `/` is dropped, and everything else is kept.
pub open spec fn repaired(s: Seq<char>) -> Seq<char>
    decreases s.len(),
{
    if s.len() == 0 {
        s
    } else if starts_with_escape(s) {
        seq![s[1]] + repaired(s.skip(2))
    } else {
        seq![s[0]] + repaired(s.skip(1))
    }
}

/// A backslash that was read and is not yet written, if there is one.
pub open spec fn held(pending: bool) -> Seq<char> {
    if pending {
        seq!['\\']
    } else {
        Seq::empty()
    }
}

/// Rewrites every backslash escape of `!`, space or `/` in `pattern` to the
/// bare character.
pub fn clean_escapes(pattern: &str) -> (r: String)
    ensures
        r@ == repaired(pattern@),
{
    let mut out = String::new();
    let mut pending = false;
    proof {
        assert(held(false) + pattern@.skip(0) =~= pattern@);
        assert(out@ + repaired(pattern@) =~= repaired(pattern@));
    }
    for c in it: pattern.chars()
        invariant
            it.seq() == pattern@,
            repaired(pattern@) == out@ + repaired(
                held(pending) + pattern@.skip(it.index() as int),
            ),
    {
        let ghost i = it.index() as int;
        let ghost rest = pattern@.skip(i);
        let ghost next = pattern@.skip(i + 1);
        let ghost read = held(pending) + rest;
        let ghost before = out@;
        proof {
            assert(rest[0] == c);
            assert(rest.skip(1) =~= next);
        }
        if pending {
            if c == '!' || c == ' ' || c == '/' {
                push_char(&mut out, c);
                pending = false;
                proof {
                    assert(starts_with_escape(read));
                    assert(read.skip(2) =~= next);
                    assert(held(false) + next =~= next);
                    assert(out@ + repaired(next) =~= before + (seq![c] + repaired(next)));
                }
            } else {
                push_char(&mut out, '\\');
                proof {
                    assert(!starts_with_escape(read));
                    assert(read.skip(1) =~= rest);
                    assert(repaired(read) == seq!['\\'] + repaired(rest));
                }
                if c != '\\' {
                    push_char(&mut out, c);
                    pending = false;
                    proof {
                        assert(!starts_with_escape(rest));
                        assert(held(false) + next =~= next);
                        assert(out@ + repaired(next) =~= before + (seq!['\\'] + (seq![c]
                            + repaired(next))));
                    }
                } else {
                    proof {
                        assert(held(true) + next =~= rest);
                        assert(out@ + repaired(rest) =~= before + (seq!['\\'] + repaired(rest)));
                    }
                }
            }
        } else if c == '\\' {
            pending = true;
            proof {
                assert(read =~= rest);
                assert(held(true) + next =~= rest);
            }
        } else {
            push_char(&mut out, c);
            proof {
                assert(read =~= rest);
                assert(!starts_with_escape(rest));
                assert(held(false) + next =~= next);
                assert(out@ + repaired(next) =~= before + (seq![c] + repaired(next)));
            }
        }
    }
    let ghost left = held(pending) + pattern@.skip(pattern@.len() as int);
    let ghost before = out@;
    if pending {
        push_char(&mut out, '\\');
        proof {
            assert(left =~= seq!['\\']);
            assert(!starts_with_escape(left));
            assert(left.skip(1).len() == 0);
            assert(repaired(left.skip(1)) =~= Seq::empty());
            assert(repaired(left) =~= seq!['\\']);
            assert(out@ =~= before + repaired(left));
        }
    } else {
        proof {
            assert(left.len() == 0);
            assert(before + repaired(left) =~= before);
        }
    }
    out
}

/// Whether `s` holds an escape that repair would rewrite: a backslash
/// followed by `!`, space or `/`.
pub open spec fn has_escape(s: Seq<char>) -> bool {
    exists|i: int|
        0 <= i && i + 1 < s.len() && #[trigger] s[i] == '\\' && is_needless_escape(s[i + 1])
}

/// Whether `s` holds an escape that repair would rewrite, with a backslash
/// right before it.
pub open spec fn has_escaped_escape(s: Seq<char>) -> bool {
    exists|i: int|
        0 <= i && i + 2 < s.len() && #[trigger] s[i] == '\\' && s[i + 1] == '\\'
            && is_needless_escape(s[i + 2])
}

/// Repair leaves a pattern without escapes to rewrite as it is.
pub proof fn lemma_repair_keeps_clean_pattern(s: Seq<char>)
    requires
        !has_escape(s),
    ensures
        repaired(s) == s,
    decreases s.len(),
{
    if s.len() > 0 {
        let rest = s.skip(1);
        assert(!(s[0] == '\\' && 1 < s.len() && is_needless_escape(s[1])));
        assert forall|i: int| 0 <= i && i + 1 < rest.len() implies !(#[trigger] rest[i] == '\\'
            && is_needless_escape(rest[i + 1])) by {
            assert(rest[i] == s[i + 1]);
            assert(rest[i + 1] == s[i + 2]);
        }
        lemma_repair_keeps_clean_pattern(rest);
        assert(seq![s[0]] + rest =~= s);
    }
}

/// A repaired pattern holds no escape to rewrite, unless the pattern held
/// one with a backslash right before it.
pub proof fn lemma_repaired_is_clean(s: Seq<char>)
    requires
        !has_escaped_escape(s),
    ensures
        !has_escape(repaired(s)),
    decreases s.len(),
{
    let out = repaired(s);
    if s.len() > 0 {
        let step: int = if starts_with_escape(s) {
            2
        } else {
            1
        };
        let rest = s.skip(step);
        let tail = repaired(rest);
        assert(out == seq![s[step - 1]] + tail);
        assert forall|i: int| 0 <= i && i + 2 < rest.len() implies !(#[trigger] rest[i] == '\\'
            && rest[i + 1] == '\\' && is_needless_escape(rest[i + 2])) by {
            assert(rest[i] == s[i + step]);
            assert(rest[i + 1] == s[i + step + 1]);
            assert(rest[i + 2] == s[i + step + 2]);
        }
        lemma_repaired_is_clean(rest);
        assert forall|i: int| 0 <= i && i + 1 < out.len() implies !(#[trigger] out[i] == '\\'
            && is_needless_escape(out[i + 1])) by {
            if i >= 1 {
                assert(out[i] == tail[i - 1]);
                assert(out[i + 1] == tail[i]);
            } else if step == 1 && s[0] == '\\' {
                assert(out[1] == tail[0]);
                assert(rest.len() > 0);
                assert(rest[0] == s[1]);
                if starts_with_escape(rest) {
                    assert(rest[1] == s[2]);
                    assert(s[0] == '\\' && s[1] == '\\' && is_needless_escape(s[2]));
                    assert(tail[0] == rest[1]);
                } else {
                    assert(tail[0] == rest[0]);
                }
            }
        }
    }
}

/// Repairing twice gives what repairing once gives, for every pattern that
/// holds no escape of `!`, space or `/` with a backslash right before it.
/// (Of such a pattern the first repair leaves that backslash before the
/// bare character, and the second takes it for an escape.)
pub proof fn lemma_repair_idempotent(s: Seq<char>)
    requires
        !has_escaped_escape(s),
    ensures
        repaired(repaired(s)) == repaired(s),
{
    lemma_repaired_is_clean(s);
    lemma_repair_keeps_clean_pattern(repaired(s));
}

/// Repair never lengthens a pattern, and shortens one that holds an escape
/// to rewrite.
pub proof fn lemma_repair_shortens(s: Seq<char>)
    ensures
        repaired(s).len() <= s.len(),
        has_escape(s) ==> repaired(s).len() < s.len(),
    decreases s.len(),
{
    if s.len() > 0 {
        if starts_with_escape(s) {
            lemma_repair_shortens(s.skip(2));
        } else {
            let rest = s.skip(1);
            lemma_repair_shortens(rest);
            if has_escape(s) {
                let i = choose|i: int|
                    0 <= i && i + 1 < s.len() && #[trigger] s[i] == '\\' && is_needless_escape(
                        s[i + 1],
                    );
                assert(i >= 1);
                assert(rest[i - 1] == s[i] && rest[i] == s[i + 1]);
            }
        }
    }
}

/// An escape with a backslash right before it leaves, after repair, an
/// escape to rewrite.
pub proof fn lemma_escaped_escape_survives(s: Seq<char>)
    requires
        has_escaped_escape(s),
    ensures
        has_escape(repaired(s)),
    decreases s.len(),
{
    let out = repaired(s);
    let i = choose|i: int|
        0 <= i && i + 2 < s.len() && #[trigger] s[i] == '\\' && s[i + 1] == '\\'
            && is_needless_escape(s[i + 2]);
    let step: int = if starts_with_escape(s) {
        2
    } else {
        1
    };
    let rest = s.skip(step);
    let tail = repaired(rest);
    assert(out == seq![s[step - 1]] + tail);
    if i >= step {
        assert(rest[i - step] == s[i] && rest[i - step + 1] == s[i + 1] && rest[i - step + 2]
            == s[i + 2]);
        lemma_escaped_escape_survives(rest);
        let j = choose|j: int|
            0 <= j && j + 1 < tail.len() && #[trigger] tail[j] == '\\' && is_needless_escape(
                tail[j + 1],
            );
        assert(out[j + 1] == tail[j] && out[j + 2] == tail[j + 1]);
    } else {
        assert(i == 0 && step == 1);
        assert(rest[0] == s[1] && rest[1] == s[2]);
        assert(starts_with_escape(rest));
        assert(tail[0] == rest[1]);
        assert(out[0] == s[0] && out[1] == tail[0]);
    }
}

/// Repairing twice differs from repairing once for every pattern that
/// holds an escape of `!`, space or `/` with a backslash right before it.
pub proof fn lemma_repair_twice_differs(s: Seq<char>)
    requires
        has_escaped_escape(s),
    ensures
        repaired(repaired(s)) != repaired(s),
{
    lemma_escaped_escape_survives(s);
    lemma_repair_shortens(repaired(s));
}

} // verus!
