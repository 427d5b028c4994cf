//! Normalization of one raw line into the final secret.
//!
//! In order: exactly one trailing line feed is trimmed, then exactly one
//! trailing carriage return; then everything up to and including the last
//! line-kill character is discarded. The line-kill step models the
//! terminal's own line-erase behavior for sources where the operating
//! system did not consume the control character before delivery.

use vstd::prelude::*;

use crate::secret::SecureString;

verus! {

/// Line feed, the line terminator.
pub const LF: u8 = 10;

/// Carriage return, trimmed when it precedes the line feed.
pub const CR: u8 = 13;

/// The line-kill control character: a terminal reads it as "erase
/// everything typed so far on this line".
pub const LINE_KILL: u8 = 21;

/// One trailing line feed removed, then one trailing carriage return.
pub open spec fn trim_line_ending(s: Seq<u8>) -> Seq<u8> {
    let t = if s.len() > 0 && s.last() == LF {
        s.drop_last()
    } else {
        s
    };
    if t.len() > 0 && t.last() == CR {
        t.drop_last()
    } else {
        t
    }
}

/// The suffix after the last line-kill character, or the whole sequence
/// when none occurs.
pub open spec fn after_last_kill(s: Seq<u8>) -> Seq<u8>
    decreases s.len(),
{
    if s.len() == 0 {
        s
    } else if s.last() == LINE_KILL {
        Seq::<u8>::empty()
    } else {
        after_last_kill(s.drop_last()).push(s.last())
    }
}

/// What a raw line normalizes to: line ending trimmed, then line-kill
/// handling applied.
pub open spec fn normalize_spec(s: Seq<u8>) -> Seq<u8> {
    after_last_kill(trim_line_ending(s))
}

/// A line terminated by a carriage return and a line feed normalizes to
/// the text with both terminators removed, whatever the text is.
pub proof fn lemma_crlf_trimmed(s: Seq<u8>)
    ensures
        trim_line_ending(s.push(CR).push(LF)) == s,
{
    assert(s.push(CR).push(LF).drop_last() =~= s.push(CR));
    assert(s.push(CR).drop_last() =~= s);
}

/// A line terminated by a bare line feed normalizes to the text with the
/// terminator removed, provided the text itself does not end in a
/// carriage return.
pub proof fn lemma_lf_trimmed(s: Seq<u8>)
    requires
        s.len() == 0 || s.last() != CR,
    ensures
        trim_line_ending(s.push(LF)) == s,
{
    assert(s.push(LF).drop_last() =~= s);
}

/// The two line terminators are interchangeable: a line ending in a
/// carriage return and a line feed normalizes exactly as the same line
/// ending in a bare line feed.
pub proof fn lemma_terminator_agnostic(s: Seq<u8>)
    requires
        s.len() == 0 || s.last() != CR,
    ensures
        normalize_spec(s.push(CR).push(LF)) == normalize_spec(s.push(LF)),
        normalize_spec(s.push(CR).push(LF)) == after_last_kill(s),
{
    lemma_crlf_trimmed(s);
    lemma_lf_trimmed(s);
}

/// When a line-kill character stands at position `k` and none follows it,
/// only the text after it survives, even if nothing follows.
pub proof fn lemma_kill_at(s: Seq<u8>, k: int)
    requires
        0 <= k < s.len(),
        s[k] == LINE_KILL,
        forall|j: int| k < j < s.len() ==> s[j] != LINE_KILL,
    ensures
        after_last_kill(s) == s.subrange(k + 1, s.len() as int),
    decreases s.len(),
{
    if k == s.len() - 1 {
        assert(s.subrange(k + 1, s.len() as int) =~= Seq::<u8>::empty());
    } else {
        assert(forall|j: int| k < j < s.drop_last().len() ==> s.drop_last()[j] != LINE_KILL);
        lemma_kill_at(s.drop_last(), k);
        assert(after_last_kill(s) == s.drop_last().subrange(k + 1, s.len() - 1).push(s.last()));
        assert(s.drop_last().subrange(k + 1, s.len() - 1).push(s.last()) =~= s.subrange(
            k + 1,
            s.len() as int,
        ));
    }
}

/// A sequence without a line-kill character survives unchanged.
pub proof fn lemma_no_kill(s: Seq<u8>)
    requires
        forall|j: int| 0 <= j < s.len() ==> s[j] != LINE_KILL,
    ensures
        after_last_kill(s) == s,
    decreases s.len(),
{
    if s.len() > 0 {
        lemma_no_kill(s.drop_last());
        assert(s.drop_last().push(s.last()) =~= s);
    }
}

/// Whatever survives normalization contains no line-kill character.
pub proof fn lemma_kill_handled(s: Seq<u8>)
    ensures
        forall|j: int| 0 <= j < after_last_kill(s).len() ==> after_last_kill(s)[j] != LINE_KILL,
    decreases s.len(),
{
    if s.len() > 0 && s.last() != LINE_KILL {
        lemma_kill_handled(s.drop_last());
        let a = after_last_kill(s.drop_last());
        assert forall|j: int| 0 <= j < after_last_kill(s).len() implies after_last_kill(s)[j]
            != LINE_KILL by {
            if j < a.len() {
                assert(after_last_kill(s)[j] == a[j]);
            } else {
                assert(after_last_kill(s)[j] == s.last());
            }
        }
    }
}

/// Normalizes one raw line: trims the line ending, resolves line-kill
/// characters, and moves the surviving bytes into a fresh secret. The raw
/// buffer is dropped here, which erases it.
pub fn normalize(raw: SecureString) -> (r: SecureString)
    ensures
        r@ == normalize_spec(raw@),
{
    let ghost s = raw@;
    let n = raw.len();

    // Trim exactly one trailing line feed, then one trailing carriage return.
    let mut end = n;
    if end > 0 && raw.byte_at(end - 1) == LF {
        end = end - 1;
    }
    if end > 0 && raw.byte_at(end - 1) == CR {
        end = end - 1;
    }
    let ghost t = trim_line_ending(s);
    proof {
        assert(t =~= s.subrange(0, end as int));
    }

    // Find the position just after the last line-kill character, if any.
    let mut start: usize = 0;
    let mut i = end;
    while i > 0
        invariant_except_break
            start == 0,
            i <= end <= n,
            n == s.len(),
            s == raw@,
            forall|j: int| i <= j < end ==> s[j] != LINE_KILL,
        ensures
            start <= end <= n,
            n == s.len(),
            s == raw@,
            start == 0 ==> forall|j: int| 0 <= j < end ==> s[j] != LINE_KILL,
            start > 0 ==> s[start - 1] == LINE_KILL && (forall|j: int|
                start <= j < end ==> s[j] != LINE_KILL),
        decreases i,
    {
        i = i - 1;
        if raw.byte_at(i) == LINE_KILL {
            start = i + 1;
            break;
        }
    }
    proof {
        if start == 0 {
            lemma_no_kill(t);
        } else {
            lemma_kill_at(t, start - 1);
        }
        assert(t.subrange(start as int, t.len() as int) =~= s.subrange(start as int, end as int));
        assert(normalize_spec(s) == s.subrange(start as int, end as int));
    }

    // Move the surviving bytes into a fresh secret; `raw` drops below and
    // its buffer is erased.
    let mut out = SecureString::new();
    let mut k = start;
    while k < end
        invariant
            start <= k <= end <= n,
            n == s.len(),
            s == raw@,
            out@ == s.subrange(start as int, k as int),
        decreases end - k,
    {
        out.push(raw.byte_at(k));
        proof {
            assert(s.subrange(start as int, k as int).push(s[k as int]) =~= s.subrange(
                start as int,
                k + 1,
            ));
        }
        k = k + 1;
    }
    out
}

} // verus!
