//! Verified text cleanup for raw engine output: removal of control-marker
//! substrings anywhere in the text, whitespace normalization, and trimming.

use vstd::prelude::*;

verus! {

/// The whitespace characters this library trims and collapses.
pub open spec fn is_space_char(c: char) -> bool {
    c == ' ' || c == '\t' || c == '\n' || c == '\r'
}

/// Result of deleting every occurrence of `pat` from `s`, scanning left to
/// right and never re-scanning the text a deleted occurrence exposed.
/// An empty pattern deletes nothing.
pub open spec fn remove_all(s: Seq<char>, pat: Seq<char>) -> Seq<char>
    decreases s.len(),
{
    if pat.len() == 0 || s.len() < pat.len() {
        s
    } else if s.subrange(0, pat.len() as int) == pat {
        remove_all(s.skip(pat.len() as int), pat)
    } else {
        seq![s[0]] + remove_all(s.skip(1), pat)
    }
}

/// One left-to-right pass that copies `s` after `out`, dropping every
/// whitespace run and putting a single space between the words it separated;
/// `pend` records that a run is open and a separator is owed before the next
/// word character.
pub open spec fn norm_rec(s: Seq<char>, out: Seq<char>, pend: bool) -> Seq<char>
    decreases s.len(),
{
    if s.len() == 0 {
        out
    } else if is_space_char(s[0]) {
        norm_rec(s.skip(1), out, true)
    } else if pend && out.len() > 0 {
        norm_rec(s.skip(1), out + seq![' ', s[0]], false)
    } else {
        norm_rec(s.skip(1), out + seq![s[0]], false)
    }
}

/// `s` with every whitespace run collapsed to a single interior space and
/// with no leading or trailing whitespace left.
pub open spec fn normalize_spaces(s: Seq<char>) -> Seq<char> {
    norm_rec(s, Seq::empty(), false)
}

/// `s` without its leading whitespace.
pub open spec fn trim_leading(s: Seq<char>) -> Seq<char>
    decreases s.len(),
{
    if s.len() > 0 && is_space_char(s[0]) {
        trim_leading(s.skip(1))
    } else {
        s
    }
}

/// `s` without its trailing whitespace.
pub open spec fn trim_trailing(s: Seq<char>) -> Seq<char>
    decreases s.len(),
{
    if s.len() > 0 && is_space_char(s[s.len() - 1]) {
        trim_trailing(s.take(s.len() - 1))
    } else {
        s
    }
}

/// `s` without leading and trailing whitespace.
pub open spec fn trim_spec(s: Seq<char>) -> Seq<char> {
    trim_trailing(trim_leading(s))
}

/// The full cleanup applied to one raw chunk of engine output: both control
/// markers are deleted wherever they occur, then the whitespace their removal
/// and the recognition itself left behind is normalized.
pub open spec fn clean_spec(s: Seq<char>) -> Seq<char> {
    normalize_spaces(remove_all(remove_all(s, "<|endoftext|>"@), "EOU"@))
}

/// Whatever whitespace `s` still holds is the plain space character.
pub open spec fn only_plain_spaces(s: Seq<char>) -> bool {
    forall|i: int| 0 <= i < s.len() ==> !is_space_char(s[i]) || s[i] == ' '
}

/// No two spaces stand next to each other in `s`.
pub open spec fn no_double_spaces(s: Seq<char>) -> bool {
    forall|i: int| 0 <= i && i + 1 < s.len() ==> !(#[trigger] s[i] == ' ' && s[i + 1] == ' ')
}

/// Fully normalized text: whitespace only as single plain spaces, and none
/// at either edge.
pub open spec fn well_spaced(s: Seq<char>) -> bool {
    &&& only_plain_spaces(s)
    &&& no_double_spaces(s)
    &&& s.len() > 0 ==> s[0] != ' ' && s[s.len() - 1] != ' '
}

proof fn lemma_norm_rec_well_spaced(s: Seq<char>, out: Seq<char>, pend: bool)
    requires
        well_spaced(out),
    ensures
        well_spaced(norm_rec(s, out, pend)),
    decreases s.len(),
{
    if s.len() == 0 {
    } else if is_space_char(s[0]) {
        lemma_norm_rec_well_spaced(s.skip(1), out, true);
    } else if pend && out.len() > 0 {
        let out2 = out + seq![' ', s[0]];
        assert(out2[out2.len() - 1] == s[0]);
        assert(forall|i: int| 0 <= i < out.len() ==> out2[i] == out[i]);
        assert(well_spaced(out2));
        lemma_norm_rec_well_spaced(s.skip(1), out2, false);
    } else {
        let out2 = out + seq![s[0]];
        assert(out2[out2.len() - 1] == s[0]);
        assert(forall|i: int| 0 <= i < out.len() ==> out2[i] == out[i]);
        assert(well_spaced(out2));
        lemma_norm_rec_well_spaced(s.skip(1), out2, false);
    }
}

/// Normalization law: whatever the input, normalized text never begins or
/// ends with whitespace, and the only whitespace left inside is a single
/// plain space between words.
pub proof fn lemma_normalize_well_spaced(s: Seq<char>)
    ensures
        well_spaced(normalize_spaces(s)),
{
    lemma_norm_rec_well_spaced(s, Seq::empty(), false);
}

/// Cleanup law: cleaned chunk text is always fully normalized, wherever the
/// control markers stood in the raw text.
pub proof fn lemma_clean_well_spaced(s: Seq<char>)
    ensures
        well_spaced(clean_spec(s)),
{
    lemma_norm_rec_well_spaced(remove_all(remove_all(s, "<|endoftext|>"@), "EOU"@), Seq::empty(), false);
}

/// Relies on `String::push`: appends exactly the given character.
#[verifier::external_body]
fn push_char(s: &mut String, c: char)
    ensures
        final(s)@ == old(s)@.push(c),
{
    s.push(c);
}

/// Whether `c` is one of the whitespace characters this library handles.
pub fn is_space(c: char) -> (b: bool)
    ensures
        b == is_space_char(c),
{
    c == ' ' || c == '\t' || c == '\n' || c == '\r'
}

/// Whether `pat` occurs in `s` starting at character position `i`.
fn has_pattern_at(s: &str, pat: &str, i: usize) -> (b: bool)
    requires
        i + pat@.len() <= s@.len(),
    ensures
        b == (s@.subrange(i as int, i as int + pat@.len() as int) == pat@),
{
    let plen = pat.unicode_len();
    let slen = s.unicode_len();
    let mut j: usize = 0;
    while j < plen
        invariant
            plen == pat@.len(),
            slen == s@.len(),
            i + plen <= slen,
            j <= plen,
            forall|k: int| 0 <= k < j ==> s@[i + k] == pat@[k],
        decreases plen - j,
    {
        if s.get_char(i + j) != pat.get_char(j) {
            proof {
                assert(s@.subrange(i as int, i as int + plen as int)[j as int] == s@[i + j]);
            }
            return false;
        }
        j += 1;
    }
    proof {
        assert(s@.subrange(i as int, i as int + plen as int) =~= pat@);
    }
    true
}

/// Deletes every occurrence of `pat` from `s`, scanning left to right.
pub fn remove_pattern(s: &str, pat: &str) -> (r: String)
    requires
        pat@.len() > 0,
    ensures
        r@ == remove_all(s@, pat@),
{
    let slen = s.unicode_len();
    let plen = pat.unicode_len();
    let mut out = String::new();
    let mut i: usize = 0;
    proof {
        assert(s@.skip(0) =~= s@);
    }
    while i < slen
        invariant
            slen == s@.len(),
            plen == pat@.len(),
            plen > 0,
            i <= slen,
            out@ + remove_all(s@.skip(i as int), pat@) == remove_all(s@, pat@),
        decreases slen - i,
    {
        let ghost t = s@.skip(i as int);
        if plen <= slen - i && has_pattern_at(s, pat, i) {
            proof {
                assert(t.subrange(0, plen as int) =~= s@.subrange(i as int, i as int + plen as int));
                assert(t.skip(plen as int) =~= s@.skip(i as int + plen as int));
                assert(remove_all(t, pat@) == remove_all(t.skip(plen as int), pat@));
            }
            i += plen;
        } else {
            let c = s.get_char(i);
            push_char(&mut out, c);
            proof {
                if plen <= slen - i {
                    assert(t.subrange(0, plen as int) =~= s@.subrange(
                        i as int,
                        i as int + plen as int,
                    ));
                    assert(remove_all(t, pat@) == seq![t[0]] + remove_all(t.skip(1), pat@));
                } else {
                    assert(t.len() < plen);
                    assert(remove_all(t, pat@) == t);
                    assert(t.skip(1).len() < plen);
                    assert(remove_all(t.skip(1), pat@) == t.skip(1));
                    assert(t =~= seq![t[0]] + t.skip(1));
                }
                assert(t.skip(1) =~= s@.skip(i as int + 1));
                assert(out@ + remove_all(s@.skip(i as int + 1), pat@) =~= remove_all(s@, pat@));
            }
            i += 1;
        }
    }
    proof {
        assert(s@.skip(slen as int) =~= Seq::<char>::empty());
        assert(out@ + Seq::<char>::empty() =~= out@);
    }
    out
}

/// Collapses every whitespace run in `s` to a single interior space and drops
/// leading and trailing whitespace.
pub fn normalize_text(s: &str) -> (r: String)
    ensures
        r@ == normalize_spaces(s@),
{
    let slen = s.unicode_len();
    let mut out = String::new();
    let mut pend = false;
    let mut i: usize = 0;
    proof {
        assert(s@.skip(0) =~= s@);
    }
    while i < slen
        invariant
            slen == s@.len(),
            i <= slen,
            norm_rec(s@.skip(i as int), out@, pend) == normalize_spaces(s@),
        decreases slen - i,
    {
        let ghost t = s@.skip(i as int);
        let ghost old_out = out@;
        let ghost old_pend = pend;
        let c = s.get_char(i);
        if is_space(c) {
            pend = true;
        } else {
            if pend && !out.as_str().is_empty() {
                push_char(&mut out, ' ');
                push_char(&mut out, c);
                proof {
                    assert(out@ =~= old_out + seq![' ', t[0]]);
                }
            } else {
                push_char(&mut out, c);
                proof {
                    assert(out@ =~= old_out + seq![t[0]]);
                }
            }
            pend = false;
        }
        proof {
            assert(t.skip(1) =~= s@.skip(i as int + 1));
            assert(norm_rec(t, old_out, old_pend) == norm_rec(t.skip(1), out@, pend));
        }
        i += 1;
    }
    proof {
        assert(s@.skip(slen as int) =~= Seq::<char>::empty());
    }
    out
}

/// Drops leading and trailing whitespace, keeping the interior untouched.
pub fn trim_text(s: &str) -> (r: String)
    ensures
        r@ == trim_spec(s@),
{
    let slen = s.unicode_len();
    let mut start: usize = 0;
    proof {
        assert(s@.skip(0) =~= s@);
    }
    while start < slen && is_space(s.get_char(start))
        invariant
            slen == s@.len(),
            start <= slen,
            trim_leading(s@.skip(start as int)) == trim_leading(s@),
        decreases slen - start,
    {
        proof {
            assert(s@.skip(start as int).skip(1) =~= s@.skip(start as int + 1));
        }
        start += 1;
    }
    proof {
        if start == slen {
            assert(s@.skip(start as int) =~= Seq::<char>::empty());
        }
        assert(trim_leading(s@) == s@.skip(start as int));
        assert(s@.skip(start as int) =~= s@.subrange(start as int, slen as int));
    }
    let mut end: usize = slen;
    while end > start && is_space(s.get_char(end - 1))
        invariant
            slen == s@.len(),
            start <= end <= slen,
            trim_trailing(s@.subrange(start as int, end as int)) == trim_trailing(
                s@.subrange(start as int, slen as int),
            ),
        decreases end,
    {
        proof {
            let u = s@.subrange(start as int, end as int);
            assert(u[u.len() - 1] == s@[end - 1]);
            assert(u.take(u.len() - 1) =~= s@.subrange(start as int, end as int - 1));
        }
        end -= 1;
    }
    proof {
        let u = s@.subrange(start as int, end as int);
        if end == start {
            assert(u =~= Seq::<char>::empty());
        }
        assert(trim_trailing(u) == u);
        assert(trim_spec(s@) == u);
    }
    let sub = s.substring_char(start, end);
    sub.to_owned()
}

/// Cleans one raw chunk of engine output: deletes the end-of-text sentinel
/// and the end-of-utterance marker wherever they occur, then normalizes the
/// remaining whitespace.
pub fn clean_chunk_text(raw: &str) -> (r: String)
    ensures
        r@ == clean_spec(raw@),
{
    proof {
        reveal_strlit("<|endoftext|>");
        reveal_strlit("EOU");
    }
    let a = remove_pattern(raw, "<|endoftext|>");
    let b = remove_pattern(a.as_str(), "EOU");
    normalize_text(b.as_str())
}

} // verus!
