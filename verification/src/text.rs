//! Character-sequence text operations and their laws.
//!
//! File contents, configuration lines and log messages are all plain text;
//! this module gives the text transformations the rest of the crate relies
//! on (substring search, occurrence removal, line appending, splitting,
//! trimming) exact specifications over `Seq<char>`.

use vstd::prelude::*;

verus! {

/// The pattern `p` occurs in `s` starting at position `i`.
pub open spec fn match_at(s: Seq<char>, p: Seq<char>, i: int) -> bool {
    0 <= i && i + p.len() <= s.len() && s.subrange(i, i + p.len() as int) == p
}

/// The pattern `p` occurs somewhere in `s`.
pub open spec fn contains_seq(s: Seq<char>, p: Seq<char>) -> bool {
    exists|i: int| match_at(s, p, i)
}

/// Character-wise string equality, usable on any two string slices.
pub fn str_eq(a: &str, b: &str) -> (r: bool)
    ensures
        r == (a@ == b@),
{
    let a_len = a.unicode_len();
    let b_len = b.unicode_len();
    if a_len != b_len {
        return false;
    }
    let mut i: usize = 0;
    while i < a_len
        invariant
            a_len == a@.len(),
            b_len == b@.len(),
            a_len == b_len,
            i <= a_len,
            forall|j: int| 0 <= j < i ==> a@[j] == b@[j],
        decreases a_len - i,
    {
        if a.get_char(i) != b.get_char(i) {
            return false;
        }
        i = i + 1;
    }
    proof {
        assert(a@ =~= b@);
    }
    true
}

/// Whether `pat` occurs in `s` at position `i`, checked character by character.
pub fn is_match_at(s: &str, pat: &str, i: usize) -> (r: bool)
    requires
        i + pat@.len() <= s@.len(),
    ensures
        r == match_at(s@, pat@, i as int),
{
    let s_len = s.unicode_len();
    let pat_len = pat.unicode_len();
    let mut j: usize = 0;
    while j < pat_len
        invariant
            s_len == s@.len(),
            pat_len == pat@.len(),
            i + pat_len <= s_len,
            j <= pat_len,
            forall|k: int| 0 <= k < j ==> s@[i + k] == pat@[k],
        decreases pat_len - j,
    {
        if s.get_char(i + j) != pat.get_char(j) {
            proof {
                assert(s@.subrange(i as int, i + pat@.len() as int)[j as int] == s@[i + j]);
            }
            return false;
        }
        j = j + 1;
    }
    proof {
        assert(s@.subrange(i as int, i + pat@.len() as int) =~= pat@);
    }
    true
}

/// One left-to-right sweep over `s`, dropping each occurrence of `p` as soon
/// as it starts and resuming right after it.
pub open spec fn remove_pass(s: Seq<char>, p: Seq<char>) -> Seq<char>
    decreases s.len(),
{
    if p.len() == 0 || s.len() < p.len() {
        s
    } else if match_at(s, p, 0) {
        remove_pass(s.skip(p.len() as int), p)
    } else {
        seq![s[0]] + remove_pass(s.skip(1), p)
    }
}

/// A sweep never lengthens the text, and a sweep that changed nothing
/// returned the text itself.
pub proof fn lemma_remove_pass_len(s: Seq<char>, p: Seq<char>)
    ensures
        remove_pass(s, p).len() <= s.len(),
        remove_pass(s, p).len() == s.len() ==> remove_pass(s, p) == s,
    decreases s.len(),
{
    if p.len() == 0 || s.len() < p.len() {
    } else if match_at(s, p, 0) {
        lemma_remove_pass_len(s.skip(p.len() as int), p);
    } else {
        lemma_remove_pass_len(s.skip(1), p);
        if remove_pass(s, p).len() == s.len() {
            assert(remove_pass(s.skip(1), p) == s.skip(1));
            assert(remove_pass(s, p) =~= s);
        }
    }
}

/// Removal of every occurrence of `p` from `s`: sweeps are repeated until one
/// changes nothing, so occurrences formed by the removal itself are removed
/// as well.  An empty pattern removes nothing.
pub open spec fn remove_all(s: Seq<char>, p: Seq<char>) -> Seq<char>
    decreases s.len(),
{
    if remove_pass(s, p) == s {
        s
    } else {
        proof {
            lemma_remove_pass_len(s, p);
        }
        remove_all(remove_pass(s, p), p)
    }
}

/// An occurrence inside a skipped suffix is an occurrence of the whole text.
proof fn lemma_match_in_skip(s: Seq<char>, p: Seq<char>, k: int, j: int)
    requires
        0 <= k <= s.len(),
        match_at(s.skip(k), p, j),
    ensures
        match_at(s, p, j + k),
{
    assert(s.subrange(j + k, j + k + p.len()) =~= s.skip(k).subrange(j, j + p.len() as int));
}

/// An occurrence at or past position `k` is an occurrence of the suffix from `k`.
proof fn lemma_match_past_skip(s: Seq<char>, p: Seq<char>, k: int, i: int)
    requires
        0 <= k <= i,
        match_at(s, p, i),
    ensures
        match_at(s.skip(k), p, i - k),
{
    assert(s.skip(k).subrange(i - k, i - k + p.len() as int) =~= s.subrange(i, i + p.len() as int));
}

/// A sweep over a text with no occurrence changes nothing.
pub proof fn lemma_remove_pass_no_match(s: Seq<char>, p: Seq<char>)
    requires
        p.len() > 0,
        !contains_seq(s, p),
    ensures
        remove_pass(s, p) == s,
    decreases s.len(),
{
    if s.len() < p.len() {
    } else if match_at(s, p, 0) {
        assert(contains_seq(s, p));
    } else {
        assert forall|j: int| !match_at(s.skip(1), p, j) by {
            if match_at(s.skip(1), p, j) {
                lemma_match_in_skip(s, p, 1, j);
            }
        }
        lemma_remove_pass_no_match(s.skip(1), p);
        assert(remove_pass(s, p) =~= s);
    }
}

/// Conversely, a sweep that changed nothing had no occurrence to remove.
pub proof fn lemma_remove_pass_fixpoint(s: Seq<char>, p: Seq<char>)
    requires
        p.len() > 0,
        remove_pass(s, p) == s,
    ensures
        !contains_seq(s, p),
    decreases s.len(),
{
    if s.len() < p.len() {
        assert forall|i: int| !match_at(s, p, i) by {}
    } else if match_at(s, p, 0) {
        lemma_remove_pass_len(s.skip(p.len() as int), p);
        assert(remove_pass(s, p).len() <= s.len() - p.len());
    } else {
        let rest = remove_pass(s.skip(1), p);
        assert((seq![s[0]] + rest).len() == s.len());
        assert(rest.len() == s.skip(1).len());
        lemma_remove_pass_len(s.skip(1), p);
        lemma_remove_pass_fixpoint(s.skip(1), p);
        assert forall|i: int| !match_at(s, p, i) by {
            if match_at(s, p, i) && i >= 1 {
                lemma_match_past_skip(s, p, 1, i);
            }
        }
    }
}

/// After `remove_all` with a non-empty pattern, no occurrence is left.
pub proof fn lemma_remove_all_no_match(s: Seq<char>, p: Seq<char>)
    requires
        p.len() > 0,
    ensures
        !contains_seq(remove_all(s, p), p),
    decreases s.len(),
{
    if remove_pass(s, p) == s {
        lemma_remove_pass_fixpoint(s, p);
    } else {
        lemma_remove_pass_len(s, p);
        lemma_remove_all_no_match(remove_pass(s, p), p);
    }
}

/// A text with no occurrence of the pattern is left untouched by `remove_all`.
pub proof fn lemma_remove_all_stable(s: Seq<char>, p: Seq<char>)
    requires
        p.len() > 0,
        !contains_seq(s, p),
    ensures
        remove_all(s, p) == s,
{
    lemma_remove_pass_no_match(s, p);
}

/// LAW — removing every occurrence of a pattern is idempotent: a second
/// removal of the same pattern finds nothing to change.
pub proof fn lemma_remove_all_idempotent(s: Seq<char>, p: Seq<char>)
    ensures
        remove_all(remove_all(s, p), p) == remove_all(s, p),
{
    if p.len() == 0 {
        assert(remove_pass(s, p) == s);
        assert(remove_all(s, p) == s);
    } else {
        lemma_remove_all_no_match(s, p);
        lemma_remove_all_stable(remove_all(s, p), p);
    }
}

/// Appending a line to a file's content: a newline is inserted first unless
/// the content already ends with one, so the line starts on a line of its own.
pub open spec fn append_line_seq(content: Seq<char>, line: Seq<char>) -> Seq<char> {
    if content.len() > 0 && content.last() == '\n' {
        content + line
    } else {
        content + seq!['\n'] + line
    }
}

/// The number of positions at which `p` occurs in `s` (overlaps counted).
pub open spec fn count_matches(s: Seq<char>, p: Seq<char>) -> nat
    decreases s.len(),
{
    if p.len() == 0 || s.len() < p.len() {
        0
    } else {
        (if match_at(s, p, 0) {
            1nat
        } else {
            0nat
        }) + count_matches(s.skip(1), p)
    }
}

/// The count is zero exactly when there is no occurrence.
pub proof fn lemma_count_zero(s: Seq<char>, p: Seq<char>)
    requires
        p.len() > 0,
    ensures
        count_matches(s, p) == 0 <==> !contains_seq(s, p),
    decreases s.len(),
{
    if s.len() < p.len() {
        assert forall|i: int| !match_at(s, p, i) by {}
    } else {
        lemma_count_zero(s.skip(1), p);
        if contains_seq(s, p) {
            let i = choose|i: int| match_at(s, p, i);
            if i >= 1 {
                lemma_match_past_skip(s, p, 1, i);
            }
            assert(count_matches(s, p) > 0);
        }
        if count_matches(s, p) > 0 {
            if !match_at(s, p, 0) {
                let j = choose|j: int| match_at(s.skip(1), p, j);
                lemma_match_in_skip(s, p, 1, j);
            }
        }
    }
}

/// A text with exactly one occurrence position has a count of one.
pub proof fn lemma_count_single(s: Seq<char>, p: Seq<char>, i0: int)
    requires
        p.len() > 0,
        match_at(s, p, i0),
        forall|j: int| match_at(s, p, j) ==> j == i0,
    ensures
        count_matches(s, p) == 1,
    decreases s.len(),
{
    if i0 == 0 {
        assert forall|j: int| !match_at(s.skip(1), p, j) by {
            if match_at(s.skip(1), p, j) {
                lemma_match_in_skip(s, p, 1, j);
            }
        }
        lemma_count_zero(s.skip(1), p);
    } else {
        lemma_match_past_skip(s, p, 1, i0);
        assert forall|j: int| match_at(s.skip(1), p, j) implies j == i0 - 1 by {
            lemma_match_in_skip(s, p, 1, j);
        }
        lemma_count_single(s.skip(1), p, i0 - 1);
    }
}

/// The configuration-file content produced by an install step: every stale
/// copy of the reference line is removed, then one fresh copy is appended on
/// its own line.
pub open spec fn install_line_update(content: Seq<char>, line: Seq<char>) -> Seq<char> {
    append_line_seq(remove_all(content, line), line)
}

/// LAW — one install step leaves exactly one copy of the reference line,
/// whatever the prior content held.  In particular, installing twice in a row
/// still leaves exactly one copy, since the second step starts from the first
/// step's output, which is itself just a prior content.
pub proof fn lemma_install_line_unique(content: Seq<char>, line: Seq<char>)
    requires
        line.len() > 0,
        !line.contains('\n'),
    ensures
        count_matches(install_line_update(content, line), line) == 1,
{
    let c = remove_all(content, line);
    let r = install_line_update(content, line);
    lemma_remove_all_no_match(content, line);
    let n = c.len() as int;
    if c.len() > 0 && c.last() == '\n' {
        let i0 = n;
        assert(r.subrange(i0, i0 + line.len()) =~= line);
        assert forall|j: int| match_at(r, line, j) implies j == i0 by {
            lemma_unique_position_tail(c, line, j, 0);
        }
        lemma_count_single(r, line, i0);
    } else {
        let i0 = n + 1;
        assert(r.subrange(i0, i0 + line.len()) =~= line);
        assert forall|j: int| match_at(r, line, j) implies j == i0 by {
            lemma_unique_position_tail(c, line, j, 1);
        }
        lemma_count_single(r, line, i0);
    }
}

/// In `c + separator + line` (where `c` has no occurrence, the line has no
/// newline, and the character before the appended line is a newline), the
/// only occurrence of `line` is the appended copy itself.
proof fn lemma_unique_position_tail(c: Seq<char>, line: Seq<char>, j: int, sep: int)
    requires
        line.len() > 0,
        !line.contains('\n'),
        !contains_seq(c, line),
        sep == 0 || sep == 1,
        sep == 0 ==> c.len() > 0 && c.last() == '\n',
        match_at(
            if sep == 0 {
                c + line
            } else {
                c + seq!['\n'] + line
            },
            line,
            j,
        ),
    ensures
        j == c.len() + sep,
{
    let r = if sep == 0 {
        c + line
    } else {
        c + seq!['\n'] + line
    };
    let n = c.len() as int;
    let nl_pos = n - 1 + sep;
    if j < c.len() + sep {
        if j + line.len() <= n {
            assert(c.subrange(j, j + line.len() as int) =~= r.subrange(j, j + line.len() as int));
            assert(match_at(c, line, j));
            assert(false);
        } else {
            assert(j <= nl_pos < j + line.len());
            assert(r[nl_pos] == '\n');
            assert(r.subrange(j, j + line.len() as int)[nl_pos - j] == r[nl_pos]);
            assert(line[nl_pos - j] == '\n');
            assert(false);
        }
    }
}

/// A sweep over `c + p`, where `c` holds no occurrence of `p`, `p` holds no
/// newline, and `c` (when non-empty) ends with a newline, removes exactly the
/// appended copy.
proof fn lemma_remove_pass_suffix(c: Seq<char>, p: Seq<char>)
    requires
        p.len() > 0,
        !p.contains('\n'),
        !contains_seq(c, p),
        c.len() > 0 ==> c.last() == '\n',
    ensures
        remove_pass(c + p, p) == c,
    decreases c.len(),
{
    let s = c + p;
    if c.len() == 0 {
        assert(s =~= p);
        assert(s.subrange(0, p.len() as int) =~= p);
        assert(s.skip(p.len() as int) =~= Seq::<char>::empty());
        assert(remove_pass(Seq::<char>::empty(), p) == Seq::<char>::empty());
        assert(remove_pass(s, p) == remove_pass(s.skip(p.len() as int), p));
        assert(remove_pass(s, p) =~= c);
    } else {
        let n = c.len() as int;
        assert(!match_at(s, p, 0)) by {
            if match_at(s, p, 0) {
                if p.len() <= c.len() {
                    assert(c.subrange(0, p.len() as int) =~= s.subrange(0, p.len() as int));
                    assert(match_at(c, p, 0));
                } else {
                    assert(0 <= n - 1 < p.len());
                    assert(s.subrange(0, p.len() as int)[n - 1] == s[n - 1]);
                    assert(p[n - 1] == '\n');
                    assert(p.contains('\n'));
                }
            }
        }
        assert forall|j: int| !match_at(c.skip(1), p, j) by {
            if match_at(c.skip(1), p, j) {
                lemma_match_in_skip(c, p, 1, j);
            }
        }
        assert(c.skip(1).len() > 0 ==> c.skip(1).last() == c.last());
        assert(s.skip(1) =~= c.skip(1) + p);
        lemma_remove_pass_suffix(c.skip(1), p);
        assert(remove_pass(s.skip(1), p) == c.skip(1));
        assert(remove_pass(s, p) == seq![s[0]] + c.skip(1));
        assert(s[0] == c[0]);
        assert(remove_pass(s, p) =~= c);
    }
}

/// LAW — appending a line and then removing that same line restores the
/// content it was appended to, provided the content ends with a newline and
/// held no copy of the line already, and the line itself is newline-free.
pub proof fn lemma_append_then_remove_roundtrip(content: Seq<char>, line: Seq<char>)
    requires
        line.len() > 0,
        !line.contains('\n'),
        !contains_seq(content, line),
        content.len() > 0,
        content.last() == '\n',
    ensures
        remove_all(append_line_seq(content, line), line) == content,
{
    let s = append_line_seq(content, line);
    assert(s == content + line);
    lemma_remove_pass_suffix(content, line);
    assert(s.len() == content.len() + line.len());
    assert(remove_pass(s, line) != s);
    lemma_remove_all_stable(content, line);
}

/// One executable left-to-right sweep (see `remove_pass`).
fn remove_pass_exec(s: &str, pat: &str) -> (r: String)
    requires
        pat@.len() > 0,
    ensures
        r@ == remove_pass(s@, pat@),
{
    let s_len = s.unicode_len();
    let pat_len = pat.unicode_len();
    let mut out = String::new();
    let mut i: usize = 0;
    proof {
        assert(s@.skip(0) =~= s@);
        assert(Seq::<char>::empty() + remove_pass(s@, pat@) =~= remove_pass(s@, pat@));
    }
    while i < s_len
        invariant
            s_len == s@.len(),
            pat_len == pat@.len(),
            pat_len > 0,
            i <= s_len,
            out@ + remove_pass(s@.skip(i as int), pat@) == remove_pass(s@, pat@),
        decreases s_len - i,
    {
        let ghost t = s@.skip(i as int);
        if pat_len <= s_len - i && is_match_at(s, pat, i) {
            proof {
                assert(t.subrange(0, pat@.len() as int) =~= s@.subrange(
                    i as int,
                    i + pat@.len(),
                ));
                assert(match_at(t, pat@, 0));
                assert(t.skip(pat@.len() as int) =~= s@.skip(i + pat@.len()));
            }
            i = i + pat_len;
        } else {
            proof {
                if pat_len <= s_len - i {
                    assert(t.subrange(0, pat@.len() as int) =~= s@.subrange(
                        i as int,
                        i + pat@.len(),
                    ));
                    assert(!match_at(t, pat@, 0));
                } else {
                    assert(remove_pass(t, pat@) == t);
                    assert(remove_pass(t.skip(1), pat@) == t.skip(1));
                }
                assert(t.skip(1) =~= s@.skip(i + 1));
                assert(seq![t[0]] + t.skip(1) =~= t);
                assert(s@.subrange(i as int, i + 1) =~= seq![t[0]]);
            }
            out.append(s.substring_char(i, i + 1));
            i = i + 1;
        }
    }
    proof {
        assert(s@.skip(s_len as int) =~= Seq::<char>::empty());
        assert(remove_pass(Seq::<char>::empty(), pat@) == Seq::<char>::empty());
        assert(out@ =~= remove_pass(s@, pat@));
    }
    out
}

/// Removes every occurrence of `pat` from `s`, sweeping until none is left.
pub fn remove_all_occurrences(s: &str, pat: &str) -> (r: String)
    ensures
        r@ == remove_all(s@, pat@),
{
    let pat_len = pat.unicode_len();
    if pat_len == 0 {
        proof {
            assert(remove_pass(s@, pat@) == s@);
        }
        return String::from_str(s);
    }
    let mut cur = String::from_str(s);
    let mut stable = false;
    while !stable
        invariant
            pat_len == pat@.len(),
            pat_len > 0,
            remove_all(cur@, pat@) == remove_all(s@, pat@),
            stable ==> remove_pass(cur@, pat@) == cur@,
        decreases (if stable {
            0int
        } else {
            cur@.len() + 1int
        }),
    {
        let next = remove_pass_exec(cur.as_str(), pat);
        if str_eq(next.as_str(), cur.as_str()) {
            stable = true;
        } else {
            proof {
                lemma_remove_pass_len(cur@, pat@);
            }
            cur = next;
        }
    }
    cur
}

/// Appends `line` to `content` on a line of its own (see `append_line_seq`).
pub fn append_line_content(content: &str, line: &str) -> (r: String)
    ensures
        r@ == append_line_seq(content@, line@),
{
    let n = content.unicode_len();
    let mut out = String::from_str(content);
    if n == 0 || content.get_char(n - 1) != '\n' {
        out.append("\n");
        proof {
            reveal_strlit("\n");
            assert("\n"@ =~= seq!['\n']);
        }
    }
    out.append(line);
    out
}

/// The position of the first occurrence of `pat` in `s`, if any.
pub fn find_first_match(s: &str, pat: &str) -> (r: Option<usize>)
    ensures
        match r {
            Some(i) => match_at(s@, pat@, i as int) && forall|j: int|
                0 <= j < i ==> !match_at(s@, pat@, j),
            None => !contains_seq(s@, pat@),
        },
{
    let s_len = s.unicode_len();
    let pat_len = pat.unicode_len();
    if pat_len > s_len {
        return None;
    }
    if pat_len == 0 {
        proof {
            assert(s@.subrange(0, 0) =~= pat@);
        }
        return Some(0);
    }
    let last = s_len - pat_len;
    let mut i: usize = 0;
    loop
        invariant
            s_len == s@.len(),
            pat_len == pat@.len(),
            1 <= pat_len <= s_len,
            last == s_len - pat_len,
            i <= last + 1,
            forall|j: int| 0 <= j < i ==> !match_at(s@, pat@, j),
        decreases last + 1 - i,
    {
        if i > last {
            return None;
        }
        if is_match_at(s, pat, i) {
            return Some(i);
        }
        i = i + 1;
    }
}

/// Whether the character `c` occurs in `s`.
pub fn contains_char(s: &str, c: char) -> (b: bool)
    ensures
        b == s@.contains(c),
{
    let s_len = s.unicode_len();
    let mut i: usize = 0;
    while i < s_len
        invariant
            s_len == s@.len(),
            i <= s_len,
            forall|j: int| 0 <= j < i ==> s@[j] != c,
        decreases s_len - i,
    {
        if s.get_char(i) == c {
            proof {
                assert(s@.contains(c));
            }
            return true;
        }
        i = i + 1;
    }
    proof {
        assert(!s@.contains(c)) by {
            if s@.contains(c) {
                let j = choose|j: int| 0 <= j < s@.len() && s@[j] == c;
                assert(s@[j] != c);
            }
        }
    }
    false
}

/// Whether the pattern occurs in `s` at all.
pub fn contains_substring(s: &str, pat: &str) -> (b: bool)
    ensures
        b == contains_seq(s@, pat@),
{
    match find_first_match(s, pat) {
        Some(_) => true,
        None => false,
    }
}

/// The position of the last occurrence of `pat` in `s`, if any.
pub fn find_last_match(s: &str, pat: &str) -> (r: Option<usize>)
    ensures
        match r {
            Some(i) => match_at(s@, pat@, i as int) && forall|j: int|
                j > i ==> !match_at(s@, pat@, j),
            None => !contains_seq(s@, pat@),
        },
{
    let s_len = s.unicode_len();
    let pat_len = pat.unicode_len();
    if pat_len > s_len {
        return None;
    }
    let last = s_len - pat_len;
    let mut i = last;
    loop
        invariant
            s_len == s@.len(),
            pat_len == pat@.len(),
            pat_len <= s_len,
            last == s_len - pat_len,
            i <= last,
            forall|j: int| i < j ==> !match_at(s@, pat@, j),
        decreases i + 1,
    {
        if is_match_at(s, pat, i) {
            return Some(i);
        }
        if i == 0 {
            return None;
        }
        i = i - 1;
    }
}

/// Whether `suffix` is a suffix of `s`.
pub fn ends_with_str(s: &str, suffix: &str) -> (b: bool)
    ensures
        b == (suffix@.len() <= s@.len() && s@.skip(s@.len() - suffix@.len()) == suffix@),
{
    let s_len = s.unicode_len();
    let suffix_len = suffix.unicode_len();
    if suffix_len > s_len {
        return false;
    }
    let b = is_match_at(s, suffix, s_len - suffix_len);
    proof {
        assert(s@.skip(s@.len() - suffix@.len()) =~= s@.subrange(
            s@.len() - suffix@.len(),
            s@.len() - suffix@.len() + suffix@.len(),
        ));
    }
    b
}

/// The parts joined with a single separator character between them.
pub open spec fn join_char(parts: Seq<Seq<char>>, sep: char) -> Seq<char>
    decreases parts.len(),
{
    if parts.len() == 0 {
        Seq::empty()
    } else if parts.len() == 1 {
        parts[0]
    } else {
        join_char(parts.drop_last(), sep) + seq![sep] + parts.last()
    }
}

/// Joins the parts with the (single-character) separator.
pub fn join_char_exec(parts: &Vec<String>, sep: &str) -> (r: String)
    requires
        sep@.len() == 1,
    ensures
        r@ == join_char(parts.deep_view(), sep@[0]),
{
    let mut out = String::new();
    let mut i: usize = 0;
    proof {
        assert(parts.deep_view().take(0) =~= Seq::<Seq<char>>::empty());
    }
    while i < parts.len()
        invariant
            sep@.len() == 1,
            i <= parts@.len(),
            parts.deep_view().len() == parts@.len(),
            out@ == join_char(parts.deep_view().take(i as int), sep@[0]),
        decreases parts@.len() - i,
    {
        if i > 0 {
            out.append(sep);
            proof {
                assert(sep@ =~= seq![sep@[0]]);
            }
        }
        out.append(parts[i].as_str());
        proof {
            let dv = parts.deep_view();
            assert(dv[i as int] == parts@[i as int]@);
            assert(dv.take(i + 1).drop_last() =~= dv.take(i as int));
            assert(dv.take(i + 1).last() == dv[i as int]);
        }
        i = i + 1;
    }
    proof {
        assert(parts.deep_view().take(parts@.len() as int) =~= parts.deep_view());
    }
    out
}

/// Space or tab: the separators between the fields of a line.
pub open spec fn is_field_space(c: char) -> bool {
    c == ' ' || c == '\t'
}

/// Blank characters stripped by trimming.
pub open spec fn is_blank(c: char) -> bool {
    c == ' ' || c == '\t' || c == '\n' || c == '\r'
}

/// `s` without its trailing blank characters.
pub open spec fn strip_trailing_blanks(s: Seq<char>) -> Seq<char>
    decreases s.len(),
{
    if s.len() > 0 && is_blank(s.last()) {
        strip_trailing_blanks(s.drop_last())
    } else {
        s
    }
}

/// `s` without its leading blank characters.
pub open spec fn strip_leading_blanks(s: Seq<char>) -> Seq<char>
    decreases s.len(),
{
    if s.len() > 0 && is_blank(s[0]) {
        strip_leading_blanks(s.drop_first())
    } else {
        s
    }
}

/// `s` without leading and trailing blank characters.
pub open spec fn trim_seq(s: Seq<char>) -> Seq<char> {
    strip_leading_blanks(strip_trailing_blanks(s))
}

/// `s` without its trailing spaces and tabs.
pub open spec fn strip_trailing_spaces(s: Seq<char>) -> Seq<char>
    decreases s.len(),
{
    if s.len() > 0 && is_field_space(s.last()) {
        strip_trailing_spaces(s.drop_last())
    } else {
        s
    }
}

/// The run of non-space characters at the very end of `s`.
pub open spec fn trailing_nonspace_run(s: Seq<char>) -> Seq<char>
    decreases s.len(),
{
    if s.len() == 0 || is_field_space(s.last()) {
        Seq::empty()
    } else {
        trailing_nonspace_run(s.drop_last()).push(s.last())
    }
}

/// The last whitespace-delimited field of a line, if the line has any field.
pub open spec fn last_field(line: Seq<char>) -> Option<Seq<char>> {
    let t = strip_trailing_spaces(line);
    if t.len() == 0 {
        None
    } else {
        Some(trailing_nonspace_run(t))
    }
}

/// The index of the first occurrence of `c` in `s`, or `s.len()` if absent.
pub open spec fn first_index_of(s: Seq<char>, c: char) -> int
    decreases s.len(),
{
    if s.len() == 0 {
        0
    } else if s[0] == c {
        0
    } else {
        1 + first_index_of(s.drop_first(), c)
    }
}

/// What `first_index_of` returns: the position of `c`, with none before it.
pub proof fn lemma_first_index_of(s: Seq<char>, c: char)
    ensures
        0 <= first_index_of(s, c) <= s.len(),
        first_index_of(s, c) < s.len() ==> s[first_index_of(s, c)] == c,
        forall|j: int| 0 <= j < first_index_of(s, c) ==> s[j] != c,
    decreases s.len(),
{
    if s.len() == 0 || s[0] == c {
    } else {
        lemma_first_index_of(s.drop_first(), c);
        assert forall|j: int| 0 <= j < first_index_of(s, c) implies s[j] != c by {
            if j >= 1 {
                assert(s.drop_first()[j - 1] == s[j]);
            }
        }
    }
}

/// The contents of the first double-quoted stretch of a line: what stands
/// after the first quote, up to the next quote or the end of the line.
pub open spec fn first_quoted(line: Seq<char>) -> Option<Seq<char>> {
    let i = first_index_of(line, '"');
    if i == line.len() {
        None
    } else {
        let rest = line.skip(i + 1);
        Some(rest.take(first_index_of(rest, '"')))
    }
}

/// The first line of `s` (split at newlines) that holds the token, if any.
pub open spec fn find_marker_line(s: Seq<char>, token: Seq<char>) -> Option<Seq<char>>
    decreases s.len(),
{
    if s.len() == 0 {
        None
    } else {
        let nl = first_index_of(s, '\n');
        let line = s.take(nl);
        if contains_seq(line, token) {
            Some(line)
        } else if nl == s.len() {
            None
        } else {
            proof {
                lemma_first_index_of(s, '\n');
            }
            find_marker_line(s.skip(nl + 1), token)
        }
    }
}

/// The position of the first occurrence of `c` in `s`, or the length of `s`.
pub fn first_index_of_exec(s: &str, c: char) -> (i: usize)
    ensures
        i as int == first_index_of(s@, c),
{
    let s_len = s.unicode_len();
    let mut i: usize = 0;
    proof {
        lemma_first_index_of(s@, c);
    }
    while i < s_len
        invariant
            s_len == s@.len(),
            i <= s_len,
            forall|j: int| 0 <= j < i ==> s@[j] != c,
            0 <= first_index_of(s@, c) <= s@.len(),
            first_index_of(s@, c) < s@.len() ==> s@[first_index_of(s@, c)] == c,
            forall|j: int| 0 <= j < first_index_of(s@, c) ==> s@[j] != c,
        decreases s_len - i,
    {
        if s.get_char(i) == c {
            return i;
        }
        i = i + 1;
    }
    i
}

/// `s` with leading and trailing blank characters removed.
pub fn trim_exec(s: &str) -> (r: String)
    ensures
        r@ == trim_seq(s@),
{
    let mut t = s;
    let mut done = false;
    while !done
        invariant
            strip_trailing_blanks(t@) == strip_trailing_blanks(s@),
            done ==> !(t@.len() > 0 && is_blank(t@.last())),
        decreases (if done {
            0int
        } else {
            t@.len() + 1int
        }),
    {
        let n = t.unicode_len();
        if n == 0 {
            done = true;
        } else {
            let c = t.get_char(n - 1);
            if c == ' ' || c == '\t' || c == '\n' || c == '\r' {
                let shorter = t.substring_char(0, n - 1);
                proof {
                    assert(shorter@ =~= t@.drop_last());
                }
                t = shorter;
            } else {
                done = true;
            }
        }
    }
    let ghost stripped = t@;
    let mut done2 = false;
    while !done2
        invariant
            strip_leading_blanks(t@) == strip_leading_blanks(stripped),
            done2 ==> !(t@.len() > 0 && is_blank(t@[0])),
        decreases (if done2 {
            0int
        } else {
            t@.len() + 1int
        }),
    {
        let n = t.unicode_len();
        if n == 0 {
            done2 = true;
        } else {
            let c = t.get_char(0);
            if c == ' ' || c == '\t' || c == '\n' || c == '\r' {
                let shorter = t.substring_char(1, n);
                proof {
                    assert(shorter@ =~= t@.drop_first());
                }
                t = shorter;
            } else {
                done2 = true;
            }
        }
    }
    String::from_str(t)
}

/// The last whitespace-delimited field of a line, if the line has any field.
pub fn last_field_exec(line: &str) -> (r: Option<String>)
    ensures
        match r {
            Some(v) => last_field(line@) == Some(v@),
            None => last_field(line@) is None,
        },
{
    let mut t = line;
    let mut done = false;
    while !done
        invariant
            strip_trailing_spaces(t@) == strip_trailing_spaces(line@),
            done ==> !(t@.len() > 0 && is_field_space(t@.last())),
        decreases (if done {
            0int
        } else {
            t@.len() + 1int
        }),
    {
        let n = t.unicode_len();
        if n == 0 {
            done = true;
        } else {
            let c = t.get_char(n - 1);
            if c == ' ' || c == '\t' {
                let shorter = t.substring_char(0, n - 1);
                proof {
                    assert(shorter@ =~= t@.drop_last());
                }
                t = shorter;
            } else {
                done = true;
            }
        }
    }
    let t_len = t.unicode_len();
    if t_len == 0 {
        return None;
    }
    let mut cur = t;
    let mut done2 = false;
    while !done2
        invariant
            cur@.len() <= t@.len(),
            cur@ == t@.take(cur@.len() as int),
            trailing_nonspace_run(t@) == trailing_nonspace_run(cur@) + t@.skip(
                cur@.len() as int,
            ),
            done2 ==> trailing_nonspace_run(cur@) == Seq::<char>::empty(),
        decreases (if done2 {
            0int
        } else {
            cur@.len() + 1int
        }),
    {
        let m = cur.unicode_len();
        if m == 0 {
            done2 = true;
        } else {
            let c = cur.get_char(m - 1);
            if c == ' ' || c == '\t' {
                done2 = true;
            } else {
                let shorter = cur.substring_char(0, m - 1);
                proof {
                    assert(shorter@ =~= cur@.drop_last());
                    assert(cur@.last() == t@[m - 1]);
                    assert(trailing_nonspace_run(cur@) == trailing_nonspace_run(
                        cur@.drop_last(),
                    ).push(cur@.last()));
                    assert(trailing_nonspace_run(cur@.drop_last()).push(cur@.last()) + t@.skip(
                        m as int,
                    ) =~= trailing_nonspace_run(cur@.drop_last()) + t@.skip(m - 1));
                    assert(shorter@ =~= t@.take(m - 1));
                }
                cur = shorter;
            }
        }
    }
    let m = cur.unicode_len();
    let field = t.substring_char(m, t_len);
    proof {
        assert(field@ =~= t@.skip(m as int));
        assert(Seq::<char>::empty() + t@.skip(m as int) =~= t@.skip(m as int));
    }
    Some(String::from_str(field))
}

/// The contents of the first double-quoted stretch of a line, if any quote.
pub fn first_quoted_exec(line: &str) -> (r: Option<String>)
    ensures
        match r {
            Some(v) => first_quoted(line@) == Some(v@),
            None => first_quoted(line@) is None,
        },
{
    let n = line.unicode_len();
    let i = first_index_of_exec(line, '"');
    if i == n {
        return None;
    }
    proof {
        lemma_first_index_of(line@, '"');
    }
    let rest = line.substring_char(i + 1, n);
    proof {
        assert(rest@ =~= line@.skip(i + 1));
    }
    let j = first_index_of_exec(rest, '"');
    proof {
        lemma_first_index_of(rest@, '"');
    }
    let seg = rest.substring_char(0, j);
    proof {
        assert(seg@ =~= rest@.take(j as int));
    }
    Some(String::from_str(seg))
}

/// The first line of `s` that holds the token, if any.
pub fn find_marker_line_exec<'a>(s: &'a str, token: &str) -> (r: Option<&'a str>)
    ensures
        match r {
            Some(l) => find_marker_line(s@, token@) == Some(l@),
            None => find_marker_line(s@, token@) is None,
        },
{
    let mut rest = s;
    loop
        invariant
            find_marker_line(rest@, token@) == find_marker_line(s@, token@),
        decreases rest@.len(),
    {
        let rest_len = rest.unicode_len();
        if rest_len == 0 {
            return None;
        }
        let nl = first_index_of_exec(rest, '\n');
        proof {
            lemma_first_index_of(rest@, '\n');
        }
        let line = rest.substring_char(0, nl);
        proof {
            assert(line@ =~= rest@.take(nl as int));
        }
        if contains_substring(line, token) {
            return Some(line);
        }
        if nl == rest_len {
            return None;
        }
        let next = rest.substring_char(nl + 1, rest_len);
        proof {
            assert(next@ =~= rest@.skip(nl + 1));
        }
        rest = next;
    }
}

/// Trimming ignores one more trailing blank character.
pub proof fn lemma_trim_trailing_blank(x: Seq<char>, c: char)
    requires
        is_blank(c),
    ensures
        trim_seq(x + seq![c]) == trim_seq(x),
{
    let s = x + seq![c];
    assert(s.len() > 0 && s.last() == c);
    assert(s.drop_last() =~= x);
}

/// How a prepended character passes through trailing-blank stripping: it
/// survives exactly when something after it survives.
proof fn lemma_strip_trailing_prepend(c: char, p: Seq<char>)
    requires
        is_blank(c),
    ensures
        strip_trailing_blanks(seq![c] + p) == if strip_trailing_blanks(p).len() > 0 {
            seq![c] + strip_trailing_blanks(p)
        } else {
            Seq::<char>::empty()
        },
    decreases p.len(),
{
    let s = seq![c] + p;
    if p.len() == 0 {
        assert(s =~= seq![c]);
        assert(s.drop_last() =~= Seq::<char>::empty());
        assert(strip_trailing_blanks(Seq::<char>::empty()) =~= Seq::<char>::empty());
    } else {
        assert(s.last() == p.last());
        if is_blank(p.last()) {
            assert(s.drop_last() =~= seq![c] + p.drop_last());
            lemma_strip_trailing_prepend(c, p.drop_last());
        } else {
            assert(strip_trailing_blanks(s) == s);
            assert(strip_trailing_blanks(p) == p);
        }
    }
}

/// Trimming ignores one more leading blank character.
pub proof fn lemma_trim_leading_blank(c: char, p: Seq<char>)
    requires
        is_blank(c),
    ensures
        trim_seq(seq![c] + p) == trim_seq(p),
{
    lemma_strip_trailing_prepend(c, p);
    let q = strip_trailing_blanks(p);
    if q.len() > 0 {
        let s = seq![c] + q;
        assert(s[0] == c);
        assert(s.drop_first() =~= q);
    } else {
        assert(strip_leading_blanks(Seq::<char>::empty()) =~= Seq::<char>::empty());
    }
}

/// Everything before the first occurrence of `p` in `s`, or all of `s` when
/// `p` does not occur.
pub open spec fn before_first(s: Seq<char>, p: Seq<char>) -> Seq<char>
    decreases s.len(),
{
    if match_at(s, p, 0) {
        Seq::empty()
    } else if s.len() == 0 {
        s
    } else {
        seq![s[0]] + before_first(s.drop_first(), p)
    }
}

/// Everything after the end of the last occurrence of `p` in `s`, or all of
/// `s` when `p` does not occur.
pub open spec fn after_last(s: Seq<char>, p: Seq<char>) -> Seq<char>
    decreases s.len(),
{
    if p.len() == 0 || s.len() < p.len() {
        s
    } else if match_at(s, p, s.len() - p.len()) {
        Seq::empty()
    } else {
        after_last(s.drop_last(), p) + seq![s.last()]
    }
}

/// An occurrence that stops short of the last character is an occurrence of
/// the text without its last character, and conversely.
proof fn lemma_match_drop_last(s: Seq<char>, p: Seq<char>, i: int)
    requires
        s.len() > 0,
        0 <= i,
        i + p.len() <= s.len() - 1,
    ensures
        match_at(s, p, i) <==> match_at(s.drop_last(), p, i),
{
    assert(s.drop_last().subrange(i, i + p.len() as int) =~= s.subrange(i, i + p.len() as int));
}

/// Everything before the first occurrence of `p`, executable form.
pub fn before_first_exec(s: &str, p: &str) -> (r: String)
    ensures
        r@ == before_first(s@, p@),
{
    let r = match find_first_match(s, p) {
        Some(i) => {
            proof {
                lemma_before_first_at(s@, p@, i as int);
            }
            String::from_str(s.substring_char(0, i))
        },
        None => {
            proof {
                lemma_before_first_none(s@, p@);
            }
            String::from_str(s)
        },
    };
    r
}

/// With the first occurrence at `i`, the prefix before it is `s.take(i)`.
pub proof fn lemma_before_first_at(s: Seq<char>, p: Seq<char>, i: int)
    requires
        match_at(s, p, i),
        forall|j: int| 0 <= j < i ==> !match_at(s, p, j),
    ensures
        before_first(s, p) == s.take(i),
    decreases s.len(),
{
    if i == 0 {
        assert(s.take(0) =~= Seq::<char>::empty());
    } else {
        assert(!match_at(s, p, 0));
        assert(s.len() > 0);
        lemma_match_past_skip(s, p, 1, i);
        assert forall|j: int| 0 <= j < i - 1 implies !match_at(s.drop_first(), p, j) by {
            if match_at(s.drop_first(), p, j) {
                lemma_match_in_skip(s, p, 1, j);
            }
        }
        lemma_before_first_at(s.drop_first(), p, i - 1);
        assert(seq![s[0]] + s.drop_first().take(i - 1) =~= s.take(i));
    }
}

/// With no occurrence at all, the prefix before the first one is all of `s`.
proof fn lemma_before_first_none(s: Seq<char>, p: Seq<char>)
    requires
        !contains_seq(s, p),
    ensures
        before_first(s, p) == s,
    decreases s.len(),
{
    assert(!match_at(s, p, 0));
    if s.len() > 0 {
        assert forall|j: int| !match_at(s.drop_first(), p, j) by {
            if match_at(s.drop_first(), p, j) {
                lemma_match_in_skip(s, p, 1, j);
            }
        }
        lemma_before_first_none(s.drop_first(), p);
        assert(seq![s[0]] + s.drop_first() =~= s);
    }
}

/// Everything after the last occurrence of `p`, executable form.
pub fn after_last_exec(s: &str, p: &str) -> (r: String)
    requires
        p@.len() > 0,
    ensures
        r@ == after_last(s@, p@),
{
    let s_len = s.unicode_len();
    let p_len = p.unicode_len();
    let r = match find_last_match(s, p) {
        Some(i) => {
            proof {
                lemma_after_last_at(s@, p@, i as int);
            }
            String::from_str(s.substring_char(i + p_len, s_len))
        },
        None => {
            proof {
                lemma_after_last_none(s@, p@);
            }
            String::from_str(s)
        },
    };
    r
}

/// With the last occurrence at `i`, what follows it is `s.skip(i + p.len())`.
pub proof fn lemma_after_last_at(s: Seq<char>, p: Seq<char>, i: int)
    requires
        p.len() > 0,
        match_at(s, p, i),
        forall|j: int| j > i ==> !match_at(s, p, j),
    ensures
        after_last(s, p) == s.skip(i + p.len()),
    decreases s.len(),
{
    if i == s.len() - p.len() {
        assert(s.skip(s.len() as int) =~= Seq::<char>::empty());
    } else {
        assert(!match_at(s, p, s.len() - p.len()));
        assert(s.len() > 0);
        lemma_match_drop_last(s, p, i);
        assert forall|j: int| j > i implies !match_at(s.drop_last(), p, j) by {
            if match_at(s.drop_last(), p, j) {
                lemma_match_drop_last(s, p, j);
            }
        }
        lemma_after_last_at(s.drop_last(), p, i);
        assert(s.drop_last().skip(i + p.len()) + seq![s.last()] =~= s.skip(i + p.len()));
    }
}

/// With no occurrence at all, what follows the last one is all of `s`.
proof fn lemma_after_last_none(s: Seq<char>, p: Seq<char>)
    requires
        p.len() > 0,
        !contains_seq(s, p),
    ensures
        after_last(s, p) == s,
    decreases s.len(),
{
    if s.len() < p.len() {
    } else {
        assert(!match_at(s, p, s.len() - p.len()));
        assert forall|j: int| !match_at(s.drop_last(), p, j) by {
            if match_at(s.drop_last(), p, j) {
                lemma_match_drop_last(s, p, j);
            }
        }
        lemma_after_last_none(s.drop_last(), p);
        assert(s.drop_last() + seq![s.last()] =~= s);
    }
}

} // verus!
