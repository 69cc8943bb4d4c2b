use vstd::prelude::*;

verus! {

use vstd::string::StrSliceExecFns;
use vstd::string::StringExecFns;

/// The index of the first occurrence of `c` in `s`, or the length of `s`
/// when `c` does not occur.
pub open spec fn first_at(s: Seq<char>, c: char) -> int
    decreases s.len(),
{
    if s.len() == 0 {
        0
    } else if s[0] == c {
        0
    } else {
        1 + first_at(s.skip(1), c)
    }
}

/// `first_at` is in bounds, lands on `c` when `c` occurs, and nothing
/// earlier is `c`.
pub proof fn lemma_first_at(s: Seq<char>, c: char)
    ensures
        0 <= first_at(s, c) <= s.len(),
        first_at(s, c) < s.len() ==> s[first_at(s, c)] == c,
        forall|j: int| 0 <= j < first_at(s, c) ==> s[j] != c,
    decreases s.len(),
{
    if s.len() != 0 && s[0] != c {
        lemma_first_at(s.skip(1), c);
        assert forall|j: int| 0 <= j < first_at(s, c) implies s[j] != c by {
            if j > 0 {
                assert(s.skip(1)[j - 1] == s[j]);
            }
        }
        if first_at(s, c) < s.len() {
            assert(s.skip(1)[first_at(s, c) - 1] == s[first_at(s, c)]);
        }
    }
}

/// An index before which `c` does not occur, and which is the length or
/// lands on `c`, is exactly `first_at`.
proof fn lemma_first_at_is(s: Seq<char>, c: char, i: int)
    requires
        0 <= i <= s.len(),
        i < s.len() ==> s[i] == c,
        forall|j: int| 0 <= j < i ==> s[j] != c,
    ensures
        first_at(s, c) == i,
    decreases s.len(),
{
    if i == 0 {
    } else {
        assert(s[0] != c);
        assert forall|j: int| 0 <= j < i - 1 implies s.skip(1)[j] != c by {
            assert(s.skip(1)[j] == s[j + 1]);
        }
        if i < s.len() {
            assert(s.skip(1)[i - 1] == s[i]);
        }
        lemma_first_at_is(s.skip(1), c, i - 1);
    }
}

/// The first index of `c` in `s`, or the length of `s` when absent.
fn find_char(s: &str, c: char) -> (r: usize)
    ensures
        r == first_at(s@, c),
{
    let n = s.unicode_len();
    let mut i: usize = 0;
    while i < n
        invariant
            i <= n,
            n == s@.len(),
            forall|j: int| 0 <= j < i ==> s@[j] != c,
        decreases n - i,
    {
        if s.get_char(i) == c {
            proof {
                lemma_first_at_is(s@, c, i as int);
            }
            return i;
        }
        i = i + 1;
    }
    proof {
        lemma_first_at_is(s@, c, n as int);
    }
    n
}

/// The time-of-day part of an ISO 8601 timestamp, for display: the text
/// between the first `T` and the next `T` or the end, cut before its first
/// `.`; a text without `T` is shown whole.
pub open spec fn spec_format_time(s: Seq<char>) -> Seq<char> {
    let t1 = first_at(s, 'T');
    if t1 == s.len() {
        s
    } else {
        let seg0 = s.skip(t1 + 1);
        let seg = seg0.take(first_at(seg0, 'T'));
        seg.take(first_at(seg, '.'))
    }
}

/// Render the time-of-day part of an ISO 8601 timestamp.
pub fn format_time(iso_time: &str) -> (r: String)
    ensures
        r@ == spec_format_time(iso_time@),
{
    proof {
        lemma_first_at(iso_time@, 'T');
    }
    let n = iso_time.unicode_len();
    let t1 = find_char(iso_time, 'T');
    if t1 == n {
        return iso_time.to_owned();
    }
    let seg0 = iso_time.substring_char(t1 + 1, n);
    proof {
        lemma_first_at(seg0@, 'T');
        assert(seg0@ =~= iso_time@.skip(t1 + 1));
    }
    let t2 = find_char(seg0, 'T');
    let seg = seg0.substring_char(0, t2);
    proof {
        lemma_first_at(seg@, '.');
        assert(seg@ =~= seg0@.take(t2 as int));
    }
    let d = find_char(seg, '.');
    let out = seg.substring_char(0, d);
    proof {
        assert(out@ =~= seg@.take(d as int));
    }
    out.to_owned()
}

/// What one character becomes in HTML text: the five special characters
/// become entities, every other character stands as itself.
pub open spec fn html_escape_char(c: char) -> Seq<char> {
    if c == '&' {
        "&amp;"@
    } else if c == '<' {
        "&lt;"@
    } else if c == '>' {
        "&gt;"@
    } else if c == '"' {
        "&quot;"@
    } else if c == '\'' {
        "&#x27;"@
    } else {
        seq![c]
    }
}

/// The HTML escaping of a text, character by character.
pub open spec fn html_escape(s: Seq<char>) -> Seq<char>
    decreases s.len(),
{
    if s.len() == 0 {
        Seq::empty()
    } else {
        html_escape_char(s[0]) + html_escape(s.skip(1))
    }
}

/// Escaping distributes over appending one character at the end.
proof fn lemma_html_escape_push(s: Seq<char>, c: char)
    ensures
        html_escape(s.push(c)) == html_escape(s) + html_escape_char(c),
    decreases s.len(),
{
    if s.len() == 0 {
        assert(s.push(c)[0] == c);
        assert(s.push(c).skip(1) =~= Seq::<char>::empty());
        assert(html_escape(s.push(c)) == html_escape_char(c) + html_escape(s.push(c).skip(1)));
        assert(html_escape(s.push(c).skip(1)) == Seq::<char>::empty());
        assert(html_escape(s.push(c)) =~= html_escape(s) + html_escape_char(c));
    } else {
        assert(s.push(c).skip(1) =~= s.skip(1).push(c));
        lemma_html_escape_push(s.skip(1), c);
        assert(s.push(c)[0] == s[0]);
        assert(html_escape(s.push(c)) == html_escape_char(s[0]) + (html_escape(s.skip(1))
            + html_escape_char(c)));
        assert(html_escape_char(s[0]) + (html_escape(s.skip(1)) + html_escape_char(c)) =~= (
        html_escape_char(s[0]) + html_escape(s.skip(1))) + html_escape_char(c));
    }
}

/// Escape a text for inclusion in HTML.
pub fn escape_html(text: &str) -> (r: String)
    ensures
        r@ == html_escape(text@),
{
    let n = text.unicode_len();
    let mut r = String::new();
    let mut i: usize = 0;
    while i < n
        invariant
            i <= n,
            n == text@.len(),
            r@ == html_escape(text@.take(i as int)),
        decreases n - i,
    {
        let c = text.get_char(i);
        if c == '&' {
            r.append("&amp;");
        } else if c == '<' {
            r.append("&lt;");
        } else if c == '>' {
            r.append("&gt;");
        } else if c == '"' {
            r.append("&quot;");
        } else if c == '\'' {
            r.append("&#x27;");
        } else {
            let piece = text.substring_char(i, i + 1);
            proof {
                assert(piece@ =~= seq![text@[i as int]]);
            }
            r.append(piece);
        }
        proof {
            assert(text@.take(i + 1 as int) =~= text@.take(i as int).push(text@[i as int]));
            lemma_html_escape_push(text@.take(i as int), text@[i as int]);
        }
        i = i + 1;
    }
    proof {
        assert(text@.take(n as int) =~= text@);
    }
    r
}

/// The display name derived from a task description: the whole text when it
/// is at most fifty characters, else the first fifty with a trailing
/// ellipsis.
pub fn derive_session_name(task: &str) -> (r: String)
    ensures
        task@.len() <= 50 ==> r@ == task@,
        task@.len() > 50 ==> r@ == task@.take(50) + "..."@,
{
    let n = task.unicode_len();
    if n > 50 {
        let mut r = task.substring_char(0, 50).to_owned();
        r.append("...");
        proof {
            assert(task@.subrange(0, 50) =~= task@.take(50));
        }
        r
    } else {
        task.to_owned()
    }
}

} // verus!
