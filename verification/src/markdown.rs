//! Chat-style markdown to HTML: `**bold**`, `*italic*`, `` `code` ``,
//! `||spoiler||`, with HTML escaping applied before formatting.

use vstd::prelude::*;

verus! {

/// HTML escaping of one character.
pub open spec fn spec_escape_html_char(c: char) -> Seq<char> {
    if c == '&' {
        "&amp;"@
    } else if c == '<' {
        "&lt;"@
    } else if c == '>' {
        "&gt;"@
    } else if c == '"' {
        "&quot;"@
    } else {
        seq![c]
    }
}

/// HTML escaping of a whole string.
pub open spec fn spec_escape_html(s: Seq<char>) -> Seq<char>
    decreases s.len(),
{
    if s.len() == 0 {
        Seq::empty()
    } else {
        spec_escape_html_char(s[0]) + spec_escape_html(s.drop_first())
    }
}

proof fn lemma_escape_html_push(t: Seq<char>, c: char)
    ensures
        spec_escape_html(t.push(c)) == spec_escape_html(t) + spec_escape_html_char(c),
    decreases t.len(),
{
    if t.len() == 0 {
        let e = t.push(c).drop_first();
        assert(e =~= Seq::<char>::empty());
        assert(spec_escape_html(e) == Seq::<char>::empty());
        assert(spec_escape_html(t.push(c)) =~= spec_escape_html(t) + spec_escape_html_char(c));
    } else {
        assert(t.push(c).drop_first() =~= t.drop_first().push(c));
        lemma_escape_html_push(t.drop_first(), c);
        assert(spec_escape_html(t.push(c)) =~= spec_escape_html(t) + spec_escape_html_char(c));
    }
}

/// The pattern stands in `s` at position `j`.
pub open spec fn match_at(s: Seq<char>, pat: Seq<char>, j: int) -> bool {
    &&& 0 <= j
    &&& j + pat.len() <= s.len()
    &&& s.subrange(j, j + pat.len()) == pat
}

/// The first position at or after `from` where the pattern stands.
pub open spec fn spec_find(s: Seq<char>, pat: Seq<char>, from: int) -> Option<int>
    decreases s.len() - from,
{
    if from < 0 || from + pat.len() > s.len() || pat.len() == 0 {
        None
    } else if match_at(s, pat, from) {
        Some(from)
    } else {
        spec_find(s, pat, from + 1)
    }
}

proof fn lemma_find_bounds(s: Seq<char>, pat: Seq<char>, from: int)
    ensures
        spec_find(s, pat, from) matches Some(j) ==> from <= j && j + pat.len() <= s.len(),
    decreases s.len() - from,
{
    if !(from < 0 || from + pat.len() > s.len() || pat.len() == 0) && !match_at(s, pat, from) {
        lemma_find_bounds(s, pat, from + 1);
    }
}

proof fn lemma_find_skip(s: Seq<char>, pat: Seq<char>, from: int, j: int)
    requires
        0 <= from <= j,
        pat.len() >= 1,
        forall|k: int| from <= k < j ==> !match_at(s, pat, k),
    ensures
        spec_find(s, pat, from) == spec_find(s, pat, j),
    decreases j - from,
{
    if from < j {
        if from + pat.len() > s.len() {
            assert(j + pat.len() > s.len());
        } else {
            assert(!match_at(s, pat, from));
            lemma_find_skip(s, pat, from + 1, j);
        }
    }
}

/// Does the pattern stand in `s` at position `j`?
fn match_at_exec(s: &str, pat: &str, j: usize) -> (r: bool)
    requires
        j + pat@.len() <= s@.len(),
        s@.len() <= usize::MAX,
    ensures
        r == match_at(s@, pat@, j as int),
{
    let m = pat.unicode_len();
    let mut k: usize = 0;
    while k < m
        invariant
            k <= m,
            m == pat@.len(),
            j + m <= s@.len(),
            s@.len() <= usize::MAX,
            forall|t: int| 0 <= t < k ==> s@[j + t] == pat@[t],
        decreases m - k,
    {
        if s.get_char(j + k) != pat.get_char(k) {
            proof {
                assert(s@.subrange(j as int, j + m) != pat@) by {
                    if s@.subrange(j as int, j + m) == pat@ {
                        assert(s@.subrange(j as int, j + m)[k as int] == s@[j + k]);
                    }
                }
            }
            return false;
        }
        k = k + 1;
    }
    proof {
        assert(s@.subrange(j as int, j + pat@.len()) =~= pat@);
    }
    true
}

/// Find the first occurrence of the pattern at or after `from`.
fn find_sub(s: &str, pat: &str, from: usize) -> (r: Option<usize>)
    requires
        pat@.len() >= 1,
    ensures
        (match r {
            Some(j) => spec_find(s@, pat@, from as int) == Some(j as int),
            None => spec_find(s@, pat@, from as int) is None,
        }),
        r matches Some(j) ==> from <= j && j + pat@.len() <= s@.len(),
{
    let n = s.unicode_len();
    let m = pat.unicode_len();
    if m > n || from > n - m {
        proof {
            if from + pat@.len() <= s@.len() {
                assert(false);
            }
        }
        return None;
    }
    let mut j = from;
    while j <= n - m
        invariant
            from <= j,
            m <= n,
            from <= n - m,
            n == s@.len(),
            m == pat@.len(),
            m >= 1,
            forall|k: int| from <= k < j ==> !match_at(s@, pat@, k),
        decreases n - j,
    {
        if match_at_exec(s, pat, j) {
            proof {
                lemma_find_skip(s@, pat@, from as int, j as int);
            }
            return Some(j);
        }
        j = j + 1;
    }
    proof {
        lemma_find_skip(s@, pat@, from as int, j as int);
    }
    None
}

/// What markdown formatting makes of already-escaped text: each delimited
/// span becomes its HTML element (bold and bold-italic contents are
/// formatted recursively; italic, code and spoiler contents are escaped
/// once more), and everything else is escaped character by character.
pub open spec fn spec_markdown(s: Seq<char>) -> Seq<char>
    decreases s.len(),
    via spec_markdown_dec
{
    if s.len() == 0 {
        Seq::empty()
    } else if s.len() >= 3 && match_at(s, "***"@, 0) && spec_find(s, "***"@, 3) is Some {
        let j = spec_find(s, "***"@, 3)->0;
        "<strong><em>"@ + spec_markdown(s.subrange(3, j)) + "</em></strong>"@ + spec_markdown(
            s.subrange(j + 3, s.len() as int),
        )
    } else if s.len() >= 2 && match_at(s, "**"@, 0) && spec_find(s, "**"@, 2) is Some {
        let j = spec_find(s, "**"@, 2)->0;
        "<strong style=\"font-weight:600;\">"@ + spec_markdown(s.subrange(2, j)) + "</strong>"@
            + spec_markdown(s.subrange(j + 2, s.len() as int))
    } else if match_at(s, "*"@, 0) && !(s.len() >= 2 && match_at(s, "**"@, 0)) && spec_find(
        s,
        "*"@,
        1,
    ) is Some {
        let j = spec_find(s, "*"@, 1)->0;
        "<em>"@ + spec_escape_html(s.subrange(1, j)) + "</em>"@ + spec_markdown(
            s.subrange(j + 1, s.len() as int),
        )
    } else if match_at(s, "`"@, 0) && spec_find(s, "`"@, 1) is Some {
        let j = spec_find(s, "`"@, 1)->0;
        "<code style=\"background:rgba(255,255,255,0.1);padding:0.1em 0.3em;border-radius:4px;font-size:0.9em;\">"@
            + spec_escape_html(s.subrange(1, j)) + "</code>"@ + spec_markdown(
            s.subrange(j + 1, s.len() as int),
        )
    } else if s.len() >= 2 && match_at(s, "||"@, 0) && spec_find(s, "||"@, 2) is Some {
        let j = spec_find(s, "||"@, 2)->0;
        "<span style=\"background:#1a1a1a;color:#1a1a1a;border-radius:2px;\" class=\"spoiler\" title=\"Spoiler\">"@
            + spec_escape_html(s.subrange(2, j)) + "</span>"@ + spec_markdown(
            s.subrange(j + 2, s.len() as int),
        )
    } else {
        spec_escape_html_char(s[0]) + spec_markdown(s.subrange(1, s.len() as int))
    }
}

#[via_fn]
proof fn spec_markdown_dec(s: Seq<char>) {
    reveal_strlit("***");
    reveal_strlit("**");
    reveal_strlit("*");
    reveal_strlit("`");
    reveal_strlit("||");
    lemma_find_bounds(s, "***"@, 3);
    lemma_find_bounds(s, "**"@, 2);
    lemma_find_bounds(s, "*"@, 1);
    lemma_find_bounds(s, "`"@, 1);
    lemma_find_bounds(s, "||"@, 2);
}

/// Relies on char::to_string: a string of exactly this character.
#[verifier::external_body]
fn char_string(c: char) -> (r: String)
    ensures
        r@ == seq![c],
{
    c.to_string()
}

/// Escape one character for HTML.
pub fn html_escape_char(c: char) -> (r: String)
    ensures
        r@ == spec_escape_html_char(c),
{
    if c == '&' {
        String::from_str("&amp;")
    } else if c == '<' {
        String::from_str("&lt;")
    } else if c == '>' {
        String::from_str("&gt;")
    } else if c == '"' {
        String::from_str("&quot;")
    } else {
        let r = char_string(c);
        proof {
            assert(r@ =~= spec_escape_html_char(c));
        }
        r
    }
}

/// Escape a whole string for HTML.
pub fn html_escape(s: &str) -> (r: String)
    ensures
        r@ == spec_escape_html(s@),
{
    let n = s.unicode_len();
    let mut out = String::new();
    proof {
        assert(out@ =~= spec_escape_html(s@.take(0)));
    }
    let mut i: usize = 0;
    while i < n
        invariant
            i <= n,
            n == s@.len(),
            out@ == spec_escape_html(s@.take(i as int)),
        decreases n - i,
    {
        let c = s.get_char(i);
        let piece = html_escape_char(c);
        out.append(piece.as_str());
        proof {
            assert(s@.take(i + 1) =~= s@.take(i as int).push(c));
            lemma_escape_html_push(s@.take(i as int), c);
        }
        i = i + 1;
    }
    proof {
        assert(s@.take(n as int) =~= s@);
    }
    out
}

/// Apply markdown formatting to already-escaped text.
pub fn apply_markdown(s: &str) -> (r: String)
    ensures
        r@ == spec_markdown(s@),
    decreases s@.len(),
{
    let n = s.unicode_len();
    let mut out = String::new();
    if n == 0 {
        proof {
            assert(out@ =~= spec_markdown(s@));
        }
        return out;
    }
    proof {
        reveal_strlit("***");
        reveal_strlit("**");
        reveal_strlit("*");
        reveal_strlit("`");
        reveal_strlit("||");
    }
    if n >= 3 && match_at_exec(s, "***", 0) {
        if let Some(j) = find_sub(s, "***", 3) {
            let inner = s.substring_char(3, j);
            let rest = s.substring_char(j + 3, n);
            out.append("<strong><em>");
            let mid = apply_markdown(inner);
            out.append(mid.as_str());
            out.append("</em></strong>");
            let tail = apply_markdown(rest);
            out.append(tail.as_str());
            proof {
                assert(out@ =~= spec_markdown(s@));
            }
            return out;
        }
    }
    if n >= 2 && match_at_exec(s, "**", 0) {
        if let Some(j) = find_sub(s, "**", 2) {
            let inner = s.substring_char(2, j);
            let rest = s.substring_char(j + 2, n);
            out.append("<strong style=\"font-weight:600;\">");
            let mid = apply_markdown(inner);
            out.append(mid.as_str());
            out.append("</strong>");
            let tail = apply_markdown(rest);
            out.append(tail.as_str());
            proof {
                assert(out@ =~= spec_markdown(s@));
            }
            return out;
        }
    }
    if match_at_exec(s, "*", 0) && !(n >= 2 && match_at_exec(s, "**", 0)) {
        if let Some(j) = find_sub(s, "*", 1) {
            let inner = s.substring_char(1, j);
            let rest = s.substring_char(j + 1, n);
            out.append("<em>");
            let mid = html_escape(inner);
            out.append(mid.as_str());
            out.append("</em>");
            let tail = apply_markdown(rest);
            out.append(tail.as_str());
            proof {
                assert(out@ =~= spec_markdown(s@));
            }
            return out;
        }
    }
    if match_at_exec(s, "`", 0) {
        if let Some(j) = find_sub(s, "`", 1) {
            let inner = s.substring_char(1, j);
            let rest = s.substring_char(j + 1, n);
            out.append(
                "<code style=\"background:rgba(255,255,255,0.1);padding:0.1em 0.3em;border-radius:4px;font-size:0.9em;\">",
            );
            let mid = html_escape(inner);
            out.append(mid.as_str());
            out.append("</code>");
            let tail = apply_markdown(rest);
            out.append(tail.as_str());
            proof {
                assert(out@ =~= spec_markdown(s@));
            }
            return out;
        }
    }
    if n >= 2 && match_at_exec(s, "||", 0) {
        if let Some(j) = find_sub(s, "||", 2) {
            let inner = s.substring_char(2, j);
            let rest = s.substring_char(j + 2, n);
            out.append(
                "<span style=\"background:#1a1a1a;color:#1a1a1a;border-radius:2px;\" class=\"spoiler\" title=\"Spoiler\">",
            );
            let mid = html_escape(inner);
            out.append(mid.as_str());
            out.append("</span>");
            let tail = apply_markdown(rest);
            out.append(tail.as_str());
            proof {
                assert(out@ =~= spec_markdown(s@));
            }
            return out;
        }
    }
    let c = s.get_char(0);
    let e = html_escape_char(c);
    out.append(e.as_str());
    let rest = s.substring_char(1, n);
    let tail = apply_markdown(rest);
    out.append(tail.as_str());
    proof {
        assert(out@ =~= spec_markdown(s@));
    }
    out
}

/// Convert chat markdown to HTML: escape the text, then format it.
pub fn discord_markdown_to_html(s: &str) -> (r: String)
    ensures
        r@ == spec_markdown(spec_escape_html(s@)),
{
    let escaped = html_escape(s);
    apply_markdown(escaped.as_str())
}

} // verus!
