//! Facts about the text functions of `text`: how words, lines, joins and
//! searches behave on text built by concatenation.

use vstd::prelude::*;
use crate::text::find_from;
use crate::text::is_ws;
use crate::text::join;
use crate::text::lead_ws;
use crate::text::line_len;
use crate::text::lines;
use crate::text::replace_char;
use crate::text::strip_cr;
use crate::text::trail_ws;
use crate::text::trim;
use crate::text::word_len;
use crate::text::words;

verus! {

/// No character of `s` is `c`.
pub open spec fn lacks(s: Seq<char>, c: char) -> bool {
    forall|i: int| 0 <= i < s.len() ==> s[i] != c
}

/// No character of `s` is whitespace.
pub open spec fn no_ws(s: Seq<char>) -> bool {
    forall|i: int| 0 <= i < s.len() ==> !is_ws(#[trigger] s[i])
}

/// `s` is non-empty and its last character is not `'\r'`.
pub open spec fn ends_clean(s: Seq<char>) -> bool {
    s.len() > 0 && s.last() != '\r'
}

pub proof fn lemma_lacks_add(a: Seq<char>, b: Seq<char>, c: char)
    requires
        lacks(a, c),
        lacks(b, c),
    ensures
        lacks(a + b, c),
{
    assert forall|i: int| 0 <= i < (a + b).len() implies (a + b)[i] != c by {
        if i < a.len() {
            assert((a + b)[i] == a[i]);
        } else {
            assert((a + b)[i] == b[i - a.len()]);
        }
    }
}

/// Whitespace-free text has no newline.
pub proof fn lemma_no_ws_lacks_newline(s: Seq<char>)
    requires
        no_ws(s),
    ensures
        lacks(s, '\n'),
{
    assert forall|i: int| 0 <= i < s.len() implies s[i] != '\n' by {
        assert(!is_ws(s[i]));
    }
}

/// The first word runs over non-whitespace and stops at whitespace.
pub proof fn lemma_word_len(s: Seq<char>)
    ensures
        word_len(s) <= s.len(),
        forall|i: int| 0 <= i < word_len(s) ==> !is_ws(#[trigger] s[i]),
        word_len(s) < s.len() ==> is_ws(s[word_len(s) as int]),
    decreases s.len(),
{
    if s.len() == 0 || is_ws(s[0]) {
    } else {
        lemma_word_len(s.drop_first());
        assert forall|i: int| 0 <= i < word_len(s) implies !is_ws(#[trigger] s[i]) by {
            if i > 0 {
                assert(s[i] == s.drop_first()[i - 1]);
            }
        }
    }
}

/// A word is not cut short by what follows it after whitespace.
proof fn lemma_word_len_append(a: Seq<char>, b: Seq<char>)
    requires
        b.len() > 0,
        is_ws(b[0]),
    ensures
        word_len(a + b) == word_len(a),
    decreases a.len(),
{
    if a.len() == 0 {
        assert(a + b =~= b);
    } else {
        assert((a + b).drop_first() =~= a.drop_first() + b);
        assert((a + b)[0] == a[0]);
        lemma_word_len_append(a.drop_first(), b);
    }
}

/// The words of `a` followed by text starting with whitespace are those of
/// `a` and then those of the rest.
pub proof fn lemma_words_append(a: Seq<char>, b: Seq<char>)
    requires
        b.len() > 0,
        is_ws(b[0]),
    ensures
        words(a + b) == words(a) + words(b),
    decreases a.len(),
{
    if a.len() == 0 {
        assert(a + b =~= b);
        assert(words(a) + words(b) =~= words(b));
    } else if is_ws(a[0]) {
        assert((a + b)[0] == a[0]);
        assert((a + b).drop_first() =~= a.drop_first() + b);
        lemma_words_append(a.drop_first(), b);
    } else {
        assert((a + b)[0] == a[0]);
        lemma_word_len_append(a, b);
        lemma_word_len(a);
        let n = word_len(a) as int;
        assert((a + b).take(n) =~= a.take(n));
        assert((a + b).skip(n) =~= a.skip(n) + b);
        lemma_words_append(a.skip(n), b);
        assert(seq![a.take(n)] + (words(a.skip(n)) + words(b)) =~= (seq![a.take(n)] + words(
            a.skip(n),
        )) + words(b));
    }
}

proof fn lemma_word_len_whole(w: Seq<char>)
    requires
        no_ws(w),
    ensures
        word_len(w) == w.len(),
    decreases w.len(),
{
    if w.len() > 0 {
        assert(!is_ws(w[0]));
        assert forall|i: int| 0 <= i < w.drop_first().len() implies !is_ws(
            #[trigger] w.drop_first()[i],
        ) by {
            assert(w.drop_first()[i] == w[i + 1]);
        }
        lemma_word_len_whole(w.drop_first());
    }
}

/// Non-empty text without whitespace is one word.
pub proof fn lemma_words_single(w: Seq<char>)
    requires
        w.len() > 0,
        no_ws(w),
    ensures
        words(w) == seq![w],
{
    lemma_word_len_whole(w);
    assert(!is_ws(w[0]));
    assert(w.take(w.len() as int) =~= w);
    assert(w.skip(w.len() as int) =~= Seq::<char>::empty());
    assert(words(Seq::<char>::empty()) =~= Seq::<Seq<char>>::empty());
    assert(seq![w] + Seq::<Seq<char>>::empty() =~= seq![w]);
}

/// Every word is non-empty and free of whitespace.
pub proof fn lemma_words_shape(s: Seq<char>)
    ensures
        forall|k: int|
            0 <= k < words(s).len() ==> (#[trigger] words(s)[k]).len() > 0 && no_ws(words(s)[k]),
    decreases s.len(),
{
    if s.len() == 0 {
    } else if is_ws(s[0]) {
        lemma_words_shape(s.drop_first());
        assert(words(s) == words(s.drop_first()));
    } else {
        let n = word_len(s);
        if 0 < n <= s.len() {
            lemma_word_len(s);
            lemma_words_shape(s.skip(n as int));
            let w = s.take(n as int);
            assert forall|i: int| 0 <= i < w.len() implies !is_ws(#[trigger] w[i]) by {
                assert(w[i] == s[i]);
            }
            assert forall|k: int| 0 <= k < words(s).len() implies (#[trigger] words(s)[k]).len()
                > 0 && no_ws(words(s)[k]) by {
                if k == 0 {
                    assert(words(s)[0] == w);
                } else {
                    assert(words(s)[k] == words(s.skip(n as int))[k - 1]);
                }
            }
        }
    }
}

/// Words without whitespace joined by single spaces split back into the
/// same words.
pub proof fn lemma_words_join(parts: Seq<Seq<char>>)
    requires
        forall|k: int| 0 <= k < parts.len() ==> (#[trigger] parts[k]).len() > 0 && no_ws(parts[k]),
    ensures
        words(join(parts, " "@)) == parts,
    decreases parts.len(),
{
    if parts.len() == 0 {
        assert(words(Seq::<char>::empty()) =~= parts);
    } else if parts.len() == 1 {
        lemma_words_single(parts[0]);
        assert(seq![parts[0]] =~= parts);
    } else {
        let init = parts.drop_last();
        assert forall|k: int| 0 <= k < init.len() implies (#[trigger] init[k]).len() > 0 && no_ws(
            init[k],
        ) by {
            assert(init[k] == parts[k]);
        }
        lemma_words_join(init);
        let last = parts.last();
        assert(parts[parts.len() - 1] == last);
        reveal_strlit(" ");
        let tail = " "@ + last;
        assert(join(parts, " "@) =~= join(init, " "@) + tail);
        assert(tail[0] == ' ');
        lemma_words_append(join(init, " "@), tail);
        assert(tail.drop_first() =~= last);
        lemma_words_single(last);
        assert(init + seq![last] =~= parts);
    }
}

/// The first character of a join is that of its first part.
pub proof fn lemma_join_first(parts: Seq<Seq<char>>, sep: Seq<char>)
    requires
        parts.len() > 0,
        parts[0].len() > 0,
    ensures
        join(parts, sep).len() > 0,
        join(parts, sep)[0] == parts[0][0],
    decreases parts.len(),
{
    if parts.len() > 1 {
        let init = parts.drop_last();
        assert(init[0] == parts[0]);
        lemma_join_first(init, sep);
        let j = join(init, sep) + sep + parts.last();
        assert(j[0] == join(init, sep)[0]);
    }
}

/// A join of parts without `c`, around a separator without `c`, has no `c`.
pub proof fn lemma_join_lacks(parts: Seq<Seq<char>>, sep: Seq<char>, c: char)
    requires
        forall|k: int| 0 <= k < parts.len() ==> lacks(#[trigger] parts[k], c),
        lacks(sep, c),
    ensures
        lacks(join(parts, sep), c),
    decreases parts.len(),
{
    if parts.len() == 0 {
    } else if parts.len() == 1 {
        assert(lacks(parts[0], c));
    } else {
        let init = parts.drop_last();
        assert forall|k: int| 0 <= k < init.len() implies lacks(#[trigger] init[k], c) by {
            assert(init[k] == parts[k]);
        }
        lemma_join_lacks(init, sep, c);
        assert(lacks(parts[parts.len() - 1], c));
        lemma_lacks_add(join(init, sep), sep, c);
        lemma_lacks_add(join(init, sep) + sep, parts.last(), c);
    }
}

/// Replacing characters by text without `c` in text without `c` leaves no `c`.
pub proof fn lemma_replace_lacks(s: Seq<char>, x: char, r: Seq<char>, c: char)
    requires
        lacks(s, c),
        lacks(r, c),
    ensures
        lacks(replace_char(s, x, r), c),
    decreases s.len(),
{
    if s.len() > 0 {
        assert forall|i: int| 0 <= i < s.drop_last().len() implies s.drop_last()[i] != c by {
            assert(s.drop_last()[i] == s[i]);
        }
        lemma_replace_lacks(s.drop_last(), x, r, c);
        let piece = if s.last() == x {
            r
        } else {
            seq![s.last()]
        };
        assert(s[s.len() - 1] != c);
        lemma_lacks_add(replace_char(s.drop_last(), x, r), piece, c);
    }
}

/// Text starting with a non-whitespace character trims to something.
pub proof fn lemma_trim_nonempty(s: Seq<char>)
    requires
        s.len() > 0,
        !is_ws(s[0]),
    ensures
        trim(s).len() > 0,
{
    assert(lead_ws(s) == 0);
    assert(s.skip(0) =~= s);
    lemma_trail_ws_short(s);
}

proof fn lemma_trail_ws_short(s: Seq<char>)
    requires
        s.len() > 0,
        !is_ws(s[0]),
    ensures
        trail_ws(s) < s.len(),
    decreases s.len(),
{
    if s.len() > 1 && is_ws(s.last()) {
        assert(s.drop_last()[0] == s[0]);
        lemma_trail_ws_short(s.drop_last());
    }
}

/// Text without whitespace is its own trim.
pub proof fn lemma_trim_no_ws(s: Seq<char>)
    requires
        no_ws(s),
    ensures
        trim(s) == s,
{
    if s.len() > 0 {
        assert(!is_ws(s[0]));
        assert(!is_ws(s[s.len() - 1]));
    }
    assert(lead_ws(s) == 0);
    assert(s.skip(0) =~= s);
    assert(trail_ws(s) == 0);
    assert(s.take(s.len() as int) =~= s);
}

/// A line without newlines ends where the next newline is.
proof fn lemma_line_len_prefix(a: Seq<char>, rest: Seq<char>)
    requires
        lacks(a, '\n'),
    ensures
        line_len(a + "\n"@ + rest) == a.len(),
    decreases a.len(),
{
    reveal_strlit("\n");
    let s = a + "\n"@ + rest;
    if a.len() == 0 {
        assert(s[0] == '\n');
    } else {
        assert(s[0] == a[0]);
        assert(s.drop_first() =~= a.drop_first() + "\n"@ + rest);
        assert forall|i: int| 0 <= i < a.drop_first().len() implies a.drop_first()[i] != '\n' by {
            assert(a.drop_first()[i] == a[i + 1]);
        }
        lemma_line_len_prefix(a.drop_first(), rest);
    }
}

/// Two newline-terminated lines, neither holding a newline nor ending in a
/// carriage return, read back as those two lines.
pub proof fn lemma_lines_two(a: Seq<char>, b: Seq<char>)
    requires
        lacks(a, '\n'),
        lacks(b, '\n'),
        ends_clean(a),
        ends_clean(b),
    ensures
        lines(a + "\n"@ + b + "\n"@) == seq![a, b],
{
    reveal_strlit("\n");
    let s = a + "\n"@ + b + "\n"@;
    assert(s =~= a + "\n"@ + (b + "\n"@));
    lemma_line_len_prefix(a, b + "\n"@);
    assert(s.take(a.len() as int) =~= a);
    assert(s.skip(a.len() + 1int) =~= b + "\n"@);
    let t = b + "\n"@;
    let e = Seq::<char>::empty();
    assert(b + "\n"@ + e =~= t);
    lemma_line_len_prefix(b, e);
    assert(line_len(t) == b.len());
    assert(lines(e) =~= Seq::<Seq<char>>::empty());
    assert(t.take(b.len() as int) =~= b);
    assert(t.skip(b.len() + 1int) =~= Seq::<char>::empty());
    assert(strip_cr(a) == a);
    assert(strip_cr(b) == b);
    assert(lines(t) =~= seq![b]);
    assert(lines(s) =~= seq![a, b]);
}

/// The first occurrence of `p` from `i` is at `k` when it occurs there and
/// nowhere between.
pub proof fn lemma_find_from_at(s: Seq<char>, p: Seq<char>, i: int, k: int)
    requires
        0 <= i <= k,
        k + p.len() <= s.len(),
        s.subrange(k, k + p.len()) == p,
        forall|j: int| i <= j < k ==> #[trigger] s.subrange(j, j + p.len()) != p,
    ensures
        find_from(s, p, i) == Some(k),
    decreases k - i,
{
    if i < k {
        lemma_find_from_at(s, p, i + 1, k);
    }
}

/// `" | "` never occurs in text without `'|'`.
pub proof fn lemma_find_bar_none(s: Seq<char>, i: int)
    requires
        lacks(s, '|'),
    ensures
        find_from(s, " | "@, i) is None,
    decreases s.len() + 1 - i,
{
    let p = " | "@;
    assert(p.len() == 3) by {
        reveal_strlit(" | ");
    }
    if i < 0 || i + p.len() > s.len() {
    } else {
        assert(p[1] == '|') by {
            reveal_strlit(" | ");
        }
        assert(s.subrange(i, i + 3)[1] == s[i + 1]);
        assert(s.subrange(i, i + p.len()) != p);
        lemma_find_bar_none(s, i + 1);
    }
}


/// A line that ends before the end of `a` ends there whatever follows.
proof fn lemma_line_len_append(a: Seq<char>, b: Seq<char>)
    requires
        line_len(a) < a.len(),
    ensures
        line_len(a + b) == line_len(a),
    decreases a.len(),
{
    if a[0] != '\n' {
        assert((a + b)[0] == a[0]);
        assert((a + b).drop_first() =~= a.drop_first() + b);
        lemma_line_len_append(a.drop_first(), b);
    } else {
        assert((a + b)[0] == '\n');
    }
}

/// The line of `s` ends at its first newline, so before a final newline.
proof fn lemma_line_len_short(s: Seq<char>)
    requires
        s.len() > 0,
        s.last() == '\n',
    ensures
        line_len(s) < s.len(),
    decreases s.len(),
{
    if s[0] != '\n' {
        assert(s.drop_first().last() == '\n');
        lemma_line_len_short(s.drop_first());
    }
}

/// Lines of text that ends in a newline, followed by more text: the lines
/// of each, one after the other.
pub proof fn lemma_lines_append(a: Seq<char>, b: Seq<char>)
    requires
        a.len() == 0 || a.last() == '\n',
    ensures
        lines(a + b) == lines(a) + lines(b),
    decreases a.len(),
{
    if a.len() == 0 {
        assert(a + b =~= b);
        assert(lines(a) =~= Seq::<Seq<char>>::empty());
        assert(lines(a) + lines(b) =~= lines(b));
    } else {
        lemma_line_len_short(a);
        lemma_line_len_append(a, b);
        let n = line_len(a) as int;
        let rest = a.skip(n + 1);
        assert((a + b).take(n) =~= a.take(n));
        assert((a + b).skip(n + 1) =~= rest + b);
        assert(rest.len() == 0 || rest.last() == '\n') by {
            if rest.len() > 0 {
                assert(rest.last() == a.last());
            }
        }
        lemma_lines_append(rest, b);
        assert(seq![strip_cr(a.take(n))] + (lines(rest) + lines(b)) =~= (seq![strip_cr(a.take(n))]
            + lines(rest)) + lines(b));
    }
}

/// A final newline after text that ends in neither a newline nor a
/// carriage return adds no line.
pub proof fn lemma_lines_newline(c: Seq<char>)
    requires
        c.len() > 0,
        c.last() != '\n',
        c.last() != '\r',
    ensures
        lines(c + "\n"@) == lines(c),
    decreases c.len(),
{
    reveal_strlit("\n");
    let s = c + "\n"@;
    let n = line_len(c);
    if n >= c.len() {
        lemma_line_len_whole(c);
        assert(s =~= c + "\n"@ + Seq::<char>::empty());
        lemma_line_len_prefix(c, Seq::<char>::empty());
        assert(s.take(c.len() as int) =~= c);
        assert(s.skip(c.len() + 1int) =~= Seq::<char>::empty());
        assert(lines(Seq::<char>::empty()) =~= Seq::<Seq<char>>::empty());
        assert(lines(s) =~= seq![c]);
    } else {
        lemma_line_len_append(c, "\n"@);
        let m = n as int;
        let rest = c.skip(m + 1);
        assert(s.take(m) =~= c.take(m));
        assert(s.skip(m + 1) =~= rest + "\n"@);
        assert(rest.len() > 0) by {
            if rest.len() == 0 {
                lemma_line_len_is_newline(c);
            }
        }
        assert(rest.last() == c.last());
        lemma_lines_newline(rest);
    }
}

proof fn lemma_line_len_whole(c: Seq<char>)
    requires
        line_len(c) >= c.len(),
    ensures
        lacks(c, '\n'),
    decreases c.len(),
{
    if c.len() > 0 {
        assert(c[0] != '\n');
        lemma_line_len_whole(c.drop_first());
        assert forall|i: int| 0 <= i < c.len() implies c[i] != '\n' by {
            if i > 0 {
                assert(c[i] == c.drop_first()[i - 1]);
            }
        }
    }
}

/// Where a line ends early, a newline stands.
proof fn lemma_line_len_is_newline(c: Seq<char>)
    requires
        line_len(c) < c.len(),
    ensures
        c[line_len(c) as int] == '\n',
    decreases c.len(),
{
    if c[0] != '\n' {
        lemma_line_len_is_newline(c.drop_first());
    }
}

} // verus!
