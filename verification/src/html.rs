//! Text inside HTML.

use crate::text::chars_of;
use vstd::prelude::*;

verus! {

/// A character as it stands in HTML. `&`, `<` and `>` are always written as
/// entities, quotes and apostrophes where that is asked for.
pub open spec fn escaped_char(c: char, quotes: bool, apostrophes: bool) -> Seq<char> {
    if c == '&' {
        "&amp;"@
    } else if c == '<' {
        "&lt;"@
    } else if c == '>' {
        "&gt;"@
    } else if c == '"' && quotes {
        "&quot;"@
    } else if c == '\'' && apostrophes {
        "&#39;"@
    } else {
        seq![c]
    }
}

/// A text as it stands in HTML.
pub open spec fn escaped(s: Seq<char>, quotes: bool, apostrophes: bool) -> Seq<char>
    decreases s.len(),
{
    if s.len() == 0 {
        seq![]
    } else {
        escaped(s.drop_last(), quotes, apostrophes) + escaped_char(s.last(), quotes, apostrophes)
    }
}

/// A text as it stands in HTML.
pub fn escape(s: &str, quotes: bool, apostrophes: bool) -> (r: String)
    ensures
        r@ == escaped(s@, quotes, apostrophes),
{
    let v: Vec<char> = chars_of(s);
    let mut out: String = String::new();
    for i in 0..v.len()
        invariant
            v@ == s@,
            out@ == escaped(s@.take(i as int), quotes, apostrophes),
    {
        let c: char = v[i];
        proof {
            assert(s@.take(i + 1).drop_last() == s@.take(i as int));
            assert(s@.take(i + 1).last() == c);
        }
        if c == '&' {
            out.append("&amp;");
        } else if c == '<' {
            out.append("&lt;");
        } else if c == '>' {
            out.append("&gt;");
        } else if c == '"' && quotes {
            out.append("&quot;");
        } else if c == '\'' && apostrophes {
            out.append("&#39;");
        } else {
            let ghost before = out@;
            out.push(c);
            assert(out@ =~= before + seq![c]);
        }
    }
    assert(s@.take(s@.len() as int) == s@);
    out
}

/// A text that is written into HTML opens no tag and, where quotes are escaped,
/// ends no quoted attribute.
pub proof fn escaped_text_stays_text(s: Seq<char>, quotes: bool, apostrophes: bool)
    ensures
        forall|i: int|
            0 <= i < escaped(s, quotes, apostrophes).len() ==> ({
                let c = #[trigger] escaped(s, quotes, apostrophes)[i];
                c != '<' && c != '>' && (quotes ==> c != '"') && (apostrophes ==> c != '\'')
            }),
    decreases s.len(),
{
    if s.len() > 0 {
        escaped_text_stays_text(s.drop_last(), quotes, apostrophes);
        reveal_strlit("&amp;");
        reveal_strlit("&lt;");
        reveal_strlit("&gt;");
        reveal_strlit("&quot;");
        reveal_strlit("&#39;");
        let head = escaped(s.drop_last(), quotes, apostrophes);
        let tail = escaped_char(s.last(), quotes, apostrophes);
        assert forall|i: int| 0 <= i < escaped(s, quotes, apostrophes).len() implies ({
            let c = #[trigger] escaped(s, quotes, apostrophes)[i];
            c != '<' && c != '>' && (quotes ==> c != '"') && (apostrophes ==> c != '\'')
        }) by {
            if i < head.len() {
                assert(escaped(s, quotes, apostrophes)[i] == head[i]);
            } else {
                assert(escaped(s, quotes, apostrophes)[i] == tail[i - head.len()]);
            }
        }
    }
}

/// Two texts put together stand in HTML as each of them does.
pub proof fn escapes_join(a: Seq<char>, b: Seq<char>, quotes: bool, apostrophes: bool)
    ensures
        escaped(a + b, quotes, apostrophes) == escaped(a, quotes, apostrophes) + escaped(
            b,
            quotes,
            apostrophes,
        ),
    decreases b.len(),
{
    if b.len() == 0 {
        assert(a + b =~= a);
    } else {
        escapes_join(a, b.drop_last(), quotes, apostrophes);
        assert((a + b).drop_last() =~= a + b.drop_last());
        assert((a + b).last() == b.last());
    }
}

/// Does a text begin with another?
pub open spec fn begins(text: Seq<char>, start: Seq<char>) -> bool {
    start.len() <= text.len() && text.subrange(0, start.len() as int) == start
}

/// What the first character or entity of a text that stands in HTML is, and how
/// many characters it takes up.
pub open spec fn first_decoded(text: Seq<char>) -> (char, int) {
    if begins(text, "&amp;"@) {
        ('&', 5)
    } else if begins(text, "&lt;"@) {
        ('<', 4)
    } else if begins(text, "&gt;"@) {
        ('>', 4)
    } else if begins(text, "&quot;"@) {
        ('"', 6)
    } else if begins(text, "&#39;"@) {
        ('\'', 5)
    } else {
        (text[0], 1)
    }
}

/// The text that a text which stands in HTML is read as.
pub open spec fn decoded(text: Seq<char>) -> Seq<char>
    decreases text.len(),
{
    if text.len() == 0 {
        seq![]
    } else {
        let (c, n) = first_decoded(text);
        if 1 <= n <= text.len() {
            seq![c] + decoded(text.subrange(n, text.len() as int))
        } else {
            seq![]
        }
    }
}

proof fn lemma_first_decoded(c: char, rest: Seq<char>, quotes: bool, apostrophes: bool)
    ensures
        first_decoded(escaped_char(c, quotes, apostrophes) + rest) == (
            c,
            escaped_char(c, quotes, apostrophes).len() as int,
        ),
        1 <= escaped_char(c, quotes, apostrophes).len(),
{
    reveal_strlit("&amp;");
    reveal_strlit("&lt;");
    reveal_strlit("&gt;");
    reveal_strlit("&quot;");
    reveal_strlit("&#39;");
    let head = escaped_char(c, quotes, apostrophes);
    let text = head + rest;
    assert(text.subrange(0, head.len() as int) =~= head);
    assert(text[0] == head[0]);
    assert(forall|start: Seq<char>|
        begins(text, start) && start.len() > 0 ==> #[trigger] start[0] == text[0]) by {
        assert forall|start: Seq<char>| begins(text, start) && start.len() > 0 implies #[trigger] start[0]
            == text[0] by {
            assert(text.subrange(0, start.len() as int)[0] == text[0]);
        }
    }
    if c == '&' || c == '<' || c == '>' || (c == '"' && quotes) || (c == '\'' && apostrophes) {
        assert(text[1] == head[1]);
        if begins(text, "&amp;"@) {
            assert(text.subrange(0, 5)[1] == 'a');
        } else if begins(text, "&lt;"@) {
            assert(text.subrange(0, 4)[1] == 'l');
        } else if begins(text, "&gt;"@) {
            assert(text.subrange(0, 4)[1] == 'g');
        } else if begins(text, "&quot;"@) {
            assert(text.subrange(0, 6)[1] == 'q');
        } else if begins(text, "&#39;"@) {
            assert(text.subrange(0, 5)[1] == '#');
        }
    } else {
        assert("&amp;"@[0] == '&' && "&lt;"@[0] == '&' && "&gt;"@[0] == '&' && "&quot;"@[0] == '&'
            && "&#39;"@[0] == '&');
    }
}

/// A text that is written into HTML is read as what it was; nothing is escaped
/// twice.
pub proof fn escaped_text_is_read_back(s: Seq<char>, quotes: bool, apostrophes: bool)
    ensures
        decoded(escaped(s, quotes, apostrophes)) == s,
    decreases s.len(),
{
    if s.len() > 0 {
        let first = s.subrange(0, 1);
        let rest = s.subrange(1, s.len() as int);
        let head = escaped_char(s[0], quotes, apostrophes);
        let tail = escaped(rest, quotes, apostrophes);
        assert(s =~= first + rest);
        escapes_join(first, rest, quotes, apostrophes);
        assert(escaped(first, quotes, apostrophes) =~= head) by {
            reveal_with_fuel(escaped, 2);
            assert(first.drop_last() =~= Seq::<char>::empty());
            assert(first.last() == s[0]);
        }
        lemma_first_decoded(s[0], tail, quotes, apostrophes);
        assert((head + tail).subrange(head.len() as int, (head + tail).len() as int) =~= tail);
        escaped_text_is_read_back(rest, quotes, apostrophes);
        assert(seq![s[0]] + rest =~= s);
    }
}

} // verus!
