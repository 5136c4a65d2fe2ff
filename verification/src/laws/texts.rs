//! What holds of texts.

use crate::html::escaped;
use crate::text::{
    after_char, before_char, int_text, is_blank, is_white_space, joined,
    lemma_place_of, lowercased, nat_text, trimmed, trimmed_end, trimmed_start, uppercased,
    without_leading, without_trailing,
};
use vstd::prelude::*;

verus! {

// ---------- white space ----------

proof fn lemma_trimmed_start(s: Seq<char>) -> (k: int)
    ensures
        0 <= k <= s.len(),
        trimmed_start(s) == s.subrange(k, s.len() as int),
        forall|i: int| 0 <= i < k ==> is_white_space(#[trigger] s[i]),
        k < s.len() ==> !is_white_space(s[k]),
    decreases s.len(),
{
    if s.len() > 0 && is_white_space(s[0]) {
        let t = s.subrange(1, s.len() as int);
        let k = lemma_trimmed_start(t);
        assert(t.subrange(k, t.len() as int) =~= s.subrange(k + 1, s.len() as int));
        assert forall|i: int| 0 <= i < k + 1 implies is_white_space(#[trigger] s[i]) by {
            if i > 0 {
                assert(s[i] == t[i - 1]);
            }
        }
        k + 1
    } else {
        assert(s.subrange(0, s.len() as int) =~= s);
        0
    }
}

proof fn lemma_trimmed_end(s: Seq<char>) -> (k: int)
    ensures
        0 <= k <= s.len(),
        trimmed_end(s) == s.subrange(0, k),
        forall|i: int| k <= i < s.len() ==> is_white_space(#[trigger] s[i]),
        k > 0 ==> !is_white_space(s[k - 1]),
    decreases s.len(),
{
    if s.len() > 0 && is_white_space(s[s.len() - 1]) {
        let t = s.subrange(0, s.len() - 1);
        let k = lemma_trimmed_end(t);
        assert(t.subrange(0, k) =~= s.subrange(0, k));
        assert forall|i: int| k <= i < s.len() implies is_white_space(#[trigger] s[i]) by {
            if i < s.len() - 1 {
                assert(s[i] == t[i]);
            }
        }
        k
    } else {
        assert(s.subrange(0, s.len() as int) =~= s);
        s.len() as int
    }
}

/// A trimmed text is what is left once the white space at both ends is gone: it
/// neither begins nor ends with any, and only white space was taken away.
pub proof fn trimming_takes_white_space_off(s: Seq<char>) -> (ends: (int, int))
    ensures
        0 <= ends.0 <= ends.1 <= s.len(),
        trimmed(s) == s.subrange(ends.0, ends.1),
        forall|i: int| 0 <= i < ends.0 || ends.1 <= i < s.len() ==> is_white_space(#[trigger] s[i]),
        trimmed(s).len() > 0 ==> !is_white_space(trimmed(s)[0]) && !is_white_space(
            trimmed(s)[trimmed(s).len() - 1],
        ),
{
    let from = lemma_trimmed_start(s);
    let t = trimmed_start(s);
    let k = lemma_trimmed_end(t);
    assert(t.subrange(0, k) =~= s.subrange(from, from + k));
    assert forall|i: int| 0 <= i < from || from + k <= i < s.len() implies is_white_space(
        #[trigger] s[i],
    ) by {
        if i >= from + k {
            assert(s[i] == t[i - from]);
        }
    }
    if k > 0 {
        assert(t[0] == s[from]);
        assert(trimmed(s)[0] == t[0]);
        assert(trimmed(s)[k - 1] == t[k - 1]);
    }
    (from, from + k)
}

/// A blank text is one of nothing but white space.
pub proof fn blank_texts_are_white_space(s: Seq<char>)
    ensures
        is_blank(s) <==> forall|i: int| 0 <= i < s.len() ==> is_white_space(#[trigger] s[i]),
{
    let ends = trimming_takes_white_space_off(s);
    if ends.0 < ends.1 {
        assert(trimmed(s)[0] == s[ends.0]);
        assert(!is_white_space(s[ends.0]));
    }
}

/// A blank, a tab and a line's end are white space; what can be seen is not.
pub proof fn what_can_be_seen_is_no_white_space(c: char)
    ensures
        is_white_space(' ') && is_white_space('\t') && is_white_space('\n') && is_white_space('\r'),
        '!' <= c <= '~' ==> !is_white_space(c),
{
}

// ---------- letters ----------

/// Raising the case of a text changes small ASCII letters to their capitals, and
/// nothing else; lowering it undoes that.
pub proof fn cases_change_letters_only(s: Seq<char>, i: int)
    requires
        0 <= i < s.len(),
    ensures
        uppercased(s).len() == s.len(),
        lowercased(s).len() == s.len(),
        'a' <= s[i] <= 'z' ==> uppercased(s)[i] as u32 == s[i] as u32 - 32,
        !('a' <= s[i] <= 'z') ==> uppercased(s)[i] == s[i],
        'A' <= s[i] <= 'Z' ==> lowercased(s)[i] as u32 == s[i] as u32 + 32,
        !('A' <= s[i] <= 'Z') ==> lowercased(s)[i] == s[i],
{
}

// ---------- cutting ----------

/// A text that is cut at a character is the part before, the character and the
/// part behind; the part before does not hold the character.
pub proof fn cutting_loses_nothing(s: Seq<char>, c: char)
    ensures
        after_char(s, c) is Some ==> s == before_char(s, c).push(c) + after_char(s, c)->0,
        after_char(s, c) is None ==> s == before_char(s, c),
        !before_char(s, c).contains(c),
        after_char(s, c) is Some <==> s.contains(c),
{
    lemma_place_of(s, c);
    if after_char(s, c) is Some {
        assert(s =~= before_char(s, c).push(c) + after_char(s, c)->0);
        assert(s[crate::text::place_of(s, c)] == c);
    } else {
        assert(s =~= before_char(s, c));
        if s.contains(c) {
            let i = choose|i: int| 0 <= i < s.len() && s[i] == c;
            assert(s[i] != c);
        }
    }
    if before_char(s, c).contains(c) {
        let i = choose|i: int| 0 <= i < before_char(s, c).len() && before_char(s, c)[i] == c;
        assert(s[i] == c);
    }
}

/// What is taken off an end is only the character that was meant, and all of it.
pub proof fn ends_are_taken_off(s: Seq<char>, c: char)
    ensures
        without_trailing(s, c).len() <= s.len(),
        without_trailing(s, c) == s.take(without_trailing(s, c).len() as int),
        forall|i: int| without_trailing(s, c).len() <= i < s.len() ==> #[trigger] s[i] == c,
        without_trailing(s, c).len() > 0 ==> s[without_trailing(s, c).len() - 1] != c,
        without_leading(s, c).len() <= s.len(),
        without_leading(s, c) == s.skip(s.len() - without_leading(s, c).len()),
        forall|i: int| 0 <= i < s.len() - without_leading(s, c).len() ==> #[trigger] s[i] == c,
        without_leading(s, c).len() > 0 ==> without_leading(s, c)[0] != c,
    decreases s.len(),
{
    if s.len() > 0 {
        let front = s.subrange(0, s.len() - 1);
        let back = s.subrange(1, s.len() as int);
        ends_are_taken_off(front, c);
        ends_are_taken_off(back, c);
        if s[s.len() - 1] == c {
            let n = without_trailing(s, c).len() as int;
            assert(front.take(n) =~= s.take(n));
            assert forall|i: int| n <= i < s.len() implies #[trigger] s[i] == c by {
                if i < s.len() - 1 {
                    assert(front[i] == s[i]);
                }
            }
            if n > 0 {
                assert(front[n - 1] == s[n - 1]);
            }
        } else {
            assert(s.take(s.len() as int) =~= s);
        }
        if s[0] == c {
            let k = s.len() - without_leading(s, c).len();
            assert(back.skip(k - 1) =~= s.skip(k));
            assert forall|i: int| 0 <= i < k implies #[trigger] s[i] == c by {
                if i > 0 {
                    assert(back[i - 1] == s[i]);
                }
            }
        } else {
            assert(s.skip(0) =~= s);
        }
    } else {
        assert(s.take(0) =~= s);
        assert(s.skip(0) =~= s);
    }
}

// ---------- numbers ----------

/// The number that decimal digits stand for.
pub open spec fn value_of(digits: Seq<char>) -> int
    decreases digits.len(),
{
    if digits.len() == 0 {
        0
    } else {
        value_of(digits.drop_last()) * 10 + (digits.last() as int - 48)
    }
}

/// A number that is written in decimal is made of digits, begins with no needless
/// zero, and reads back as the number.
pub proof fn numbers_read_back(n: nat)
    ensures
        value_of(nat_text(n)) == n,
        nat_text(n).len() > 0,
        forall|i: int| 0 <= i < nat_text(n).len() ==> '0' <= #[trigger] nat_text(n)[i] <= '9',
        n > 0 ==> nat_text(n)[0] != '0',
    decreases n,
{
    if n < 10 {
        let t = nat_text(n);
        assert(t.drop_last() =~= Seq::<char>::empty());
        assert(value_of(t.drop_last()) == 0);
        assert(t.last() as int - 48 == n);
    } else {
        numbers_read_back(n / 10);
        let t = nat_text(n);
        assert(t.drop_last() =~= nat_text(n / 10));
        assert(t[0] == nat_text(n / 10)[0]);
        assert forall|i: int| 0 <= i < t.len() implies '0' <= #[trigger] t[i] <= '9' by {
            if i < t.len() - 1 {
                assert(t[i] == nat_text(n / 10)[i]);
            }
        }
    }
}

/// A number below zero is written with a minus sign before its size.
pub proof fn negative_numbers_have_a_sign(n: int)
    ensures
        n >= 0 ==> value_of(int_text(n)) == n && int_text(n)[0] != '-',
        n < 0 ==> int_text(n)[0] == '-' && value_of(int_text(n).skip(1)) == -n,
{
    if n >= 0 {
        numbers_read_back(n as nat);
    } else {
        numbers_read_back((-n) as nat);
        assert(int_text(n).skip(1) =~= nat_text((-n) as nat));
    }
}

// ---------- joining ----------

/// Texts that are joined stand one behind the other, with the separator between
/// each two and nowhere else.
pub proof fn joined_texts_stand_in_a_row(v: Seq<Seq<char>>, last: Seq<char>, sep: Seq<char>)
    ensures
        joined(Seq::<Seq<char>>::empty(), sep).len() == 0,
        v.len() == 0 ==> joined(v.push(last), sep) == last,
        v.len() > 0 ==> joined(v.push(last), sep) == joined(v, sep) + sep + last,
{
    assert(v.push(last).drop_last() =~= v);
}

// ---------- HTML ----------

/// A text inside HTML is written character by character: those that mean
/// something in HTML by their names, the rest as they are.
pub proof fn html_is_written_character_by_character(
    s: Seq<char>,
    c: char,
    quotes: bool,
    apostrophes: bool,
)
    ensures
        escaped(Seq::<char>::empty(), quotes, apostrophes).len() == 0,
        escaped(s.push('&'), quotes, apostrophes) == escaped(s, quotes, apostrophes) + "&amp;"@,
        escaped(s.push('<'), quotes, apostrophes) == escaped(s, quotes, apostrophes) + "&lt;"@,
        escaped(s.push('>'), quotes, apostrophes) == escaped(s, quotes, apostrophes) + "&gt;"@,
        escaped(s.push('"'), true, apostrophes) == escaped(s, true, apostrophes) + "&quot;"@,
        escaped(s.push('\''), quotes, true) == escaped(s, quotes, true) + "&#39;"@,
        escaped(s.push('"'), false, apostrophes) == escaped(s, false, apostrophes).push('"'),
        escaped(s.push('\''), quotes, false) == escaped(s, quotes, false).push('\''),
        c != '&' && c != '<' && c != '>' && c != '"' && c != '\'' ==> escaped(
            s.push(c),
            quotes,
            apostrophes,
        ) == escaped(s, quotes, apostrophes).push(c),
{
    let firsts = |d: char| s.push(d).drop_last() =~= s;
    assert(firsts('&') && firsts('<') && firsts('>') && firsts('"') && firsts('\'') && firsts(c));
    assert(escaped(s.push('"'), false, apostrophes) =~= escaped(s, false, apostrophes).push('"'));
    assert(escaped(s.push('\''), quotes, false) =~= escaped(s, quotes, false).push('\''));
    if c != '&' && c != '<' && c != '>' && c != '"' && c != '\'' {
        assert(escaped(s.push(c), quotes, apostrophes) =~= escaped(s, quotes, apostrophes).push(c));
    }
}

/// Whatever a text holds, inside HTML it opens and closes no tag, and with quotes
/// taken care of it ends no attribute.
pub proof fn texts_stay_texts_in_html(s: Seq<char>, quotes: bool, apostrophes: bool)
    ensures
        forall|i: int|
            0 <= i < escaped(s, quotes, apostrophes).len() ==> {
                let c = #[trigger] escaped(s, quotes, apostrophes)[i];
                &&& c != '<'
                &&& c != '>'
                &&& quotes ==> c != '"'
                &&& apostrophes ==> c != '\''
            },
    decreases s.len(),
{
    reveal_strlit("&amp;");
    reveal_strlit("&lt;");
    reveal_strlit("&gt;");
    reveal_strlit("&quot;");
    reveal_strlit("&#39;");
    if s.len() > 0 {
        texts_stay_texts_in_html(s.drop_last(), quotes, apostrophes);
        let before = escaped(s.drop_last(), quotes, apostrophes);
        let all = escaped(s, quotes, apostrophes);
        assert forall|i: int| 0 <= i < all.len() implies {
            let c = #[trigger] all[i];
            &&& c != '<'
            &&& c != '>'
            &&& quotes ==> c != '"'
            &&& apostrophes ==> c != '\''
        } by {
            if i < before.len() {
                assert(all[i] == before[i]);
            }
        }
    }
}

} // verus!
