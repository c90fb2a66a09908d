//! What holds of trimming, cutting, splitting, joining and writing numbers.

use crate::text;
use vstd::prelude::*;
use vstd::string::*;

verus! {

/// Whether a text is white space throughout.
pub open spec fn all_white(s: Seq<char>) -> bool {
    forall|i: int| 0 <= i < s.len() ==> text::white(#[trigger] s[i])
}

/// In ASCII, white space is the blank and the characters from the tabulator to the carriage
/// return; no letter, digit or sign is.
pub proof fn law_ascii_white(c: char)
    requires
        c <= '\u{7f}',
    ensures
        text::white(c) <==> c == ' ' || '\t' <= c <= '\r',
{
}

/// Beyond ASCII, white space is the next-line character, the blanks of Unicode and its separators
/// of lines and paragraphs.
pub proof fn law_other_white(c: char)
    requires
        c > '\u{7f}',
    ensures
        text::white(c) <==> {
            let n = c as u32;
            n == 0x85 || n == 0xa0 || n == 0x1680 || 0x2000 <= n <= 0x200a || n == 0x2028 || n
                == 0x2029 || n == 0x202f || n == 0x205f || n == 0x3000
        },
{
}

proof fn lemma_start(a: Seq<char>, s: Seq<char>)
    requires
        all_white(a),
        s.len() == 0 || !text::white(s[0]),
    ensures
        text::trimmed_start(a + s) == s,
    decreases a.len(),
{
    if a.len() == 0 {
        assert(a + s =~= s);
    } else {
        assert((a + s)[0] == a[0]);
        assert((a + s).skip(1) =~= a.skip(1) + s);
        assert forall|i: int| 0 <= i < a.skip(1).len() implies text::white(
            #[trigger] a.skip(1)[i],
        ) by {
            assert(a.skip(1)[i] == a[i + 1]);
        }
        lemma_start(a.skip(1), s);
    }
}

proof fn lemma_end(s: Seq<char>, b: Seq<char>)
    requires
        all_white(b),
        s.len() == 0 || !text::white(s.last()),
    ensures
        text::trimmed_end(s + b) == s,
    decreases b.len(),
{
    if b.len() == 0 {
        assert(s + b =~= s);
    } else {
        assert((s + b).last() == b[b.len() - 1]);
        assert((s + b).drop_last() =~= s + b.drop_last());
        assert forall|i: int| 0 <= i < b.drop_last().len() implies text::white(
            #[trigger] b.drop_last()[i],
        ) by {
            assert(b.drop_last()[i] == b[i]);
        }
        lemma_end(s, b.drop_last());
    }
}

/// Trimming takes off exactly the white space around a text: what stands between, from its first
/// to its last other character, is left.
pub proof fn law_trimming_takes_white_space_off(a: Seq<char>, s: Seq<char>, b: Seq<char>)
    requires
        all_white(a),
        all_white(b),
        s.len() > 0 ==> !text::white(s[0]) && !text::white(s.last()),
    ensures
        text::trimmed(a + s + b) == s,
{
    if s.len() == 0 {
        let all = a + s + b;
        assert(all =~= a + b);
        assert forall|i: int| 0 <= i < all.len() implies text::white(#[trigger] all[i]) by {
            if i < a.len() {
                assert(all[i] == a[i]);
            } else {
                assert(all[i] == b[i - a.len()]);
            }
        }
        lemma_start(all, s);
        assert(all + s =~= all);
    } else {
        assert(a + s + b =~= a + (s + b));
        assert((s + b)[0] == s[0]);
        lemma_start(a, s + b);
        lemma_end(s, b);
    }
}

/// A text is cut at the first sign: what stands before it does not hold the sign, and what stands
/// behind it is the rest. A text without the sign is not cut.
pub proof fn law_cut_at_the_first(a: Seq<char>, c: char, b: Seq<char>)
    requires
        !a.contains(c),
    ensures
        text::cut_at(a + seq![c] + b, c) == Some((a, b)),
        text::cut_at(a, c) is None,
{
    let s = a + seq![c] + b;
    lemma_position(a, seq![c] + b, c);
    assert(s =~= a + (seq![c] + b));
    assert(text::position(seq![c] + b, c) == 0);
    assert(s.take(a.len() as int) =~= a);
    assert(s.skip((a.len() + 1) as int) =~= b);
    lemma_position(a, Seq::empty(), c);
    assert(a + Seq::<char>::empty() =~= a);
}

proof fn lemma_position(a: Seq<char>, b: Seq<char>, c: char)
    requires
        !a.contains(c),
    ensures
        text::position(a + b, c) == a.len() + text::position(b, c),
    decreases a.len(),
{
    if a.len() == 0 {
        assert(a + b =~= b);
    } else {
        assert(a[0] != c);
        assert((a + b)[0] == a[0]);
        assert((a + b).skip(1) =~= a.skip(1) + b);
        assert forall|i: int| 0 <= i < a.skip(1).len() implies a.skip(1)[i] != c by {
            assert(a.skip(1)[i] == a[i + 1]);
        }
        lemma_position(a.skip(1), b, c);
    }
}

/// A text without the sign is one piece, and a sign with such a text behind it adds this text as
/// one more piece to those before it.
pub proof fn law_pieces(a: Seq<char>, b: Seq<char>, c: char)
    requires
        !b.contains(c),
    ensures
        text::pieces(b, c) == seq![b],
        text::pieces(a + seq![c] + b, c) == text::pieces(a, c).push(b),
    decreases b.len(),
{
    let s = a + seq![c] + b;
    if b.len() == 0 {
        assert(s.drop_last() =~= a);
        assert(b =~= Seq::empty());
    } else {
        let d = b.drop_last();
        assert forall|i: int| 0 <= i < d.len() implies d[i] != c by {
            assert(d[i] == b[i]);
        }
        law_pieces(a, d, c);
        assert(s.drop_last() =~= a + seq![c] + d);
        assert(s.last() == b[b.len() - 1]);
        assert(d.push(b.last()) =~= b);
        assert(seq![d].drop_last().push(b) =~= seq![b]);
        let before = text::pieces(a, c).push(d);
        assert(before.drop_last().push(before.last().push(b.last())) =~= text::pieces(a, c).push(
            b,
        ));
    }
}

/// Joining the pieces of a text with the sign between them gives the text back, and no piece holds
/// the sign.
pub proof fn law_pieces_are_joined_again(s: Seq<char>, c: char)
    ensures
        text::joined(text::pieces(s, c), seq![c]) == s,
        forall|i: int|
            0 <= i < text::pieces(s, c).len() ==> !(#[trigger] text::pieces(s, c)[i]).contains(c),
    decreases s.len(),
{
    let all = text::pieces(s, c);
    if s.len() > 0 {
        let rest = s.drop_last();
        law_pieces_are_joined_again(rest, c);
        text::lemma_pieces_nonempty(rest, c);
        let before = text::pieces(rest, c);
        let sep = seq![c];
        if s.last() == c {
            assert(all.drop_last() =~= before);
            assert(text::joined(before, sep) + sep + Seq::<char>::empty() =~= s);
        } else {
            let head = before.drop_last();
            let tail = before.last();
            assert(all.drop_last() =~= head);
            assert(before =~= head.push(tail));
            if head.len() == 0 {
                assert(tail.push(s.last()) =~= s);
            } else {
                assert(text::joined(head, sep) + sep + tail.push(s.last()) =~= (text::joined(
                    head,
                    sep,
                ) + sep + tail).push(s.last()));
                assert(rest.push(s.last()) =~= s);
            }
            assert forall|i: int| 0 <= i < all.len() implies !(#[trigger] all[i]).contains(c) by {
                if i < head.len() {
                    assert(all[i] == before[i]);
                } else {
                    assert(before[head.len() as int] == tail);
                    assert(!tail.contains(c));
                    assert forall|k: int| 0 <= k < all[i].len() implies all[i][k] != c by {
                        if k < tail.len() {
                            assert(all[i][k] == tail[k]);
                        }
                    }
                }
            }
        }
    }
}

/// Joining one more text puts the separator in front of it, unless it is the first.
pub proof fn law_joining_one_more(list: Seq<Seq<char>>, last: Seq<char>, sep: Seq<char>)
    ensures
        text::joined(list.push(last), sep) == if list.len() == 0 {
            last
        } else {
            text::joined(list, sep) + sep + last
        },
{
    assert(list.push(last).drop_last() =~= list);
}

/// How many line breaks a text holds.
pub open spec fn breaks(s: Seq<char>) -> nat
    decreases s.len(),
{
    if s.len() == 0 {
        0
    } else {
        breaks(s.drop_last()) + if s.last() == '\n' {
            1nat
        } else {
            0nat
        }
    }
}

proof fn lemma_breaks(s: Seq<char>)
    ensures
        text::pieces(s, '\n').len() == breaks(s) + 1,
    decreases s.len(),
{
    if s.len() > 0 {
        lemma_breaks(s.drop_last());
    }
}

/// A text has as many lines as line breaks, and one more where something stands behind the last of
/// them.
pub proof fn law_lines_are_counted(s: Seq<char>)
    ensures
        text::line_count(s) == breaks(s) + if s.len() > 0 && s.last() != '\n' {
            1int
        } else {
            0int
        },
{
    lemma_breaks(s);
}

/// The number that digits stand for.
pub open spec fn number(digits: Seq<char>) -> int
    decreases digits.len(),
{
    if digits.len() == 0 {
        0
    } else {
        10 * number(digits.drop_last()) + (digits.last() as int - '0' as int)
    }
}

/// A number in decimal stands for that number, in digits, and does not start with a zero unless it
/// is zero.
pub proof fn law_decimal_stands_for_its_number(n: nat)
    ensures
        number(text::decimal(n)) == n,
        text::decimal(n).len() > 0,
        forall|i: int|
            0 <= i < text::decimal(n).len() ==> '0' <= #[trigger] text::decimal(n)[i] <= '9',
        text::decimal(n)[0] == '0' ==> n == 0,
    decreases n,
{
    let d = text::decimal(n);
    if n < 10 {
        assert(d.drop_last() =~= Seq::empty());
        assert(number(Seq::<char>::empty()) == 0);
    } else {
        law_decimal_stands_for_its_number(n / 10);
        assert(d.drop_last() =~= text::decimal(n / 10));
        assert(d[0] == text::decimal(n / 10)[0]);
        assert forall|i: int| 0 <= i < d.len() implies '0' <= #[trigger] d[i] <= '9' by {
            if i < d.len() - 1 {
                assert(d[i] == text::decimal(n / 10)[i]);
            }
        }
    }
}

/// Padding puts blanks behind a text, or a sign in front of it, until it is long enough; a text
/// that is long enough stays.
pub proof fn law_padding(s: Seq<char>, width: nat, c: char)
    ensures
        s.len() >= width ==> text::padded_right(s, width) == s && text::padded_left(s, width, c)
            == s,
        s.len() < width ==> {
            &&& text::padded_right(s, width).len() == width
            &&& text::padded_right(s, width).take(s.len() as int) == s
            &&& forall|i: int|
                s.len() <= i < width ==> #[trigger] text::padded_right(s, width)[i] == ' '
            &&& text::padded_left(s, width, c).len() == width
            &&& text::padded_left(s, width, c).skip(width - s.len()) == s
            &&& forall|i: int|
                0 <= i < width - s.len() ==> #[trigger] text::padded_left(s, width, c)[i] == c
        },
{
    if s.len() < width {
        assert(text::padded_right(s, width).take(s.len() as int) =~= s);
        assert(text::padded_left(s, width, c).skip(width - s.len()) =~= s);
    }
}

/// The letters from `A` to `Z` and from `a` to `z` go over into each other; every other character
/// stays.
pub proof fn law_letters_change_case(c: char)
    ensures
        'A' <= c <= 'Z' ==> 'a' <= text::lower_letter(c) <= 'z' && text::upper_letter(
            text::lower_letter(c),
        ) == c && text::lower_letter(c) as int - c as int == 'a' as int - 'A' as int,
        'a' <= c <= 'z' ==> 'A' <= text::upper_letter(c) <= 'Z' && text::lower_letter(
            text::upper_letter(c),
        ) == c,
        !('A' <= c <= 'Z') ==> text::lower_letter(c) == c,
        !('a' <= c <= 'z') ==> text::upper_letter(c) == c,
{
}

/// An ASCII text changes its case letter by letter.
pub proof fn law_ascii_texts_change_case(s: Seq<char>, i: int)
    requires
        text::ascii(s),
        0 <= i < s.len(),
    ensures
        text::lower(s).len() == s.len() && text::upper(s).len() == s.len(),
        text::lower(s)[i] == text::lower_letter(s[i]),
        text::upper(s)[i] == text::upper_letter(s[i]),
{
}

/// A text is ASCII exactly where none of its characters lies beyond the first 128.
pub proof fn law_ascii(s: Seq<char>)
    ensures
        text::ascii(s) <==> forall|i: int| 0 <= i < s.len() ==> (#[trigger] s[i]) as int <= 127,
{
}

/// Replacing goes through a text from the left: where the part stands at its start, it is replaced
/// and the rest is gone through; else the first character stays and the rest is gone through.
pub proof fn law_replacing_from_the_left(s: Seq<char>, c: char, p: Seq<char>, w: Seq<char>)
    requires
        p.len() > 0,
    ensures
        text::replaced(p + s, p, w) == w + text::replaced(s, p, w),
        !text::stands_at(seq![c] + s, p, 0) ==> text::replaced(seq![c] + s, p, w) == seq![c]
            + text::replaced(s, p, w),
        text::replaced(Seq::empty(), p, w) == Seq::<char>::empty(),
{
    assert((p + s).subrange(0, p.len() as int) =~= p);
    assert((p + s).skip(p.len() as int) =~= s);
    assert((seq![c] + s).skip(1) =~= s);
}

/// A part stands somewhere in a text exactly where the text is this part with something before and
/// behind it.
pub proof fn law_occurrences(s: Seq<char>, a: Seq<char>, p: Seq<char>, b: Seq<char>)
    ensures
        text::occurs(a + p + b, p),
        text::occurs(s, p) <==> exists|before: Seq<char>, behind: Seq<char>|
            s == #[trigger] (before + p + behind),
{
    lemma_part(a, p, b);
    if text::occurs(s, p) {
        let i = choose|i: int| text::stands_at(s, p, i);
        let before = s.take(i);
        let behind = s.skip(i + p.len());
        assert forall|k: int| 0 <= k < p.len() implies s[i + k] == p[k] by {
            assert(s.subrange(i, i + p.len())[k] == p[k]);
        }
        assert(s =~= before + p + behind);
    }
    if exists|before: Seq<char>, behind: Seq<char>| s == #[trigger] (before + p + behind) {
        let (before, behind) = choose|before: Seq<char>, behind: Seq<char>|
            s == #[trigger] (before + p + behind);
        lemma_part(before, p, behind);
    }
}

proof fn lemma_part(a: Seq<char>, p: Seq<char>, b: Seq<char>)
    ensures
        text::occurs(a + p + b, p),
{
    let i = a.len() as int;
    assert((a + p + b).subrange(i, i + p.len()) =~= p);
    assert(text::stands_at(a + p + b, p, i));
}

} // verus!
