//! What holds of texts: of numbers that are written out, of white space that is cut off, of parts,
//! and of the dictionary order.

use vstd::prelude::*;

use crate::json::{text_at, Json, Scalar};
use crate::text::{
    ascending, blank, comes_before, decimal, occurs_in, text_of, texts, trim_end, trim_start,
    trimmed, white_space,
};

verus! {

/// The number that a text of decimal digits stands for.
pub open spec fn number_in(s: Seq<char>) -> nat
    decreases s.len(),
{
    if s.len() == 0 {
        0
    } else {
        (10 * number_in(s.drop_last()) + (s.last() as int - '0' as int)) as nat
    }
}

/// A number that is written out is read back: its text holds nothing but digits, it stands for the
/// number, and it does not begin with a zero unless it is that alone.
pub proof fn numbers_are_read_back(n: nat)
    ensures
        forall|i: int| 0 <= i < decimal(n).len() ==> '0' <= #[trigger] decimal(n)[i] <= '9',
        number_in(decimal(n)) == n,
        decimal(n).len() > 0,
        decimal(n).len() > 1 ==> decimal(n)[0] != '0',
    decreases n,
{
    reveal_with_fuel(number_in, 2);
    if n >= 10 {
        numbers_are_read_back(n / 10);
        assert(decimal(n).drop_last() =~= decimal(n / 10));
        assert(decimal(n).last() as int - '0' as int == n % 10);
        assert forall|i: int| 0 <= i < decimal(n).len() implies '0' <= #[trigger] decimal(n)[i]
            <= '9' by {
            if i < decimal(n).len() - 1 {
                assert(decimal(n)[i] == decimal(n / 10)[i]);
            }
        }
        assert(decimal(n)[0] == decimal(n / 10)[0]);
    } else {
        assert(decimal(n).drop_last() =~= Seq::<char>::empty());
    }
}

/// Different numbers have different texts.
pub proof fn numbers_are_told_apart(m: nat, n: nat)
    requires
        decimal(m) == decimal(n),
    ensures
        m == n,
{
    numbers_are_read_back(m);
    numbers_are_read_back(n);
}

proof fn lemma_start(s: Seq<char>) -> (at: int)
    ensures
        0 <= at <= s.len(),
        trim_start(s) == s.skip(at),
        forall|i: int| 0 <= i < at ==> white_space(#[trigger] s[i]),
        at < s.len() ==> !white_space(s[at]),
    decreases s.len(),
{
    if s.len() > 0 && white_space(s.first()) {
        let t = s.drop_first();
        let k = lemma_start(t);
        assert(s.skip(k + 1) =~= t.skip(k));
        assert forall|i: int| 0 <= i < k + 1 implies white_space(#[trigger] s[i]) by {
            if i > 0 {
                assert(s[i] == t[i - 1]);
            }
        }
        if k < t.len() {
            assert(s[k + 1] == t[k]);
        }
        k + 1
    } else {
        assert(s.skip(0) =~= s);
        0
    }
}

proof fn lemma_end(s: Seq<char>) -> (at: int)
    ensures
        0 <= at <= s.len(),
        trim_end(s) == s.take(at),
        forall|i: int| at <= i < s.len() ==> white_space(#[trigger] s[i]),
        at > 0 ==> !white_space(s[at - 1]),
    decreases s.len(),
{
    if s.len() > 0 && white_space(s.last()) {
        let t = s.drop_last();
        let k = lemma_end(t);
        assert(s.take(k) =~= t.take(k));
        assert forall|i: int| k <= i < s.len() implies white_space(#[trigger] s[i]) by {
            if i < t.len() {
                assert(s[i] == t[i]);
            }
        }
        if k > 0 {
            assert(s[k - 1] == t[k - 1]);
        }
        k
    } else {
        assert(s.take(s.len() as int) =~= s);
        s.len() as int
    }
}

/// Trimming cuts off white space at the ends, all of it and nothing else: what is left has white
/// space at neither end, and what was cut off is white.
pub proof fn trimming_cuts_white_ends_alone(s: Seq<char>) -> (cut: (Seq<char>, Seq<char>))
    ensures
        s == cut.0 + trimmed(s) + cut.1,
        blank(cut.0),
        blank(cut.1),
        trimmed(s).len() > 0 ==> !white_space(trimmed(s).first()) && !white_space(trimmed(s).last()),
{
    let a = lemma_start(s);
    let t = trim_start(s);
    let b = lemma_end(t);
    let cut = (s.take(a), t.skip(b));
    assert(s =~= cut.0 + trimmed(s) + cut.1);
    assert forall|i: int| 0 <= i < cut.1.len() implies white_space(#[trigger] cut.1[i]) by {
        assert(cut.1[i] == t[b + i]);
    }
    if trimmed(s).len() > 0 {
        assert(t[0] == s[a]);
        assert(trimmed(s).first() == t[0]);
        assert(trimmed(s).last() == t[b - 1]);
    }
    cut
}

/// A part is found in whatever is put round it, and a text in which it is found is made of it and of
/// what stands round it.
pub proof fn parts_are_found_in_what_holds_them(
    before: Seq<char>,
    part: Seq<char>,
    after: Seq<char>,
    whole: Seq<char>,
) -> (round: (Seq<char>, Seq<char>))
    ensures
        occurs_in(part, before + part + after),
        occurs_in(part, whole) ==> whole == round.0 + part + round.1,
{
    let all = before + part + after;
    let at = before.len() as int;
    assert(all.subrange(at, at + part.len()) =~= part);
    if occurs_in(part, whole) {
        let i = choose|i: int|
            0 <= i <= whole.len() - part.len() && #[trigger] whole.subrange(i, i + part.len())
                == part;
        let round = (whole.take(i), whole.skip(i + part.len()));
        assert(whole =~= round.0 + whole.subrange(i, i + part.len()) + round.1);
        round
    } else {
        (before, after)
    }
}

/// Of two texts that begin alike, the first character in which they differ decides which comes
/// first, and a text comes before one that only goes on.
pub proof fn the_first_difference_decides(
    alike: Seq<char>,
    x: char,
    y: char,
    a: Seq<char>,
    b: Seq<char>,
)
    requires
        x < y,
    ensures
        comes_before(alike + seq![x] + a, alike + seq![y] + b),
        !comes_before(alike + seq![y] + b, alike + seq![x] + a),
        comes_before(alike, alike + seq![x] + a),
        !comes_before(alike + seq![x] + a, alike),
        !comes_before(alike, alike),
    decreases alike.len(),
{
    let left = alike + seq![x] + a;
    let right = alike + seq![y] + b;
    if alike.len() > 0 {
        let rest = alike.drop_first();
        the_first_difference_decides(rest, x, y, a, b);
        assert(left.drop_first() =~= rest + seq![x] + a);
        assert(right.drop_first() =~= rest + seq![y] + b);
    }
}

/// Of two texts of an ascending list, the one that stands earlier comes before the other.
pub proof fn ascending_lists_are_ordered(list: Seq<Seq<char>>, i: int, j: int)
    requires
        ascending(list),
        0 <= i < j < list.len(),
    ensures
        comes_before(list[i], list[j]),
{
}

/// The texts of a list are those of its strings, each in its place, and an optional text is that of
/// its string.
pub proof fn texts_are_whole(list: Seq<String>, i: int, s: String)
    requires
        0 <= i < list.len(),
    ensures
        texts(list).len() == list.len(),
        texts(list)[i] == list[i]@,
        text_of(Some(s)) == Some(s@),
        text_of(None) is None,
{
}

/// A text is found behind its own key, whatever else an object holds; nothing is found behind a key
/// that is not there or holds no text.
pub proof fn a_text_is_found_behind_its_key(
    members: Map<Seq<char>, Json>,
    key: Seq<char>,
    other: Seq<char>,
    text: Seq<char>,
    value: Json,
)
    requires
        other != key,
    ensures
        text_at(members.insert(key, Json::Text(text)), key) == Some(text),
        text_at(members.insert(key, Json::Text(text)).insert(other, value), key) == Some(text),
        text_at(members.remove(key), key) is None,
        value !is Text ==> text_at(members.insert(key, value), key) is None,
{
}

/// What this library writes into an object is what it was given.
pub proof fn scalars_are_whole(b: bool, n: u32, s: String)
    ensures
        Scalar::Null@ == Json::Null,
        Scalar::Flag(b)@ == Json::Flag(b),
        Scalar::Number(n)@ == Json::Number(n as nat),
        Scalar::Text(s)@ == Json::Text(s@),
        forall|members: Map<Seq<char>, Json>| Json::Object(members).members() == members,
{
}

} // verus!
