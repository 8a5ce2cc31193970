//! Text: the few operations on strings that the rest of the library is built from.

use vstd::prelude::*;

verus! {

/// Whether a character has the Unicode property White_Space.
pub open spec fn white_space(c: char) -> bool {
    ||| '\u{9}' <= c <= '\u{d}'
    ||| c == ' '
    ||| c == '\u{85}'
    ||| c == '\u{a0}'
    ||| c == '\u{1680}'
    ||| '\u{2000}' <= c <= '\u{200a}'
    ||| c == '\u{2028}'
    ||| c == '\u{2029}'
    ||| c == '\u{202f}'
    ||| c == '\u{205f}'
    ||| c == '\u{3000}'
}

/// `char::is_whitespace` of the standard library: true of exactly the characters with the Unicode
/// property White_Space.
pub assume_specification[ char::is_whitespace ](c: char) -> (r: bool)
    ensures
        r == white_space(c),
;

/// The characters of `s`, in order.
pub fn characters(s: &str) -> (r: Vec<char>)
    ensures
        r@ == s@,
{
    let mut out: Vec<char> = Vec::new();
    for c in iter: s.chars()
        invariant
            iter.seq() == s@,
            out@ == s@.take(iter.index() as int),
    {
        out.push(c);
    }
    out
}

/// Whether two texts are the same.
pub fn same_text(a: &str, b: &str) -> (r: bool)
    ensures
        r == (a@ == b@),
{
    let left: Vec<char> = characters(a);
    let right: Vec<char> = characters(b);
    if left.len() != right.len() {
        return false;
    }
    for i in 0..left.len()
        invariant
            left@ == a@,
            right@ == b@,
            left.len() == right.len(),
            a@.take(i as int) =~= b@.take(i as int),
    {
        if left[i] != right[i] {
            return false;
        }
    }
    assert(a@.take(left.len() as int) =~= a@);
    assert(b@.take(left.len() as int) =~= b@);
    true
}

/// What an optional text holds.
pub open spec fn text_of(s: Option<String>) -> Option<Seq<char>> {
    match s {
        Some(s) => Some(s@),
        None => None,
    }
}

/// Whether an optional text is present and is `b`.
pub fn is_text(a: &Option<String>, b: &str) -> (r: bool)
    ensures
        r == (text_of(*a) == Some(b@)),
{
    match a {
        Some(a) => same_text(a.as_str(), b),
        None => false,
    }
}

/// Whether two optional texts are the same.
pub fn same_optional_text(a: &Option<String>, b: &Option<String>) -> (r: bool)
    ensures
        r == (text_of(*a) == text_of(*b)),
{
    match b {
        Some(b) => is_text(a, b.as_str()),
        None => a.is_none(),
    }
}

/// The digit that stands for `d`, from 0 to 9.
pub open spec fn digit(d: nat) -> char {
    (48 + d) as char
}

/// `n` in decimal, without leading zeros.
pub open spec fn decimal(n: nat) -> Seq<char>
    decreases n,
{
    if n < 10 {
        seq![digit(n)]
    } else {
        decimal(n / 10).push(digit(n % 10))
    }
}

fn digit_text(d: u32) -> (r: &'static str)
    requires
        d < 10,
    ensures
        r@ == seq![digit(d as nat)],
{
    proof {
        reveal_strlit("0");
        reveal_strlit("1");
        reveal_strlit("2");
        reveal_strlit("3");
        reveal_strlit("4");
        reveal_strlit("5");
        reveal_strlit("6");
        reveal_strlit("7");
        reveal_strlit("8");
        reveal_strlit("9");
    }
    match d {
        0 => "0",
        1 => "1",
        2 => "2",
        3 => "3",
        4 => "4",
        5 => "5",
        6 => "6",
        7 => "7",
        8 => "8",
        _ => "9",
    }
}

/// `n` written in decimal.
pub fn decimal_text(n: u32) -> (r: String)
    ensures
        r@ == decimal(n as nat),
    decreases n,
{
    if n < 10 {
        digit_text(n).to_string()
    } else {
        let high: String = decimal_text(n / 10);
        high.concat(digit_text(n % 10))
    }
}

/// `s` without the white space it begins with.
pub open spec fn trim_start(s: Seq<char>) -> Seq<char>
    decreases s.len(),
{
    if s.len() > 0 && white_space(s.first()) {
        trim_start(s.drop_first())
    } else {
        s
    }
}

/// `s` without the white space it ends with.
pub open spec fn trim_end(s: Seq<char>) -> Seq<char>
    decreases s.len(),
{
    if s.len() > 0 && white_space(s.last()) {
        trim_end(s.drop_last())
    } else {
        s
    }
}

/// `s` without the white space at either end.
pub open spec fn trimmed(s: Seq<char>) -> Seq<char> {
    trim_end(trim_start(s))
}

/// Whether `s` holds nothing but white space.
pub open spec fn blank(s: Seq<char>) -> bool {
    forall|i: int| 0 <= i < s.len() ==> white_space(#[trigger] s[i])
}

/// `s` without the white space at either end.
pub fn trim(s: &str) -> (r: &str)
    ensures
        r@ == trimmed(s@),
{
    let chars: Vec<char> = characters(s);
    let mut from: usize = 0;
    assert(s@.skip(0) =~= s@);
    while from < chars.len() && chars[from].is_whitespace()
        invariant
            chars@ == s@,
            from <= chars.len(),
            trim_start(s@) == trim_start(s@.skip(from as int)),
        decreases chars.len() - from,
    {
        assert(s@.skip(from as int).drop_first() =~= s@.skip(from + 1));
        from = from + 1;
    }
    let ghost rest = s@.skip(from as int);
    assert(trim_start(s@) == rest);
    let mut to: usize = chars.len();
    assert(s@.subrange(from as int, to as int) =~= rest);
    while to > from && chars[to - 1].is_whitespace()
        invariant
            chars@ == s@,
            from <= to <= chars.len(),
            trim_end(rest) == trim_end(s@.subrange(from as int, to as int)),
        decreases to,
    {
        assert(s@.subrange(from as int, to as int).drop_last() =~= s@.subrange(
            from as int,
            to - 1,
        ));
        to = to - 1;
    }
    s.substring_char(from, to)
}

/// Whether `s` holds nothing but white space.
pub fn is_blank(s: &str) -> (r: bool)
    ensures
        r == blank(s@),
{
    let chars: Vec<char> = characters(s);
    for i in 0..chars.len()
        invariant
            chars@ == s@,
            forall|j: int| 0 <= j < i ==> white_space(#[trigger] s@[j]),
    {
        if !chars[i].is_whitespace() {
            return false;
        }
    }
    true
}

/// A text is blank exactly when trimming it leaves nothing.
pub proof fn blank_is_trimmed_to_nothing(s: Seq<char>)
    ensures
        blank(s) <==> trimmed(s).len() == 0,
{
    lemma_trim_start(s);
    lemma_trim_end(trim_start(s));
    if trimmed(s).len() == 0 {
        let t = trim_start(s);
        if t.len() > 0 {
            assert(white_space(t[0]));
        }
    }
}

proof fn lemma_trim_start(s: Seq<char>)
    ensures
        blank(s) <==> trim_start(s).len() == 0,
        trim_start(s).len() > 0 ==> !white_space(trim_start(s).first()),
    decreases s.len(),
{
    if s.len() > 0 && white_space(s.first()) {
        let t = s.drop_first();
        lemma_trim_start(t);
        assert forall|i: int| 0 <= i < s.len() && blank(t) implies white_space(#[trigger] s[i]) by {
            if i > 0 {
                assert(t[i - 1] == s[i]);
            }
        }
        assert forall|i: int| 0 <= i < t.len() && blank(s) implies white_space(#[trigger] t[i]) by {
            assert(t[i] == s[i + 1]);
        }
    } else if s.len() > 0 {
        assert(!white_space(s[0]));
    }
}

proof fn lemma_trim_end(s: Seq<char>)
    ensures
        blank(s) <==> trim_end(s).len() == 0,
    decreases s.len(),
{
    if s.len() > 0 && white_space(s.last()) {
        let t = s.drop_last();
        lemma_trim_end(t);
        assert forall|i: int| 0 <= i < s.len() && blank(t) implies white_space(#[trigger] s[i]) by {
            if i < s.len() - 1 {
                assert(t[i] == s[i]);
            }
        }
        assert forall|i: int| 0 <= i < t.len() && blank(s) implies white_space(#[trigger] t[i]) by {
            assert(t[i] == s[i]);
        }
    } else if s.len() > 0 {
        assert(!white_space(s[s.len() - 1]));
    }
}

/// Whether `part` stands somewhere in `whole`.
pub open spec fn occurs_in(part: Seq<char>, whole: Seq<char>) -> bool {
    exists|i: int|
        0 <= i <= whole.len() - part.len() && #[trigger] whole.subrange(i, i + part.len()) == part
}

/// Whether `part` stands somewhere in `whole`.
pub fn contains_text(whole: &str, part: &str) -> (r: bool)
    ensures
        r == occurs_in(part@, whole@),
{
    let w: Vec<char> = characters(whole);
    let p: Vec<char> = characters(part);
    if w.len() < p.len() {
        return false;
    }
    let last: usize = w.len() - p.len();
    let mut at: usize = 0;
    while at <= last
        invariant
            w@ == whole@,
            p@ == part@,
            last + p.len() == w.len(),
            at <= last + 1,
            forall|i: int| 0 <= i < at ==> #[trigger] w@.subrange(i, i + p@.len()) != p@,
        decreases last + 1 - at,
    {
        if stands_at(&w, &p, at) {
            assert(whole@.subrange(at as int, at + part@.len()) == part@);
            return true;
        }
        if at == last {
            return false;
        }
        at = at + 1;
    }
    false
}

fn stands_at(w: &Vec<char>, p: &Vec<char>, at: usize) -> (r: bool)
    requires
        at + p@.len() <= w@.len(),
    ensures
        r == (w@.subrange(at as int, at + p@.len()) == p@),
{
    let ghost window = w@.subrange(at as int, at + p@.len());
    let size: usize = w.len();
    for i in 0..p.len()
        invariant
            size == w@.len(),
            at + p@.len() <= size,
            window == w@.subrange(at as int, at + p@.len()),
            forall|j: int| 0 <= j < i ==> #[trigger] window[j] == p@[j],
    {
        if w[at + i] != p[i] {
            assert(window[i as int] == w@[at + i]);
            return false;
        }
    }
    assert(window =~= p@);
    true
}

/// The order of texts in a dictionary: by the first character in which they differ, and a text
/// before those that begin with it.
pub open spec fn comes_before(a: Seq<char>, b: Seq<char>) -> bool
    decreases a.len(),
{
    if b.len() == 0 {
        false
    } else if a.len() == 0 {
        true
    } else if a.first() != b.first() {
        a.first() < b.first()
    } else {
        comes_before(a.drop_first(), b.drop_first())
    }
}

proof fn lemma_order_is_strict(a: Seq<char>)
    ensures
        !comes_before(a, a),
    decreases a.len(),
{
    if a.len() > 0 {
        lemma_order_is_strict(a.drop_first());
    }
}

proof fn lemma_order_is_total(a: Seq<char>, b: Seq<char>)
    ensures
        comes_before(a, b) || comes_before(b, a) || a == b,
    decreases a.len(),
{
    if a.len() > 0 && b.len() > 0 && a.first() == b.first() {
        lemma_order_is_total(a.drop_first(), b.drop_first());
        if a.drop_first() == b.drop_first() {
            assert(a =~= seq![a.first()] + a.drop_first());
            assert(b =~= seq![b.first()] + b.drop_first());
        }
    } else if a.len() == 0 && b.len() == 0 {
        assert(a =~= b);
    }
}

proof fn lemma_order_is_transitive(a: Seq<char>, b: Seq<char>, c: Seq<char>)
    requires
        comes_before(a, b),
        comes_before(b, c),
    ensures
        comes_before(a, c),
    decreases a.len(),
{
    if a.len() > 0 && a.first() == b.first() && b.first() == c.first() {
        lemma_order_is_transitive(a.drop_first(), b.drop_first(), c.drop_first());
    }
}

fn before(a: &str, b: &str) -> (r: bool)
    ensures
        r == comes_before(a@, b@),
{
    let left: Vec<char> = characters(a);
    let right: Vec<char> = characters(b);
    let mut i: usize = 0;
    assert(a@.skip(0) =~= a@);
    assert(b@.skip(0) =~= b@);
    while i < left.len() && i < right.len()
        invariant
            left@ == a@,
            right@ == b@,
            i <= left.len(),
            i <= right.len(),
            comes_before(a@, b@) == comes_before(a@.skip(i as int), b@.skip(i as int)),
        decreases left.len() - i,
    {
        if left[i] != right[i] {
            return left[i] < right[i];
        }
        assert(a@.skip(i as int).drop_first() =~= a@.skip(i + 1));
        assert(b@.skip(i as int).drop_first() =~= b@.skip(i + 1));
        i = i + 1;
    }
    i < right.len()
}

/// The texts of a list of strings.
pub open spec fn texts(list: Seq<String>) -> Seq<Seq<char>> {
    list.map_values(|s: String| s@)
}

/// Whether a list is in dictionary order and holds no text twice.
pub open spec fn ascending(list: Seq<Seq<char>>) -> bool {
    forall|i: int, j: int|
        0 <= i < j < list.len() ==> comes_before(#[trigger] list[i], #[trigger] list[j])
}

/// Puts `s` in its place in an ascending list, unless the list already holds it.
pub fn insert_ascending(list: &mut Vec<String>, s: String)
    requires
        ascending(texts(old(list)@)),
    ensures
        ascending(texts(final(list)@)),
        texts(final(list)@).to_set() == texts(old(list)@).to_set().insert(s@),
{
    let ghost old_texts = texts(list@);
    let mut at: usize = 0;
    while at < list.len() && before(list[at].as_str(), s.as_str())
        invariant
            at <= list.len(),
            old_texts == texts(list@),
            forall|j: int| 0 <= j < at ==> comes_before(#[trigger] old_texts[j], s@),
        decreases list.len() - at,
    {
        assert(old_texts[at as int] == list@[at as int]@);
        at = at + 1;
    }
    if at < list.len() {
        assert(old_texts[at as int] == list@[at as int]@);
    }
    if at < list.len() && same_text(list[at].as_str(), s.as_str()) {
        assert(old_texts.to_set().insert(s@) =~= old_texts.to_set());
        return;
    }
    let ghost n = old_texts.len();
    proof {
        assert forall|j: int| at <= j < n implies comes_before(s@, #[trigger] old_texts[j]) by {
            lemma_order_is_total(s@, old_texts[at as int]);
            if j > at {
                assert(comes_before(old_texts[at as int], old_texts[j]));
                lemma_order_is_transitive(s@, old_texts[at as int], old_texts[j]);
            }
        }
    }
    let ghost item = s@;
    list.insert(at, s);
    proof {
        let new_texts = texts(list@);
        assert(new_texts =~= old_texts.insert(at as int, item));
        assert forall|i: int, j: int| 0 <= i < j < new_texts.len() implies comes_before(
            #[trigger] new_texts[i],
            #[trigger] new_texts[j],
        ) by {
            let a = if i < at { i } else { i - 1 };
            let b = if j < at { j } else { j - 1 };
            if i != at {
                assert(new_texts[i] == old_texts[a]);
            }
            if j != at {
                assert(new_texts[j] == old_texts[b]);
            }
        }
        assert forall|x: Seq<char>| old_texts.to_set().insert(item).contains(x) implies
            new_texts.to_set().contains(x) by {
            if x == item {
                assert(new_texts[at as int] == x);
            } else {
                let k = choose|k: int| 0 <= k < n && old_texts[k] == x;
                let m = if k < at { k } else { k + 1 };
                assert(new_texts[m] == x);
            }
        }
        assert forall|x: Seq<char>| new_texts.to_set().contains(x) implies
            old_texts.to_set().insert(item).contains(x) by {
            let k = choose|k: int| 0 <= k < new_texts.len() && new_texts[k] == x;
            if k != at {
                let m = if k < at { k } else { k - 1 };
                assert(old_texts[m] == x);
            }
        }
        assert(new_texts.to_set() =~= old_texts.to_set().insert(item));
    }
}

/// Two ascending lists of the same texts are the same list.
pub proof fn ascending_list_is_determined(a: Seq<Seq<char>>, b: Seq<Seq<char>>)
    requires
        ascending(a),
        ascending(b),
        a.to_set() == b.to_set(),
    ensures
        a == b,
    decreases a.len(),
{
    if a.len() == 0 {
        if b.len() > 0 {
            assert(b.to_set().contains(b[0]));
            assert(a.to_set().contains(b[0]));
        }
        assert(a =~= b);
    } else {
        assert(a.to_set().contains(a.last()));
        assert(b.to_set().contains(a.last()));
        let j = choose|j: int| 0 <= j < b.len() && b[j] == a.last();
        assert(b.to_set().contains(b.last()));
        assert(a.to_set().contains(b.last()));
        let i = choose|i: int| 0 <= i < a.len() && a[i] == b.last();
        lemma_order_is_strict(a.last());
        if j < b.len() - 1 {
            assert(comes_before(b[j], b[b.len() - 1]));
            if i < a.len() - 1 {
                assert(comes_before(a[i], a[a.len() - 1]));
                lemma_order_is_transitive(a.last(), b.last(), a.last());
            }
        }
        assert(a.last() == b.last());
        let a0 = a.drop_last();
        let b0 = b.drop_last();
        assert forall|x: Seq<char>| a0.to_set().contains(x) == b0.to_set().contains(x) by {
            lemma_drop_last(a, x);
            lemma_drop_last(b, x);
        }
        assert(a0.to_set() =~= b0.to_set());
        ascending_list_is_determined(a0, b0);
        assert(a =~= a0.push(a.last()));
        assert(b =~= b0.push(b.last()));
    }
}

proof fn lemma_drop_last(a: Seq<Seq<char>>, x: Seq<char>)
    requires
        ascending(a),
        a.len() > 0,
    ensures
        a.drop_last().to_set().contains(x) <==> (a.to_set().contains(x) && x != a.last()),
{
    let a0 = a.drop_last();
    if a0.to_set().contains(x) {
        let k = choose|k: int| 0 <= k < a0.len() && a0[k] == x;
        assert(a[k] == x);
        assert(comes_before(a[k], a[a.len() - 1]));
        lemma_order_is_strict(x);
    }
    if a.to_set().contains(x) && x != a.last() {
        let k = choose|k: int| 0 <= k < a.len() && a[k] == x;
        assert(a0[k] == x);
    }
}

} // verus!
