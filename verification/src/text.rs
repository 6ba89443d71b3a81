//! Text as sequences of characters: trimming, splitting, searching, case and numbers.

use vstd::prelude::*;
use vstd::string::StringExecFns;

verus! {

/// `String::push` appends one character.
pub assume_specification[ String::push ](s: &mut String, c: char)
    ensures
        final(s)@ == old(s)@.push(c),
;

/// `String::pop` removes the last character and returns it, or returns `None` from an empty
/// string.
pub assume_specification[ String::pop ](s: &mut String) -> (r: Option<char>)
    ensures
        old(s)@.len() == 0 ==> r is None && final(s)@ == old(s)@,
        old(s)@.len() > 0 ==> r == Some(old(s)@.last()) && final(s)@ == old(s)@.drop_last(),
;

/// What `str::to_lowercase` makes of a text.
pub uninterp spec fn lowercase(s: Seq<char>) -> Seq<char>;

/// `str::to_lowercase` maps a text to its Unicode lower-case equivalent. The mapping is named,
/// not spelled out; on ASCII text it is the ASCII mapping.
#[verifier::external_body]
pub(crate) fn to_lowercase(s: &str) -> (r: String)
    ensures
        r@ == lowercase(s@),
        vstd::utf8::is_ascii_chars(s@) ==> r@ == ascii_lower(s@),
{
    s.to_lowercase()
}

/// The characters with the Unicode property `White_Space`.
pub open spec fn is_white(c: char) -> bool {
    ||| '\u{9}' <= c <= '\u{d}'
    ||| c == ' '
    ||| c == '\u{85}'
    ||| c == '\u{a0}'
    ||| c == '\u{1680}'
    ||| '\u{2000}' <= c <= '\u{200a}'
    ||| c == '\u{2028}'
    ||| c == '\u{2029}'
    ||| c == '\u{202f}'
    ||| c == '\u{205f}'
    ||| c == '\u{3000}'
}

/// Whether a character is white space.
pub fn char_is_white(c: char) -> (r: bool)
    ensures
        r == is_white(c),
{
    ('\u{9}' <= c && c <= '\u{d}') || c == ' ' || c == '\u{85}' || c == '\u{a0}' || c == '\u{1680}'
        || ('\u{2000}' <= c && c <= '\u{200a}') || c == '\u{2028}' || c == '\u{2029}' || c
        == '\u{202f}' || c == '\u{205f}' || c == '\u{3000}'
}

/// The text without its leading white space.
pub open spec fn trim_start(s: Seq<char>) -> Seq<char>
    decreases s.len(),
{
    if s.len() > 0 && is_white(s[0]) {
        trim_start(s.drop_first())
    } else {
        s
    }
}

/// The text without its trailing white space.
pub open spec fn trim_end(s: Seq<char>) -> Seq<char>
    decreases s.len(),
{
    if s.len() > 0 && is_white(s.last()) {
        trim_end(s.drop_last())
    } else {
        s
    }
}

/// The text without white space at either end.
pub open spec fn trimmed(s: Seq<char>) -> Seq<char> {
    trim_end(trim_start(s))
}

/// The characters of a text.
pub fn chars_of(s: &str) -> (r: Vec<char>)
    ensures
        r@ == s@,
{
    let mut out: Vec<char> = Vec::new();
    let ghost whole = s@;
    for c in it: s.chars()
        invariant
            it.seq() == whole,
            out@ == whole.take(it.index() as int),
    {
        out.push(c);
        proof {
            assert(whole.take(it.index() + 1) =~= whole.take(it.index() as int).push(c));
        }
    }
    proof {
        assert(whole.take(whole.len() as int) =~= whole);
    }
    out
}

/// The text of the characters `from..to`.
pub fn text_of(chars: &Vec<char>, from: usize, to: usize) -> (r: String)
    requires
        from <= to <= chars@.len(),
    ensures
        r@ == chars@.subrange(from as int, to as int),
{
    let mut out = String::new();
    let mut i: usize = from;
    while i < to
        invariant
            from <= i <= to <= chars@.len(),
            out@ == chars@.subrange(from as int, i as int),
        decreases to - i,
    {
        out.push(chars[i]);
        proof {
            assert(chars@.subrange(from as int, i + 1) =~= chars@.subrange(
                from as int,
                i as int,
            ).push(chars@[i as int]));
        }
        i += 1;
    }
    out
}

proof fn lemma_trim_start(s: Seq<char>, n: int)
    requires
        0 <= n <= s.len(),
        forall|i: int| 0 <= i < n ==> is_white(#[trigger] s[i]),
        n == s.len() || !is_white(s[n]),
    ensures
        trim_start(s) == s.subrange(n, s.len() as int),
    decreases n,
{
    if n == 0 {
        assert(s.subrange(0, s.len() as int) =~= s);
    } else {
        let t = s.drop_first();
        assert forall|i: int| 0 <= i < n - 1 implies is_white(#[trigger] t[i]) by {
            assert(t[i] == s[i + 1]);
        }
        lemma_trim_start(t, n - 1);
        assert(t.subrange(n - 1, t.len() as int) =~= s.subrange(n, s.len() as int));
    }
}

proof fn lemma_trim_end(s: Seq<char>, n: int)
    requires
        0 <= n <= s.len(),
        forall|i: int| n <= i < s.len() ==> is_white(#[trigger] s[i]),
        n == 0 || !is_white(s[n - 1]),
    ensures
        trim_end(s) == s.subrange(0, n),
    decreases s.len() - n,
{
    if n == s.len() {
        assert(s.subrange(0, s.len() as int) =~= s);
    } else {
        let t = s.drop_last();
        assert forall|i: int| n <= i < t.len() implies is_white(#[trigger] t[i]) by {
            assert(t[i] == s[i]);
        }
        lemma_trim_end(t, n);
        assert(t.subrange(0, n) =~= s.subrange(0, n));
    }
}

/// The text without white space at either end.
pub fn trim(s: &str) -> (r: String)
    ensures
        r@ == trimmed(s@),
{
    let chars = chars_of(s);
    let n: usize = chars.len();
    let mut from: usize = 0;
    while from < n && char_is_white(chars[from])
        invariant
            n == chars@.len(),
            from <= n,
            forall|i: int| 0 <= i < from ==> is_white(#[trigger] chars@[i]),
        decreases n - from,
    {
        from += 1;
    }
    let mut to: usize = n;
    while to > from && char_is_white(chars[to - 1])
        invariant
            n == chars@.len(),
            from <= to <= n,
            forall|i: int| to <= i < n ==> is_white(#[trigger] chars@[i]),
        decreases to,
    {
        to -= 1;
    }
    proof {
        lemma_trim_start(chars@, from as int);
        let t = chars@.subrange(from as int, n as int);
        assert forall|i: int| to - from <= i < t.len() implies is_white(#[trigger] t[i]) by {
            assert(t[i] == chars@[i + from]);
        }
        lemma_trim_end(t, to - from);
        assert(t.subrange(0, to - from) =~= chars@.subrange(from as int, to as int));
    }
    text_of(&chars, from, to)
}

/// Whether nothing is left of a text once it is trimmed.
pub fn is_blank(s: &str) -> (r: bool)
    ensures
        r == (trimmed(s@).len() == 0),
{
    trim(s).as_str().is_empty()
}

/// Whether two texts are equal.
pub fn same_text(a: &str, b: &str) -> (r: bool)
    ensures
        r == (a@ == b@),
{
    let x = chars_of(a);
    let y = chars_of(b);
    if x.len() != y.len() {
        return false;
    }
    let mut i: usize = 0;
    while i < x.len()
        invariant
            x@.len() == y@.len(),
            i <= x@.len(),
            forall|j: int| 0 <= j < i ==> x@[j] == y@[j],
            x@ == a@,
            y@ == b@,
        decreases x@.len() - i,
    {
        if x[i] != y[i] {
            return false;
        }
        i += 1;
    }
    proof {
        assert(x@ =~= y@);
    }
    true
}

/// The lower-case form of an ASCII letter; any other character unchanged.
pub open spec fn lower_char(c: char) -> char {
    if 'A' <= c <= 'Z' {
        ((c as u8) + 32) as char
    } else {
        c
    }
}

/// The upper-case form of an ASCII letter; any other character unchanged.
pub open spec fn upper_char(c: char) -> char {
    if 'a' <= c <= 'z' {
        ((c as u8) - 32) as char
    } else {
        c
    }
}

/// The text with its ASCII letters in lower case.
pub open spec fn ascii_lower(s: Seq<char>) -> Seq<char> {
    s.map_values(|c: char| lower_char(c))
}

/// The text with its ASCII letters in upper case.
pub open spec fn ascii_upper(s: Seq<char>) -> Seq<char> {
    s.map_values(|c: char| upper_char(c))
}

/// The text with its ASCII letters in lower case.
pub fn to_ascii_lower(s: &str) -> (r: String)
    ensures
        r@ == ascii_lower(s@),
{
    let chars = chars_of(s);
    let mut out = String::new();
    let mut i: usize = 0;
    while i < chars.len()
        invariant
            i <= chars@.len(),
            out@ == ascii_lower(chars@.take(i as int)),
        decreases chars@.len() - i,
    {
        let c = chars[i];
        if 'A' <= c && c <= 'Z' {
            out.push(((c as u8) + 32) as char);
        } else {
            out.push(c);
        }
        proof {
            assert(ascii_lower(chars@.take(i + 1)) =~= ascii_lower(chars@.take(i as int)).push(
                lower_char(c),
            ));
        }
        i += 1;
    }
    proof {
        assert(chars@.take(i as int) =~= chars@);
    }
    out
}

/// The text with its ASCII letters in upper case.
pub fn to_ascii_upper(s: &str) -> (r: String)
    ensures
        r@ == ascii_upper(s@),
{
    let chars = chars_of(s);
    let mut out = String::new();
    let mut i: usize = 0;
    while i < chars.len()
        invariant
            i <= chars@.len(),
            out@ == ascii_upper(chars@.take(i as int)),
        decreases chars@.len() - i,
    {
        let c = chars[i];
        if 'a' <= c && c <= 'z' {
            out.push(((c as u8) - 32) as char);
        } else {
            out.push(c);
        }
        proof {
            assert(ascii_upper(chars@.take(i + 1)) =~= ascii_upper(chars@.take(i as int)).push(
                upper_char(c),
            ));
        }
        i += 1;
    }
    proof {
        assert(chars@.take(i as int) =~= chars@);
    }
    out
}

/// Whether two texts are equal once their ASCII letters are in lower case.
pub fn same_ignoring_case(a: &str, b: &str) -> (r: bool)
    ensures
        r == (ascii_lower(a@) == ascii_lower(b@)),
{
    same_text(to_ascii_lower(a).as_str(), to_ascii_lower(b).as_str())
}

/// Whether `part` occurs in `s` at `i`.
pub open spec fn occurs_at(s: Seq<char>, part: Seq<char>, i: int) -> bool {
    0 <= i && i + part.len() <= s.len() && s.subrange(i, i + part.len()) == part
}

/// Whether `part` occurs in `s`.
pub open spec fn occurs_in(s: Seq<char>, part: Seq<char>) -> bool {
    exists|i: int| occurs_at(s, part, i)
}

/// Whether `s` starts with `part`.
pub open spec fn starts_with(s: Seq<char>, part: Seq<char>) -> bool {
    occurs_at(s, part, 0)
}

fn chars_occur_at(s: &Vec<char>, part: &Vec<char>, i: usize) -> (r: bool)
    requires
        i + part@.len() <= s@.len(),
    ensures
        r == occurs_at(s@, part@, i as int),
{
    let n: usize = s.len();
    let mut j: usize = 0;
    while j < part.len()
        invariant
            n == s@.len(),
            j <= part@.len(),
            i + part@.len() <= s@.len(),
            forall|k: int| 0 <= k < j ==> s@[i + k] == #[trigger] part@[k],
        decreases part@.len() - j,
    {
        if s[i + j] != part[j] {
            proof {
                assert(s@.subrange(i as int, i + part@.len())[j as int] != part@[j as int]);
            }
            return false;
        }
        j += 1;
    }
    proof {
        assert(s@.subrange(i as int, i + part@.len()) =~= part@);
    }
    true
}

/// Whether `s` starts with `part`.
pub fn has_prefix(s: &str, part: &str) -> (r: bool)
    ensures
        r == starts_with(s@, part@),
{
    let x = chars_of(s);
    let y = chars_of(part);
    if y.len() > x.len() {
        return false;
    }
    chars_occur_at(&x, &y, 0)
}

/// What follows `part` at the start of `s`.
pub open spec fn without_prefix(s: Seq<char>, part: Seq<char>) -> Option<Seq<char>> {
    if starts_with(s, part) {
        Some(s.subrange(part.len() as int, s.len() as int))
    } else {
        None
    }
}

/// An optional text as a sequence of characters.
pub open spec fn opt_view(s: Option<String>) -> Option<Seq<char>> {
    match s {
        Some(s) => Some(s@),
        None => None,
    }
}

/// What follows `part` at the start of `s`, where `s` starts with it.
pub fn strip_prefix(s: &str, part: &str) -> (r: Option<String>)
    ensures
        opt_view(r) == without_prefix(s@, part@),
{
    let x = chars_of(s);
    let y = chars_of(part);
    if y.len() > x.len() || !chars_occur_at(&x, &y, 0) {
        return None;
    }
    Some(text_of(&x, y.len(), x.len()))
}

/// Whether `part` occurs in `s`.
pub fn contains(s: &str, part: &str) -> (r: bool)
    ensures
        r == occurs_in(s@, part@),
{
    let x = chars_of(s);
    let y = chars_of(part);
    if y.len() > x.len() {
        return false;
    }
    let last: usize = x.len() - y.len();
    let mut i: usize = 0;
    while i < last
        invariant
            i <= last,
            last == x@.len() - y@.len(),
            x@ == s@,
            y@ == part@,
            forall|k: int| 0 <= k < i ==> !occurs_at(x@, y@, k),
        decreases last - i,
    {
        if chars_occur_at(&x, &y, i) {
            return true;
        }
        i += 1;
    }
    chars_occur_at(&x, &y, last)
}

/// The pieces of a text between the occurrences of `sep`.
pub open spec fn split_at_char(s: Seq<char>, sep: char) -> Seq<Seq<char>>
    decreases s.len(),
{
    if s.len() == 0 {
        seq![Seq::empty()]
    } else {
        let rest = split_at_char(s.drop_last(), sep);
        if s.last() == sep {
            rest.push(Seq::empty())
        } else {
            rest.drop_last().push(rest.last().push(s.last()))
        }
    }
}

/// The texts of a sequence of strings.
pub open spec fn texts(s: Seq<String>) -> Seq<Seq<char>> {
    s.map_values(|x: String| x@)
}

pub proof fn lemma_texts_push(s: Seq<String>, x: String)
    ensures
        texts(s.push(x)) == texts(s).push(x@),
{
    assert(texts(s.push(x)) =~= texts(s).push(x@));
}

proof fn lemma_split_nonempty(s: Seq<char>, sep: char)
    ensures
        split_at_char(s, sep).len() > 0,
    decreases s.len(),
{
    if s.len() > 0 {
        lemma_split_nonempty(s.drop_last(), sep);
    }
}

/// The pieces of a text between the occurrences of `sep`.
pub fn split_on(s: &str, sep: char) -> (r: Vec<String>)
    ensures
        texts(r@) == split_at_char(s@, sep),
        r@.len() > 0,
{
    let chars = chars_of(s);
    let mut done: Vec<String> = Vec::new();
    let mut piece = String::new();
    let mut i: usize = 0;
    proof {
        assert(chars@.take(0) =~= Seq::<char>::empty());
        assert(texts(done@).push(piece@) =~= split_at_char(chars@.take(0), sep));
    }
    while i < chars.len()
        invariant
            i <= chars@.len(),
            texts(done@).push(piece@) == split_at_char(chars@.take(i as int), sep),
        decreases chars@.len() - i,
    {
        let ghost before = split_at_char(chars@.take(i as int), sep);
        let c = chars[i];
        proof {
            assert(chars@.take(i + 1).drop_last() =~= chars@.take(i as int));
            assert(before.drop_last() =~= texts(done@));
        }
        if c == sep {
            let ghost d = done@;
            let ghost p = piece;
            done.push(piece);
            proof {
                lemma_texts_push(d, p);
            }
            piece = String::new();
            proof {
                assert(texts(done@).push(piece@) =~= split_at_char(chars@.take(i + 1), sep));
            }
        } else {
            piece.push(c);
            proof {
                assert(texts(done@).push(piece@) =~= split_at_char(chars@.take(i + 1), sep));
            }
        }
        i += 1;
    }
    let ghost d = done@;
    let ghost p = piece;
    done.push(piece);
    proof {
        lemma_texts_push(d, p);
        assert(chars@.take(i as int) =~= chars@);
    }
    done
}

/// The words of a text that are complete before its end, and the one that ends with it.
pub open spec fn words_open(s: Seq<char>) -> (Seq<Seq<char>>, Seq<char>)
    decreases s.len(),
{
    if s.len() == 0 {
        (Seq::empty(), Seq::empty())
    } else {
        let (done, word) = words_open(s.drop_last());
        if !is_white(s.last()) {
            (done, word.push(s.last()))
        } else if word.len() == 0 {
            (done, word)
        } else {
            (done.push(word), Seq::empty())
        }
    }
}

/// The words of a text: its longest pieces without white space.
pub open spec fn words(s: Seq<char>) -> Seq<Seq<char>> {
    let (done, word) = words_open(s);
    if word.len() == 0 {
        done
    } else {
        done.push(word)
    }
}

/// The words of a text: its longest pieces without white space.
pub fn split_words(s: &str) -> (r: Vec<String>)
    ensures
        texts(r@) == words(s@),
{
    let chars = chars_of(s);
    let mut done: Vec<String> = Vec::new();
    let mut word = String::new();
    let mut i: usize = 0;
    proof {
        assert(chars@.take(0) =~= Seq::<char>::empty());
        assert(texts(done@) =~= Seq::<Seq<char>>::empty());
        assert(word@ =~= Seq::<char>::empty());
    }
    while i < chars.len()
        invariant
            i <= chars@.len(),
            (texts(done@), word@) == words_open(chars@.take(i as int)),
        decreases chars@.len() - i,
    {
        let c = chars[i];
        proof {
            assert(chars@.take(i + 1).drop_last() =~= chars@.take(i as int));
        }
        if !char_is_white(c) {
            word.push(c);
        } else if !word.as_str().is_empty() {
            let ghost d = done@;
            let ghost w = word;
            done.push(word);
            proof {
                lemma_texts_push(d, w);
            }
            word = String::new();
            proof {
                assert(word@ =~= Seq::<char>::empty());
            }
        }
        i += 1;
    }
    proof {
        assert(chars@.take(i as int) =~= chars@);
    }
    if !word.as_str().is_empty() {
        let ghost d = done@;
        let ghost w = word;
        done.push(word);
        proof {
            lemma_texts_push(d, w);
        }
    }
    done
}

/// The pieces in order with `sep` between neighbours.
pub open spec fn joined(pieces: Seq<Seq<char>>, sep: Seq<char>) -> Seq<char>
    decreases pieces.len(),
{
    if pieces.len() == 0 {
        Seq::empty()
    } else if pieces.len() == 1 {
        pieces[0]
    } else {
        joined(pieces.drop_last(), sep) + sep + pieces.last()
    }
}

/// The pieces in order with `sep` between neighbours.
pub fn join(pieces: &Vec<String>, sep: &str) -> (r: String)
    ensures
        r@ == joined(texts(pieces@), sep@),
{
    let mut out = String::new();
    let mut i: usize = 0;
    proof {
        assert(texts(pieces@.take(0)) =~= Seq::<Seq<char>>::empty());
        assert(out@ =~= Seq::<char>::empty());
    }
    while i < pieces.len()
        invariant
            i <= pieces@.len(),
            out@ == joined(texts(pieces@.take(i as int)), sep@),
        decreases pieces@.len() - i,
    {
        let ghost upto = texts(pieces@.take(i + 1));
        proof {
            assert(upto.drop_last() =~= texts(pieces@.take(i as int)));
            assert(upto.last() == pieces@[i as int]@);
        }
        if i > 0 {
            out.append(sep);
        }
        out.append(pieces[i].as_str());
        proof {
            assert(out@ =~= joined(upto, sep@));
        }
        i += 1;
    }
    proof {
        assert(pieces@.take(i as int) =~= pieces@);
    }
    out
}

/// The two texts one after the other.
pub fn concat2(a: &str, b: &str) -> (r: String)
    ensures
        r@ == a@ + b@,
{
    let mut out = a.to_owned();
    out.append(b);
    out
}

/// The three texts one after the other.
pub fn concat3(a: &str, b: &str, c: &str) -> (r: String)
    ensures
        r@ == a@ + b@ + c@,
{
    let mut out = a.to_owned();
    out.append(b);
    out.append(c);
    out
}

/// A decimal digit as a character.
pub open spec fn digit_char(d: int) -> char {
    (48 + d) as char
}

/// A number in decimal notation.
pub open spec fn decimal(n: nat) -> Seq<char>
    decreases n,
{
    if n < 10 {
        seq![digit_char(n as int)]
    } else {
        decimal(n / 10).push(digit_char((n % 10) as int))
    }
}

/// A number in decimal notation.
pub fn to_decimal(n: u64) -> (r: String)
    ensures
        r@ == decimal(n as nat),
    decreases n,
{
    if n < 10 {
        let mut out = String::new();
        out.push((48 + n as u8) as char);
        proof {
            assert(out@ =~= seq![digit_char(n as int)]);
        }
        out
    } else {
        let mut out = to_decimal(n / 10);
        out.push((48 + (n % 10) as u8) as char);
        out
    }
}

/// A signed number in decimal notation.
pub open spec fn signed_decimal(n: int) -> Seq<char> {
    if n < 0 {
        seq!['-'] + decimal((-n) as nat)
    } else {
        decimal(n as nat)
    }
}

/// A signed number in decimal notation.
pub fn to_signed_decimal(n: i64) -> (r: String)
    ensures
        r@ == signed_decimal(n as int),
{
    if n < 0 {
        let mut out = String::new();
        out.push('-');
        out.append(to_decimal((-(n as i128)) as u64).as_str());
        proof {
            assert(out@ =~= signed_decimal(n as int));
        }
        out
    } else {
        to_decimal(n as u64)
    }
}

/// The value of a decimal digit.
pub open spec fn digit_value(c: char) -> Option<int> {
    if '0' <= c <= '9' {
        Some(c as int - 48)
    } else {
        None
    }
}

/// The value of a text made of decimal digits alone; an empty text has the value 0.
pub open spec fn digits_value(s: Seq<char>) -> Option<int>
    decreases s.len(),
{
    if s.len() == 0 {
        Some(0)
    } else {
        match (digits_value(s.drop_last()), digit_value(s.last())) {
            (Some(v), Some(d)) => Some(v * 10 + d),
            _ => None,
        }
    }
}

proof fn lemma_digits_nonneg(s: Seq<char>)
    ensures
        digits_value(s) matches Some(v) ==> v >= 0,
    decreases s.len(),
{
    if s.len() > 0 {
        lemma_digits_nonneg(s.drop_last());
    }
}

proof fn lemma_digits_prefix(s: Seq<char>, n: int)
    requires
        0 <= n <= s.len(),
    ensures
        digits_value(s) is Some ==> digits_value(s.take(n)) is Some && digits_value(s.take(n))->0
            <= digits_value(s)->0,
    decreases s.len() - n,
{
    if n == s.len() {
        assert(s.take(n) =~= s);
    } else {
        lemma_digits_prefix(s, n + 1);
        assert(s.take(n + 1).drop_last() =~= s.take(n));
        lemma_digits_nonneg(s.take(n));
    }
}

/// The digits of an unsigned number: what follows an optional plus sign.
pub open spec fn unsigned_digits(s: Seq<char>) -> Seq<char> {
    if s.len() > 1 && s[0] == '+' {
        s.drop_first()
    } else {
        s
    }
}

/// The number that digits write, where there is at least one digit and the number is at most
/// `max`.
pub open spec fn bounded_digits(digits: Seq<char>, max: int) -> Option<int> {
    match digits_value(digits) {
        Some(v) => if digits.len() > 0 && v <= max {
            Some(v)
        } else {
            None
        },
        None => None,
    }
}

/// The number that a text writes in decimal, with an optional plus sign, up to `max`.
pub open spec fn parsed_unsigned(s: Seq<char>, max: int) -> Option<int> {
    bounded_digits(unsigned_digits(s), max)
}

fn parse_digits(chars: &Vec<char>, from: usize, max: u64) -> (r: Option<u64>)
    requires
        from <= chars@.len(),
    ensures
        r matches Some(v) ==> bounded_digits(
            chars@.subrange(from as int, chars@.len() as int),
            max as int,
        ) == Some(v as int),
        r is None ==> bounded_digits(
            chars@.subrange(from as int, chars@.len() as int),
            max as int,
        ) is None,
{
    let ghost digits = chars@.subrange(from as int, chars@.len() as int);
    if chars.len() == from {
        return None;
    }
    let mut value: u64 = 0;
    let mut i: usize = from;
    proof {
        assert(digits.take(0) =~= Seq::<char>::empty());
    }
    while i < chars.len()
        invariant
            from <= i <= chars@.len(),
            digits == chars@.subrange(from as int, chars@.len() as int),
            digits_value(digits.take(i - from)) == Some(value as int),
            value <= max,
        decreases chars@.len() - i,
    {
        let c = chars[i];
        proof {
            let k = i - from;
            assert(digits.take(k + 1).drop_last() =~= digits.take(k));
            assert(digits.take(k + 1).last() == c);
            lemma_digits_prefix(digits, k + 1);
        }
        if c < '0' || c > '9' {
            return None;
        }
        let d: u64 = (c as u8 - 48) as u64;
        if d > max || value > (max - d) / 10 {
            return None;
        }
        value = value * 10 + d;
        i += 1;
    }
    proof {
        assert(digits.take(i - from) =~= digits);
    }
    Some(value)
}

/// The number that a text writes in decimal, with an optional plus sign, up to `max`.
pub fn parse_unsigned(s: &str, max: u64) -> (r: Option<u64>)
    ensures
        r matches Some(v) ==> parsed_unsigned(s@, max as int) == Some(v as int),
        r is None ==> parsed_unsigned(s@, max as int) is None,
{
    let chars = chars_of(s);
    let from: usize = if chars.len() > 1 && chars[0] == '+' {
        1
    } else {
        0
    };
    proof {
        assert(unsigned_digits(s@) =~= chars@.subrange(from as int, chars@.len() as int));
    }
    parse_digits(&chars, from, max)
}

/// The number that a text writes in decimal, with an optional sign, in the range of `i64`.
pub open spec fn parsed_signed(s: Seq<char>) -> Option<int> {
    if s.len() > 1 && s[0] == '-' {
        match bounded_digits(s.drop_first(), 0x8000_0000_0000_0000) {
            Some(v) => Some(-v),
            None => None,
        }
    } else {
        parsed_unsigned(s, i64::MAX as int)
    }
}

/// The number that a text writes in decimal, with an optional sign, in the range of `i64`.
pub fn parse_signed(s: &str) -> (r: Option<i64>)
    ensures
        r matches Some(v) ==> parsed_signed(s@) == Some(v as int),
        r is None ==> parsed_signed(s@) is None,
{
    let chars = chars_of(s);
    if chars.len() > 1 && chars[0] == '-' {
        proof {
            assert(s@.drop_first() =~= chars@.subrange(1, chars@.len() as int));
            lemma_digits_nonneg(s@.drop_first());
        }
        match parse_digits(&chars, 1, 0x8000_0000_0000_0000) {
            Some(v) => Some((-(v as i128)) as i64),
            None => None,
        }
    } else {
        match parse_unsigned(s, i64::MAX as u64) {
            Some(v) => Some(v as i64),
            None => None,
        }
    }
}

/// A result whose error is a text.
pub open spec fn result_view<T>(r: Result<T, String>) -> Result<T, Seq<char>> {
    match r {
        Ok(v) => Ok(v),
        Err(e) => Err(e@),
    }
}

/// A number in decimal notation has at least one digit and nothing but digits, and reads back as
/// the number.
pub proof fn lemma_decimal(n: nat)
    ensures
        decimal(n).len() > 0,
        forall|i: int| 0 <= i < decimal(n).len() ==> '0' <= #[trigger] decimal(n)[i] <= '9',
        digits_value(decimal(n)) == Some(n as int),
    decreases n,
{
    if n < 10 {
        assert(decimal(n).drop_last() =~= Seq::<char>::empty());
        assert(decimal(n).last() == digit_char(n as int));
        assert(digits_value(Seq::<char>::empty()) == Some(0int));
    } else {
        lemma_decimal(n / 10);
        assert(decimal(n).drop_last() =~= decimal(n / 10));
        assert(decimal(n).last() == digit_char((n % 10) as int));
    }
}

/// A text without a separator is one piece.
pub proof fn lemma_split_whole(s: Seq<char>, sep: char)
    requires
        forall|i: int| 0 <= i < s.len() ==> #[trigger] s[i] != sep,
    ensures
        split_at_char(s, sep) == seq![s],
    decreases s.len(),
{
    if s.len() == 0 {
        assert(s =~= Seq::<char>::empty());
    } else {
        let t = s.drop_last();
        assert forall|i: int| 0 <= i < t.len() implies #[trigger] t[i] != sep by {
            assert(t[i] == s[i]);
        }
        lemma_split_whole(t, sep);
        assert(t.push(s.last()) =~= s);
        assert(split_at_char(s, sep) =~= seq![s]);
    }
}

/// Trimming leaves a text alone that has no white space at its ends.
pub proof fn lemma_trim_tight(s: Seq<char>)
    requires
        s.len() > 0 ==> !is_white(s[0]) && !is_white(s.last()),
    ensures
        trimmed(s) == s,
{
}

/// What follows a separator is a piece of its own, where there is no separator in it.
pub proof fn lemma_split_append(a: Seq<char>, sep: char, b: Seq<char>)
    requires
        forall|i: int| 0 <= i < b.len() ==> #[trigger] b[i] != sep,
    ensures
        split_at_char(a + seq![sep] + b, sep) == split_at_char(a, sep).push(b),
    decreases b.len(),
{
    let whole = a + seq![sep] + b;
    if b.len() == 0 {
        assert(whole.drop_last() =~= a);
        assert(b =~= Seq::<char>::empty());
    } else {
        let t = b.drop_last();
        assert forall|i: int| 0 <= i < t.len() implies #[trigger] t[i] != sep by {
            assert(t[i] == b[i]);
        }
        lemma_split_append(a, sep, t);
        assert(whole.drop_last() =~= a + seq![sep] + t);
        assert(whole.last() == b.last());
        let rest = split_at_char(a, sep).push(t);
        assert(rest.drop_last() =~= split_at_char(a, sep));
        assert(t.push(b.last()) =~= b);
    }
}

/// Pieces that are joined by a separator come apart there, where it is in none of them.
pub proof fn lemma_split_joined(pieces: Seq<Seq<char>>, sep: char)
    requires
        pieces.len() > 0,
        forall|i: int, k: int|
            0 <= i < pieces.len() && 0 <= k < pieces[i].len() ==> #[trigger] pieces[i][k] != sep,
    ensures
        split_at_char(joined(pieces, seq![sep]), sep) == pieces,
    decreases pieces.len(),
{
    if pieces.len() == 1 {
        lemma_split_whole(pieces[0], sep);
        assert(seq![pieces[0]] =~= pieces);
    } else {
        let t = pieces.drop_last();
        let last = pieces.last();
        assert forall|i: int, k: int|
            0 <= i < t.len() && 0 <= k < t[i].len() implies #[trigger] t[i][k] != sep by {
            assert(pieces[i][k] != sep);
        }
        lemma_split_joined(t, sep);
        assert forall|k: int| 0 <= k < last.len() implies #[trigger] last[k] != sep by {
            assert(pieces[pieces.len() - 1][k] != sep);
        }
        lemma_split_append(joined(t, seq![sep]), sep, last);
        assert(t.push(last) =~= pieces);
    }
}

/// A character that is neither in the pieces nor in the separator is not in what they are joined
/// to.
pub proof fn lemma_joined_without(pieces: Seq<Seq<char>>, sep: char, c: char)
    requires
        sep != c,
        forall|i: int, k: int|
            0 <= i < pieces.len() && 0 <= k < pieces[i].len() ==> #[trigger] pieces[i][k] != c,
    ensures
        forall|k: int|
            0 <= k < joined(pieces, seq![sep]).len() ==> #[trigger] joined(
                pieces,
                seq![sep],
            )[k] != c,
    decreases pieces.len(),
{
    let whole = joined(pieces, seq![sep]);
    if pieces.len() == 1 {
        assert forall|k: int| 0 <= k < whole.len() implies #[trigger] whole[k] != c by {
            assert(pieces[0][k] != c);
        }
    } else if pieces.len() > 1 {
        let t = pieces.drop_last();
        assert forall|i: int, k: int|
            0 <= i < t.len() && 0 <= k < t[i].len() implies #[trigger] t[i][k] != c by {
            assert(pieces[i][k] != c);
        }
        lemma_joined_without(t, sep, c);
        let front = joined(t, seq![sep]);
        let last = pieces.last();
        assert forall|k: int| 0 <= k < whole.len() implies #[trigger] whole[k] != c by {
            if k < front.len() {
                assert(whole[k] == front[k]);
            } else if k == front.len() {
                assert(whole[k] == sep);
            } else {
                let m = k - front.len() - 1;
                assert(whole[k] == last[m]);
                assert(pieces[pieces.len() - 1][m] != c);
            }
        }
    }
}

} // verus!
