//! Small text utilities shared by the rest of the crate.

use vstd::prelude::*;
use vstd::string::*;

verus! {

/// The ASCII lower-case form of one character: `A`..`Z` move to `a`..`z`,
/// every other character stays.
pub open spec fn ascii_lower_char(c: char) -> char {
    if 'A' <= c && c <= 'Z' {
        ((c as u8 + 32) as u8) as char
    } else {
        c
    }
}

/// The ASCII lower-case form of a text, character by character.
pub open spec fn ascii_lower(s: Seq<char>) -> Seq<char> {
    s.map_values(|c: char| ascii_lower_char(c))
}

/// Whether a character is white space: one of the code points that Unicode
/// gives the property `White_Space`.
pub open spec fn is_white_space(c: char) -> bool {
    let n = c as u32;
    ||| 0x09 <= n <= 0x0D
    ||| n == 0x20
    ||| n == 0x85
    ||| n == 0xA0
    ||| n == 0x1680
    ||| 0x2000 <= n <= 0x200A
    ||| n == 0x2028
    ||| n == 0x2029
    ||| n == 0x202F
    ||| n == 0x205F
    ||| n == 0x3000
}

/// A text without the white space it starts with.
pub open spec fn trimmed_start(s: Seq<char>) -> Seq<char>
    decreases s.len(),
{
    if s.len() > 0 && is_white_space(s.first()) {
        trimmed_start(s.drop_first())
    } else {
        s
    }
}

/// A text without the white space it ends with.
pub open spec fn trimmed_end(s: Seq<char>) -> Seq<char>
    decreases s.len(),
{
    if s.len() > 0 && is_white_space(s.last()) {
        trimmed_end(s.drop_last())
    } else {
        s
    }
}

/// A text without the white space around it.
pub open spec fn trimmed(s: Seq<char>) -> Seq<char> {
    trimmed_end(trimmed_start(s))
}

/// What `trimmed_start` leaves is the end of the text, after nothing but
/// white space, and does not start with white space.
proof fn lemma_trimmed_start(s: Seq<char>)
    ensures
        trimmed_start(s).len() <= s.len(),
        trimmed_start(s) == s.skip(s.len() - trimmed_start(s).len()),
        trimmed_start(s).len() > 0 ==> !is_white_space(trimmed_start(s).first()),
        forall|i: int| 0 <= i < s.len() - trimmed_start(s).len() ==> is_white_space(s[i]),
    decreases s.len(),
{
    if s.len() > 0 && is_white_space(s.first()) {
        let rest = s.drop_first();
        lemma_trimmed_start(rest);
        let cut = rest.len() - trimmed_start(rest).len();
        assert(rest.skip(cut) =~= s.skip(cut + 1));
        assert forall|i: int| 0 <= i < s.len() - trimmed_start(s).len() implies is_white_space(
            s[i],
        ) by {
            if i > 0 {
                assert(s[i] == rest[i - 1]);
            }
        }
    } else {
        assert(s.skip(0) =~= s);
    }
}

/// What `trimmed_end` leaves is the start of the text, before nothing but
/// white space, and does not end with white space.
proof fn lemma_trimmed_end(s: Seq<char>)
    ensures
        trimmed_end(s).len() <= s.len(),
        trimmed_end(s) == s.take(trimmed_end(s).len() as int),
        trimmed_end(s).len() > 0 ==> !is_white_space(trimmed_end(s).last()),
        forall|i: int| trimmed_end(s).len() <= i < s.len() ==> is_white_space(s[i]),
    decreases s.len(),
{
    if s.len() > 0 && is_white_space(s.last()) {
        let rest = s.drop_last();
        lemma_trimmed_end(rest);
        let kept = trimmed_end(rest).len() as int;
        assert(rest.take(kept) =~= s.take(kept));
        assert forall|i: int| trimmed_end(s).len() <= i < s.len() implies is_white_space(
            s[i],
        ) by {
            if i < rest.len() {
                assert(s[i] == rest[i]);
            }
        }
    } else {
        assert(s.take(s.len() as int) =~= s);
    }
}

/// Trimming cuts a text down to its middle: what is left is a part of the
/// text with nothing but white space before and after it, and it neither
/// starts nor ends with white space.
pub proof fn trimmed_is_the_middle(s: Seq<char>)
    ensures
        trimmed(s).len() > 0 ==> !is_white_space(trimmed(s).first()) && !is_white_space(
            trimmed(s).last(),
        ),
        ({
            let start = s.len() - trimmed_start(s).len();
            let end = start + trimmed(s).len();
            &&& 0 <= start <= end <= s.len()
            &&& trimmed(s) == s.subrange(start, end)
            &&& forall|i: int| 0 <= i < start || end <= i < s.len() ==> is_white_space(s[i])
        }),
{
    let tail = trimmed_start(s);
    lemma_trimmed_start(s);
    lemma_trimmed_end(tail);
    let start = s.len() - tail.len();
    let end = start + trimmed(s).len();
    assert(trimmed(s) =~= s.subrange(start, end));
    if trimmed(s).len() > 0 {
        assert(trimmed(s).first() == tail.first());
    }
    assert forall|i: int| 0 <= i < start || end <= i < s.len() implies is_white_space(s[i]) by {
        if end <= i {
            assert(s[i] == tail[i - start]);
        }
    }
}

/// The text that `str::to_lowercase` makes of `s`: its Unicode lower-case form.
pub uninterp spec fn lowercased(s: Seq<char>) -> Seq<char>;

/// `str::to_ascii_lowercase`. The standard library documents it as mapping
/// `A`..`Z` to `a`..`z` and leaving every other character unchanged, which is
/// what `ascii_lower` says.
#[verifier::external_body]
pub(crate) fn to_ascii_lower(s: &str) -> (r: String)
    ensures
        r@ == ascii_lower(s@),
{
    s.to_ascii_lowercase()
}

/// `str::trim`. The standard library documents it as removing leading and
/// trailing white space, where white space is what has the Unicode property
/// `White_Space`; `is_white_space` lists those code points.
#[verifier::external_body]
pub(crate) fn trim(s: &str) -> (r: &str)
    ensures
        r@ == trimmed(s@),
{
    s.trim()
}

/// `str::to_lowercase`. The result is named, not spelled out: the mapping is
/// the Unicode lower-case mapping.
#[verifier::external_body]
pub(crate) fn to_lower(s: &str) -> (r: String)
    ensures
        r@ == lowercased(s@),
{
    s.to_lowercase()
}

/// Whether two string slices hold the same text.
pub fn same_text(a: &str, b: &str) -> (r: bool)
    ensures
        r == (a@ == b@),
{
    String::from_str(a) == String::from_str(b)
}

/// The character that writes the digit `d`.
pub open spec fn digit_char(d: int) -> char {
    if d == 0 { '0' }
    else if d == 1 { '1' }
    else if d == 2 { '2' }
    else if d == 3 { '3' }
    else if d == 4 { '4' }
    else if d == 5 { '5' }
    else if d == 6 { '6' }
    else if d == 7 { '7' }
    else if d == 8 { '8' }
    else { '9' }
}

/// The decimal numeral of `n`, without sign or leading zeros.
pub open spec fn decimal_digits(n: nat) -> Seq<char>
    decreases n,
{
    if n < 10 {
        seq![digit_char(n as int)]
    } else {
        decimal_digits(n / 10).push(digit_char((n % 10) as int))
    }
}

/// The one-character text of a digit.
fn digit_text(d: u64) -> (r: &'static str)
    requires
        d < 10,
    ensures
        r@ == seq![digit_char(d as int)],
{
    proof {
        reveal_strlit("0");
        reveal_strlit("1");
        reveal_strlit("2");
        reveal_strlit("3");
        reveal_strlit("4");
        reveal_strlit("5");
        reveal_strlit("6");
        reveal_strlit("7");
        reveal_strlit("8");
        reveal_strlit("9");
    }
    let r = if d == 0 { "0" }
        else if d == 1 { "1" }
        else if d == 2 { "2" }
        else if d == 3 { "3" }
        else if d == 4 { "4" }
        else if d == 5 { "5" }
        else if d == 6 { "6" }
        else if d == 7 { "7" }
        else if d == 8 { "8" }
        else { "9" };
    assert(r@ =~= seq![digit_char(d as int)]);
    r
}

/// Writes `n` in decimal.
pub fn decimal(n: u64) -> (r: String)
    ensures
        r@ == decimal_digits(n as nat),
    decreases n,
{
    if n < 10 {
        String::from_str(digit_text(n))
    } else {
        let head = decimal(n / 10);
        let r = head.concat(digit_text(n % 10));
        assert(r@ =~= decimal_digits(n as nat));
        r
    }
}

/// Joins two texts.
pub fn join(a: &str, b: &str) -> (r: String)
    ensures
        r@ == a@ + b@,
{
    String::from_str(a).concat(b)
}

/// Appends a copy of `s` to a list of texts.
pub fn push_text(list: &mut Vec<String>, s: &str)
    ensures
        final(list).deep_view() == old(list).deep_view().push(s@),
{
    list.push(String::from_str(s));
    assert(list.deep_view() =~= old(list).deep_view().push(s@));
}

/// A list that holds nothing.
pub fn no_texts() -> (list: Vec<String>)
    ensures
        list.deep_view() == Seq::<Seq<char>>::empty(),
{
    let list: Vec<String> = Vec::new();
    assert(list.deep_view() =~= Seq::<Seq<char>>::empty());
    list
}

/// Copies a list of string slices into a list of owned texts.
pub fn texts(items: Vec<&str>) -> (list: Vec<String>)
    ensures
        list.deep_view() == items.deep_view(),
{
    let mut list = no_texts();
    let mut i: usize = 0;
    while i < items.len()
        invariant
            i <= items.len(),
            list.deep_view() == items.deep_view().take(i as int),
        decreases items.len() - i,
    {
        push_text(&mut list, items[i]);
        i = i + 1;
        assert(list.deep_view() =~= items.deep_view().take(i as int));
    }
    assert(list.deep_view() =~= items.deep_view());
    list
}

/// A list that holds one text.
pub fn one_text(s: String) -> (list: Vec<String>)
    ensures
        list.deep_view() == seq![s@],
{
    let mut list: Vec<String> = Vec::new();
    list.push(s);
    assert(list.deep_view() =~= seq![s@]);
    list
}

/// Appends `s` to a list of texts.
pub fn with_text(list: Vec<String>, s: String) -> (r: Vec<String>)
    ensures
        r.deep_view() == list.deep_view().push(s@),
{
    let mut r = list;
    r.push(s);
    assert(r.deep_view() =~= list.deep_view().push(s@));
    r
}

/// Whether an answer, once trimmed and put in lower case, is a plain yes.
pub open spec fn is_yes(normalized: Seq<char>) -> bool {
    normalized == "y"@
}

/// Whether the operator's answer to a yes-or-no question is yes: the letter
/// `y` in either case, with any white space around it.
pub open spec fn says_yes(answer: Seq<char>) -> bool {
    is_yes(lowercased(trimmed(answer)))
}

/// Computes `is_yes`.
pub fn normalized_is_yes(normalized: &str) -> (r: bool)
    ensures
        r == is_yes(normalized@),
{
    same_text(normalized, "y")
}

/// Computes `says_yes`.
pub fn answer_is_yes(answer: &str) -> (r: bool)
    ensures
        r == says_yes(answer@),
{
    let normalized = to_lower(trim(answer));
    normalized_is_yes(normalized.as_str())
}

} // verus!
