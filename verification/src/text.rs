//! Text building blocks: joining, decimal numbers, searching, and the few functions of
//! std on strings that the rest of the library uses.
use std::sync::Arc;
use vstd::prelude::*;
use vstd::string::*;

verus! {

/// `String::push` appends the character at the end of the text.
pub assume_specification[ String::push ](text: &mut String, c: char)
    ensures
        final(text)@ == old(text)@.push(c),
;

/// `Arc::clone` gives another pointer to the same value.
#[verifier::external_body]
pub(crate) fn share<T>(value: &Arc<T>) -> (shared: Arc<T>)
    ensures
        shared == *value,
{
    Arc::clone(value)
}

/// The text that std's `Debug` prints for a string: quoted and escaped.
pub uninterp spec fn debug_text(text: Seq<char>) -> Seq<char>;

/// std's `Debug` for `str` depends on the characters of the text alone.
#[verifier::external_body]
pub(crate) fn quoted(text: &str) -> (printed: String)
    ensures
        printed@ == debug_text(text@),
{
    format!("{:?}", text)
}

/// White space: the characters with the Unicode property White_Space.
pub open spec fn is_space(c: char) -> bool {
    ||| '\u{9}' <= c <= '\u{d}'
    ||| c == ' ' || c == '\u{85}' || c == '\u{a0}' || c == '\u{1680}'
    ||| '\u{2000}' <= c <= '\u{200a}'
    ||| c == '\u{2028}' || c == '\u{2029}' || c == '\u{202f}' || c == '\u{205f}' || c
        == '\u{3000}'
}

/// `char::is_whitespace` tells whether the character has the Unicode property White_Space.
#[verifier::external_body]
pub(crate) fn whitespace(c: char) -> (space: bool)
    ensures
        space == is_space(c),
{
    c.is_whitespace()
}

/// A control code: a character of the Unicode category Cc.
pub open spec fn is_control_code(c: char) -> bool {
    c <= '\u{1f}' || '\u{7f}' <= c <= '\u{9f}'
}

/// `char::is_control` tells whether the character is of the Unicode category Cc.
#[verifier::external_body]
pub(crate) fn control_code(c: char) -> (control: bool)
    ensures
        control == is_control_code(c),
{
    c.is_control()
}

/// The text that std's `str::to_lowercase` gives.
pub uninterp spec fn lowercase(text: Seq<char>) -> Seq<char>;

/// `str::to_lowercase` depends on the characters of the text alone.
#[verifier::external_body]
pub(crate) fn lowercased(text: &str) -> (lower: String)
    ensures
        lower@ == lowercase(text@),
{
    text.to_lowercase()
}

/// Text of an optional string.
pub open spec fn opt_text(text: Option<String>) -> Option<Seq<char>> {
    match text {
        Some(t) => Some(t@),
        None => None,
    }
}

/// Texts of a list of strings.
pub open spec fn texts(list: Seq<String>) -> Seq<Seq<char>> {
    list.map_values(|t: String| t@)
}

/// The texts one after the other, with the separator between neighbours.
pub open spec fn joined(parts: Seq<Seq<char>>, separator: Seq<char>) -> Seq<char>
    decreases parts.len(),
{
    if parts.len() == 0 {
        Seq::empty()
    } else if parts.len() == 1 {
        parts[0]
    } else {
        joined(parts.drop_last(), separator) + separator + parts.last()
    }
}

pub open spec fn digit_char(digit: int) -> char {
    if digit == 0 {
        '0'
    } else if digit == 1 {
        '1'
    } else if digit == 2 {
        '2'
    } else if digit == 3 {
        '3'
    } else if digit == 4 {
        '4'
    } else if digit == 5 {
        '5'
    } else if digit == 6 {
        '6'
    } else if digit == 7 {
        '7'
    } else if digit == 8 {
        '8'
    } else {
        '9'
    }
}

/// Decimal digits of a number, without leading zeros.
pub open spec fn decimal(number: nat) -> Seq<char>
    decreases number,
{
    if number < 10 {
        seq![digit_char(number as int)]
    } else {
        decimal(number / 10).push(digit_char((number % 10) as int))
    }
}

fn digit_of(digit: u64) -> (c: char)
    requires
        digit < 10,
    ensures
        c == digit_char(digit as int),
{
    match digit {
        0 => '0',
        1 => '1',
        2 => '2',
        3 => '3',
        4 => '4',
        5 => '5',
        6 => '6',
        7 => '7',
        8 => '8',
        _ => '9',
    }
}

pub fn decimal_text(number: u64) -> (text: String)
    ensures
        text@ == decimal(number as nat),
    decreases number,
{
    if number < 10 {
        let mut text = String::new();
        text.push(digit_of(number));
        assert(text@ =~= seq![digit_char(number as int)]);
        text
    } else {
        let mut text = decimal_text(number / 10);
        text.push(digit_of(number % 10));
        text
    }
}

/// The first text followed by the second.
pub fn join2(first: &str, second: &str) -> (text: String)
    ensures
        text@ == first@ + second@,
{
    let mut text = first.to_owned();
    text.append(second);
    text
}

/// Three texts, one after the other.
pub fn join3(first: &str, second: &str, third: &str) -> (text: String)
    ensures
        text@ == first@ + second@ + third@,
{
    let mut text = join2(first, second);
    text.append(third);
    text
}

/// Joins a list of strings with a separator.
pub fn join_all(parts: &Vec<String>, separator: &str) -> (text: String)
    ensures
        text@ == joined(texts(parts@), separator@),
{
    let mut text = String::new();
    let mut i: usize = 0;
    while i < parts.len()
        invariant
            0 <= i <= parts.len(),
            text@ == joined(texts(parts@).take(i as int), separator@),
        decreases parts.len() - i,
    {
        let ghost before = texts(parts@).take(i as int);
        let ghost after = texts(parts@).take(i + 1);
        assert(after.drop_last() =~= before);
        assert(after.last() == parts@[i as int]@);
        if i > 0 {
            text.append(separator);
        }
        text.append(parts[i].as_str());
        assert(text@ =~= joined(after, separator@));
        i = i + 1;
    }
    assert(texts(parts@).take(i as int) =~= texts(parts@));
    text
}

/// Whether two optional strings hold the same text.
pub fn same_opt_text(left: &Option<String>, right: &Option<String>) -> (same: bool)
    ensures
        same == (opt_text(*left) == opt_text(*right)),
{
    match (left, right) {
        (Some(l), Some(r)) => *l == *r,
        (None, None) => true,
        _ => false,
    }
}

/// Whether two lists of strings hold the same texts.
pub fn same_texts(left: &Vec<String>, right: &Vec<String>) -> (same: bool)
    ensures
        same == (texts(left@) == texts(right@)),
{
    if left.len() != right.len() {
        assert(texts(left@).len() != texts(right@).len());
        return false;
    }
    let mut i: usize = 0;
    while i < left.len()
        invariant
            0 <= i <= left.len(),
            left.len() == right.len(),
            forall|j: int| 0 <= j < i ==> texts(left@)[j] == #[trigger] texts(right@)[j],
        decreases left.len() - i,
    {
        if left[i] != right[i] {
            assert(texts(left@)[i as int] != texts(right@)[i as int]);
            return false;
        }
        i = i + 1;
    }
    assert(texts(left@) =~= texts(right@));
    true
}

/// A copy of an optional string.
pub fn copy_opt(text: &Option<String>) -> (copy: Option<String>)
    ensures
        copy == *text,
{
    match text {
        Some(t) => Some(t.clone()),
        None => None,
    }
}

/// Whether two strings hold the same text.
pub fn same_text(left: &str, right: &str) -> (same: bool)
    ensures
        same == (left@ == right@),
{
    let left_text = left.to_owned();
    let right_text = right.to_owned();
    left_text == right_text
}

/// The letter in lower case, where it is one of A to Z.
pub open spec fn ascii_lower(c: char) -> char {
    if 'A' <= c && c <= 'Z' {
        ((c as u8) + 32) as u8 as char
    } else {
        c
    }
}

fn to_ascii_lower(c: char) -> (lower: char)
    ensures
        lower == ascii_lower(c),
{
    if 'A' <= c && c <= 'Z' {
        let code: u8 = c as u8;
        (code + 32) as char
    } else {
        c
    }
}

/// A text with the letters A to Z in lower case.
pub open spec fn ascii_lowercase(text: Seq<char>) -> Seq<char> {
    text.map_values(|c: char| ascii_lower(c))
}

/// Puts the letters A to Z into lower case.
pub fn ascii_lowercased(text: &str) -> (lower: String)
    ensures
        lower@ == ascii_lowercase(text@),
{
    let chars = chars_of(text);
    let mut lower = String::new();
    let mut i: usize = 0;
    while i < chars.len()
        invariant
            0 <= i <= chars.len(),
            chars@ == text@,
            lower@ == ascii_lowercase(text@).take(i as int),
        decreases chars.len() - i,
    {
        lower.push(to_ascii_lower(chars[i]));
        assert(lower@ =~= ascii_lowercase(text@).take(i + 1));
        i = i + 1;
    }
    assert(lower@ =~= ascii_lowercase(text@));
    lower
}

/// Whether a text comes before another: at the first difference its character has the
/// smaller code, or it is a proper prefix.
pub open spec fn text_before(left: Seq<char>, right: Seq<char>) -> bool
    decreases left.len(),
{
    if right.len() == 0 {
        false
    } else if left.len() == 0 {
        true
    } else if left[0] != right[0] {
        left[0] < right[0]
    } else {
        text_before(left.drop_first(), right.drop_first())
    }
}

proof fn text_before_skips(left: Seq<char>, right: Seq<char>, i: int)
    requires
        0 <= i <= left.len(),
        i <= right.len(),
        forall|j: int| 0 <= j < i ==> left[j] == #[trigger] right[j],
    ensures
        text_before(left, right) == text_before(left.skip(i), right.skip(i)),
    decreases i,
{
    if i > 0 {
        let l = left.drop_first();
        let r = right.drop_first();
        assert(left[0] == right[0]);
        assert forall|j: int| 0 <= j < i - 1 implies l[j] == #[trigger] r[j] by {
            assert(l[j] == left[j + 1] && r[j] == right[j + 1]);
        }
        text_before_skips(l, r, i - 1);
        assert(l.skip(i - 1) =~= left.skip(i));
        assert(r.skip(i - 1) =~= right.skip(i));
    } else {
        assert(left.skip(0) =~= left);
        assert(right.skip(0) =~= right);
    }
}

/// Orders two texts by their characters.
pub fn comes_before(left: &str, right: &str) -> (before: bool)
    ensures
        before == text_before(left@, right@),
{
    let l = chars_of(left);
    let r = chars_of(right);
    let mut i: usize = 0;
    while i < l.len() && i < r.len() && l[i] == r[i]
        invariant
            0 <= i <= l.len(),
            i <= r.len(),
            l@ == left@,
            r@ == right@,
            forall|j: int| 0 <= j < i ==> l@[j] == #[trigger] r@[j],
        decreases l.len() - i,
    {
        i = i + 1;
    }
    proof {
        text_before_skips(left@, right@, i as int);
        if i < l@.len() && i < r@.len() {
            assert(left@.skip(i as int)[0] == l@[i as int]);
            assert(right@.skip(i as int)[0] == r@[i as int]);
        }
    }
    if i == r.len() {
        false
    } else if i == l.len() {
        true
    } else {
        l[i] < r[i]
    }
}

/// The characters of a text.
pub fn chars_of(text: &str) -> (chars: Vec<char>)
    ensures
        chars@ == text@,
{
    let mut chars: Vec<char> = Vec::new();
    for c in each: text.chars()
        invariant
            each.seq() == text@,
            chars@ == text@.take(each.index() as int),
    {
        chars.push(c);
        assert(chars@ =~= text@.take(each.index() + 1));
    }
    assert(text@.take(text@.len() as int) =~= text@);
    chars
}

/// The text of a span of characters.
pub fn text_of(chars: &Vec<char>, from: usize, to: usize) -> (text: String)
    requires
        from <= to <= chars.len(),
    ensures
        text@ == chars@.subrange(from as int, to as int),
{
    let mut text = String::new();
    let mut i: usize = from;
    while i < to
        invariant
            from <= i <= to <= chars.len(),
            text@ == chars@.subrange(from as int, i as int),
        decreases to - i,
    {
        text.push(chars[i]);
        assert(text@ =~= chars@.subrange(from as int, i + 1));
        i = i + 1;
    }
    text
}

/// The first `count` characters of a text, or all of it.
pub open spec fn clipped(text: Seq<char>, count: int) -> Seq<char> {
    if text.len() <= count {
        text
    } else {
        text.take(count)
    }
}

/// Cuts a text to its first characters.
pub fn clip(text: &str, count: usize) -> (clip: String)
    ensures
        clip@ == clipped(text@, count as int),
{
    let chars = chars_of(text);
    if chars.len() <= count {
        assert(chars@.subrange(0, chars@.len() as int) =~= text@);
        text_of(&chars, 0, chars.len())
    } else {
        assert(chars@.subrange(0, count as int) =~= text@.take(count as int));
        text_of(&chars, 0, count)
    }
}

/// The text without the characters of the set at its front.
pub open spec fn trim_front(text: Seq<char>, set: spec_fn(char) -> bool) -> Seq<char>
    decreases text.len(),
{
    if text.len() > 0 && set(text[0]) {
        trim_front(text.drop_first(), set)
    } else {
        text
    }
}

/// The text without the characters of the set at its back.
pub open spec fn trim_back(text: Seq<char>, set: spec_fn(char) -> bool) -> Seq<char>
    decreases text.len(),
{
    if text.len() > 0 && set(text.last()) {
        trim_back(text.drop_last(), set)
    } else {
        text
    }
}

/// The text without white space at either end.
pub open spec fn trimmed(text: Seq<char>) -> Seq<char> {
    trim_back(trim_front(text, |c: char| is_space(c)), |c: char| is_space(c))
}

/// Trimming the front of the rest of a text.
proof fn trim_front_step(text: Seq<char>, set: spec_fn(char) -> bool, i: int)
    requires
        0 <= i <= text.len(),
        forall|j: int| 0 <= j < i ==> set(#[trigger] text[j]),
        i < text.len() ==> !set(text[i]),
    ensures
        trim_front(text, set) == text.subrange(i, text.len() as int),
    decreases text.len(),
{
    if i > 0 {
        let rest = text.drop_first();
        assert(set(text[0]));
        assert forall|j: int| 0 <= j < i - 1 implies set(#[trigger] rest[j]) by {
            assert(rest[j] == text[j + 1]);
        }
        trim_front_step(rest, set, i - 1);
        assert(rest.subrange(i - 1, rest.len() as int) =~= text.subrange(i, text.len() as int));
    } else {
        assert(text.subrange(0, text.len() as int) =~= text);
    }
}

proof fn trim_back_step(text: Seq<char>, set: spec_fn(char) -> bool, i: int)
    requires
        0 <= i <= text.len(),
        forall|j: int| i <= j < text.len() ==> set(#[trigger] text[j]),
        i > 0 ==> !set(text[i - 1]),
    ensures
        trim_back(text, set) == text.subrange(0, i),
    decreases text.len(),
{
    if i < text.len() {
        let rest = text.drop_last();
        assert(set(text[text.len() - 1]));
        assert forall|j: int| i <= j < rest.len() implies set(#[trigger] rest[j]) by {
            assert(rest[j] == text[j]);
        }
        trim_back_step(rest, set, i);
        assert(rest.subrange(0, i) =~= text.subrange(0, i));
    } else {
        assert(text.subrange(0, text.len() as int) =~= text);
    }
}

/// Which characters are trimmed.
#[derive(Clone, Copy, Debug, PartialEq, Eq, Structural)]
pub enum TrimSet {
    Space,
    Quotes,
    Stops,
}

impl TrimSet {
    pub open spec fn has(self, c: char) -> bool {
        match self {
            TrimSet::Space => is_space(c),
            TrimSet::Quotes => c == '"' || c == '\'' || c == '`' || c == '“' || c == '”',
            TrimSet::Stops => c == '.' || c == '。',
        }
    }

    fn holds(self, c: char) -> (yes: bool)
        ensures
            yes == self.has(c),
    {
        match self {
            TrimSet::Space => whitespace(c),
            TrimSet::Quotes => c == '"' || c == '\'' || c == '`' || c == '“' || c == '”',
            TrimSet::Stops => c == '.' || c == '。',
        }
    }
}

/// Drops the characters of the set at the front.
pub fn without_front(text: &str, set: TrimSet) -> (rest: String)
    ensures
        rest@ == trim_front(text@, |c: char| set.has(c)),
{
    let chars = chars_of(text);
    let mut i: usize = 0;
    while i < chars.len() && set.holds(chars[i])
        invariant
            0 <= i <= chars.len(),
            chars@ == text@,
            forall|j: int| 0 <= j < i ==> set.has(#[trigger] chars@[j]),
        decreases chars.len() - i,
    {
        i = i + 1;
    }
    proof {
        trim_front_step(text@, |c: char| set.has(c), i as int);
    }
    text_of(&chars, i, chars.len())
}

/// Drops the characters of the set at the back.
pub fn without_back(text: &str, set: TrimSet) -> (rest: String)
    ensures
        rest@ == trim_back(text@, |c: char| set.has(c)),
{
    let chars = chars_of(text);
    let mut i: usize = chars.len();
    while i > 0 && set.holds(chars[i - 1])
        invariant
            0 <= i <= chars.len(),
            chars@ == text@,
            forall|j: int| i <= j < chars.len() ==> set.has(#[trigger] chars@[j]),
        decreases i,
    {
        i = i - 1;
    }
    proof {
        trim_back_step(text@, |c: char| set.has(c), i as int);
    }
    text_of(&chars, 0, i)
}

/// Drops white space at both ends.
pub fn trim(text: &str) -> (rest: String)
    ensures
        rest@ == trimmed(text@),
{
    let front = without_front(text, TrimSet::Space);
    let rest = without_back(front.as_str(), TrimSet::Space);
    proof {
        trim_sets_agree(text@);
    }
    rest
}

/// The set of white space is the set of the characters that count as such.
pub proof fn trim_sets_agree(text: Seq<char>)
    ensures
        trimmed(text) == trim_back(
            trim_front(text, |c: char| TrimSet::Space.has(c)),
            |c: char| TrimSet::Space.has(c),
        ),
{
    assert((|c: char| TrimSet::Space.has(c)) =~= (|c: char| is_space(c)));
}

/// The words of a text so far, and the one in progress.
pub open spec fn word_parts(text: Seq<char>) -> (Seq<Seq<char>>, Seq<char>)
    decreases text.len(),
{
    if text.len() == 0 {
        (Seq::empty(), Seq::empty())
    } else {
        let (words, word) = word_parts(text.drop_last());
        if !is_space(text.last()) {
            (words, word.push(text.last()))
        } else if word.len() > 0 {
            (words.push(word), Seq::empty())
        } else {
            (words, word)
        }
    }
}

/// The words of a text: its longest runs without white space.
pub open spec fn words_of(text: Seq<char>) -> Seq<Seq<char>> {
    let (words, word) = word_parts(text);
    if word.len() > 0 {
        words.push(word)
    } else {
        words
    }
}

/// Splits a text into its words.
pub fn split_words(text: &str) -> (words: Vec<String>)
    ensures
        texts(words@) == words_of(text@),
{
    let chars = chars_of(text);
    let mut words: Vec<String> = Vec::new();
    let mut word = String::new();
    let mut i: usize = 0;
    assert(texts(words@) =~= Seq::empty());
    while i < chars.len()
        invariant
            0 <= i <= chars.len(),
            chars@ == text@,
            (texts(words@), word@) == word_parts(text@.take(i as int)),
        decreases chars.len() - i,
    {
        let ghost so_far = text@.take(i + 1);
        assert(so_far.drop_last() =~= text@.take(i as int));
        let c: char = chars[i];
        if !whitespace(c) {
            word.push(c);
        } else if !word.as_str().is_empty() {
            let ghost before = texts(words@);
            let ghost done = word@;
            words.push(word);
            assert(texts(words@) =~= before.push(done));
            word = String::new();
        }
        i = i + 1;
    }
    assert(text@.take(i as int) =~= text@);
    if !word.as_str().is_empty() {
        let ghost before = texts(words@);
        let ghost done = word@;
        words.push(word);
        assert(texts(words@) =~= before.push(done));
    }
    words
}

/// Whether a text begins with a prefix.
pub fn starts_with(text: &str, prefix: &str) -> (yes: bool)
    ensures
        yes == prefix@.is_prefix_of(text@),
{
    let chars = chars_of(text);
    let head = chars_of(prefix);
    if head.len() > chars.len() {
        return false;
    }
    let mut i: usize = 0;
    while i < head.len()
        invariant
            0 <= i <= head.len() <= chars.len(),
            chars@ == text@,
            head@ == prefix@,
            forall|j: int| 0 <= j < i ==> text@[j] == #[trigger] prefix@[j],
        decreases head.len() - i,
    {
        if chars[i] != head[i] {
            assert(text@.subrange(0, prefix@.len() as int)[i as int] != prefix@[i as int]);
            return false;
        }
        i = i + 1;
    }
    assert(text@.subrange(0, prefix@.len() as int) =~= prefix@);
    true
}

/// The text after its first characters.
pub fn skip_chars(text: &str, count: usize) -> (rest: String)
    requires
        count <= text@.len(),
    ensures
        rest@ == text@.skip(count as int),
{
    let chars = chars_of(text);
    assert(chars@.subrange(count as int, chars@.len() as int) =~= text@.skip(count as int));
    text_of(&chars, count, chars.len())
}

/// Whether a text occurs in another.
pub open spec fn occurs(needle: Seq<char>, text: Seq<char>) -> bool {
    exists|i: int|
        0 <= i <= text.len() - needle.len() && #[trigger] text.subrange(i, i + needle.len())
            == needle
}

/// A text occurs where it stands.
pub proof fn occurs_here(needle: Seq<char>, text: Seq<char>, place: int)
    requires
        0 <= place <= text.len() - needle.len(),
        text.subrange(place, place + needle.len()) == needle,
    ensures
        occurs(needle, text),
{
}

/// What occurs in a text occurs wherever that text does.
pub proof fn occurs_inside(needle: Seq<char>, middle: Seq<char>, text: Seq<char>)
    requires
        occurs(needle, middle),
        occurs(middle, text),
    ensures
        occurs(needle, text),
{
    let i = choose|i: int|
        0 <= i <= middle.len() - needle.len() && #[trigger] middle.subrange(i, i + needle.len())
            == needle;
    let j = choose|j: int|
        0 <= j <= text.len() - middle.len() && #[trigger] text.subrange(j, j + middle.len())
            == middle;
    assert(text.subrange(i + j, i + j + needle.len()) =~= needle) by {
        assert forall|k: int| 0 <= k < needle.len() implies text.subrange(
            i + j,
            i + j + needle.len(),
        )[k] == needle[k] by {
            assert(text[i + j + k] == text.subrange(j, j + middle.len())[i + k]);
            assert(middle[i + k] == middle.subrange(i, i + needle.len())[k]);
        }
    }
}

fn occurs_at(chars: &Vec<char>, needle: &Vec<char>, at: usize) -> (yes: bool)
    requires
        at + needle.len() <= chars.len(),
    ensures
        yes == (chars@.subrange(at as int, at + needle@.len()) == needle@),
{
    let mut i: usize = 0;
    while i < needle.len()
        invariant
            0 <= i <= needle.len(),
            at + needle.len() <= chars.len(),
            forall|j: int| 0 <= j < i ==> chars@[at + j] == #[trigger] needle@[j],
        decreases needle.len() - i,
    {
        if chars[at + i] != needle[i] {
            assert(chars@.subrange(at as int, at + needle@.len())[i as int] != needle@[i as int]);
            return false;
        }
        i = i + 1;
    }
    assert(chars@.subrange(at as int, at + needle@.len()) =~= needle@);
    true
}

/// Looks for a text in another.
pub fn contains(text: &str, needle: &str) -> (yes: bool)
    ensures
        yes == occurs(needle@, text@),
{
    let chars = chars_of(text);
    let sought = chars_of(needle);
    if sought.len() > chars.len() {
        return false;
    }
    let last: usize = chars.len() - sought.len();
    let mut i: usize = 0;
    while i <= last
        invariant
            0 <= i <= last + 1,
            last == chars.len() - sought.len(),
            chars@ == text@,
            sought@ == needle@,
            forall|j: int|
                0 <= j < i ==> #[trigger] text@.subrange(j, j + needle@.len()) != needle@,
        decreases last + 1 - i,
    {
        if occurs_at(&chars, &sought, i) {
            return true;
        }
        if i == last {
            assert forall|j: int| 0 <= j <= text@.len() - needle@.len() implies #[trigger] text@.subrange(
                j,
                j + needle@.len(),
            ) != needle@ by {
            }
            return false;
        }
        i = i + 1;
    }
    false
}

} // verus!
