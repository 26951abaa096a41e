//! What the operations on text give, letter by letter.
use crate::text::{
    ascii_lowercased, chars_of, clip, comes_before, contains, copy_opt, decimal_text, is_space,
    join2, join3, join_all, same_opt_text, same_text, same_texts, skip_chars, split_words,
    starts_with, text_before, text_of, texts, trim, trim_back, trim_front, without_back,
    without_front, word_parts, words_of, TrimSet,
};
use vstd::prelude::*;

verus! {

/// A number is written with its last digit last, behind what the number without it is written
/// as; a single digit stands alone.
pub proof fn a_number_is_written_digit_by_digit(
    number: u64,
    text: String,
    tenth: u64,
    shorter: String,
)
    requires
        call_ensures(decimal_text, (number,), text),
        call_ensures(decimal_text, (tenth,), shorter),
        tenth == number / 10,
    ensures
        text@.len() > 0,
        text@.last() as int == '0' as int + number % 10,
        number < 10 ==> text@.len() == 1,
        number >= 10 ==> text@.drop_last() == shorter@,
{
    if number >= 10 {
        assert(text@.drop_last() =~= shorter@);
    }
}

/// Texts are joined in their order, with nothing lost.
pub proof fn texts_are_joined_in_order(
    first: &str,
    second: &str,
    third: &str,
    two: String,
    three: String,
)
    requires
        call_ensures(join2, (first, second), two),
        call_ensures(join3, (first, second, third), three),
    ensures
        two@.len() == first@.len() + second@.len(),
        first@.is_prefix_of(two@) && second@.is_suffix_of(two@),
        three@ == two@ + third@,
{
    assert(two@.subrange(0, first@.len() as int) =~= first@);
    assert(two@.subrange(first@.len() as int, two@.len() as int) =~= second@);
}

/// A further part follows behind the separator; a part alone is itself.
pub proof fn a_further_part_follows_the_separator(
    parts: &Vec<String>,
    longer: &Vec<String>,
    part: String,
    separator: &str,
    text: String,
    further: String,
)
    requires
        call_ensures(join_all, (parts, separator), text),
        call_ensures(join_all, (longer, separator), further),
        longer@ == parts@.push(part),
    ensures
        parts@.len() == 0 ==> text@.len() == 0 && further@ == part@,
        parts@.len() > 0 ==> further@ == text@ + separator@ + part@,
{
    assert(texts(longer@).drop_last() =~= texts(parts@));
    assert(texts(longer@).last() == part@);
    assert(texts(parts@).len() == parts@.len());
    assert(texts(longer@).len() == longer@.len());
}

/// Texts are the same letter by letter.
pub proof fn texts_are_the_same_letter_by_letter(
    left: &str,
    right: &str,
    same: bool,
    one: &Option<String>,
    other: &Option<String>,
    same_option: bool,
    some: &Vec<String>,
    others: &Vec<String>,
    same_list: bool,
    copy: Option<String>,
)
    requires
        call_ensures(same_text, (left, right), same),
        call_ensures(same_opt_text, (one, other), same_option),
        call_ensures(same_texts, (some, others), same_list),
        call_ensures(copy_opt, (one,), copy),
    ensures
        same <==> left@ == right@,
        same_option <==> (*one is None && *other is None) || (*one is Some && *other is Some
            && one->0@ == other->0@),
        same_list <==> some@.len() == others@.len() && forall|i: int|
            0 <= i < some@.len() ==> (#[trigger] some@[i])@ == others@[i]@,
        copy == *one,
{
    assert(texts(some@).len() == some@.len() && texts(others@).len() == others@.len());
    if texts(some@) == texts(others@) {
        assert forall|i: int| 0 <= i < some@.len() implies (#[trigger] some@[i])@
            == others@[i]@ by {
            assert(texts(some@)[i] == texts(others@)[i]);
        }
    }
    if some@.len() == others@.len() && forall|i: int|
        0 <= i < some@.len() ==> (#[trigger] some@[i])@ == others@[i]@ {
        assert(texts(some@) =~= texts(others@)) by {
            assert forall|i: int| 0 <= i < some@.len() implies texts(some@)[i]
                == texts(others@)[i] by {
                assert(some@[i]@ == others@[i]@);
            }
        }
    }
}

/// Capital letters of ASCII become small ones; every other letter stays.
pub proof fn capitals_become_small(text: &str, lower: String)
    requires
        call_ensures(ascii_lowercased, (text,), lower),
    ensures
        lower@.len() == text@.len(),
        forall|i: int|
            0 <= i < text@.len() ==> (#[trigger] lower@[i]) as int == text@[i] as int + if 'A'
                <= text@[i] <= 'Z' {
                32int
            } else {
                0
            },
{
}

/// Whether the one text stands before the other: at the first difference it has the smaller
/// letter, or it has ended.
pub open spec fn precedes(left: Seq<char>, right: Seq<char>, at: int) -> bool {
    &&& 0 <= at <= left.len() && at < right.len()
    &&& left.take(at) == right.take(at)
    &&& at < left.len() ==> left[at] < right[at]
}

pub(crate) proof fn before_is_decided_at_a_difference(left: Seq<char>, right: Seq<char>)
    ensures
        text_before(left, right) <==> exists|at: int| precedes(left, right, at),
    decreases left.len(),
{
    if left.len() == 0 && right.len() > 0 {
        assert(left.take(0) =~= right.take(0));
        assert(precedes(left, right, 0));
    } else if left.len() > 0 && right.len() > 0 {
        if left[0] == right[0] {
            let (l, r) = (left.drop_first(), right.drop_first());
            before_is_decided_at_a_difference(l, r);
            if text_before(l, r) {
                let at = choose|at: int| precedes(l, r, at);
                assert(left.take(at + 1) =~= seq![left[0]] + l.take(at));
                assert(right.take(at + 1) =~= seq![right[0]] + r.take(at));
                assert(precedes(left, right, at + 1));
            }
            if exists|at: int| precedes(left, right, at) {
                let at = choose|at: int| precedes(left, right, at);
                assert(l.take(at - 1) =~= left.take(at).drop_first());
                assert(r.take(at - 1) =~= right.take(at).drop_first());
                assert(precedes(l, r, at - 1));
            }
        } else {
            if left[0] < right[0] {
                assert(left.take(0) =~= right.take(0));
                assert(precedes(left, right, 0));
            }
            if exists|at: int| precedes(left, right, at) {
                let at = choose|at: int| precedes(left, right, at);
                if at > 0 {
                    assert(left.take(at)[0] == right.take(at)[0]);
                }
            }
        }
    }
}

/// A text comes before another at the first letter in which they differ, or where it ends.
pub proof fn texts_are_ordered_by_their_first_difference(left: &str, right: &str, before: bool)
    requires
        call_ensures(comes_before, (left, right), before),
    ensures
        before <==> exists|at: int| precedes(left@, right@, at),
{
    before_is_decided_at_a_difference(left@, right@);
}

/// A text is cut after so many letters, and only where it is longer.
pub proof fn a_text_is_cut_where_it_is_longer(text: &str, count: usize, kept: String)
    requires
        call_ensures(clip, (text, count), kept),
    ensures
        text@.len() <= count ==> kept@ == text@,
        text@.len() > count ==> kept@.len() == count && kept@.is_prefix_of(text@),
{
}

/// Letters are taken and left in their order.
pub proof fn letters_are_taken_in_order(
    text: &str,
    chars: Vec<char>,
    from: usize,
    to: usize,
    part: String,
    count: usize,
    rest: String,
    prefix: &str,
    starts: bool,
    needle: &str,
    holds: bool,
)
    requires
        call_ensures(chars_of, (text,), chars),
        call_ensures(text_of, (&chars, from, to), part),
        from <= to <= chars@.len(),
        call_ensures(skip_chars, (text, count), rest),
        count <= text@.len(),
        call_ensures(starts_with, (text, prefix), starts),
        call_ensures(contains, (text, needle), holds),
    ensures
        chars@ == text@,
        part@.len() == to - from,
        forall|i: int| 0 <= i < part@.len() ==> part@[i] == text@[from + i],
        text@ == text@.take(count as int) + rest@,
        starts <==> prefix@.len() <= text@.len() && text@.take(prefix@.len() as int) == prefix@,
        holds <==> exists|head: Seq<char>, tail: Seq<char>|
            text@ == #[trigger] (head + needle@ + tail),
{
    assert(text@ =~= text@.take(count as int) + rest@);
    if holds {
        let n = needle@.len() as int;
        let i = choose|i: int|
            0 <= i <= text@.len() - n && #[trigger] text@.subrange(i, i + n) == needle@;
        let head = text@.take(i);
        let tail = text@.skip(i + n);
        assert(text@ =~= head + needle@ + tail);
    }
    if exists|head: Seq<char>, tail: Seq<char>| text@ == #[trigger] (head + needle@ + tail) {
        let (head, tail) = choose|head: Seq<char>, tail: Seq<char>|
            text@ == #[trigger] (head + needle@ + tail);
        let i = head.len() as int;
        assert(text@.subrange(i, i + needle@.len()) =~= needle@);
        crate::text::occurs_here(needle@, text@, i);
    }
}

/// Whether the set holds all of the letters.
pub open spec fn all_in(text: Seq<char>, set: spec_fn(char) -> bool) -> bool {
    forall|i: int| 0 <= i < text.len() ==> set(#[trigger] text[i])
}

/// Whether the letter belongs to a set that is trimmed away.
pub open spec fn is_trimmed(set: TrimSet, c: char) -> bool {
    &&& set is Space ==> is_space(c)
    &&& set is Quotes ==> c == '"' || c == '\'' || c == '`' || c == '“' || c == '”'
    &&& set is Stops ==> c == '.' || c == '。'
}

pub(crate) proof fn the_front_is_trimmed(text: Seq<char>, set: spec_fn(char) -> bool) -> (cut: int)
    ensures
        0 <= cut <= text.len(),
        text == text.take(cut) + trim_front(text, set),
        trim_front(text, set) == text.skip(cut),
        all_in(text.take(cut), set),
        trim_front(text, set).len() > 0 ==> !set(trim_front(text, set)[0]),
    decreases text.len(),
{
    if text.len() > 0 && set(text[0]) {
        let cut = the_front_is_trimmed(text.drop_first(), set);
        let rest = text.drop_first();
        assert(text.skip(cut + 1) =~= rest.skip(cut));
        assert(text =~= text.take(cut + 1) + text.skip(cut + 1));
        assert forall|i: int| 0 <= i < cut + 1 implies set(#[trigger] text.take(cut + 1)[i]) by {
            if i > 0 {
                assert(set(rest.take(cut)[i - 1]));
            }
        }
        cut + 1
    } else {
        assert(text.skip(0) =~= text);
        assert(text =~= text.take(0) + text);
        0
    }
}

pub(crate) proof fn the_back_is_trimmed(text: Seq<char>, set: spec_fn(char) -> bool)
    ensures
        ({
            let rest = trim_back(text, set);
            &&& rest.len() <= text.len()
            &&& rest == text.take(rest.len() as int)
            &&& all_in(text.skip(rest.len() as int), set)
            &&& rest.len() > 0 ==> !set(rest.last())
        }),
    decreases text.len(),
{
    if text.len() > 0 && set(text.last()) {
        let front = text.drop_last();
        the_back_is_trimmed(front, set);
        let n = trim_back(text, set).len() as int;
        assert(text.take(n) =~= front.take(n));
        assert forall|i: int| 0 <= i < text.len() - n implies set(#[trigger] text.skip(n)[i]) by {
            if i < front.len() - n {
                assert(text.skip(n)[i] == front.skip(n)[i]);
            } else {
                assert(text.skip(n)[i] == text.last());
            }
        }
    } else {
        assert(text.take(text.len() as int) =~= text);
    }
}

/// What is trimmed away at an end is of the set, all of it, and no more.
pub proof fn ends_are_trimmed(
    text: &str,
    set: TrimSet,
    front: String,
    back: String,
)
    requires
        call_ensures(without_front, (text, set), front),
        call_ensures(without_back, (text, set), back),
    ensures
        exists|cut: int|
            0 <= cut <= text@.len() && front@ == #[trigger] text@.skip(cut) && forall|i: int|
                0 <= i < cut ==> is_trimmed(set, #[trigger] text@[i]),
        front@.len() > 0 ==> !is_trimmed(set, front@[0]),
        back@.is_prefix_of(text@),
        forall|i: int| back@.len() <= i < text@.len() ==> is_trimmed(set, #[trigger] text@[i]),
        back@.len() > 0 ==> !is_trimmed(set, back@.last()),
{
    let has = |c: char| set.has(c);
    let cut = the_front_is_trimmed(text@, has);
    the_back_is_trimmed(text@, has);
    assert(front@ == text@.skip(cut));
    assert forall|i: int| 0 <= i < cut implies is_trimmed(set, #[trigger] text@[i]) by {
        assert(has(text@.take(cut)[i]));
    }
    assert forall|i: int| back@.len() <= i < text@.len() implies is_trimmed(
        set,
        #[trigger] text@[i],
    ) by {
        assert(has(text@.skip(back@.len() as int)[i - back@.len()]));
    }
}

/// Trimming takes the white space off both ends, all of it, and nothing else.
pub proof fn white_space_is_trimmed(text: &str, rest: String)
    requires
        call_ensures(trim, (text,), rest),
    ensures
        exists|cut: int|
            0 <= cut <= text@.len() - rest@.len() && rest@ == #[trigger] text@.subrange(
                cut,
                cut + rest@.len(),
            ) && (forall|i: int|
                0 <= i < cut || cut + rest@.len() <= i < text@.len() ==> is_space(
                    #[trigger] text@[i],
                )),
        rest@.len() > 0 ==> !is_space(rest@[0]) && !is_space(rest@.last()),
        rest@.len() == 0 <==> all_in(text@, |c: char| is_space(c)),
{
    let space = |c: char| is_space(c);
    let cut = the_front_is_trimmed(text@, space);
    let front = trim_front(text@, space);
    the_back_is_trimmed(front, space);
    let n = rest@.len() as int;
    assert(rest@ =~= text@.subrange(cut, cut + n));
    assert forall|i: int| 0 <= i < cut || cut + n <= i < text@.len() implies is_space(
        #[trigger] text@[i],
    ) by {
        if i < cut {
            assert(space(text@.take(cut)[i]));
        } else {
            assert(space(front.skip(n)[i - cut - n]));
        }
    }
    if n > 0 {
        assert(rest@[0] == front[0]);
        assert(rest@[0] == text@[cut]);
        assert(!space(text@[cut]));
    }
}

/// A text is split at its white space: put together without it, the words are the text
/// without it.
pub open spec fn solid(text: Seq<char>) -> Seq<char> {
    text.filter(|c: char| !is_space(c))
}

spec fn run_together(words: Seq<Seq<char>>) -> Seq<char>
    decreases words.len(),
{
    if words.len() == 0 {
        Seq::empty()
    } else {
        run_together(words.drop_last()) + words.last()
    }
}

proof fn word_parts_hold_every_letter(text: Seq<char>)
    ensures
        ({
            let (words, word) = word_parts(text);
            &&& run_together(words) + word == solid(text)
            &&& all_in(word, |c: char| !is_space(c))
            &&& forall|i: int|
                0 <= i < words.len() ==> (#[trigger] words[i]).len() > 0 && all_in(
                    words[i],
                    |c: char| !is_space(c),
                )
        }),
    decreases text.len(),
{
    reveal(Seq::filter);
    if text.len() > 0 {
        word_parts_hold_every_letter(text.drop_last());
        let (before, part) = word_parts(text.drop_last());
        let (words, word) = word_parts(text);
        if !is_space(text.last()) {
            assert(run_together(words) + word =~= (run_together(before) + part).push(text.last()));
        } else if part.len() > 0 {
            assert(words.drop_last() =~= before);
            assert(run_together(words) + word =~= run_together(before) + part);
        }
    } else {
        assert(run_together(word_parts(text).0) + word_parts(text).1 =~= solid(text));
    }
}

spec fn all_letters(words: Seq<String>) -> Seq<char>
    decreases words.len(),
{
    if words.len() == 0 {
        Seq::empty()
    } else {
        all_letters(words.drop_last()) + words.last()@
    }
}

proof fn letters_run_together(words: Seq<String>)
    ensures
        all_letters(words) == run_together(texts(words)),
    decreases words.len(),
{
    if words.len() > 0 {
        letters_run_together(words.drop_last());
        assert(texts(words).drop_last() =~= texts(words.drop_last()));
        assert(texts(words).last() == words.last()@);
    } else {
        assert(texts(words).len() == 0);
    }
}

/// The letters of the words, one word after the other.
pub closed spec fn letters_of(words: Seq<String>) -> Seq<char> {
    all_letters(words)
}

/// The words of a text hold all of its letters but the white space, in their order, and every
/// word holds one.
pub proof fn words_hold_every_letter(text: &str, words: Vec<String>)
    requires
        call_ensures(split_words, (text,), words),
    ensures
        letters_of(words@) == solid(text@),
        forall|i: int|
            0 <= i < words@.len() ==> (#[trigger] words@[i])@.len() > 0 && all_in(
                words@[i]@,
                |c: char| !is_space(c),
            ),
{
    word_parts_hold_every_letter(text@);
    letters_run_together(words@);
    let (whole, last) = word_parts(text@);
    if last.len() > 0 {
        assert(words_of(text@).drop_last() =~= whole);
    } else {
        assert(run_together(whole) + last =~= run_together(whole));
    }
    assert forall|i: int| 0 <= i < words@.len() implies (#[trigger] words@[i])@.len() > 0 && all_in(
        words@[i]@,
        |c: char| !is_space(c),
    ) by {
        assert(texts(words@)[i] == words@[i]@);
        assert(words_of(text@)[i] == words@[i]@);
        if i < whole.len() {
            assert(whole[i] == words@[i]@);
        }
    }
}

/// The letters of one more word follow those of the others.
pub proof fn letters_of_words_follow_each_other(words: Seq<String>, word: String)
    ensures
        letters_of(Seq::<String>::empty()).len() == 0,
        letters_of(words.push(word)) == letters_of(words) + word@,
{
    assert(words.push(word).drop_last() =~= words);
}

/// A word ends only at white space or at the end: a letter that follows a letter belongs to
/// the same word, and a letter behind white space begins one.
pub proof fn a_word_ends_only_at_white_space(
    text: &str,
    longer: &str,
    c: char,
    words: Vec<String>,
    more: Vec<String>,
)
    requires
        call_ensures(split_words, (text,), words),
        call_ensures(split_words, (longer,), more),
        longer@ == text@.push(c),
    ensures
        is_space(c) ==> texts(more@) == texts(words@),
        !is_space(c) && text@.len() > 0 && !is_space(text@.last()) ==> words@.len() > 0
            && more@.len() == words@.len() && more@.last()@ == words@.last()@.push(c),
        !is_space(c) && (text@.len() == 0 || is_space(text@.last())) ==> more@.len()
            == words@.len() + 1 && more@.last()@ == seq![c],
{
    assert(longer@.drop_last() =~= text@);
    let (whole, last) = word_parts(text@);
    assert(text@.len() > 0 && !is_space(text@.last()) ==> last.len() > 0);
    assert(text@.len() == 0 || is_space(text@.last()) ==> last.len() == 0);
    assert(texts(more@).len() == more@.len() && texts(words@).len() == words@.len());
    if more@.len() > 0 {
        assert(texts(more@).last() == more@.last()@);
    }
    if words@.len() > 0 {
        assert(texts(words@).last() == words@.last()@);
    }
    if !is_space(c) && last.len() == 0 {
        assert(last.push(c) =~= seq![c]);
    }
}

} // verus!
