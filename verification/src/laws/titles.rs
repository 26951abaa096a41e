//! What is made of a model's answer when it is asked for a title.
use crate::conversation::{message_views, Message, MessageView, Role};
use crate::laws::undoing::asked;
use crate::session_title::{
    a_title_is_one_line, bare_title, collapsed, first_exchange_text, first_text,
    sanitize_generated_title, scrubbed, session_title_prompt, should_accept_ai_name, unlabelled,
    unquoted, without_label, TitleCollector, TitlePiece, TitleStep,
};
use crate::text::{
    is_control_code, is_space, joined, trim, trim_back, trim_front, trimmed, word_parts, TrimSet,
};
use vstd::prelude::*;
use vstd::string::*;

verus! {

/// The conversation stands at the end of the request, as it is.
pub proof fn a_title_is_asked_for_the_conversation(conversation: &str, prompt: String)
    requires
        call_ensures(session_title_prompt, (conversation,), prompt),
    ensures
        prompt@
            == "Generate a short, specific title for this conversation. Rules: at most 6 words, same language as the user, no surrounding quotes, no trailing punctuation, no leading label like \"Title:\". Reply with only the title.\n\n"@
            + conversation@,
{
}

/// Whether the letter is a quotation mark.
pub open spec fn is_quote(c: char) -> bool {
    c == '"' || c == '\'' || c == '`' || c == '“' || c == '”'
}

/// Whether the letter is a full stop.
pub open spec fn is_stop(c: char) -> bool {
    c == '.' || c == '。'
}

/// Whether the text stands in a line, its words one space apart.
pub open spec fn is_spaced(text: Seq<char>) -> bool {
    &&& forall|i: int|
        0 <= i < text.len() ==> #[trigger] text[i] == ' ' || (!is_space(text[i])
            && !is_control_code(text[i]))
    &&& forall|i: int|
        0 <= i < text.len() - 1 ==> !(#[trigger] text[i] == ' ' && text[i + 1] == ' ')
    &&& text.len() > 0 ==> text[0] != ' ' && text.last() != ' '
}

/// Whether the text begins with a label that is dropped.
pub open spec fn is_labelled(text: Seq<char>) -> bool {
    ||| "Title:"@.is_prefix_of(text) || "title:"@.is_prefix_of(text)
    ||| "标题:"@.is_prefix_of(text) || "标题："@.is_prefix_of(text)
    ||| "主题:"@.is_prefix_of(text) || "主题："@.is_prefix_of(text)
}

/// Whether the text is a title as it stands, but for its length.
pub open spec fn is_clean(text: Seq<char>) -> bool {
    &&& text.len() > 0 && is_spaced(text)
    &&& !is_quote(text[0]) && !is_quote(text.last()) && !is_stop(text.last())
    &&& !is_labelled(text)
}

/// Whether the title is the text, cut after forty letters.
pub open spec fn is_title_of(title: Option<String>, text: Seq<char>) -> bool {
    &&& title is Some
    &&& text.len() <= 40 ==> title->0@ == text
    &&& text.len() > 40 ==> title->0@.len() == 40 && title->0@.is_prefix_of(text)
}

proof fn a_solid_text_is_not_trimmed(text: Seq<char>)
    requires
        text.len() > 0,
        !is_space(text[0]),
        !is_space(text.last()),
    ensures
        trimmed(text) == text,
{
}

proof fn a_plain_text_is_not_scrubbed(text: Seq<char>)
    requires
        forall|i: int| 0 <= i < text.len() ==> !is_control_code(#[trigger] text[i]),
    ensures
        scrubbed(text) == text,
{
    assert(scrubbed(text) =~= text);
}

proof fn spaced_words_are_joined_again(text: Seq<char>)
    requires
        text.len() > 0,
        text[0] != ' ',
        forall|i: int| 0 <= i < text.len() ==> #[trigger] text[i] == ' ' || !is_space(text[i]),
        forall|i: int|
            0 <= i < text.len() - 1 ==> !(#[trigger] text[i] == ' ' && text[i + 1] == ' '),
    ensures
        ({
            let (words, word) = word_parts(text);
            &&& text.last() != ' ' ==> word.len() > 0 && joined(words.push(word), " "@) == text
            &&& text.last() == ' ' ==> word.len() == 0 && words.len() > 0 && joined(words, " "@)
                + " "@ == text
        }),
    decreases text.len(),
{
    reveal_strlit(" ");
    let front = text.drop_last();
    assert(text =~= front.push(text.last()));
    if text.len() == 1 {
        reveal_with_fuel(word_parts, 2);
        assert(front =~= Seq::empty());
        let (words, word) = word_parts(text);
        assert(!is_space(text[0]));
        assert(word =~= text);
        assert(words.push(word)[0] == text);
    } else {
        assert(front[0] == text[0]);
        assert forall|i: int| 0 <= i < front.len() implies #[trigger] front[i] == ' ' || !is_space(
            front[i],
        ) by {
            assert(front[i] == text[i]);
        }
        assert forall|i: int| 0 <= i < front.len() - 1 implies !(#[trigger] front[i] == ' '
            && front[i + 1] == ' ') by {
            assert(front[i] == text[i] && front[i + 1] == text[i + 1]);
        }
        spaced_words_are_joined_again(front);
        let (before, part) = word_parts(front);
        let (words, word) = word_parts(text);
        let last = text.last();
        assert(text[text.len() - 1] == last);
        if last != ' ' {
            assert(!is_space(last));
            assert(words.push(word).drop_last() =~= words);
            if front.last() == ' ' {
                assert(joined(words.push(word), " "@) == joined(before, " "@) + " "@ + word);
                assert(joined(before, " "@) + " "@ + word =~= front.push(last));
            } else {
                assert(before.push(part).drop_last() =~= before);
                if before.len() == 0 {
                    assert(joined(words.push(word), " "@) =~= front.push(last));
                } else {
                    assert(joined(before, " "@) + " "@ + part.push(last) =~= (joined(before, " "@)
                        + " "@ + part).push(last));
                    assert(joined(words.push(word), " "@) =~= front.push(last));
                }
            }
        } else {
            assert(text[text.len() - 2] == front.last());
            assert(front.last() != ' ');
            assert(is_space(last));
            assert(words == before.push(part));
            assert(joined(words, " "@) + " "@ =~= front.push(' '));
        }
    }
}

proof fn a_spaced_text_is_not_collapsed(text: Seq<char>)
    requires
        text.len() > 0,
        is_spaced(text),
    ensures
        collapsed(text) == text,
{
    spaced_words_are_joined_again(text);
}

proof fn an_unlabelled_text_stays(text: Seq<char>)
    requires
        !is_labelled(text),
    ensures
        unlabelled(text) == text,
{
}

proof fn a_spaced_title_is_only_unquoted(text: Seq<char>)
    requires
        text.len() > 0,
        is_spaced(text),
        !is_labelled(text),
    ensures
        bare_title(text) == unquoted(text),
{
    assert(text[text.len() - 1] == text.last());
    assert forall|i: int| 0 <= i < text.len() implies !is_control_code(#[trigger] text[i]) by {}
    a_plain_text_is_not_scrubbed(text);
    a_solid_text_is_not_trimmed(text);
    an_unlabelled_text_stays(text);
    a_spaced_text_is_not_collapsed(text);
}

proof fn a_clean_text_is_not_unquoted(text: Seq<char>)
    requires
        is_clean(text),
    ensures
        unquoted(text) == text,
{
    assert(text[text.len() - 1] == text.last());
    assert(!is_space(text[0]) && !is_space(text[text.len() - 1]));
    a_solid_text_is_not_trimmed(text);
}

/// A clean answer is taken as it is, up to forty letters.
pub proof fn a_clean_answer_is_taken_as_it_is(raw: &str, title: Option<String>)
    requires
        call_ensures(sanitize_generated_title, (raw,), title),
        is_clean(raw@),
    ensures
        is_title_of(title, raw@),
{
    a_spaced_title_is_only_unquoted(raw@);
    a_clean_text_is_not_unquoted(raw@);
}

/// Quotation marks around an answer are dropped, whichever they are.
pub proof fn quotes_around_an_answer_are_dropped(
    raw: &str,
    open: char,
    text: Seq<char>,
    close: char,
    title: Option<String>,
)
    requires
        call_ensures(sanitize_generated_title, (raw,), title),
        is_clean(text),
        is_quote(open) && is_quote(close),
        raw@ == seq![open] + text + seq![close],
    ensures
        is_title_of(title, text),
{
    reveal_strlit("Title:");
    reveal_strlit("title:");
    reveal_strlit("标题:");
    reveal_strlit("标题：");
    reveal_strlit("主题:");
    reveal_strlit("主题：");
    let all = raw@;
    let n = text.len() as int;
    assert(text[n - 1] == text.last());
    assert(is_spaced(all)) by {
        assert forall|i: int| 0 <= i < all.len() implies #[trigger] all[i] == ' ' || (!is_space(
            all[i],
        ) && !is_control_code(all[i])) by {
            if 0 < i <= n {
                assert(all[i] == text[i - 1]);
            }
        }
        assert forall|i: int| 0 <= i < all.len() - 1 implies !(#[trigger] all[i] == ' ' && all[i
            + 1] == ' ') by {
            if 0 < i < n {
                assert(all[i] == text[i - 1] && all[i + 1] == text[i]);
            }
        }
    }
    assert(all[0] == open);
    assert(!is_labelled(all)) by {
        if is_labelled(all) {
            assert(all.len() >= 6 ==> all.subrange(0, 6)[0] == open);
            assert(all.subrange(0, 3)[0] == open);
        }
    }
    a_spaced_title_is_only_unquoted(all);
    let quotes = |c: char| TrimSet::Quotes.has(c);
    let inner = text + seq![close];
    assert(all.drop_first() =~= inner);
    assert(inner[0] == text[0]);
    assert(trim_front(all, quotes) == trim_front(inner, quotes));
    assert(trim_front(inner, quotes) == inner);
    assert(inner.drop_last() =~= text);
    assert(trim_back(inner, quotes) == trim_back(text, quotes));
    assert(trim_back(text, quotes) == text);
    assert(trim_front(text, quotes) == text);
    assert(unquoted(all) == unquoted(text));
    a_clean_text_is_not_unquoted(text);
}

/// A full stop behind an answer is dropped.
pub proof fn a_stop_behind_an_answer_is_dropped(
    raw: &str,
    text: Seq<char>,
    stop: char,
    title: Option<String>,
)
    requires
        call_ensures(sanitize_generated_title, (raw,), title),
        is_clean(text),
        is_stop(stop),
        raw@ == text + seq![stop],
    ensures
        is_title_of(title, text),
{
    reveal_strlit("Title:");
    reveal_strlit("title:");
    reveal_strlit("标题:");
    reveal_strlit("标题：");
    reveal_strlit("主题:");
    reveal_strlit("主题：");
    let all = raw@;
    let n = text.len() as int;
    assert(text[n - 1] == text.last());
    assert(all.drop_last() =~= text);
    assert(all[0] == text[0]);
    assert(is_spaced(all)) by {
        assert forall|i: int| 0 <= i < all.len() implies #[trigger] all[i] == ' ' || (!is_space(
            all[i],
        ) && !is_control_code(all[i])) by {
            if i < n {
                assert(all[i] == text[i]);
            }
        }
        assert forall|i: int| 0 <= i < all.len() - 1 implies !(#[trigger] all[i] == ' ' && all[i
            + 1] == ' ') by {
            if i < n - 1 {
                assert(all[i] == text[i] && all[i + 1] == text[i + 1]);
            }
        }
    }
    a_label_does_not_end_in_a_stop(text, stop, "Title:"@);
    a_label_does_not_end_in_a_stop(text, stop, "title:"@);
    a_label_does_not_end_in_a_stop(text, stop, "标题:"@);
    a_label_does_not_end_in_a_stop(text, stop, "标题："@);
    a_label_does_not_end_in_a_stop(text, stop, "主题:"@);
    a_label_does_not_end_in_a_stop(text, stop, "主题："@);
    a_spaced_title_is_only_unquoted(all);
    let quotes = |c: char| TrimSet::Quotes.has(c);
    let stops = |c: char| TrimSet::Stops.has(c);
    assert(trim_front(all, quotes) == all);
    assert(trim_back(all, quotes) == all);
    a_solid_text_is_not_trimmed(all);
    assert(trim_back(all, stops) == trim_back(text, stops));
    assert(trim_back(text, stops) == text);
    assert(!is_space(text[n - 1]));
    a_solid_text_is_not_trimmed(text);
}

proof fn a_label_does_not_end_in_a_stop(text: Seq<char>, stop: char, label: Seq<char>)
    requires
        !label.is_prefix_of(text),
        label.len() > 0,
        label.last() != stop,
    ensures
        !label.is_prefix_of(text + seq![stop]),
{
    let all = text + seq![stop];
    let n = label.len() as int;
    if label.is_prefix_of(all) {
        assert(all.subrange(0, n)[n - 1] == label.last());
        if n <= text.len() {
            assert(text.subrange(0, n) =~= all.subrange(0, n));
        }
    }
}

/// A label in front of an answer is dropped.
pub proof fn a_label_before_an_answer_is_dropped(
    raw: &str,
    label: Seq<char>,
    text: Seq<char>,
    title: Option<String>,
)
    requires
        call_ensures(sanitize_generated_title, (raw,), title),
        is_clean(text),
        label == "Title:"@ || label == "title:"@ || label == "标题:"@ || label == "标题："@ || label
            == "主题:"@ || label == "主题："@,
        raw@ == label + text,
    ensures
        is_title_of(title, text),
{
    reveal_strlit("Title:");
    reveal_strlit("title:");
    reveal_strlit("标题:");
    reveal_strlit("标题：");
    reveal_strlit("主题:");
    reveal_strlit("主题：");
    let all = raw@;
    let n = label.len() as int;
    assert(text[text.len() - 1] == text.last());
    assert(!is_space(text[0]) && !is_space(text[text.len() - 1]));
    assert forall|i: int| 0 <= i < all.len() implies !is_control_code(#[trigger] all[i]) by {
        if i >= n {
            assert(all[i] == text[i - n]);
        }
    }
    a_plain_text_is_not_scrubbed(all);
    assert(all[0] == label[0]);
    assert(all.last() == text.last());
    a_solid_text_is_not_trimmed(all);
    assert(all.subrange(0, n) =~= label);
    assert(all.skip(n) =~= text);
    a_solid_text_is_not_trimmed(text);
    assert(without_label(all, label) == text);
    assert(all.len() >= 6 ==> all.subrange(0, 6)[0] == all[0]);
    assert(all.subrange(0, 3)[0] == all[0]);
    assert(all.subrange(0, 3)[2] == all[2]);
    assert(label.len() == 3 ==> all[2] == label[2]);
    assert(unlabelled(all) == text);
    a_spaced_text_is_not_collapsed(text);
    a_clean_text_is_not_unquoted(text);
}

proof fn space_in_front_is_trimmed(space: Seq<char>, text: Seq<char>)
    requires
        forall|i: int| 0 <= i < space.len() ==> is_space(#[trigger] space[i]),
    ensures
        trim_front(space + text, |c: char| is_space(c)) == trim_front(text, |c: char| is_space(c)),
    decreases space.len(),
{
    if space.len() > 0 {
        let rest = space.drop_first();
        assert forall|i: int| 0 <= i < rest.len() implies is_space(#[trigger] rest[i]) by {
            assert(rest[i] == space[i + 1]);
        }
        assert((space + text).drop_first() =~= rest + text);
        space_in_front_is_trimmed(rest, text);
    } else {
        assert(space + text =~= text);
    }
}

proof fn space_behind_is_trimmed(text: Seq<char>, space: Seq<char>)
    requires
        forall|i: int| 0 <= i < space.len() ==> is_space(#[trigger] space[i]),
    ensures
        trim_back(text + space, |c: char| is_space(c)) == trim_back(text, |c: char| is_space(c)),
    decreases space.len(),
{
    if space.len() > 0 {
        let rest = space.drop_last();
        assert((text + space).drop_last() =~= text + rest);
        assert((text + space).last() == space[space.len() - 1]);
        space_behind_is_trimmed(text, rest);
    } else {
        assert(text + space =~= text);
    }
}

/// White space and control codes around an answer are dropped; of nothing else no title is
/// made.
pub proof fn space_around_an_answer_is_dropped(
    raw: &str,
    front: Seq<char>,
    text: Seq<char>,
    back: Seq<char>,
    title: Option<String>,
)
    requires
        call_ensures(sanitize_generated_title, (raw,), title),
        is_clean(text) || text.len() == 0,
        forall|i: int|
            0 <= i < front.len() ==> is_space(#[trigger] front[i]) || is_control_code(front[i]),
        forall|i: int|
            0 <= i < back.len() ==> is_space(#[trigger] back[i]) || is_control_code(back[i]),
        raw@ == front + text + back,
    ensures
        text.len() > 0 ==> is_title_of(title, text),
        text.len() == 0 ==> title is None,
{
    reveal_strlit("Title:");
    reveal_strlit("title:");
    reveal_strlit("标题:");
    reveal_strlit("标题：");
    reveal_strlit("主题:");
    reveal_strlit("主题：");
    let space = |c: char| is_space(c);
    let (f, b) = (scrubbed(front), scrubbed(back));
    assert forall|i: int| 0 <= i < text.len() implies !is_control_code(#[trigger] text[i]) by {}
    a_plain_text_is_not_scrubbed(text);
    assert(scrubbed(raw@) =~= f + scrubbed(text) + b);
    assert forall|i: int| 0 <= i < f.len() implies is_space(#[trigger] f[i]) by {
        assert(is_space(front[i]) || is_control_code(front[i]));
    }
    assert forall|i: int| 0 <= i < b.len() implies is_space(#[trigger] b[i]) by {
        assert(is_space(back[i]) || is_control_code(back[i]));
    }
    assert(f + text + b =~= f + (text + b));
    space_in_front_is_trimmed(f, text + b);
    if text.len() > 0 {
        assert((text + b)[0] == text[0]);
        assert(!is_space(text[0]));
        assert(trim_front(text + b, space) == text + b);
        space_behind_is_trimmed(text, b);
        assert(text[text.len() - 1] == text.last());
        assert(!is_space(text[text.len() - 1]));
        assert(trimmed(scrubbed(raw@)) == text);
        an_unlabelled_text_stays(text);
        a_spaced_text_is_not_collapsed(text);
        a_clean_text_is_not_unquoted(text);
    } else {
        assert(text + b =~= b);
        assert(b =~= b + Seq::empty());
        space_in_front_is_trimmed(b, Seq::empty());
        assert(trimmed(scrubbed(raw@)).len() == 0);
        assert(unlabelled(trimmed(scrubbed(raw@))).len() == 0);
        assert(bare_title(raw@).len() == 0);
    }
}

/// A control code counts as a space, wherever it stands.
pub proof fn a_control_code_counts_as_a_space(
    raw: &str,
    spaced: &str,
    front: Seq<char>,
    code: char,
    back: Seq<char>,
    title: Option<String>,
    expected: Option<String>,
)
    requires
        call_ensures(sanitize_generated_title, (raw,), title),
        call_ensures(sanitize_generated_title, (spaced,), expected),
        is_control_code(code),
        raw@ == front.push(code) + back,
        spaced@ == front.push(' ') + back,
    ensures
        title is Some <==> expected is Some,
        title is Some ==> title->0@ == expected->0@,
{
    assert(scrubbed(raw@) =~= scrubbed(spaced@));
}

/// Whatever comes in, a title is a line of one to forty letters, its words one space apart.
pub proof fn a_title_is_a_short_line(raw: &str, title: Option<String>)
    requires
        call_ensures(sanitize_generated_title, (raw,), title),
    ensures
        title matches Some(text) ==> {
            &&& 0 < text@.len() <= 40 && text@[0] != ' '
            &&& forall|i: int|
                0 <= i < text@.len() ==> #[trigger] text@[i] == ' ' || (!is_space(text@[i])
                    && !is_control_code(text@[i]))
            &&& forall|i: int|
                0 <= i < text@.len() - 1 ==> !(#[trigger] text@[i] == ' ' && text@[i + 1] == ' ')
        },
{
    if title is Some {
        let text = title->0@;
        a_title_is_one_line(raw@, text);
        let plain = |c: char| c == ' ' || (!is_space(c) && !is_control_code(c));
        assert forall|i: int| 0 <= i < text.len() implies #[trigger] text[i] == ' ' || (!is_space(
            text[i],
        ) && !is_control_code(text[i])) by {
            assert(plain(text[i]));
        }
    }
}

/// What comes in piece by piece is one answer: its end decides the title, a failure gives it
/// up, and nothing else changes it.
pub proof fn pieces_are_one_answer(
    fresh: TitleCollector,
    collector: &mut TitleCollector,
    piece: TitlePiece,
    step: TitleStep,
    held: &TitleCollector,
    whole: &str,
    title: Option<String>,
    finished: Option<String>,
)
    requires
        call_ensures(TitleCollector::new, (), fresh),
        call_ensures(TitleCollector::take, (collector, piece), step),
        call_ensures(TitleCollector::finish, (held,), finished),
        *held == *old(collector),
        whole@ == old(collector).raw@,
        call_ensures(sanitize_generated_title, (whole,), title),
    ensures
        fresh.raw@.len() == 0,
        piece matches TitlePiece::Text(text) ==> step is More && final(collector).raw@ == old(
            collector,
        ).raw@ + text@,
        !(piece is Text) ==> final(collector).raw@ == old(collector).raw@,
        piece is Other ==> step is More,
        piece is Failed ==> step == TitleStep::Finished(None),
        piece is Done ==> (step matches TitleStep::Finished(told) && (told is Some <==> title
            is Some) && (told is Some ==> told->0@ == title->0@)),
        finished is Some <==> title is Some,
        finished is Some ==> finished->0@ == title->0@,
{
}

/// A generated name is taken once, and never over the user's.
pub proof fn a_generated_name_is_taken_once(renamed: bool, named: bool, accept: bool)
    requires
        call_ensures(should_accept_ai_name, (renamed, named), accept),
    ensures
        accept <==> !(renamed || named),
{
}

/// Whether the message is the first that fits: a prompt, or an answer.
pub open spec fn is_first(messages: Seq<Message>, at: int, prompt: bool) -> bool {
    let fits = |message: Message|
        if prompt {
            asked(message)
        } else {
            message.role is Assistant
        };
    &&& 0 <= at < messages.len() && fits(messages[at])
    &&& forall|i: int| 0 <= i < at ==> !fits(#[trigger] messages[i])
}

proof fn the_first_text_is_of_the_first(messages: Seq<MessageView>, prompt: bool, at: int)
    requires
        0 <= at <= messages.len(),
        forall|i: int|
            0 <= i < at ==> !((prompt && (#[trigger] messages[i]).is_prompt()) || (!prompt
                && messages[i].role == Role::Assistant)),
        at < messages.len() ==> ((prompt && messages[at].is_prompt()) || (!prompt
            && messages[at].role == Role::Assistant)),
    ensures
        at < messages.len() ==> first_text(messages, prompt) == Some(messages[at].text),
        at == messages.len() ==> first_text(messages, prompt) is None,
    decreases at,
{
    if at > 0 {
        let rest = messages.drop_first();
        assert(!((prompt && messages[0].is_prompt()) || (!prompt && messages[0].role
            == Role::Assistant)));
        assert forall|i: int| 0 <= i < at - 1 implies !((prompt && (
        #[trigger] rest[i]).is_prompt()) || (!prompt && rest[i].role == Role::Assistant)) by {
            assert(rest[i] == messages[i + 1]);
        }
        if at < messages.len() {
            assert(rest[at - 1] == messages[at]);
        }
        the_first_text_is_of_the_first(rest, prompt, at - 1);
    }
}

proof fn the_first_message_gives_the_text(messages: Seq<Message>, prompt: bool, at: int)
    requires
        is_first(messages, at, prompt) || (at == messages.len() && forall|i: int|
            0 <= i < messages.len() ==> !is_first(messages, i, prompt)),
    ensures
        at < messages.len() ==> first_text(message_views(messages), prompt) == Some(
            messages[at].text@,
        ),
        at == messages.len() ==> first_text(message_views(messages), prompt) is None,
{
    let views = message_views(messages);
    if at == messages.len() {
        none_fits_where_none_is_first(messages, prompt, at);
    }
    assert forall|i: int| 0 <= i < at implies !((prompt && (#[trigger] views[i]).is_prompt()) || (
    !prompt && views[i].role == Role::Assistant)) by {
        assert(views[i] == messages[i]@);
        assert(messages[i] == messages[i]);
    }
    if at < messages.len() {
        assert(views[at] == messages[at]@);
    }
    the_first_text_is_of_the_first(views, prompt, at);
}

proof fn none_fits_where_none_is_first(messages: Seq<Message>, prompt: bool, n: int)
    requires
        0 <= n <= messages.len(),
        forall|i: int| 0 <= i < messages.len() ==> !is_first(messages, i, prompt),
    ensures
        forall|i: int|
            0 <= i < n ==> !((prompt && asked(#[trigger] messages[i])) || (!prompt
                && messages[i].role is Assistant)),
    decreases n,
{
    if n > 0 {
        none_fits_where_none_is_first(messages, prompt, n - 1);
        assert(!is_first(messages, n - 1, prompt));
    }
}

/// The first exchange is the first prompt and the first answer, without the white space
/// around them; without a prompt, or of a blank one, there is none.
pub proof fn the_first_exchange_is_the_first_prompt_and_answer(
    messages: &Vec<Message>,
    conversation: Option<String>,
    prompt_at: int,
    prompt: &str,
    user: String,
    answer_at: int,
    answer: &str,
    assistant: String,
)
    requires
        call_ensures(first_exchange_text, (messages,), conversation),
        is_first(messages@, prompt_at, true),
        prompt@ == messages@[prompt_at].text@,
        call_ensures(trim, (prompt,), user),
        is_first(messages@, answer_at, false) || (answer_at == messages@.len() && forall|i: int|
            0 <= i < messages@.len() ==> !is_first(messages@, i, false)),
        answer_at < messages@.len() ==> answer@ == messages@[answer_at].text@,
        answer_at == messages@.len() ==> answer@.len() == 0,
        call_ensures(trim, (answer,), assistant),
    ensures
        user@.len() == 0 ==> conversation is None,
        user@.len() > 0 && assistant@.len() == 0 ==> conversation is Some && conversation->0@
            == "User: "@ + user@,
        user@.len() > 0 && assistant@.len() > 0 ==> conversation is Some && conversation->0@
            == "User: "@ + user@ + "\nAssistant: "@ + assistant@,
{
    the_first_message_gives_the_text(messages@, true, prompt_at);
    the_first_message_gives_the_text(messages@, false, answer_at);
}

/// A conversation in which nobody asked has no first exchange.
pub proof fn without_a_prompt_there_is_no_exchange(
    messages: &Vec<Message>,
    conversation: Option<String>,
)
    requires
        call_ensures(first_exchange_text, (messages,), conversation),
        forall|i: int| 0 <= i < messages@.len() ==> !asked(#[trigger] messages@[i]),
    ensures
        conversation is None,
{
    the_first_message_gives_the_text(messages@, true, messages@.len() as int);
}

} // verus!
