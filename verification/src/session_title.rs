//! Names for sessions: the prompt that asks a model for one, and what is made of the answer.
use crate::conversation::{message_views, Message, MessageView, Role};
use crate::text::{
    chars_of, clip, clipped, control_code, is_control_code, is_space, join2, join3, join_all,
    joined, skip_chars, split_words, starts_with, trim, trim_back, trim_front, trimmed,
    without_back, without_front, word_parts, words_of, TrimSet,
};
use vstd::prelude::*;
use vstd::string::*;

verus! {

/// Longest title that is kept, in characters.
pub const MAX_TITLE_CHARS: usize = 40;

/// What the model is asked before the conversation.
pub open spec fn title_request() -> Seq<char> {
    "Generate a short, specific title for this conversation. Rules: at most 6 words, same language as the user, no surrounding quotes, no trailing punctuation, no leading label like \"Title:\". Reply with only the title.\n\n"@
}

/// The prompt that asks for a title of the conversation.
pub fn session_title_prompt(conversation: &str) -> (prompt: String)
    ensures
        prompt@ == title_request() + conversation@,
{
    join2(
        "Generate a short, specific title for this conversation. Rules: at most 6 words, same language as the user, no surrounding quotes, no trailing punctuation, no leading label like \"Title:\". Reply with only the title.\n\n",
        conversation,
    )
}

/// Control codes become spaces.
pub open spec fn scrubbed(text: Seq<char>) -> Seq<char> {
    text.map_values(
        |c: char|
            if is_control_code(c) {
                ' '
            } else {
                c
            },
    )
}

/// A leading label is dropped, with the white space around the rest.
pub open spec fn without_label(text: Seq<char>, label: Seq<char>) -> Seq<char> {
    if label.is_prefix_of(text) {
        trimmed(text.skip(label.len() as int))
    } else {
        text
    }
}

/// The six labels that models put in front, dropped in this order.
pub open spec fn unlabelled(text: Seq<char>) -> Seq<char> {
    without_label(
        without_label(
            without_label(
                without_label(
                    without_label(without_label(text, "Title:"@), "title:"@),
                    "标题:"@,
                ),
                "标题："@,
            ),
            "主题:"@,
        ),
        "主题："@,
    )
}

/// White space runs become single spaces, and none is left at the ends.
pub open spec fn collapsed(text: Seq<char>) -> Seq<char> {
    joined(words_of(text), " "@)
}

/// Surrounding quotes and trailing full stops are dropped.
pub open spec fn unquoted(text: Seq<char>) -> Seq<char> {
    let bare = trimmed(
        trim_back(
            trim_front(text, |c: char| TrimSet::Quotes.has(c)),
            |c: char| TrimSet::Quotes.has(c),
        ),
    );
    trimmed(trim_back(bare, |c: char| TrimSet::Stops.has(c)))
}

/// The title that an answer stands for, before it is cut.
pub open spec fn bare_title(raw: Seq<char>) -> Seq<char> {
    unquoted(collapsed(unlabelled(trimmed(scrubbed(raw)))))
}

fn scrub(raw: &str) -> (text: String)
    ensures
        text@ == scrubbed(raw@),
{
    let chars = chars_of(raw);
    let mut text = String::new();
    let mut i: usize = 0;
    while i < chars.len()
        invariant
            0 <= i <= chars.len(),
            chars@ == raw@,
            text@ == scrubbed(raw@).take(i as int),
        decreases chars.len() - i,
    {
        let c: char = chars[i];
        text.push(
            if control_code(c) {
                ' '
            } else {
                c
            },
        );
        assert(text@ =~= scrubbed(raw@).take(i + 1));
        i = i + 1;
    }
    assert(text@ =~= scrubbed(raw@));
    text
}

fn drop_label(text: String, label: &str) -> (rest: String)
    ensures
        rest@ == without_label(text@, label@),
{
    if starts_with(text.as_str(), label) {
        let head = chars_of(label);
        trim(skip_chars(text.as_str(), head.len()).as_str())
    } else {
        text
    }
}

/// Turns a model's answer into a title: one line without labels, quotes or a final stop, of
/// at most forty characters. There is none if nothing is left.
pub fn sanitize_generated_title(raw: &str) -> (title: Option<String>)
    ensures
        title is None <==> bare_title(raw@).len() == 0,
        title matches Some(text) ==> text@ == clipped(bare_title(raw@), MAX_TITLE_CHARS as int),
{
    let clean = scrub(raw);
    let mut title = trim(clean.as_str());
    title = drop_label(title, "Title:");
    title = drop_label(title, "title:");
    title = drop_label(title, "标题:");
    title = drop_label(title, "标题：");
    title = drop_label(title, "主题:");
    title = drop_label(title, "主题：");
    let words = split_words(title.as_str());
    let line = join_all(&words, " ");
    let front = without_front(line.as_str(), TrimSet::Quotes);
    let middle = without_back(front.as_str(), TrimSet::Quotes);
    let unwrapped = trim(middle.as_str());
    let ended = without_back(unwrapped.as_str(), TrimSet::Stops);
    let bare = trim(ended.as_str());
    assert(bare@ == bare_title(raw@));
    if bare.as_str().is_empty() {
        return None;
    }
    Some(clip(bare.as_str(), MAX_TITLE_CHARS))
}

/// Text of the first message that fits, if there is one.
pub open spec fn first_text(messages: Seq<MessageView>, prompt: bool) -> Option<Seq<char>>
    decreases messages.len(),
{
    if messages.len() == 0 {
        None
    } else if (prompt && messages[0].is_prompt()) || (!prompt && messages[0].role
        == Role::Assistant) {
        Some(messages[0].text)
    } else {
        first_text(messages.drop_first(), prompt)
    }
}

/// The first exchange as text: the first prompt, which must not be blank, and the first
/// answer, if there is one.
pub open spec fn first_exchange(messages: Seq<MessageView>) -> Option<Seq<char>> {
    match first_text(messages, true) {
        Some(prompt) if trimmed(prompt).len() > 0 => {
            let user = "User: "@ + trimmed(prompt);
            match first_text(messages, false) {
                Some(answer) if trimmed(answer).len() > 0 => Some(
                    user + "\nAssistant: "@ + trimmed(answer),
                ),
                _ => Some(user),
            }
        },
        _ => None,
    }
}

proof fn first_text_skips(messages: Seq<MessageView>, prompt: bool, i: int)
    requires
        0 <= i <= messages.len(),
        forall|j: int|
            0 <= j < i ==> !((prompt && (#[trigger] messages[j]).is_prompt()) || (!prompt
                && messages[j].role == Role::Assistant)),
    ensures
        first_text(messages, prompt) == first_text(messages.skip(i), prompt),
    decreases i,
{
    if i > 0 {
        let rest = messages.drop_first();
        assert(!((prompt && messages[0].is_prompt()) || (!prompt && messages[0].role
            == Role::Assistant)));
        assert forall|j: int| 0 <= j < i - 1 implies !((prompt && (#[trigger] rest[j]).is_prompt())
            || (!prompt && rest[j].role == Role::Assistant)) by {
            assert(rest[j] == messages[j + 1]);
        }
        first_text_skips(rest, prompt, i - 1);
        assert(rest.skip(i - 1) =~= messages.skip(i));
    } else {
        assert(messages.skip(0) =~= messages);
    }
}

fn find_first(messages: &Vec<Message>, prompt: bool) -> (text: Option<String>)
    ensures
        crate::text::opt_text(text) == first_text(message_views(messages@), prompt),
{
    let ghost views = message_views(messages@);
    let mut i: usize = 0;
    while i < messages.len()
        invariant
            0 <= i <= messages.len(),
            views == message_views(messages@),
            forall|j: int|
                0 <= j < i ==> !((prompt && (#[trigger] views[j]).is_prompt()) || (!prompt
                    && views[j].role == Role::Assistant)),
        decreases messages.len() - i,
    {
        assert(views[i as int] == messages@[i as int]@);
        if (prompt && messages[i].is_prompt()) || (!prompt && messages[i].role
            == Role::Assistant) {
            proof {
                first_text_skips(views, prompt, i as int);
                assert(views.skip(i as int)[0] == views[i as int]);
            }
            return Some(messages[i].text.clone());
        }
        i = i + 1;
    }
    proof {
        first_text_skips(views, prompt, i as int);
    }
    None
}

/// The first exchange of a conversation, as the text that a title is asked for.
pub fn first_exchange_text(messages: &Vec<Message>) -> (conversation: Option<String>)
    ensures
        crate::text::opt_text(conversation) == first_exchange(message_views(messages@)),
{
    let user = match find_first(messages, true) {
        Some(text) => trim(text.as_str()),
        None => return None,
    };
    if user.as_str().is_empty() {
        return None;
    }
    let mut conversation = join2("User: ", user.as_str());
    if let Some(text) = find_first(messages, false) {
        let assistant = trim(text.as_str());
        if !assistant.as_str().is_empty() {
            conversation = join3(conversation.as_str(), "\nAssistant: ", assistant.as_str());
        }
    }
    Some(conversation)
}

/// Whether a generated name may be taken: neither the user nor a model named the session.
pub fn should_accept_ai_name(user_renamed: bool, ai_named: bool) -> (accept: bool)
    ensures
        accept == (!user_renamed && !ai_named),
{
    !user_renamed && !ai_named
}

/// A piece of the model's answer.
#[derive(Clone, Debug, PartialEq, Eq)]
pub enum TitlePiece {
    Text(String),
    Failed,
    Done,
    Other,
}

/// What has come in of the model's answer.
#[derive(Clone, Debug, PartialEq, Eq)]
pub struct TitleCollector {
    pub raw: String,
}

/// What to do after a piece.
#[derive(Clone, Debug, PartialEq, Eq)]
pub enum TitleStep {
    /// Wait for more.
    More,
    /// The answer is complete, with the title it stands for.
    Finished(Option<String>),
}

impl TitleCollector {
    pub fn new() -> (collector: Self)
        ensures
            collector.raw@ == Seq::<char>::empty(),
    {
        TitleCollector { raw: String::new() }
    }

    /// Takes one piece. A failure gives the title up; the end of the answer decides it.
    pub fn take(&mut self, piece: TitlePiece) -> (step: TitleStep)
        ensures
            match piece {
                TitlePiece::Text(text) => step == TitleStep::More && final(self).raw@ == old(
                    self,
                ).raw@ + text@,
                TitlePiece::Failed => step == TitleStep::Finished(None) && final(self).raw@ == old(
                    self,
                ).raw@,
                TitlePiece::Done => {
                    &&& final(self).raw@ == old(self).raw@
                    &&& step matches TitleStep::Finished(title)
                        && (title is None <==> bare_title(old(self).raw@).len() == 0)
                        && (title matches Some(text) ==> text@ == clipped(
                        bare_title(old(self).raw@),
                        MAX_TITLE_CHARS as int,
                    ))
                },
                TitlePiece::Other => step == TitleStep::More && final(self).raw@ == old(self).raw@,
            },
    {
        match piece {
            TitlePiece::Text(text) => {
                self.raw.append(text.as_str());
                TitleStep::More
            },
            TitlePiece::Failed => TitleStep::Finished(None),
            TitlePiece::Done => TitleStep::Finished(self.finish()),
            TitlePiece::Other => TitleStep::More,
        }
    }

    /// The title of what has come in, also where the answer just stopped.
    pub fn finish(&self) -> (title: Option<String>)
        ensures
            title is None <==> bare_title(self.raw@).len() == 0,
            title matches Some(text) ==> text@ == clipped(
                bare_title(self.raw@),
                MAX_TITLE_CHARS as int,
            ),
    {
        sanitize_generated_title(self.raw.as_str())
    }
}

/// Every character of the text is in the set.
pub open spec fn made_of(text: Seq<char>, set: spec_fn(char) -> bool) -> bool {
    forall|i: int| 0 <= i < text.len() ==> set(#[trigger] text[i])
}

proof fn trimming_adds_nothing(text: Seq<char>, cut: spec_fn(char) -> bool, set: spec_fn(char) -> bool)
    requires
        made_of(text, set),
    ensures
        made_of(trim_front(text, cut), set),
        made_of(trim_back(text, cut), set),
    decreases text.len(),
{
    if text.len() > 0 {
        assert(made_of(text.drop_first(), set)) by {
            assert forall|i: int| 0 <= i < text.len() - 1 implies set(
                #[trigger] text.drop_first()[i],
            ) by {
                assert(text.drop_first()[i] == text[i + 1]);
            }
        }
        trimming_adds_nothing(text.drop_first(), cut, set);
        trimming_adds_nothing(text.drop_last(), cut, set);
    }
}

proof fn trimmed_adds_nothing(text: Seq<char>, set: spec_fn(char) -> bool)
    requires
        made_of(text, set),
    ensures
        made_of(trimmed(text), set),
{
    trimming_adds_nothing(text, |c: char| is_space(c), set);
    trimming_adds_nothing(trim_front(text, |c: char| is_space(c)), |c: char| is_space(c), set);
}

proof fn labels_add_nothing(text: Seq<char>, label: Seq<char>, set: spec_fn(char) -> bool)
    requires
        made_of(text, set),
    ensures
        made_of(without_label(text, label), set),
{
    if label.is_prefix_of(text) {
        let n = label.len() as int;
        let rest = text.skip(n);
        assert forall|i: int| 0 <= i < rest.len() implies set(#[trigger] rest[i]) by {
            assert(rest[i] == text[i + n]);
        }
        trimmed_adds_nothing(rest, set);
    }
}

proof fn words_hold_no_white_space(text: Seq<char>, set: spec_fn(char) -> bool)
    requires
        made_of(text, set),
    ensures
        ({
            let inner = |c: char| set(c) && !is_space(c);
            let (words, word) = word_parts(text);
            &&& made_of(word, inner)
            &&& forall|i: int| 0 <= i < words.len() ==> made_of(#[trigger] words[i], inner)
        }),
    decreases text.len(),
{
    if text.len() > 0 {
        words_hold_no_white_space(text.drop_last(), set);
        assert(set(text[text.len() - 1]));
    }
}

proof fn joining_adds_spaces_only(words: Seq<Seq<char>>, set: spec_fn(char) -> bool)
    requires
        set(' '),
        forall|i: int| 0 <= i < words.len() ==> made_of(#[trigger] words[i], set),
    ensures
        made_of(joined(words, " "@), set),
    decreases words.len(),
{
    reveal_strlit(" ");
    if words.len() > 1 {
        let fewer = words.drop_last();
        assert forall|i: int| 0 <= i < fewer.len() implies made_of(#[trigger] fewer[i], set) by {
            assert(fewer[i] == words[i]);
        }
        joining_adds_spaces_only(fewer, set);
        assert(made_of(words[words.len() - 1], set));
        assert(made_of(" "@, set));
    }
}

proof fn unquoting_adds_nothing(text: Seq<char>, set: spec_fn(char) -> bool)
    requires
        made_of(text, set),
    ensures
        made_of(unquoted(text), set),
{
    let quotes = |c: char| TrimSet::Quotes.has(c);
    let stops = |c: char| TrimSet::Stops.has(c);
    trimming_adds_nothing(text, quotes, set);
    trimming_adds_nothing(trim_front(text, quotes), quotes, set);
    let bare = trimmed(trim_back(trim_front(text, quotes), quotes));
    trimmed_adds_nothing(trim_back(trim_front(text, quotes), quotes), set);
    trimming_adds_nothing(bare, stops, set);
    trimmed_adds_nothing(trim_back(bare, stops), set);
}

/// A title is one line: besides plain spaces it holds neither white space nor control codes,
/// it starts with no space, and no two spaces stand together.
pub proof fn a_title_is_one_line(raw: Seq<char>, title: Seq<char>)
    requires
        title == clipped(bare_title(raw), MAX_TITLE_CHARS as int),
    ensures
        made_of(title, |c: char| c == ' ' || (!is_space(c) && !is_control_code(c))),
        made_of(title, |c: char| !is_control_code(c)),
        title.len() > 0 ==> !is_space(title[0]),
        is_single_spaced(title),
{
    let clean = |c: char| c == ' ' || !is_control_code(c);
    let inner = |c: char| clean(c) && !is_space(c);
    let plain = |c: char| c == ' ' || (!is_space(c) && !is_control_code(c));
    let start = trimmed(scrubbed(raw));
    assert(made_of(scrubbed(raw), clean));
    trimmed_adds_nothing(scrubbed(raw), clean);
    let one = without_label(start, "Title:"@);
    let two = without_label(one, "title:"@);
    let three = without_label(two, "标题:"@);
    let four = without_label(three, "标题："@);
    let five = without_label(four, "主题:"@);
    labels_add_nothing(start, "Title:"@, clean);
    labels_add_nothing(one, "title:"@, clean);
    labels_add_nothing(two, "标题:"@, clean);
    labels_add_nothing(three, "标题："@, clean);
    labels_add_nothing(four, "主题:"@, clean);
    labels_add_nothing(five, "主题："@, clean);
    let rest = unlabelled(start);
    words_hold_no_white_space(rest, clean);
    let words = words_of(rest);
    assert forall|i: int| 0 <= i < words.len() implies made_of(#[trigger] words[i], plain) by {
        let (whole, last) = word_parts(rest);
        assert(words[i] == if i < whole.len() {
            whole[i]
        } else {
            last
        });
        assert(made_of(words[i], inner));
        assert forall|j: int| 0 <= j < words[i].len() implies plain(#[trigger] words[i][j]) by {
            assert(inner(words[i][j]));
        }
    }
    joining_adds_spaces_only(words, plain);
    unquoting_adds_nothing(collapsed(rest), plain);
    words_are_solid(rest);
    if words.len() > 0 {
        joined_words_are_single_spaced(words);
    }
    unquoting_leaves_no_gap(collapsed(rest));
}

/// No two spaces stand together.
pub open spec fn is_single_spaced(text: Seq<char>) -> bool {
    forall|i: int| 0 <= i < text.len() - 1 ==> !(#[trigger] text[i] == ' ' && text[i + 1] == ' ')
}

/// Something stands there, and no space in it.
spec fn is_solid(word: Seq<char>) -> bool {
    word.len() > 0 && made_of(word, |c: char| c != ' ')
}

proof fn words_are_solid(text: Seq<char>)
    ensures
        forall|i: int| 0 <= i < words_of(text).len() ==> is_solid(#[trigger] words_of(text)[i]),
{
    word_parts_are_solid(text);
}

proof fn word_parts_are_solid(text: Seq<char>)
    ensures
        ({
            let (words, word) = word_parts(text);
            &&& made_of(word, |c: char| c != ' ')
            &&& forall|i: int| 0 <= i < words.len() ==> is_solid(#[trigger] words[i])
        }),
    decreases text.len(),
{
    if text.len() > 0 {
        word_parts_are_solid(text.drop_last());
    }
}

proof fn joined_words_are_single_spaced(words: Seq<Seq<char>>)
    requires
        words.len() > 0,
        forall|i: int| 0 <= i < words.len() ==> is_solid(#[trigger] words[i]),
    ensures
        is_single_spaced(joined(words, " "@)),
        joined(words, " "@).len() > 0,
        joined(words, " "@).last() != ' ',
    decreases words.len(),
{
    reveal_strlit(" ");
    let all = joined(words, " "@);
    let set = |c: char| c != ' ';
    let last = words[words.len() - 1];
    assert(is_solid(last));
    assert(set(last[last.len() - 1]));
    assert(set(last[0]));
    if words.len() == 1 {
        assert forall|i: int| 0 <= i < all.len() - 1 implies !(#[trigger] all[i] == ' ' && all[i
            + 1] == ' ') by {
            assert(set(last[i]));
        }
    } else {
        let front = joined(words.drop_last(), " "@);
        assert forall|i: int| 0 <= i < words.drop_last().len() implies is_solid(
            #[trigger] words.drop_last()[i],
        ) by {
            assert(words.drop_last()[i] == words[i]);
        }
        joined_words_are_single_spaced(words.drop_last());
        let n = front.len() as int;
        assert(all =~= front + seq![' '] + last);
        assert forall|i: int| 0 <= i < all.len() - 1 implies !(#[trigger] all[i] == ' ' && all[i
            + 1] == ' ') by {
            if i < n - 1 {
                assert(all[i] == front[i] && all[i + 1] == front[i + 1]);
            } else if i == n - 1 {
                assert(all[i] == front.last());
            } else {
                assert(all[i + 1] == last[i - n]);
                assert(set(last[i - n]));
            }
        }
    }
}

proof fn trimming_leaves_no_gap(text: Seq<char>, cut: spec_fn(char) -> bool)
    requires
        is_single_spaced(text),
    ensures
        is_single_spaced(trim_front(text, cut)),
        is_single_spaced(trim_back(text, cut)),
        trim_front(text, cut).len() > 0 ==> !cut(trim_front(text, cut)[0]),
        trim_back(text, cut).len() > 0 ==> trim_back(text, cut)[0] == text[0],
    decreases text.len(),
{
    if text.len() > 0 {
        let rest = text.drop_first();
        assert forall|i: int| 0 <= i < rest.len() - 1 implies !(#[trigger] rest[i] == ' '
            && rest[i + 1] == ' ') by {
            assert(rest[i] == text[i + 1]);
        }
        trimming_leaves_no_gap(rest, cut);
        trimming_leaves_no_gap(text.drop_last(), cut);
    }
}

proof fn trimmed_leaves_no_gap(text: Seq<char>)
    requires
        is_single_spaced(text),
    ensures
        is_single_spaced(trimmed(text)),
        trimmed(text).len() > 0 ==> !is_space(trimmed(text)[0]),
{
    trimming_leaves_no_gap(text, |c: char| is_space(c));
    trimming_leaves_no_gap(trim_front(text, |c: char| is_space(c)), |c: char| is_space(c));
}

proof fn unquoting_leaves_no_gap(text: Seq<char>)
    requires
        is_single_spaced(text),
    ensures
        is_single_spaced(unquoted(text)),
        unquoted(text).len() > 0 ==> !is_space(unquoted(text)[0]),
{
    let quotes = |c: char| TrimSet::Quotes.has(c);
    let stops = |c: char| TrimSet::Stops.has(c);
    trimming_leaves_no_gap(text, quotes);
    trimming_leaves_no_gap(trim_front(text, quotes), quotes);
    let inner = trim_back(trim_front(text, quotes), quotes);
    trimmed_leaves_no_gap(inner);
    trimming_leaves_no_gap(trimmed(inner), stops);
    trimmed_leaves_no_gap(trim_back(trimmed(inner), stops));
}

/// A title is never empty and has at most forty characters.
pub proof fn title_length(raw: Seq<char>, title: Seq<char>)
    requires
        bare_title(raw).len() > 0,
        title == clipped(bare_title(raw), MAX_TITLE_CHARS as int),
    ensures
        0 < title.len() <= MAX_TITLE_CHARS,
{
}

} // verus!
