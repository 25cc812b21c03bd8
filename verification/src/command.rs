//! What a chat message asks for: its words, and the inquiry that they make.

use vstd::prelude::*;
use vstd::string::{StrSliceExecFns, StringExecFns};
use crate::text::chars_of;

verus! {

/// The characters that separate words: those with the Unicode property
/// `White_Space`.
pub open spec fn is_space(c: char) -> bool {
    let u = c as u32;
    ||| 0x09 <= u <= 0x0D
    ||| u == 0x20
    ||| u == 0x85
    ||| u == 0xA0
    ||| u == 0x1680
    ||| 0x2000 <= u <= 0x200A
    ||| u == 0x2028
    ||| u == 0x2029
    ||| u == 0x202F
    ||| u == 0x205F
    ||| u == 0x3000
}

/// The length of the run of characters that are no spaces with which a
/// text begins.
pub open spec fn run(text: Seq<char>) -> nat
    decreases text.len(),
{
    if text.len() == 0 || is_space(text[0]) {
        0
    } else {
        1 + run(text.drop_first())
    }
}

/// The words of a text: its longest runs of characters that are no
/// spaces, in order.
pub open spec fn words(text: Seq<char>) -> Seq<Seq<char>>
    decreases text.len(),
{
    if text.len() == 0 {
        Seq::empty()
    } else if is_space(text[0]) {
        words(text.drop_first())
    } else {
        proof {
            run_fits(text);
        }
        seq![text.take(run(text) as int)] + words(text.skip(run(text) as int))
    }
}

/// A run is no longer than its text, and is not empty where the text
/// begins with a character that is no space.
pub proof fn run_fits(text: Seq<char>)
    ensures
        run(text) <= text.len(),
        text.len() > 0 && !is_space(text[0]) ==> run(text) >= 1,
    decreases text.len(),
{
    if text.len() > 0 && !is_space(text[0]) {
        run_fits(text.drop_first());
    }
}

/// Whether a character separates words.
pub fn separates(c: char) -> (space: bool)
    ensures
        space == is_space(c),
{
    let u = c as u32;
    (0x09 <= u && u <= 0x0D) || u == 0x20 || u == 0x85 || u == 0xA0 || u == 0x1680 || (0x2000 <= u
        && u <= 0x200A) || u == 0x2028 || u == 0x2029 || u == 0x202F || u == 0x205F || u == 0x3000
}

/// The views of a run of texts, in order.
pub open spec fn texts(list: Seq<String>) -> Seq<Seq<char>> {
    Seq::new(list.len(), |i: int| list[i]@)
}

/// The run that begins at `from` reaches as far as the characters that
/// are no spaces reach.
proof fn run_reaches(text: Seq<char>, from: int, to: int)
    requires
        0 <= from <= to <= text.len(),
        forall|k: int| from <= k < to ==> !is_space(text[k]),
        to == text.len() || is_space(text[to]),
    ensures
        run(text.skip(from)) == to - from,
    decreases to - from,
{
    let rest = text.skip(from);
    if from == to {
        if to < text.len() {
            assert(rest[0] == text[to]);
        }
    } else {
        assert(rest[0] == text[from]);
        assert(rest.drop_first() =~= text.skip(from + 1));
        run_reaches(text, from + 1, to);
    }
}

/// Splits a text into its words.
pub fn split_words(text: &str) -> (list: Vec<String>)
    ensures
        texts(list@) == words(text@),
{
    let chars = chars_of(text);
    let n = chars.len();
    let mut list: Vec<String> = Vec::new();
    let mut i: usize = 0;
    assert(text@.skip(0) =~= text@);
    while i < n
        invariant
            chars@ == text@,
            n == chars.len(),
            i <= n,
            texts(list@) + words(text@.skip(i as int)) == words(text@),
        decreases n - i,
    {
        let ghost rest = text@.skip(i as int);
        assert(rest[0] == text@[i as int]);
        if separates(chars[i]) {
            assert(rest.drop_first() =~= text@.skip(i + 1));
            i += 1;
        } else {
            let mut j: usize = i + 1;
            while j < n && !separates(chars[j])
                invariant
                    chars@ == text@,
                    n == chars.len(),
                    i < j <= n,
                    forall|k: int| i <= k < j ==> !is_space(text@[k]),
                decreases n - j,
            {
                j += 1;
            }
            proof {
                run_reaches(text@, i as int, j as int);
                assert(rest.take(j - i) =~= text@.subrange(i as int, j as int));
                assert(rest.skip(j - i) =~= text@.skip(j as int));
            }
            let word = String::from_str(text.substring_char(i, j));
            let ghost before = texts(list@);
            list.push(word);
            assert(texts(list@) =~= before + seq![text@.subrange(i as int, j as int)]);
            assert(texts(list@) + words(text@.skip(j as int)) =~= before + (seq![
                text@.subrange(i as int, j as int),
            ] + words(text@.skip(j as int))));
            i = j;
        }
    }
    assert(text@.skip(n as int).len() == 0);
    assert(texts(list@) + Seq::<Seq<char>>::empty() =~= texts(list@));
    list
}

/// What a chat message asks of the service.
#[derive(Debug, PartialEq, Eq)]
pub enum Inquiry {
    /// Nothing: the message comes from a bot, holds no word, or begins
    /// with another word than `!mint_status`.
    Ignored,
    /// The status of the token that the second and last word names.
    MintStatus(String),
    /// The status of a token, but not with exactly one word after the
    /// command to name it.
    WrongParameters,
}

pub enum InquiryView {
    Ignored,
    MintStatus(Seq<char>),
    WrongParameters,
}

impl View for Inquiry {
    type V = InquiryView;

    open spec fn view(&self) -> InquiryView {
        match self {
            Inquiry::Ignored => InquiryView::Ignored,
            Inquiry::MintStatus(token) => InquiryView::MintStatus(token@),
            Inquiry::WrongParameters => InquiryView::WrongParameters,
        }
    }
}

/// The inquiry that a message of these words makes, with the token as it
/// was written.
pub open spec fn inquiry_of(from_bot: bool, list: Seq<Seq<char>>) -> InquiryView {
    if from_bot || list.len() == 0 || list[0] != "!mint_status"@ {
        InquiryView::Ignored
    } else if list.len() == 2 {
        InquiryView::MintStatus(list[1])
    } else {
        InquiryView::WrongParameters
    }
}

/// Reads the words of a message as an inquiry. The token is returned as
/// the message has it.
pub fn read_words(from_bot: bool, list: &Vec<String>) -> (inquiry: Inquiry)
    ensures
        inquiry@ == inquiry_of(from_bot, texts(list@)),
{
    if from_bot || list.len() == 0 {
        return Inquiry::Ignored;
    }
    let command = String::from_str("!mint_status");
    if list[0] != command {
        Inquiry::Ignored
    } else if list.len() == 2 {
        Inquiry::MintStatus(list[1].clone())
    } else {
        Inquiry::WrongParameters
    }
}

/// A text in upper case, as `str::to_uppercase` of the standard library
/// gives it.
pub uninterp spec fn uppercased(text: Seq<char>) -> Seq<char>;

/// `str::to_uppercase`: the text with each character replaced by its upper
/// case, which may be more than one character. The result is a function
/// of the text alone; what it is on a given text is not stated here.
#[verifier::external_body]
fn upper(text: &str) -> (raised: String)
    ensures
        raised@ == uppercased(text@),
{
    text.to_uppercase()
}

/// The inquiry with its token in upper case, the form in which tokens are
/// keys of the cache.
pub open spec fn keyed(inquiry: InquiryView) -> InquiryView {
    match inquiry {
        InquiryView::MintStatus(token) => InquiryView::MintStatus(uppercased(token)),
        other => other,
    }
}

/// Reads a chat message as an inquiry: splits it into words, reads them,
/// and puts the token in upper case.
pub fn parse_inquiry(from_bot: bool, content: &str) -> (inquiry: Inquiry)
    ensures
        inquiry@ == keyed(inquiry_of(from_bot, words(content@))),
{
    let list = split_words(content);
    match read_words(from_bot, &list) {
        Inquiry::MintStatus(token) => Inquiry::MintStatus(upper(token.as_str())),
        other => other,
    }
}

} // verus!
