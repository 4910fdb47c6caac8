//! What the bot shows: keyboards, rankings and links to messages.
//!
//! A keyboard is rows of buttons; a button shows a text and carries what is
//! to happen when it is pressed. How a button is packed for the channel is
//! left to the driver.

use crate::message::{html_link, link_markup};
use crate::schedule::{date_text_of, Date};
use crate::text::{chars_of, decimal, decimal_of, string_of, text_view};
use crate::trans::{EhTagTransDB, TransView};
use teloxide::types::{ChatId, Message, MessageId};
use vstd::prelude::*;
use vstd::string::StringExecFns;

verus! {

/// The least chat id that the channel knows.
pub const MIN_CHAT_ID: i64 = -1997852516352;

/// The greatest chat id that the channel knows.
pub const MAX_CHAT_ID: i64 = 1099511627775;

/// The chat id that channel ids are counted down from.
pub const CHANNEL_BASE: i64 = -1000000000000;

/// Where messages go.
#[derive(Debug)]
pub enum Recipient {
    /// A chat, by its id.
    Id(i64),
    /// A public channel, by its name with an `@` in front.
    ChannelUsername(String),
}

pub enum RecipientView {
    Id(i64),
    ChannelUsername(Seq<char>),
}

impl View for Recipient {
    type V = RecipientView;

    open spec fn view(&self) -> RecipientView {
        match self {
            Recipient::Id(id) => RecipientView::Id(*id),
            Recipient::ChannelUsername(name) => RecipientView::ChannelUsername(name@),
        }
    }
}

/// What a press of a button asks for.
#[derive(Debug)]
pub enum CallbackData {
    /// A vote for an option of a poll.
    VoteForPoll(i32, i32),
    /// An answer to a challenge.
    Challenge(i64, String),
    /// The next page of a ranking.
    NextPage(i32, i32, i32),
    /// The previous page of a ranking.
    PrevPage(i32, i32, i32),
}

pub enum CallbackView {
    VoteForPoll(i32, i32),
    Challenge(i64, Seq<char>),
    NextPage(i32, i32, i32),
    PrevPage(i32, i32, i32),
}

impl View for CallbackData {
    type V = CallbackView;

    open spec fn view(&self) -> CallbackView {
        match self {
            CallbackData::VoteForPoll(poll, option) => CallbackView::VoteForPoll(*poll, *option),
            CallbackData::Challenge(id, artist) => CallbackView::Challenge(*id, artist@),
            CallbackData::NextPage(from, to, offset) => CallbackView::NextPage(*from, *to, *offset),
            CallbackData::PrevPage(from, to, offset) => CallbackView::PrevPage(*from, *to, *offset),
        }
    }
}

/// How a press of a button is written for the channel: a word for what is
/// asked for, then its numbers and its name, with a space between each two.
pub open spec fn packed(data: CallbackView) -> Seq<char> {
    match data {
        CallbackView::VoteForPoll(poll, option) => "vote "@ + decimal(poll as int) + " "@ + decimal(
            option as int,
        ),
        CallbackView::Challenge(id, artist) => "challenge "@ + decimal(id as int) + " "@ + artist,
        CallbackView::NextPage(from, to, offset) => "> "@ + decimal(from as int) + " "@ + decimal(
            to as int,
        ) + " "@ + decimal(offset as int),
        CallbackView::PrevPage(from, to, offset) => "< "@ + decimal(from as int) + " "@ + decimal(
            to as int,
        ) + " "@ + decimal(offset as int),
    }
}

fn number(n: i64) -> (text: String)
    ensures
        text@ == decimal(n as int),
{
    string_of(&decimal_of(n))
}

impl CallbackData {
    /// How the press is written for the channel.
    pub fn pack(&self) -> (text: String)
        ensures
            text@ == packed(self@),
    {
        let mut text = String::new();
        match self {
            CallbackData::VoteForPoll(poll, option) => {
                text.append("vote ");
                text.append(number(*poll as i64).as_str());
                text.append(" ");
                text.append(number(*option as i64).as_str());
            },
            CallbackData::Challenge(id, artist) => {
                text.append("challenge ");
                text.append(number(*id).as_str());
                text.append(" ");
                text.append(artist.as_str());
            },
            CallbackData::NextPage(from, to, offset) => {
                text.append("> ");
                text.append(number(*from as i64).as_str());
                text.append(" ");
                text.append(number(*to as i64).as_str());
                text.append(" ");
                text.append(number(*offset as i64).as_str());
            },
            CallbackData::PrevPage(from, to, offset) => {
                text.append("< ");
                text.append(number(*from as i64).as_str());
                text.append(" ");
                text.append(number(*to as i64).as_str());
                text.append(" ");
                text.append(number(*offset as i64).as_str());
            },
        }
        text
    }
}

#[derive(Debug)]
pub struct Button {
    pub text: String,
    pub data: CallbackData,
}

impl View for Button {
    type V = (Seq<char>, CallbackView);

    open spec fn view(&self) -> (Seq<char>, CallbackView) {
        (self.text@, self.data@)
    }
}

pub open spec fn row_view(row: Seq<Button>) -> Seq<(Seq<char>, CallbackView)> {
    row.map_values(|b: Button| b@)
}

pub open spec fn keyboard_view(rows: Seq<Vec<Button>>) -> Seq<Seq<(Seq<char>, CallbackView)>> {
    rows.map_values(|r: Vec<Button>| row_view(r@))
}

/// The address of message `message_id` in the chat `chat_id`, or in the
/// public chat named `username` where a name is given, as `teloxide` makes
/// it; `None` for a chat whose messages have no address.
pub uninterp spec fn message_url_of(chat_id: i64, username: Option<Seq<char>>, message_id: i32) -> Option<
    Seq<char>,
>;

pub open spec fn name_view(name: Option<&str>) -> Option<Seq<char>> {
    match name {
        Some(n) => Some(n@),
        None => None,
    }
}

/// The address of a message of a chat without a public name: channels and
/// supergroups, whose ids lie at or below [`CHANNEL_BASE`], have one, made
/// of the distance of the id from the base and the id of the message.
pub open spec fn private_link(chat_id: i64, message_id: i32) -> Option<Seq<char>> {
    if MIN_CHAT_ID <= chat_id <= CHANNEL_BASE {
        Some("https://t.me/c/"@ + decimal(CHANNEL_BASE - chat_id) + "/"@ + decimal(message_id as int))
    } else {
        None
    }
}

/// `teloxide::types::Message::url_of`: the address of a message. The
/// source gives none for the chats of users and of plain groups; for the
/// others it writes `https://t.me/` and the name of the chat, or `c/` and
/// the distance of its id from the channel base where no name is given,
/// then a slash and the id of the message, and hands the text through a
/// URL parser. It panics on chat ids outside the range that is required here.
#[verifier::external_body]
fn message_url(chat_id: i64, username: Option<&str>, message_id: i32) -> (url: Option<String>)
    requires
        MIN_CHAT_ID <= chat_id <= MAX_CHAT_ID,
    ensures
        text_view(url) == message_url_of(chat_id, name_view(username), message_id),
        username is None ==> text_view(url) == private_link(chat_id, message_id),
{
    match Message::url_of(ChatId(chat_id), username, MessageId(message_id)) {
        Some(url) => Some(url.to_string()),
        None => None,
    }
}

/// Whether the name of a channel can be cut behind its first character:
/// it has one, and that one is a single byte.
pub open spec fn has_marker(name: Seq<char>) -> bool {
    name.len() > 0 && (name[0] as u32) < 128
}

/// The address of message `id` at the recipient.
pub open spec fn link_of(channel: RecipientView, id: i32) -> Option<Seq<char>> {
    match channel {
        RecipientView::Id(chat_id) => if MIN_CHAT_ID <= chat_id <= MAX_CHAT_ID {
            message_url_of(chat_id, None, id)
        } else {
            None
        },
        RecipientView::ChannelUsername(name) => if has_marker(name) {
            message_url_of(CHANNEL_BASE, Some(name.drop_first()), id)
        } else {
            None
        },
    }
}

/// The address of message `id` at the recipient: for a chat given by id,
/// the address of the message in that chat; for a channel given by name,
/// the address under the name without its first character, the `@`.
/// `None` where the message has no address, the chat id is none that the
/// channel knows, or the name is too short to cut.
pub fn url_of(channel: &Recipient, id: i32) -> (url: Option<String>)
    ensures
        text_view(url) == link_of(channel@, id),
        channel@ matches RecipientView::Id(chat_id) ==> text_view(url) == private_link(chat_id, id),
{
    match channel {
        Recipient::Id(chat_id) => {
            if MIN_CHAT_ID <= *chat_id && *chat_id <= MAX_CHAT_ID {
                message_url(*chat_id, None, id)
            } else {
                None
            }
        },
        Recipient::ChannelUsername(username) => {
            let chars: Vec<char> = chars_of(username.as_str());
            if chars.len() > 0 && (chars[0] as u32) < 128 {
                let mut rest: Vec<char> = Vec::new();
                let mut i: usize = 1;
                while i < chars.len()
                    invariant
                        1 <= i <= chars@.len(),
                        rest@ == chars@.subrange(1, i as int),
                    decreases chars@.len() - i,
                {
                    rest.push(chars[i]);
                    proof {
                        assert(rest@ =~= chars@.subrange(1, i + 1));
                    }
                    i += 1;
                }
                proof {
                    assert(chars@.subrange(1, chars@.len() as int) =~= chars@.drop_first());
                }
                let name: String = string_of(&rest);
                message_url(CHANNEL_BASE, Some(name.as_str()), id)
            } else {
                None
            }
        },
    }
}

/// The keyboard that turns the pages of a ranking: one row with a button
/// back and a button on.
pub fn cmd_best_keyboard(from: i32, to: i32, offset: i32) -> (rows: Vec<Vec<Button>>)
    ensures
        keyboard_view(rows@) == seq![
            seq![
                ("<"@, CallbackView::PrevPage(from, to, offset)),
                (">"@, CallbackView::NextPage(from, to, offset)),
            ],
        ],
{
    let mut row: Vec<Button> = Vec::new();
    row.push(Button { text: "<".to_owned(), data: CallbackData::PrevPage(from, to, offset) });
    row.push(Button { text: ">".to_owned(), data: CallbackData::NextPage(from, to, offset) });
    proof {
        assert(row_view(row@) =~= seq![
            ("<"@, CallbackView::PrevPage(from, to, offset)),
            (">"@, CallbackView::NextPage(from, to, offset)),
        ]);
    }
    let mut rows: Vec<Vec<Button>> = Vec::new();
    rows.push(row);
    proof {
        assert(keyboard_view(rows@) =~= seq![
            seq![
                ("<"@, CallbackView::PrevPage(from, to, offset)),
                (">"@, CallbackView::NextPage(from, to, offset)),
            ],
        ]);
    }
    rows
}

/// What the button for an artist shows: the translated name, and the name
/// as the catalog writes it in brackets.
pub open spec fn artist_label(trans: TransView, artist: Seq<char>) -> Seq<char> {
    trans.tag_name("artist"@, artist) + "\u{ff08}"@ + artist + "\u{ff09}"@
}

/// The rows of a challenge keyboard: one button per artist.
pub open spec fn challenge_rows(trans: TransView, id: i64, artists: Seq<Seq<char>>) -> Seq<
    Seq<(Seq<char>, CallbackView)>,
> {
    Seq::new(
        artists.len(),
        |i: int| seq![(artist_label(trans, artists[i]), CallbackView::Challenge(id, artists[i]))],
    )
}

/// The keyboard of challenge `id`: for each artist to choose from, a row
/// with one button that answers with that artist.
pub fn cmd_challenge_keyboard(id: i64, challenge: &Vec<String>, trans: &EhTagTransDB) -> (rows: Vec<
    Vec<Button>,
>)
    requires
        trans.wf(),
    ensures
        keyboard_view(rows@) == challenge_rows(trans@, id, challenge.deep_view()),
{
    let mut rows: Vec<Vec<Button>> = Vec::new();
    let mut i: usize = 0;
    while i < challenge.len()
        invariant
            i <= challenge@.len(),
            trans.wf(),
            keyboard_view(rows@) == challenge_rows(trans@, id, challenge.deep_view().take(i as int)),
        decreases challenge@.len() - i,
    {
        let artist: &String = &challenge[i];
        let mut text: String = trans.trans_raw("artist", artist.as_str());
        text.append("\u{ff08}");
        text.append(artist.as_str());
        text.append("\u{ff09}");
        let mut row: Vec<Button> = Vec::new();
        row.push(Button { text, data: CallbackData::Challenge(id, artist.clone()) });
        let ghost before = keyboard_view(rows@);
        rows.push(row);
        proof {
            let all = challenge.deep_view();
            assert(row_view(row@) =~= seq![
                (artist_label(trans@, artist@), CallbackView::Challenge(id, artist@)),
            ]);
            assert(keyboard_view(rows@) =~= before.push(row_view(row@)));
            assert(all.take(i + 1)[i as int] == artist@);
            assert(keyboard_view(rows@) =~= challenge_rows(trans@, id, all.take(i + 1)));
        }
        i += 1;
    }
    proof {
        assert(challenge.deep_view().take(challenge@.len() as int) =~= challenge.deep_view());
    }
    rows
}

/// The names of the options of a poll, from the worst to the best.
pub open spec fn poll_option(i: int) -> Seq<char> {
    if i == 0 {
        "\u{6211}\u{778e}\u{4e86}"@
    } else if i == 1 {
        "\u{4e0d}\u{548b}\u{6837}"@
    } else if i == 2 {
        "\u{8fd8}\u{884c}\u{5427}"@
    } else if i == 3 {
        "\u{4e0d}\u{9519}\u{54e6}"@
    } else {
        "\u{592a}\u{68d2}\u{4e86}"@
    }
}

/// The rows of the keyboard of a poll: one for each of the five options
/// that has a share, with a button that shows the share in per cent and
/// the name of the option, and that votes for the option, counted from 1.
pub open spec fn poll_rows(poll_id: i32, shares: Seq<Seq<char>>) -> Seq<
    Seq<(Seq<char>, CallbackView)>,
> {
    Seq::new(
        if shares.len() < 5 {
            shares.len()
        } else {
            5
        },
        |i: int|
            seq![
                (
                    shares[i] + "% "@ + poll_option(i),
                    CallbackView::VoteForPoll(poll_id, (i + 1) as i32),
                ),
            ],
    )
}

/// The keyboard of poll `poll_id`, given the share of the votes that each
/// option has, written out in per cent.
pub fn poll_keyboard(poll_id: i32, shares: &Vec<String>) -> (rows: Vec<Vec<Button>>)
    ensures
        keyboard_view(rows@) == poll_rows(poll_id, shares.deep_view()),
{
    let count: usize = if shares.len() < 5 {
        shares.len()
    } else {
        5
    };
    let mut rows: Vec<Vec<Button>> = Vec::new();
    let mut i: usize = 0;
    while i < count
        invariant
            i <= count <= 5,
            count <= shares@.len(),
            keyboard_view(rows@) == poll_rows(poll_id, shares.deep_view()).take(i as int),
        decreases count - i,
    {
        let name: &str = if i == 0 {
            "\u{6211}\u{778e}\u{4e86}"
        } else if i == 1 {
            "\u{4e0d}\u{548b}\u{6837}"
        } else if i == 2 {
            "\u{8fd8}\u{884c}\u{5427}"
        } else if i == 3 {
            "\u{4e0d}\u{9519}\u{54e6}"
        } else {
            "\u{592a}\u{68d2}\u{4e86}"
        };
        let mut text: String = shares[i].clone();
        text.append("% ");
        text.append(name);
        let option: i32 = if i == 0 {
            1
        } else if i == 1 {
            2
        } else if i == 2 {
            3
        } else if i == 3 {
            4
        } else {
            5
        };
        let mut row: Vec<Button> = Vec::new();
        row.push(Button { text, data: CallbackData::VoteForPoll(poll_id, option) });
        let ghost before = keyboard_view(rows@);
        rows.push(row);
        proof {
            let all = poll_rows(poll_id, shares.deep_view());
            assert(row_view(row@) =~= all[i as int]);
            assert(keyboard_view(rows@) =~= before.push(row_view(row@)));
            assert(all.take(i + 1) =~= all.take(i as int).push(all[i as int]));
        }
        i += 1;
    }
    proof {
        let all = poll_rows(poll_id, shares.deep_view());
        assert(all.take(count as int) =~= all);
    }
    rows
}

/// One gallery of a ranking.
#[derive(Debug)]
pub struct BestRow {
    /// The score of the gallery, written out.
    pub score: String,
    pub title: String,
    /// The message that announces the gallery.
    pub message_id: i32,
}

pub struct BestRowView {
    pub score: Seq<char>,
    pub title: Seq<char>,
    pub message_id: i32,
}

impl View for BestRow {
    type V = BestRowView;

    open spec fn view(&self) -> BestRowView {
        BestRowView { score: self.score@, title: self.title@, message_id: self.message_id }
    }
}

pub open spec fn best_views(rows: Seq<BestRow>) -> Seq<BestRowView> {
    rows.map_values(|r: BestRow| r@)
}

/// The head of a ranking: the days it covers and where in it the page begins.
pub open spec fn best_head(start: Seq<char>, end: Seq<char>, offset: i32) -> Seq<char> {
    "\u{6700}\u{8fd1} "@ + start + " ~ "@ + end
        + " \u{5929}\u{7684}\u{672c}\u{5b50}\u{6392}\u{540d}\u{ff08}"@ + decimal(offset as int)
        + "\u{ff09}\n"@
}

/// The line of a ranking for one gallery: its score and a link to its message.
pub open spec fn best_line(row: BestRowView, url: Seq<char>) -> Seq<char> {
    "<code>"@ + row.score + "</code> - "@ + link_markup(url, row.title)
}

/// The lines of a ranking, with a line break between each two; `None`
/// where the message of a gallery has no address.
pub open spec fn best_lines(channel: RecipientView, rows: Seq<BestRowView>) -> Option<Seq<char>>
    decreases rows.len(),
{
    if rows.len() == 0 {
        Some(Seq::empty())
    } else {
        match (best_lines(channel, rows.drop_last()), link_of(channel, rows.last().message_id)) {
            (Some(before), Some(url)) => if rows.len() == 1 {
                Some(best_line(rows.last(), url))
            } else {
                Some(before + "\n"@ + best_line(rows.last(), url))
            },
            _ => None,
        }
    }
}

/// The text of a ranking, where each part of it can be written.
pub open spec fn best_text(
    start: Option<Seq<char>>,
    end: Option<Seq<char>>,
    offset: i32,
    lines: Option<Seq<char>>,
) -> Option<Seq<char>> {
    match (start, end, lines) {
        (Some(s), Some(e), Some(l)) => Some(best_head(s, e, offset) + l),
        _ => None,
    }
}

/// The text of the ranking of the galleries announced from `start` to
/// `end`, beginning at place `offset`: a head, then a line for each
/// gallery with its score and a link to its message in `channel`. `None`
/// where the message of a gallery has no address.
pub fn cmd_best_text(start: &Date, end: &Date, offset: i32, channel: &Recipient, rows: &Vec<BestRow>) -> (text:
    Option<String>)
    ensures
        text_view(text) == best_text(
            date_text_of(start.year(), start.month(), start.day()),
            date_text_of(end.year(), end.month(), end.day()),
            offset,
            best_lines(channel@, best_views(rows@)),
        ),
{
    let mut lines = String::new();
    let mut i: usize = 0;
    while i < rows.len()
        invariant
            i <= rows@.len(),
            Some(lines@) == best_lines(channel@, best_views(rows@).take(i as int)),
        decreases rows@.len() - i,
    {
        let row: &BestRow = &rows[i];
        proof {
            let all = best_views(rows@);
            assert(all.take(i + 1).drop_last() =~= all.take(i as int));
            assert(all.take(i + 1).last() == row@);
        }
        match url_of(channel, row.message_id) {
            Some(url) => {
                let ghost before = lines@;
                if i > 0 {
                    lines.append("\n");
                }
                lines.append("<code>");
                lines.append(row.score.as_str());
                lines.append("</code> - ");
                lines.append(html_link(url.as_str(), row.title.as_str()).as_str());
                proof {
                    if i == 0 {
                        assert(before =~= Seq::<char>::empty());
                        assert(lines@ =~= best_line(row@, url@));
                    } else {
                        assert(lines@ =~= before + "\n"@ + best_line(row@, url@));
                    }
                }
            },
            None => {
                proof {
                    lemma_best_lines_none(channel@, best_views(rows@), i as int);
                }
                return None;
            },
        }
        i += 1;
    }
    proof {
        assert(best_views(rows@).take(rows@.len() as int) =~= best_views(rows@));
    }
    let start_text: String = match start.text() {
        Some(t) => t,
        None => {
            return None;
        },
    };
    let end_text: String = match end.text() {
        Some(t) => t,
        None => {
            return None;
        },
    };
    let mut text = String::new();
    text.append("\u{6700}\u{8fd1} ");
    text.append(start_text.as_str());
    text.append(" ~ ");
    text.append(end_text.as_str());
    text.append(" \u{5929}\u{7684}\u{672c}\u{5b50}\u{6392}\u{540d}\u{ff08}");
    text.append(number(offset as i64).as_str());
    text.append("\u{ff09}\n");
    text.append(lines.as_str());
    Some(text)
}

proof fn lemma_best_lines_none(channel: RecipientView, rows: Seq<BestRowView>, i: int)
    requires
        0 <= i < rows.len(),
        link_of(channel, rows[i].message_id) is None,
    ensures
        best_lines(channel, rows) is None,
    decreases rows.len(),
{
    if i < rows.len() - 1 {
        lemma_best_lines_none(channel, rows.drop_last(), i);
    }
}

} // verus!
