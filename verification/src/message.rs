//! The report of a run: the message that tells the state of the account, and the
//! request that delivers it to the chat.

use crate::text::contains;
use crate::text::occurs_at;
use crate::text::opt_view;
use vstd::prelude::*;
use vstd::string::StringExecFns;

verus! {

/// What stands for a user name that could not be read.
pub const UNKNOWN_USER: &'static str = "未知用户";

/// What stands for any other field that could not be read.
pub const UNKNOWN: &'static str = "未知";

/// The status of a run that claimed nothing: the reward was claimed before, or
/// the claim did not succeed.
pub const ALREADY_DONE: &'static str = "已完成/无需签到";

/// The status of a run that claimed the reward.
pub const CLAIMED: &'static str = "🎉 签到成功";

/// The heading of the message, up to the user name.
pub const HEADING: &'static str = "📝 V2EX签到信息 📝\n👤 用户名：";

/// What stands between the user name and the status.
pub const STATUS_LABEL: &'static str = "\n📅 签到状态：";

/// What stands between the status and the daily reward.
pub const REWARD_LABEL: &'static str = "\n💰 每日奖励：";

/// What stands between the daily reward and the balance.
pub const BALANCE_LABEL: &'static str = "\n🏦 账户总额：";

/// What stands between the balance and the count of days.
pub const DAYS_LABEL: &'static str = "\n🗓️ ";

/// The address of the gateway, up to the token of the bot.
pub const GATEWAY: &'static str = "https://api.telegram.org/bot";

/// The rest of the address, after the token.
pub const SEND_MESSAGE: &'static str = "/sendMessage";

/// What the message tells of a run. A field that could not be read is `None`.
pub struct Report {
    pub username: Option<Seq<char>>,
    pub claimed: bool,
    pub reward: Option<Seq<char>>,
    pub balance: Option<Seq<char>>,
    pub days: Option<Seq<char>>,
}

/// `field` where it was read, `placeholder` where it was not.
pub open spec fn shown(field: Option<Seq<char>>, placeholder: Seq<char>) -> Seq<char> {
    match field {
        Some(text) => text,
        None => placeholder,
    }
}

/// The status that the message tells.
pub open spec fn status_text(claimed: bool) -> Seq<char> {
    if claimed {
        CLAIMED@
    } else {
        ALREADY_DONE@
    }
}

/// The message: the heading and the five fields, each behind its label.
pub open spec fn message_text(report: Report) -> Seq<char> {
    HEADING@ + shown(report.username, UNKNOWN_USER@) + STATUS_LABEL@ + status_text(report.claimed)
        + REWARD_LABEL@ + shown(report.reward, UNKNOWN@) + BALANCE_LABEL@ + shown(
        report.balance,
        UNKNOWN@,
    ) + DAYS_LABEL@ + shown(report.days, UNKNOWN@)
}

/// The address to which a message is posted for the bot with `token`.
pub open spec fn send_message_url(token: Seq<char>) -> Seq<char> {
    GATEWAY@ + token + SEND_MESSAGE@
}

/// A message on its way to a chat: where to post it, and the three members of
/// the JSON object that is posted.
#[derive(Debug, PartialEq, Eq)]
pub struct Notification {
    pub url: String,
    pub chat_id: String,
    pub text: String,
    pub disable_web_page_preview: bool,
}

/// The mathematical value of a `Notification`.
pub struct Posting {
    pub url: Seq<char>,
    pub chat_id: Seq<char>,
    pub text: Seq<char>,
    pub disable_web_page_preview: bool,
}

impl View for Notification {
    type V = Posting;

    open spec fn view(&self) -> Posting {
        Posting {
            url: self.url@,
            chat_id: self.chat_id@,
            text: self.text@,
            disable_web_page_preview: self.disable_web_page_preview,
        }
    }
}

/// The posting that delivers `text` to the chat `chat_id` through the bot with
/// `token`. It asks for no preview of the links in the text.
pub open spec fn posting(token: Seq<char>, chat_id: Seq<char>, text: Seq<char>) -> Posting {
    Posting { url: send_message_url(token), chat_id, text, disable_web_page_preview: true }
}

/// `field` where it was read, `placeholder` where it was not.
fn show<'a>(field: Option<&'a str>, placeholder: &'a str) -> (text: &'a str)
    ensures
        text@ == shown(opt_view(field), placeholder@),
{
    match field {
        Some(text) => text,
        None => placeholder,
    }
}

/// The message that reports a run.
pub fn compose_message(
    username: Option<&str>,
    claimed: bool,
    reward: Option<&str>,
    balance: Option<&str>,
    days: Option<&str>,
) -> (message: String)
    ensures
        message@ == message_text(
            Report {
                username: opt_view(username),
                claimed,
                reward: opt_view(reward),
                balance: opt_view(balance),
                days: opt_view(days),
            },
        ),
{
    let mut message = String::from_str(HEADING);
    message.append(show(username, UNKNOWN_USER));
    message.append(STATUS_LABEL);
    message.append(if claimed { CLAIMED } else { ALREADY_DONE });
    message.append(REWARD_LABEL);
    message.append(show(reward, UNKNOWN));
    message.append(BALANCE_LABEL);
    message.append(show(balance, UNKNOWN));
    message.append(DAYS_LABEL);
    message.append(show(days, UNKNOWN));
    message
}

/// The notification that delivers `text` to the chat `chat_id` through the bot
/// with `token`.
pub fn notification(token: &str, chat_id: &str, text: String) -> (n: Notification)
    ensures
        n@ == posting(token@, chat_id@, text@),
{
    let mut url = String::from_str(GATEWAY);
    url.append(token);
    url.append(SEND_MESSAGE);
    Notification { url, chat_id: String::from_str(chat_id), text, disable_web_page_preview: true }
}

/// A text that ends with `part` holds it.
pub proof fn lemma_holds_its_end(before: Seq<char>, part: Seq<char>)
    ensures
        contains(before + part, part),
{
    let whole = before + part;
    assert(whole.subrange(before.len() as int, (before.len() + part.len()) as int) =~= part);
    assert(occurs_at(whole, part, before.len() as int));
}

/// What a text holds, it still holds when more is written behind it.
pub proof fn lemma_longer_text_holds_it(text: Seq<char>, part: Seq<char>, more: Seq<char>)
    requires
        contains(text, part),
    ensures
        contains(text + more, part),
{
    let at = choose|at: int| occurs_at(text, part, at);
    assert((text + more).subrange(at, at + part.len()) =~= text.subrange(at, at + part.len()));
    assert(occurs_at(text + more, part, at));
}

/// The message holds, as they were read, the user name, the daily reward, the
/// balance and the count of days, and it holds the status. Where a field was
/// not read it holds the placeholder instead.
pub proof fn lemma_message_holds_every_field(report: Report)
    ensures
        contains(message_text(report), shown(report.username, UNKNOWN_USER@)),
        contains(message_text(report), status_text(report.claimed)),
        contains(message_text(report), shown(report.reward, UNKNOWN@)),
        contains(message_text(report), shown(report.balance, UNKNOWN@)),
        contains(message_text(report), shown(report.days, UNKNOWN@)),
{
    let user = shown(report.username, UNKNOWN_USER@);
    let status = status_text(report.claimed);
    let reward = shown(report.reward, UNKNOWN@);
    let balance = shown(report.balance, UNKNOWN@);
    let days = shown(report.days, UNKNOWN@);
    let m1 = HEADING@ + user;
    let m2 = m1 + STATUS_LABEL@;
    let m3 = m2 + status;
    let m4 = m3 + REWARD_LABEL@;
    let m5 = m4 + reward;
    let m6 = m5 + BALANCE_LABEL@;
    let m7 = m6 + balance;
    let m8 = m7 + DAYS_LABEL@;
    let m9 = m8 + days;
    assert(m9 == message_text(report));
    lemma_holds_its_end(HEADING@, user);
    lemma_longer_text_holds_it(m1, user, STATUS_LABEL@);
    lemma_longer_text_holds_it(m2, user, status);
    lemma_holds_its_end(m2, status);
    lemma_longer_text_holds_it(m3, user, REWARD_LABEL@);
    lemma_longer_text_holds_it(m3, status, REWARD_LABEL@);
    lemma_longer_text_holds_it(m4, user, reward);
    lemma_longer_text_holds_it(m4, status, reward);
    lemma_holds_its_end(m4, reward);
    lemma_longer_text_holds_it(m5, user, BALANCE_LABEL@);
    lemma_longer_text_holds_it(m5, status, BALANCE_LABEL@);
    lemma_longer_text_holds_it(m5, reward, BALANCE_LABEL@);
    lemma_longer_text_holds_it(m6, user, balance);
    lemma_longer_text_holds_it(m6, status, balance);
    lemma_longer_text_holds_it(m6, reward, balance);
    lemma_holds_its_end(m6, balance);
    lemma_longer_text_holds_it(m7, user, DAYS_LABEL@);
    lemma_longer_text_holds_it(m7, status, DAYS_LABEL@);
    lemma_longer_text_holds_it(m7, reward, DAYS_LABEL@);
    lemma_longer_text_holds_it(m7, balance, DAYS_LABEL@);
    lemma_longer_text_holds_it(m8, user, days);
    lemma_longer_text_holds_it(m8, status, days);
    lemma_longer_text_holds_it(m8, reward, days);
    lemma_longer_text_holds_it(m8, balance, days);
    lemma_holds_its_end(m8, days);
}

} // verus!
