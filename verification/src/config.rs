//! The three settings that a run needs, and the check that each is present and
//! not blank.

use crate::text::blank;
use crate::text::is_blank;
use crate::text::opt_string_view;
use vstd::prelude::*;
use vstd::string::StringExecFns;

verus! {

/// One of the three required settings.
#[derive(Clone, Copy, Debug, PartialEq, Eq, Structural)]
pub enum Variable {
    /// The session cookie of the forum account.
    Cookie,
    /// The token of the bot that sends the report.
    BotToken,
    /// The chat that receives the report.
    ChatId,
}

/// Why the settings were refused.
#[derive(Clone, Copy, Debug, PartialEq, Eq, Structural)]
pub enum ConfigError {
    /// The variable is not set.
    Missing(Variable),
    /// The variable is set, and holds nothing but white space.
    Empty(Variable),
}

/// The settings of a run. Each of the three holds a character that is no white
/// space.
#[derive(Debug, PartialEq, Eq)]
pub struct Config {
    pub v2ex_cookie: String,
    pub telegram_bot_token: String,
    pub telegram_chat_id: String,
}

/// What is wrong with the value given for `variable`, if anything.
pub open spec fn fault(variable: Variable, value: Option<Seq<char>>) -> Option<ConfigError> {
    match value {
        None => Some(ConfigError::Missing(variable)),
        Some(text) => if is_blank(text) {
            Some(ConfigError::Empty(variable))
        } else {
            None
        },
    }
}

/// The fault that is reported for the three values: that of the first variable
/// that has one, in the order cookie, bot token, chat.
pub open spec fn first_fault(
    cookie: Option<Seq<char>>,
    token: Option<Seq<char>>,
    chat: Option<Seq<char>>,
) -> Option<ConfigError> {
    if fault(Variable::Cookie, cookie) is Some {
        fault(Variable::Cookie, cookie)
    } else if fault(Variable::BotToken, token) is Some {
        fault(Variable::BotToken, token)
    } else {
        fault(Variable::ChatId, chat)
    }
}

/// The name of `variable` in the environment.
pub open spec fn variable_name(variable: Variable) -> Seq<char> {
    match variable {
        Variable::Cookie => "V2EX_COOKIE"@,
        Variable::BotToken => "TELEGRAM_BOT_TOKEN"@,
        Variable::ChatId => "TELEGRAM_CHAT_ID"@,
    }
}

/// The sentence that reports `error`.
pub open spec fn config_error_text(error: ConfigError) -> Seq<char> {
    match error {
        ConfigError::Missing(variable) => "环境变量 "@ + variable_name(variable) + " 未设置"@,
        ConfigError::Empty(variable) => "环境变量 "@ + variable_name(variable)
            + " 为空，请正确设置"@,
    }
}

impl Variable {
    /// The name of the variable in the environment.
    pub fn name(self) -> (name: &'static str)
        ensures
            name@ == variable_name(self),
    {
        match self {
            Variable::Cookie => "V2EX_COOKIE",
            Variable::BotToken => "TELEGRAM_BOT_TOKEN",
            Variable::ChatId => "TELEGRAM_CHAT_ID",
        }
    }
}

impl ConfigError {
    /// The sentence that reports the error.
    pub fn message(self) -> (text: String)
        ensures
            text@ == config_error_text(self),
    {
        match self {
            ConfigError::Missing(variable) => {
                let mut text = String::from_str("环境变量 ");
                text.append(variable.name());
                text.append(" 未设置");
                text
            },
            ConfigError::Empty(variable) => {
                let mut text = String::from_str("环境变量 ");
                text.append(variable.name());
                text.append(" 为空，请正确设置");
                text
            },
        }
    }
}

/// The value given for `variable`, where nothing is wrong with it.
fn checked(variable: Variable, value: Option<String>) -> (r: Result<String, ConfigError>)
    ensures
        match r {
            Ok(text) => value == Some(text) && fault(variable, Some(text@)) is None,
            Err(e) => fault(variable, opt_string_view(value)) == Some(e),
        },
{
    match value {
        None => Err(ConfigError::Missing(variable)),
        Some(text) => {
            if blank(text.as_str()) {
                Err(ConfigError::Empty(variable))
            } else {
                Ok(text)
            }
        },
    }
}

impl Config {
    /// The settings made of the three values as the environment gave them:
    /// `None` stands for a variable that is not set. The values are checked in
    /// the order cookie, bot token, chat, and the first fault is reported.
    pub fn from_values(
        cookie: Option<String>,
        token: Option<String>,
        chat: Option<String>,
    ) -> (r: Result<Config, ConfigError>)
        ensures
            match r {
                Ok(config) => {
                    &&& first_fault(
                        opt_string_view(cookie),
                        opt_string_view(token),
                        opt_string_view(chat),
                    ) is None
                    &&& config.complete()
                    &&& cookie == Some(config.v2ex_cookie)
                    &&& token == Some(config.telegram_bot_token)
                    &&& chat == Some(config.telegram_chat_id)
                },
                Err(e) => first_fault(
                    opt_string_view(cookie),
                    opt_string_view(token),
                    opt_string_view(chat),
                ) == Some(e),
            },
            r is Ok <==> {
                &&& cookie is Some && !is_blank(cookie->0@)
                &&& token is Some && !is_blank(token->0@)
                &&& chat is Some && !is_blank(chat->0@)
            },
    {
        let v2ex_cookie = match checked(Variable::Cookie, cookie) {
            Ok(text) => text,
            Err(e) => {
                return Err(e);
            },
        };
        let telegram_bot_token = match checked(Variable::BotToken, token) {
            Ok(text) => text,
            Err(e) => {
                return Err(e);
            },
        };
        let telegram_chat_id = match checked(Variable::ChatId, chat) {
            Ok(text) => text,
            Err(e) => {
                return Err(e);
            },
        };
        Ok(Config { v2ex_cookie, telegram_bot_token, telegram_chat_id })
    }

    /// Whether the three settings each hold a character that is no white space:
    /// what `from_values` establishes.
    pub open spec fn complete(&self) -> bool {
        &&& !is_blank(self.v2ex_cookie@)
        &&& !is_blank(self.telegram_bot_token@)
        &&& !is_blank(self.telegram_chat_id@)
    }
}

/// Each of the three settings is required: where one is missing or blank there
/// is a fault, whatever the other two hold, and where none is there is no fault.
pub proof fn lemma_every_setting_is_required(
    cookie: Option<Seq<char>>,
    token: Option<Seq<char>>,
    chat: Option<Seq<char>>,
)
    ensures
        first_fault(cookie, token, chat) is Some <==> {
            ||| cookie is None || is_blank(cookie->0)
            ||| token is None || is_blank(token->0)
            ||| chat is None || is_blank(chat->0)
        },
{
}

} // verus!
