//! Notifications through the Telegram Bot API: when a message is sent and
//! the request that sends it.
use vstd::prelude::*;

use crate::errors::AppError;
use crate::settings::TelegramConfig;
use crate::text::{all_ws, is_blank};

verus! {

/// A `sendMessage` call of the Telegram Bot API.
#[derive(Debug, Clone, PartialEq, Eq)]
pub struct TelegramRequest {
    pub url: String,
    pub chat_id: String,
    pub text: String,
    pub parse_mode: String,
}

/// The message sent to test the connection.
pub open spec fn test_message_spec() -> Seq<char> {
    "RSGEWatch is connected and ready to send alerts."@
}

/// The message sent to test the connection.
pub fn test_message() -> (r: &'static str)
    ensures
        r@ == test_message_spec(),
{
    let s = "RSGEWatch is connected and ready to send alerts.";
    proof {
        reveal_strlit("RSGEWatch is connected and ready to send alerts.");
    }
    s
}

/// What sending `message` with `config` amounts to: nothing while
/// notifications are disabled; an error while the bot token or the chat ID
/// is blank; otherwise a `sendMessage` request to the bot, as HTML.
pub fn telegram_request(config: &TelegramConfig, message: &str) -> (r: Result<Option<TelegramRequest>, AppError>)
    ensures
        !config.enabled ==> r == Ok::<Option<TelegramRequest>, AppError>(None),
        config.enabled && (all_ws(config.bot_token@) || all_ws(config.chat_id@)) ==> (r matches Err(
            AppError::Telegram(m),
        ) && m@ == "Bot token or chat ID is not configured"@),
        config.enabled && !all_ws(config.bot_token@) && !all_ws(config.chat_id@) ==> (r matches Ok(Some(q)) && {
            &&& q.url@ == "https://api.telegram.org/bot"@ + config.bot_token@ + "/sendMessage"@
            &&& q.chat_id@ == config.chat_id@
            &&& q.text@ == message@
            &&& q.parse_mode@ == "HTML"@
        }),
{
    if !config.enabled {
        return Ok(None);
    }
    if is_blank(config.bot_token.as_str()) || is_blank(config.chat_id.as_str()) {
        return Err(AppError::Telegram(String::from_str("Bot token or chat ID is not configured")));
    }
    let mut url = String::from_str("https://api.telegram.org/bot");
    url.append(config.bot_token.as_str());
    url.append("/sendMessage");
    Ok(Some(TelegramRequest {
        url,
        chat_id: config.chat_id.clone(),
        text: String::from_str(message),
        parse_mode: String::from_str("HTML"),
    }))
}

/// A notification channel that sends through Telegram.
#[derive(Debug, Clone)]
pub struct TelegramSender {
    pub config: TelegramConfig,
}

impl TelegramSender {
    /// The channel's name.
    pub fn name(&self) -> (r: &'static str)
        ensures
            r@ == "Telegram"@,
    {
        let s = "Telegram";
        proof {
            reveal_strlit("Telegram");
        }
        s
    }
}

} // verus!
