//! The Telegram bot's choices: which message a text gets, and where the bot
//! asks the token API for a form link.
use vstd::prelude::*;

verus! {

/// What the bot does with an incoming message.
#[derive(Debug, Clone, Copy, PartialEq, Eq, Structural)]
pub enum BotReply {
    /// Show the keyboard with the submission button.
    ShowMenu,
    /// Fetch a form link from the token API and send it.
    SendLink,
    /// Say nothing.
    Ignore,
}

/// The caption of the submission button, which is also its command.
pub open spec fn submission_button() -> Seq<char> {
    "Обращение"@
}

/// `/start` shows the menu, the submission button asks for a link, and any
/// other text, or a message without text, is ignored.
pub open spec fn reply_to(text: Option<Seq<char>>) -> BotReply {
    match text {
        Some(t) => if t == "/start"@ {
            BotReply::ShowMenu
        } else if t == submission_button() {
            BotReply::SendLink
        } else {
            BotReply::Ignore
        },
        None => BotReply::Ignore,
    }
}

/// The bot's answer to a message with the given text.
pub fn reply_for(text: Option<&str>) -> (reply: BotReply)
    ensures
        reply == reply_to(match text {
            Some(t) => Some(t@),
            None => None,
        }),
{
    match text {
        None => BotReply::Ignore,
        Some(t) => {
            let t = t.to_owned();
            if t == "/start".to_owned() {
                BotReply::ShowMenu
            } else if t == menu_button() {
                BotReply::SendLink
            } else {
                BotReply::Ignore
            }
        },
    }
}

/// The submission button.
pub fn menu_button() -> (caption: String)
    ensures
        caption@ == submission_button(),
{
    "Обращение".to_owned()
}

/// The prompt shown with the menu.
pub fn menu_prompt() -> (text: String)
    ensures
        text@ == "Выберите действие"@,
{
    "Выберите действие".to_owned()
}

/// The message that carries a form link.
pub fn link_message(url: &str) -> (text: String)
    ensures
        text@ == "Для создания обращения перейдите по ссылке:\n"@ + url@,
{
    "Для создания обращения перейдите по ссылке:\n".to_owned().concat(url)
}

/// The message sent when no link could be had.
pub fn link_failure_message() -> (text: String)
    ensures
        text@ == "Не удалось получить ссылку."@,
{
    "Не удалось получить ссылку.".to_owned()
}

/// The token API that the bot calls when none is configured.
pub fn default_token_api_url() -> (url: String)
    ensures
        url@ == "http://localhost:8080"@,
{
    "http://localhost:8080".to_owned()
}

/// Where the bot asks for a new token: `{api_url}/api/token/generate`.
pub fn token_endpoint(api_url: &str) -> (url: String)
    ensures
        url@ == api_url@ + "/api/token/generate"@,
{
    api_url.to_owned().concat("/api/token/generate")
}

} // verus!
