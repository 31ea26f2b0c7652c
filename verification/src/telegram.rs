//! The chat front end's decision table: which commands exist and what each
//! one answers. Receiving and sending messages is I/O and stays outside;
//! the mapping from command to reply is pure and lives here.

use vstd::prelude::*;

verus! {

/// The commands the bot understands.
#[derive(Clone, Debug)]
pub enum Command {
    Start,
    Help,
    Balance,
    Buy,
    Sell,
    Search(String),
    History,
    Settings,
    AddWallet,
    Wallets,
    Limits,
    Stats,
}

impl Command {
    /// The command list shown by the help reply.
    pub fn descriptions() -> (r: String)
        ensures
            r@ == "Available commands:\n\n"@ + "/start - start using the bot\n"@
                + "/help - help and the command list\n"@ + "/balance - wallet balance\n"@
                + "/buy - buy a token\n"@ + "/sell - sell a token\n"@
                + "/search <query> - search for a token\n"@ + "/history - trade history\n"@
                + "/settings - settings\n"@ + "/addwallet - add a wallet\n"@
                + "/wallets - list wallets\n"@ + "/limits - trading limits\n"@
                + "/stats - statistics\n"@,
    {
        let mut descriptions = String::from_str("Available commands:\n\n");
        descriptions.append("/start - start using the bot\n");
        descriptions.append("/help - help and the command list\n");
        descriptions.append("/balance - wallet balance\n");
        descriptions.append("/buy - buy a token\n");
        descriptions.append("/sell - sell a token\n");
        descriptions.append("/search <query> - search for a token\n");
        descriptions.append("/history - trade history\n");
        descriptions.append("/settings - settings\n");
        descriptions.append("/addwallet - add a wallet\n");
        descriptions.append("/wallets - list wallets\n");
        descriptions.append("/limits - trading limits\n");
        descriptions.append("/stats - statistics\n");
        descriptions
    }

    /// The reply the bot gives each command.
    pub fn reply(&self) -> (r: String)
        ensures
            *self matches Command::Start ==> r@
                == "Welcome to the Solana trading bot! Use /help for the command list."@,
            *self matches Command::Help ==> r@ == Command::descriptions_spec(),
            *self matches Command::Search(q) ==> r@ == "Searching for token: "@ + q@,
            !(*self matches Command::Start) && !(*self matches Command::Help) && !(*self
                matches Command::Search(_)) ==> r@ == "This feature is not implemented yet."@,
    {
        match self {
            Command::Start => String::from_str(
                "Welcome to the Solana trading bot! Use /help for the command list.",
            ),
            Command::Help => Command::descriptions(),
            Command::Search(query) => {
                let mut reply = String::from_str("Searching for token: ");
                reply.append(query.as_str());
                reply
            },
            _ => String::from_str("This feature is not implemented yet."),
        }
    }

    /// What `descriptions` returns, for contracts.
    pub open spec fn descriptions_spec() -> Seq<char> {
        "Available commands:\n\n"@ + "/start - start using the bot\n"@
            + "/help - help and the command list\n"@ + "/balance - wallet balance\n"@
            + "/buy - buy a token\n"@ + "/sell - sell a token\n"@
            + "/search <query> - search for a token\n"@ + "/history - trade history\n"@
            + "/settings - settings\n"@ + "/addwallet - add a wallet\n"@
            + "/wallets - list wallets\n"@ + "/limits - trading limits\n"@
            + "/stats - statistics\n"@
    }
}

/// The reply to free text: unknown slash commands and plain chatter each
/// get their pointer to /help.
pub fn reply_for_text(text: &str) -> (r: String)
    ensures
        text@.len() > 0 && text@[0] == '/' ==> r@
            == "Unknown command. Use /help for the command list."@,
        !(text@.len() > 0 && text@[0] == '/') ==> r@
            == "I only understand commands. Use /help for the command list."@,
{
    let starts_with_slash = if text.unicode_len() > 0 {
        text.get_char(0) == '/'
    } else {
        false
    };
    if starts_with_slash {
        String::from_str("Unknown command. Use /help for the command list.")
    } else {
        String::from_str("I only understand commands. Use /help for the command list.")
    }
}

} // verus!
