//! The chat replies of the `join` and `leave` commands.

use crate::decimal::{decimal, push_decimal};
use vstd::prelude::*;
use vstd::string::*;

verus! {

/// A chat message of a command: a reply to the author of the command, or a
/// plain message in the channel the command came from.
pub enum ChatMessage {
    ReplyToAuthor(String),
    SayInChannel(String),
}

/// A `ChatMessage` with its text taken by its view.
pub enum ChatMessageView {
    ReplyToAuthor(Seq<char>),
    SayInChannel(Seq<char>),
}

impl View for ChatMessage {
    type V = ChatMessageView;

    open spec fn view(&self) -> ChatMessageView {
        match self {
            ChatMessage::ReplyToAuthor(text) => ChatMessageView::ReplyToAuthor(text@),
            ChatMessage::SayInChannel(text) => ChatMessageView::SayInChannel(text@),
        }
    }
}

/// How Discord writes a mention of the channel `channel_id`: `<#` id `>`.
pub open spec fn mention_of_channel(channel_id: u64) -> Seq<char> {
    seq!['<', '#'] + decimal(channel_id as nat) + seq!['>']
}

/// The mention of the channel `channel_id`.
pub fn channel_mention(channel_id: u64) -> (mention: String)
    ensures
        mention@ == mention_of_channel(channel_id),
{
    proof {
        reveal_strlit("<#");
        reveal_strlit(">");
    }
    let mut mention = String::from_str("<#");
    push_decimal(&mut mention, channel_id);
    mention.append(">");
    mention
}

/// The message of `join`: without a valid channel the author is told that one
/// is needed; otherwise the channel hears whether joining it worked.
pub open spec fn join_reply(connect_to: Option<u64>, joined: bool) -> ChatMessageView {
    match connect_to {
        None => ChatMessageView::ReplyToAuthor("Requires a valid voice channel ID be given"@),
        Some(channel_id) => if joined {
            ChatMessageView::SayInChannel("Joined "@ + mention_of_channel(channel_id))
        } else {
            ChatMessageView::SayInChannel("Error joining the channel"@)
        },
    }
}

/// The message `join` sends, given the channel it was asked to join (`None`
/// when the argument was not a channel) and whether joining it worked.
pub fn join_message(connect_to: Option<u64>, joined: bool) -> (message: ChatMessage)
    ensures
        message@ == join_reply(connect_to, joined),
{
    match connect_to {
        None => {
            proof {
                reveal_strlit("Requires a valid voice channel ID be given");
            }
            ChatMessage::ReplyToAuthor(String::from_str("Requires a valid voice channel ID be given"))
        },
        Some(channel_id) => {
            if joined {
                proof {
                    reveal_strlit("Joined ");
                }
                let mut text = String::from_str("Joined ");
                let mention = channel_mention(channel_id);
                text.append(mention.as_str());
                ChatMessage::SayInChannel(text)
            } else {
                proof {
                    reveal_strlit("Error joining the channel");
                }
                ChatMessage::SayInChannel(String::from_str("Error joining the channel"))
            }
        },
    }
}

/// The messages of `leave`: when the bot is in no call of the guild the
/// author is told so; otherwise a failure to leave is reported first, with
/// its description, and then the channel hears that the bot left.
pub open spec fn leave_replies(in_call: bool, removal_error: Option<Seq<char>>) -> Seq<
    ChatMessageView,
> {
    if !in_call {
        seq![ChatMessageView::ReplyToAuthor("Not in a voice channel"@)]
    } else {
        match removal_error {
            Some(description) => seq![
                ChatMessageView::SayInChannel("Failed: "@ + description),
                ChatMessageView::SayInChannel("Left voice channel"@),
            ],
            None => seq![ChatMessageView::SayInChannel("Left voice channel"@)],
        }
    }
}

/// The views of a list of messages.
pub open spec fn message_views(messages: Seq<ChatMessage>) -> Seq<ChatMessageView> {
    messages.map_values(|message: ChatMessage| message@)
}

/// The text of an error description, by view.
pub open spec fn error_text(removal_error: Option<String>) -> Option<Seq<char>> {
    match removal_error {
        Some(description) => Some(description@),
        None => None,
    }
}

/// The messages `leave` sends, in order, given whether the bot was in a call
/// of the guild and the description of the error, if leaving it failed.
pub fn leave_messages(in_call: bool, removal_error: Option<String>) -> (messages: Vec<ChatMessage>)
    ensures
        message_views(messages@) == leave_replies(in_call, error_text(removal_error)),
{
    let mut messages: Vec<ChatMessage> = Vec::new();
    proof {
        reveal_strlit("Not in a voice channel");
        reveal_strlit("Failed: ");
        reveal_strlit("Left voice channel");
    }
    if !in_call {
        messages.push(ChatMessage::ReplyToAuthor(String::from_str("Not in a voice channel")));
    } else {
        if let Some(description) = removal_error {
            let mut text = String::from_str("Failed: ");
            text.append(description.as_str());
            messages.push(ChatMessage::SayInChannel(text));
        }
        messages.push(ChatMessage::SayInChannel(String::from_str("Left voice channel")));
    }
    assert(message_views(messages@) =~= leave_replies(in_call, error_text(removal_error)));
    messages
}

} // verus!
