//! Laws of the `join` and `leave` replies and of channel mentions.

use crate::commands::{join_reply, leave_replies, mention_of_channel, ChatMessageView};
use crate::decimal::{decimal, digits_value, lemma_decimal_injective, lemma_decimal_reads_back};
use vstd::prelude::*;

verus! {

/// A mention is `<#`, the digits of the whole channel id, and `>`: the
/// digits read back as the id, so distinct channels have distinct mentions.
pub proof fn lemma_mention_carries_whole_id(channel: u64, other: u64)
    ensures
        mention_of_channel(channel).len() >= 4,
        mention_of_channel(channel)[0] == '<',
        mention_of_channel(channel)[1] == '#',
        mention_of_channel(channel).last() == '>',
        digits_value(
            mention_of_channel(channel).subrange(2, mention_of_channel(channel).len() - 1),
        ) == channel,
        forall|i: int|
            2 <= i < mention_of_channel(channel).len() - 1 ==> '0' <= #[trigger] mention_of_channel(
                channel,
            )[i] <= '9',
        channel != other ==> mention_of_channel(channel) != mention_of_channel(other),
{
    let m = mention_of_channel(channel);
    lemma_decimal_reads_back(channel as nat);
    let digits = decimal(channel as nat);
    assert(m.subrange(2, m.len() - 1) =~= digits);
    assert forall|i: int| 2 <= i < m.len() - 1 implies '0' <= #[trigger] m[i] <= '9' by {
        assert(m[i] == digits[i - 2]);
    }
    if channel != other {
        lemma_decimal_injective(channel as nat, other as nat);
        let n = mention_of_channel(other);
        if m == n {
            assert(m.subrange(2, m.len() - 1) =~= decimal(other as nat));
        }
    }
}

/// Whether a text starts with `Joined `.
pub open spec fn says_joined(text: Seq<char>) -> bool {
    text.len() >= 7 && text.take(7) == "Joined "@
}

/// The reply to `join` follows its outcome: without a channel the author is
/// asked for one; when joining fails the channel hears the same failure
/// whatever the channel; a reply saying the bot joined comes only when it
/// did, and then names the channel joined.
pub proof fn lemma_join_reply_follows_outcome(connect_to: Option<u64>, joined: bool, channel: u64)
    ensures
        connect_to is None ==> join_reply(connect_to, joined) == ChatMessageView::ReplyToAuthor(
            "Requires a valid voice channel ID be given"@,
        ),
        join_reply(Some(channel), false) == ChatMessageView::SayInChannel(
            "Error joining the channel"@,
        ),
        (join_reply(connect_to, joined) matches ChatMessageView::SayInChannel(text) && says_joined(
            text,
        )) ==> joined && connect_to is Some,
        (join_reply(Some(channel), true) matches ChatMessageView::SayInChannel(text) && says_joined(
            text,
        ) && text.skip(7) == mention_of_channel(channel)),
{
    reveal_strlit("Joined ");
    reveal_strlit("Error joining the channel");
    reveal_strlit("Requires a valid voice channel ID be given");
    let text = "Joined "@ + mention_of_channel(channel);
    assert(text.take(7) =~= "Joined "@);
    assert(text.skip(7) =~= mention_of_channel(channel));
    let failure = "Error joining the channel"@;
    assert(failure.take(7)[0] == 'E');
}

/// The replies to `leave` follow its outcome: when the bot is in no call the
/// author is told so, whatever error is passed; otherwise the channel hears
/// that the bot left, last, preceded by the failure when leaving failed.
pub proof fn lemma_leave_replies_follow_outcome(in_call: bool, removal_error: Option<Seq<char>>)
    ensures
        !in_call ==> leave_replies(in_call, removal_error) == seq![
            ChatMessageView::ReplyToAuthor("Not in a voice channel"@),
        ],
        in_call ==> leave_replies(in_call, removal_error).len() == (if removal_error is Some {
            2int
        } else {
            1int
        }),
        in_call ==> leave_replies(in_call, removal_error).last() == ChatMessageView::SayInChannel(
            "Left voice channel"@,
        ),
        in_call ==> forall|i: int|
            0 <= i < leave_replies(in_call, removal_error).len() ==> #[trigger] leave_replies(
                in_call,
                removal_error,
            )[i] is SayInChannel,
        in_call && removal_error is Some ==> leave_replies(in_call, removal_error)[0]
            == ChatMessageView::SayInChannel("Failed: "@ + removal_error->0),
{
}

} // verus!
