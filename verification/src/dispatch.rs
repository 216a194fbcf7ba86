use vstd::prelude::*;
use vstd::string::StrSliceExecFns;
use crate::message::{
    classify, spec_classify, spec_system_utterance, spec_wf_context, system_utterance, RawMessage,
    Utterance,
};
use crate::thread_window::channel_allowed;

verus! {

/// Whether an inbound channel message deserves a response: the channel
/// must be on the allow list, the author must not be the bot itself, and
/// the text must not open with the command prefix `'!'`, which belongs to
/// other bots.
pub open spec fn spec_should_respond(
    channel_id: u64,
    allow_list: Seq<u64>,
    author_id: u64,
    bot_identity: u64,
    text: Seq<char>,
) -> bool {
    &&& allow_list.contains(channel_id)
    &&& author_id != bot_identity
    &&& !(text.len() > 0 && text[0] == '!')
}

/// Decides whether the bot answers an inbound channel message at all.
pub fn should_respond(
    channel_id: u64,
    allow_list: &Vec<u64>,
    author_id: u64,
    bot_identity: u64,
    text: &str,
) -> (b: bool)
    ensures
        b == spec_should_respond(channel_id, allow_list@, author_id, bot_identity, text@),
{
    if !channel_allowed(channel_id, allow_list) {
        return false;
    }
    if author_id == bot_identity {
        return false;
    }
    if text.unicode_len() > 0 && text.get_char(0) == '!' {
        return false;
    }
    true
}

/// Assembles the two-entry context for a plain channel message answered
/// directly: the system entry, then the trigger classified by authorship.
pub fn direct_message_context(msg: &RawMessage, bot_identity: u64, system_prompt: &str) -> (ctx:
    Vec<Utterance>)
    ensures
        ctx.deep_view() == seq![
            spec_system_utterance(system_prompt@),
            spec_classify(*msg, bot_identity),
        ],
        spec_wf_context(ctx.deep_view()),
{
    let mut ctx: Vec<Utterance> = Vec::new();
    let sys = system_utterance(system_prompt);
    ctx.push(sys);
    let u = classify(msg, bot_identity);
    ctx.push(u);
    proof {
        assert(ctx.deep_view() =~= seq![
            spec_system_utterance(system_prompt@),
            spec_classify(*msg, bot_identity),
        ]);
    }
    ctx
}

} // verus!
