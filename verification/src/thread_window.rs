use vstd::prelude::*;
use crate::message::{
    classify, spec_classify, spec_system_utterance, spec_wf_context, system_utterance, RawMessage,
    Utterance, UtteranceView,
};

verus! {

/// How many recent messages of a thread's channel are asked for as
/// context. Fixed by design, like the reply-chain depth cap.
pub const THREAD_WINDOW_LIMIT: usize = 10;

/// The fetched window, classified in chronological order. The platform
/// hands the window newest first, so it is reversed before
/// classification: entry `i` of the result classifies fetched message
/// `len - 1 - i`.
pub open spec fn spec_classified_window(fetched: Seq<RawMessage>, bot_identity: u64) -> Seq<
    UtteranceView,
> {
    fetched.reverse().map_values(|m: RawMessage| spec_classify(m, bot_identity))
}

/// The whole context assembled for a thread: empty when the thread's
/// parent channel is not on the allow list (the caller reads an empty
/// context as "do not respond"); otherwise the system entry followed by
/// the classified window, oldest first.
pub open spec fn spec_thread_window(
    parent_channel_id: u64,
    allow_list: Seq<u64>,
    fetched: Seq<RawMessage>,
    bot_identity: u64,
    prompt: Seq<char>,
) -> Seq<UtteranceView> {
    if !allow_list.contains(parent_channel_id) {
        Seq::empty()
    } else {
        seq![spec_system_utterance(prompt)] + spec_classified_window(fetched, bot_identity)
    }
}

/// Whether the bot is active in a channel: membership in the configured
/// allow list. Callers consult this before fetching a thread's window.
pub fn channel_allowed(channel_id: u64, allow_list: &Vec<u64>) -> (b: bool)
    ensures
        b == allow_list@.contains(channel_id),
{
    let mut k: usize = 0;
    while k < allow_list.len()
        invariant
            k <= allow_list.len(),
            forall|j: int| 0 <= j < k ==> allow_list@[j] != channel_id,
        decreases allow_list.len() - k,
    {
        if allow_list[k] == channel_id {
            return true;
        }
        k += 1;
    }
    false
}

/// Assembles the completion context for a message that arrived inside a
/// thread. `parent_channel_id` is the thread's parent channel — a thread
/// always has one, and the caller surfaces its absence as a platform
/// contract breach before ever reaching this point. `fetched` is the
/// window of recent messages of the thread's channel as the platform
/// returned it, newest first. If the parent channel is not allowed the
/// result is empty — no system entry either; otherwise the system entry
/// comes first and the window follows in chronological order.
pub fn thread_manager(
    parent_channel_id: u64,
    allow_list: &Vec<u64>,
    fetched: &Vec<RawMessage>,
    bot_identity: u64,
    system_prompt: &str,
) -> (ctx: Vec<Utterance>)
    ensures
        ctx.deep_view() == spec_thread_window(
            parent_channel_id,
            allow_list@,
            fetched@,
            bot_identity,
            system_prompt@,
        ),
        !allow_list@.contains(parent_channel_id) ==> ctx.len() == 0,
        allow_list@.contains(parent_channel_id) ==> {
            &&& ctx.len() == fetched.len() + 1
            &&& spec_wf_context(ctx.deep_view())
        },
{
    let mut ctx: Vec<Utterance> = Vec::new();
    if channel_allowed(parent_channel_id, allow_list) {
        let sys = system_utterance(system_prompt);
        ctx.push(sys);
        let ghost sys_seq: Seq<UtteranceView> = seq![spec_system_utterance(system_prompt@)];
        let mut i: usize = fetched.len();
        proof {
            assert(ctx.deep_view() =~= sys_seq + spec_classified_window(
                fetched@.subrange(i as int, fetched@.len() as int),
                bot_identity,
            ));
        }
        while i > 0
            invariant
                i <= fetched.len(),
                ctx.deep_view() == sys_seq + spec_classified_window(
                    fetched@.subrange(i as int, fetched@.len() as int),
                    bot_identity,
                ),
            decreases i,
        {
            i -= 1;
            let ghost pre = ctx.deep_view();
            let u = classify(&fetched[i], bot_identity);
            ctx.push(u);
            proof {
                let suffix = fetched@.subrange(i as int, fetched@.len() as int);
                let prev = fetched@.subrange(i + 1, fetched@.len() as int);
                assert(ctx.deep_view() =~= pre.push(u@));
                assert(suffix.reverse() =~= prev.reverse().push(fetched@[i as int]));
                assert(spec_classified_window(suffix, bot_identity) =~= spec_classified_window(
                    prev,
                    bot_identity,
                ).push(spec_classify(fetched@[i as int], bot_identity)));
                assert((sys_seq + spec_classified_window(prev, bot_identity)).push(u@) =~= sys_seq
                    + spec_classified_window(prev, bot_identity).push(u@));
                assert(ctx.deep_view() =~= sys_seq + spec_classified_window(suffix, bot_identity));
            }
        }
        proof {
            assert(fetched@.subrange(0, fetched@.len() as int) =~= fetched@);
        }
    }
    proof {
        assert(ctx.deep_view() =~= spec_thread_window(
            parent_channel_id,
            allow_list@,
            fetched@,
            bot_identity,
            system_prompt@,
        ));
    }
    ctx
}

/// Law: the assembled thread context is a function of the channel, the
/// allow list, the fetched window, the bot identity and the prompt alone
/// — two assemblies over identical inputs yield identical contexts.
pub proof fn lemma_thread_window_deterministic(
    parent_channel_id: u64,
    allow_list: Seq<u64>,
    fetched: Seq<RawMessage>,
    bot_identity: u64,
    prompt: Seq<char>,
    c1: Seq<UtteranceView>,
    c2: Seq<UtteranceView>,
)
    requires
        c1 == spec_thread_window(parent_channel_id, allow_list, fetched, bot_identity, prompt),
        c2 == spec_thread_window(parent_channel_id, allow_list, fetched, bot_identity, prompt),
    ensures
        c1 == c2,
{
}

} // verus!
