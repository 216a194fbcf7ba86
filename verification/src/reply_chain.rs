use vstd::prelude::*;
use crate::message::{
    classify, spec_classify, spec_system_utterance, spec_wf_context, system_utterance, RawMessage,
    Role, Utterance, UtteranceView,
};

verus! {

/// Hard cap on the number of reply hops taken into the context. Fixed by
/// design, not configurable: it bounds context size whatever the chain's
/// length, and it is the only safety net against a cyclic reply graph.
pub const REPLY_CHAIN_DEPTH_CAP: usize = 10;

/// The classified tail of a reply chain, oldest first: walking backward
/// from `m` while fuel remains, a message is classified only if it still
/// points at a parent — the chain's root (or a reply whose parent could
/// not be resolved) ends the walk without being classified.
pub open spec fn spec_reply_chain(m: RawMessage, bot_identity: u64, fuel: nat) -> Seq<
    UtteranceView,
>
    decreases fuel,
{
    if fuel == 0 {
        Seq::empty()
    } else {
        match m.parent {
            Option::None => Seq::empty(),
            Option::Some(p) => spec_reply_chain(*p, bot_identity, (fuel - 1) as nat).push(
                spec_classify(m, bot_identity),
            ),
        }
    }
}

/// The whole context assembled from a trigger message: the system entry,
/// then the classified chain, oldest first, at most
/// [`REPLY_CHAIN_DEPTH_CAP`] hops deep.
pub open spec fn spec_reply_context(
    trigger: RawMessage,
    bot_identity: u64,
    prompt: Seq<char>,
) -> Seq<UtteranceView> {
    seq![spec_system_utterance(prompt)] + spec_reply_chain(
        trigger,
        bot_identity,
        REPLY_CHAIN_DEPTH_CAP as nat,
    )
}

/// The chain tail never holds more utterances than it was given fuel.
pub proof fn lemma_reply_chain_len(m: RawMessage, bot_identity: u64, fuel: nat)
    ensures
        spec_reply_chain(m, bot_identity, fuel).len() <= fuel,
    decreases fuel,
{
    if fuel > 0 {
        match m.parent {
            Option::None => {},
            Option::Some(p) => {
                lemma_reply_chain_len(*p, bot_identity, (fuel - 1) as nat);
            },
        }
    }
}

/// Every utterance of the chain tail is a classification result, so its
/// role is `User` or `Assistant` — never `System`.
pub proof fn lemma_reply_chain_no_system(m: RawMessage, bot_identity: u64, fuel: nat)
    ensures
        forall|i: int|
            0 <= i < spec_reply_chain(m, bot_identity, fuel).len() ==> spec_reply_chain(
                m,
                bot_identity,
                fuel,
            )[i].role != Role::System,
    decreases fuel,
{
    if fuel > 0 {
        match m.parent {
            Option::None => {},
            Option::Some(p) => {
                lemma_reply_chain_no_system(*p, bot_identity, (fuel - 1) as nat);
            },
        }
    }
}

/// Recursive worker: collects the classified chain tail for `m`.
fn collect_chain(m: &RawMessage, bot_identity: u64, fuel: usize) -> (v: Vec<Utterance>)
    ensures
        v.deep_view() == spec_reply_chain(*m, bot_identity, fuel as nat),
    decreases fuel,
{
    if fuel == 0 {
        let v: Vec<Utterance> = Vec::new();
        proof {
            assert(v.deep_view() =~= spec_reply_chain(*m, bot_identity, fuel as nat));
        }
        v
    } else {
        match &m.parent {
            Option::None => {
                let v: Vec<Utterance> = Vec::new();
                proof {
                    assert(v.deep_view() =~= spec_reply_chain(*m, bot_identity, fuel as nat));
                }
                v
            },
            Option::Some(p) => {
                let mut v = collect_chain(p, bot_identity, fuel - 1);
                let u = classify(m, bot_identity);
                v.push(u);
                proof {
                    assert(v.deep_view() =~= spec_reply_chain(*m, bot_identity, fuel as nat));
                }
                v
            },
        }
    }
}

/// Assembles the completion context for a message that arrived outside a
/// thread: walks backward from `trigger` along its reply links, at most
/// [`REPLY_CHAIN_DEPTH_CAP`] hops, classifying each message that still
/// points at a parent, and returns the utterances oldest first with the
/// system entry in front. A missing parent link ends the walk quietly —
/// it is normal termination, not a failure.
pub fn reply_chain_to_query(trigger: &RawMessage, bot_identity: u64, system_prompt: &str) -> (ctx:
    Vec<Utterance>)
    ensures
        ctx.deep_view() == spec_reply_context(*trigger, bot_identity, system_prompt@),
        spec_wf_context(ctx.deep_view()),
        ctx.len() <= REPLY_CHAIN_DEPTH_CAP + 1,
{
    let mut ctx = collect_chain(trigger, bot_identity, REPLY_CHAIN_DEPTH_CAP);
    let sys = system_utterance(system_prompt);
    ctx.insert(0, sys);
    proof {
        lemma_reply_chain_len(*trigger, bot_identity, REPLY_CHAIN_DEPTH_CAP as nat);
        lemma_reply_chain_no_system(*trigger, bot_identity, REPLY_CHAIN_DEPTH_CAP as nat);
        assert(ctx.deep_view() =~= spec_reply_context(*trigger, bot_identity, system_prompt@));
    }
    ctx
}

/// Law: the assembled reply context is a function of the trigger, the bot
/// identity and the prompt alone — two assemblies over identical inputs
/// yield identical contexts. There is no hidden state to diverge on.
pub proof fn lemma_reply_context_deterministic(
    trigger: RawMessage,
    bot_identity: u64,
    prompt: Seq<char>,
    c1: Seq<UtteranceView>,
    c2: Seq<UtteranceView>,
)
    requires
        c1 == spec_reply_context(trigger, bot_identity, prompt),
        c2 == spec_reply_context(trigger, bot_identity, prompt),
    ensures
        c1 == c2,
{
}

} // verus!
