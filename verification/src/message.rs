use vstd::prelude::*;
use vstd::string::StringExecFns;

verus! {

/// Who produced an utterance: the configured system prompt, a human
/// speaker, or the bot itself.
#[derive(Clone, Copy, Debug, PartialEq, Eq, Structural)]
pub enum Role {
    System,
    User,
    Assistant,
}

/// One role-tagged entry of an assembled conversation context.
#[derive(Debug, PartialEq, Eq)]
pub struct Utterance {
    pub role: Role,
    pub text: String,
}

/// Mathematical image of an [`Utterance`]: its role and its text as a
/// sequence of characters.
#[verifier::ext_equal]
pub struct UtteranceView {
    pub role: Role,
    pub text: Seq<char>,
}

impl View for Utterance {
    type V = UtteranceView;

    open spec fn view(&self) -> UtteranceView {
        UtteranceView { role: self.role, text: self.text@ }
    }
}

impl DeepView for Utterance {
    type V = UtteranceView;

    open spec fn deep_view(&self) -> UtteranceView {
        self@
    }
}

/// A platform message as the assemblers read it. `parent` embeds the
/// replied-to message where the platform resolved the reply link; it is
/// `None` both for a message that replies to nothing and for a reply
/// whose referenced message could not be resolved — the assemblers treat
/// the two alike, as the end of the chain.
#[derive(Debug)]
pub struct RawMessage {
    pub id: u64,
    pub channel_id: u64,
    pub author_id: u64,
    pub author_name: String,
    pub text: String,
    pub parent: Option<Box<RawMessage>>,
}

/// Role classification: a message written by the bot account itself is an
/// assistant turn with its text verbatim; anything else is a user turn
/// whose text carries the speaker's display name as a prefix, so that the
/// flattened transcript still tells human speakers apart.
pub open spec fn spec_classify(m: RawMessage, bot_identity: u64) -> UtteranceView {
    if m.author_id == bot_identity {
        UtteranceView { role: Role::Assistant, text: m.text@ }
    } else {
        UtteranceView { role: Role::User, text: m.author_name@ + ": "@ + m.text@ }
    }
}

/// The system entry that leads every non-empty context.
pub open spec fn spec_system_utterance(prompt: Seq<char>) -> UtteranceView {
    UtteranceView { role: Role::System, text: prompt }
}

/// A well-formed conversation context: it begins with exactly one system
/// entry, and no system entry appears anywhere else.
pub open spec fn spec_wf_context(ctx: Seq<UtteranceView>) -> bool {
    &&& ctx.len() >= 1
    &&& ctx[0].role == Role::System
    &&& forall|i: int| 0 < i < ctx.len() ==> ctx[i].role != Role::System
}

/// Classifies one message by authorship. Total: every message yields an
/// utterance, and the result depends on the message and the bot identity
/// alone.
pub fn classify(msg: &RawMessage, bot_identity: u64) -> (u: Utterance)
    ensures
        u@ == spec_classify(*msg, bot_identity),
{
    if msg.author_id == bot_identity {
        Utterance { role: Role::Assistant, text: msg.text.clone() }
    } else {
        let mut text = msg.author_name.clone();
        text.append(": ");
        text.append(msg.text.as_str());
        Utterance { role: Role::User, text }
    }
}

/// Builds the leading system utterance from the configured prompt.
pub fn system_utterance(system_prompt: &str) -> (u: Utterance)
    ensures
        u@ == spec_system_utterance(system_prompt@),
{
    Utterance { role: Role::System, text: String::from_str(system_prompt) }
}

} // verus!
