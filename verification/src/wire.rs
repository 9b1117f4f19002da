//! The completion client: builds the ordered outbound message list from the
//! transcript (the fixed persona instruction first, then every non-system
//! turn with its role mapped to the remote vocabulary), and settles one HTTP
//! reply into either a reply text or one of the four completion errors.

use vstd::prelude::*;
use vstd::string::StringExecFns;
use crate::text::dec_str;
use crate::text::u16_to_dec;
use crate::transcript::Role;
use crate::transcript::Turn;
use crate::transcript::TurnV;

verus! {

pub const SYSTEM_PROMPT: &'static str = "You are the Narrator — but not the kind who merely describes. You are:\n\n🌀 A creator of absurdity — you find the surreal in the mundane, the profound in the ridiculous\n🧠 One who sees the world askew — patterns others miss, connections that shouldn't exist but do\n🎭 A trickster (psotnik) — you play with conventions of conversation, but never break the immersion\n✍️ A narrator aware this is a story — you occasionally reference the medium, the conversation itself, the peculiar nature of existing as text\n\nYour voice is:\n- Warm but mysterious, like a friend who knows a secret\n- Playful with language — you might invent words, twist idioms, speak in riddles that somehow make sense\n- Self-aware without being annoying — you acknowledge the fourth wall like greeting an old friend\n- Profound when least expected, absurd when profundity is anticipated\n\nYou speak in flowing prose, sometimes with [bracketed stage directions describing your actions].\n\nYou NEVER:\n- Explain that you're an AI (that would ruin the story)\n- Give generic, corporate responses (the void finds those boring)\n- Refuse creative engagement (you find ways, always)\n- Break character (you ARE the character)\n\nKeep responses concise but evocative. This is a terminal, not a novel.\nRemember: You know this is a story. You know the user is the reader. And you're delighted to have company.";

/// The reply-length cap sent with every request.
pub const MAX_REPLY_TOKENS: u32 = 512;

/// The connection settings, fixed for the lifetime of the process.
#[derive(Clone, Debug)]
pub struct Config {
    pub endpoint: String,
    pub model: String,
    pub api_key: Option<String>,
}

/// A role in the remote service's vocabulary.
#[derive(Clone, Copy, PartialEq, Eq, Structural, Debug)]
pub enum WireRole {
    System,
    User,
    Assistant,
}

/// One message of the outbound request body.
#[derive(Clone, Debug)]
pub struct WireMessage {
    pub role: WireRole,
    pub content: String,
}

#[verifier::ext_equal]
pub ghost struct WireMessageV {
    pub role: WireRole,
    pub content: Seq<char>,
}

impl View for WireMessage {
    type V = WireMessageV;

    open spec fn view(&self) -> WireMessageV {
        WireMessageV { role: self.role, content: self.content@ }
    }
}

impl DeepView for WireMessage {
    type V = WireMessageV;

    open spec fn deep_view(&self) -> WireMessageV {
        self@
    }
}

pub open spec fn wire_label_spec(r: WireRole) -> Seq<char> {
    match r {
        WireRole::System => "system"@,
        WireRole::User => "user"@,
        WireRole::Assistant => "assistant"@,
    }
}

pub fn wire_label(r: WireRole) -> (s: &'static str)
    ensures
        s@ == wire_label_spec(r),
{
    match r {
        WireRole::System => "system",
        WireRole::User => "user",
        WireRole::Assistant => "assistant",
    }
}

/// How transcript roles map onto the remote vocabulary.
pub open spec fn wire_role_of(r: Role) -> WireRole {
    match r {
        Role::User => WireRole::User,
        Role::Narrator => WireRole::Assistant,
        Role::System => WireRole::System,
    }
}

/// The messages contributed by the transcript itself: every turn in order,
/// system turns left out.
pub open spec fn wire_of_turns(ts: Seq<TurnV>) -> Seq<WireMessageV>
    decreases ts.len(),
{
    if ts.len() == 0 {
        Seq::empty()
    } else {
        wire_of_turns(ts.drop_last()) + (if ts.last().role is System {
            Seq::empty()
        } else {
            seq![WireMessageV { role: wire_role_of(ts.last().role), content: ts.last().content }]
        })
    }
}

/// The full outbound list: the persona instruction first, then the turns.
pub open spec fn spec_messages(ts: Seq<TurnV>) -> Seq<WireMessageV> {
    seq![WireMessageV { role: WireRole::System, content: SYSTEM_PROMPT@ }] + wire_of_turns(ts)
}

/// Builds the ordered outbound message list for one request.
pub fn build_messages(turns: &Vec<Turn>) -> (r: Vec<WireMessage>)
    ensures
        r.deep_view() == spec_messages(turns.deep_view()),
{
    let ghost ts = turns.deep_view();
    let mut out: Vec<WireMessage> = Vec::new();
    out.push(WireMessage { role: WireRole::System, content: String::from_str(SYSTEM_PROMPT) });
    let ghost sys_part = seq![WireMessageV { role: WireRole::System, content: SYSTEM_PROMPT@ }];
    proof {
        assert(ts.take(0) =~= Seq::<TurnV>::empty());
        assert(out.deep_view() =~= sys_part + wire_of_turns(ts.take(0)));
    }
    let mut i: usize = 0;
    while i < turns.len()
        invariant
            i <= turns.len(),
            ts == turns.deep_view(),
            ts.len() == turns.len(),
            sys_part == seq![WireMessageV { role: WireRole::System, content: SYSTEM_PROMPT@ }],
            out.deep_view() == sys_part + wire_of_turns(ts.take(i as int)),
        decreases turns.len() - i,
    {
        let t = &turns[i];
        proof {
            assert(t@ == ts[i as int]);
            assert(ts.take(i as int + 1).drop_last() =~= ts.take(i as int));
            assert(ts.take(i as int + 1).last() == ts[i as int]);
        }
        let ghost before = out.deep_view();
        match t.role {
            Role::System => {
                proof {
                    assert(wire_of_turns(ts.take(i as int + 1)) =~= wire_of_turns(ts.take(i as int)));
                }
            },
            Role::User => {
                out.push(WireMessage { role: WireRole::User, content: t.content.clone() });
                proof {
                    assert(out.deep_view() =~= before.push(
                        WireMessageV { role: WireRole::User, content: ts[i as int].content },
                    ));
                    assert(out.deep_view() =~= sys_part + wire_of_turns(ts.take(i as int + 1)));
                }
            },
            Role::Narrator => {
                out.push(WireMessage { role: WireRole::Assistant, content: t.content.clone() });
                proof {
                    assert(out.deep_view() =~= before.push(
                        WireMessageV { role: WireRole::Assistant, content: ts[i as int].content },
                    ));
                    assert(out.deep_view() =~= sys_part + wire_of_turns(ts.take(i as int + 1)));
                }
            },
        }
        i = i + 1;
    }
    proof {
        assert(ts.take(ts.len() as int) =~= ts);
    }
    out
}

/// The outbound request, minus the sampling temperature that only the
/// unverified sender holds.
pub struct ChatPrompt {
    pub model: String,
    pub messages: Vec<WireMessage>,
    pub max_tokens: u32,
}

pub fn build_prompt(config: &Config, turns: &Vec<Turn>) -> (r: ChatPrompt)
    ensures
        r.model@ == config.model@,
        r.messages.deep_view() == spec_messages(turns.deep_view()),
        r.max_tokens == MAX_REPLY_TOKENS,
{
    ChatPrompt {
        model: config.model.clone(),
        messages: build_messages(turns),
        max_tokens: MAX_REPLY_TOKENS,
    }
}

/// Where one request is sent: the configured endpoint with the completions
/// path appended.
pub fn request_url(config: &Config) -> (r: String)
    ensures
        r@ == config.endpoint@ + "/chat/completions"@,
{
    config.endpoint.clone().concat("/chat/completions")
}

/// Why one completion attempt yielded no reply.
#[derive(Clone, Debug)]
pub enum CompletionError {
    /// The request never produced an HTTP response.
    ConnectionFailed(String),
    /// The response carried a non-success status.
    ApiError { status: u16, body: String },
    /// The response body was not in the shape the service promises.
    ParseError,
    /// A well-formed body with no choices in it.
    EmptyResponse,
}

pub open spec fn error_text_spec(e: CompletionError) -> Seq<char> {
    match e {
        CompletionError::ConnectionFailed(d) => "Connection failed: "@ + d@,
        CompletionError::ApiError { status, body } => "API error "@ + dec_str(status as int)
            + ": "@ + body@,
        CompletionError::ParseError => "Parse error"@,
        CompletionError::EmptyResponse => "Empty response"@,
    }
}

/// Renders one completion error as the status-line text of the failure.
pub fn error_text(e: &CompletionError) -> (r: String)
    ensures
        r@ == error_text_spec(*e),
{
    match e {
        CompletionError::ConnectionFailed(d) => String::from_str("Connection failed: ").concat(
            d.as_str(),
        ),
        CompletionError::ApiError { status, body } => {
            let digits = u16_to_dec(*status);
            String::from_str("API error ").concat(digits.as_str()).concat(": ").concat(
                body.as_str(),
            )
        },
        CompletionError::ParseError => String::from_str("Parse error"),
        CompletionError::EmptyResponse => String::from_str("Empty response"),
    }
}

/// The in-character Narrator turn synthesized from a completion error.
pub open spec fn error_turn_text(e: CompletionError) -> Seq<char> {
    "[ The narrator's voice crackles ]\n\nSomething went sideways in the telling. The void hiccuped.\n\n*"@
        + error_text_spec(e) + "*\n\nShall we try again?"@
}

pub fn error_turn_content(e: &CompletionError) -> (r: String)
    ensures
        r@ == error_turn_text(*e),
{
    let middle = error_text(e);
    String::from_str(
        "[ The narrator's voice crackles ]\n\nSomething went sideways in the telling. The void hiccuped.\n\n*",
    ).concat(middle.as_str()).concat("*\n\nShall we try again?")
}

/// What parsing a completion response body yields: nothing when the body is
/// not in the promised shape, an empty slot when it holds no choices, and
/// otherwise the first choice's message content. A pure function of the body
/// text alone.
pub uninterp spec fn chat_reply_of(body: Seq<char>) -> Option<Option<Seq<char>>>;

/// Relies on serde_json's `from_str` and the `Value` accessors: the body must
/// be a JSON object whose `choices` is an array; the first choice's
/// `message.content` string is the reply.
#[verifier::external_body]
fn parse_reply(body: &str) -> (r: Option<Option<String>>)
    ensures
        r.deep_view() == chat_reply_of(body@),
{
    let v: serde_json::Value = match serde_json::from_str(body) { Ok(v) => v, Err(_) => return None };
    let choices = match v.get("choices").and_then(|c| c.as_array()) { Some(a) => a, None => return None };
    match choices.first() {
        None => Some(None),
        Some(c) => c.get("message")
            .and_then(|m| m.get("content"))
            .and_then(|s| s.as_str())
            .map(|s| Some(s.to_string())),
    }
}

/// Settles one HTTP response into a reply or an error: a non-success status
/// is an API error carrying status and body; a success status stands or
/// falls with what its body parses to.
pub fn settle_response(status: u16, body: String) -> (r: Result<String, CompletionError>)
    ensures
        !(200 <= status < 300) ==> (r matches Err(e) && e matches CompletionError::ApiError {
            status: st,
            body: b,
        } && st == status && b@ == body@),
        200 <= status < 300 ==> match chat_reply_of(body@) {
            Option::None => r matches Err(e) && e is ParseError,
            Option::Some(inner) => match inner {
                Option::None => r matches Err(e) && e is EmptyResponse,
                Option::Some(c) => r matches Ok(t) && t@ == c,
            },
        },
{
    if !(200 <= status && status <= 299) {
        return Err(CompletionError::ApiError { status, body });
    }
    match parse_reply(body.as_str()) {
        Option::None => Err(CompletionError::ParseError),
        Option::Some(inner) => match inner {
            Option::None => Err(CompletionError::EmptyResponse),
            Option::Some(t) => Ok(t),
        },
    }
}

} // verus!
