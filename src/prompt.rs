use vstd::prelude::*;
use crate::reading::{format_one_decimal, one_decimal, HealthReading};

verus! {

/// Who speaks in a chat message.
#[derive(Clone, Copy, Debug, PartialEq, Eq, Structural)]
pub enum Role {
    System,
    User,
}

pub open spec fn role_text(role: Role) -> Seq<char> {
    match role {
        Role::System => "system"@,
        Role::User => "user"@,
    }
}

impl Role {
    /// The role's name on the wire.
    pub fn as_str(&self) -> (r: &'static str)
        ensures
            r@ == role_text(*self),
    {
        match self {
            Role::System => "system",
            Role::User => "user",
        }
    }
}

/// One role-tagged message of a prompt.
pub struct ChatMessage {
    pub role: Role,
    pub content: String,
}

impl View for ChatMessage {
    type V = (Role, Seq<char>);

    open spec fn view(&self) -> (Role, Seq<char>) {
        (self.role, self.content@)
    }
}

/// What is sent to the chat-completion provider: a model and the messages,
/// in order.
pub struct CompletionRequest {
    pub model: String,
    pub messages: Vec<ChatMessage>,
}

impl View for CompletionRequest {
    type V = (Seq<char>, Seq<(Role, Seq<char>)>);

    open spec fn view(&self) -> (Seq<char>, Seq<(Role, Seq<char>)>) {
        (self.model@, self.messages@.map_values(|m: ChatMessage| m@))
    }
}

pub open spec fn model_id() -> Seq<char> {
    "gpt-3.5-turbo"@
}

pub open spec fn system_instruction() -> Seq<char> {
    "You are a health monitoring assistant."@
}

/// The user message for readings given in tenths and a response language.
pub open spec fn user_prompt_text(
    temp: int,
    pulse: int,
    spo2: int,
    language: Seq<char>,
) -> Seq<char> {
    "A patient has the following health readings:\n- Body Temperature: "@ + one_decimal(temp)
        + "°C\n- Pulse Rate: "@ + one_decimal(pulse) + " BPM\n- SpO₂ Level: "@ + one_decimal(spo2)
        + "%\n\nBased on these values, please provide a health assessment and any recommendations in "@
        + language + "."@
}

/// The request built for one reading: the fixed model, a system instruction,
/// then the user prompt.
pub open spec fn request_for(reading: HealthReading) -> (Seq<char>, Seq<(Role, Seq<char>)>) {
    (
        model_id(),
        seq![
            (Role::System, system_instruction()),
            (
                Role::User,
                user_prompt_text(
                    reading.temp_tenths as int,
                    reading.pulse_tenths as int,
                    reading.spo2_tenths as int,
                    reading.language@,
                ),
            ),
        ],
    )
}

/// `t` occurs in `s` as a contiguous run.
pub open spec fn contains(s: Seq<char>, t: Seq<char>) -> bool {
    exists|i: int| 0 <= i && i + t.len() <= s.len() && #[trigger] s.subrange(i, i + t.len()) == t
}

proof fn lemma_contains_middle(a: Seq<char>, t: Seq<char>, b: Seq<char>)
    ensures
        contains(a + t + b, t),
{
    let s = a + t + b;
    assert(s.subrange(a.len() as int, (a.len() + t.len()) as int) =~= t);
}

/// The user prompt carries each reading at one decimal place and the
/// language exactly as given.
pub proof fn lemma_prompt_carries_readings(temp: int, pulse: int, spo2: int, language: Seq<char>)
    ensures
        contains(user_prompt_text(temp, pulse, spo2, language), one_decimal(temp)),
        contains(user_prompt_text(temp, pulse, spo2, language), one_decimal(pulse)),
        contains(user_prompt_text(temp, pulse, spo2, language), one_decimal(spo2)),
        contains(user_prompt_text(temp, pulse, spo2, language), language),
{
    let p0 = "A patient has the following health readings:\n- Body Temperature: "@;
    let p1 = "°C\n- Pulse Rate: "@;
    let p2 = " BPM\n- SpO₂ Level: "@;
    let p3 = "%\n\nBased on these values, please provide a health assessment and any recommendations in "@;
    let p4 = "."@;
    let t = one_decimal(temp);
    let p = one_decimal(pulse);
    let o = one_decimal(spo2);
    let s = user_prompt_text(temp, pulse, spo2, language);
    assert(s =~= p0 + t + (p1 + p + p2 + o + p3 + language + p4));
    lemma_contains_middle(p0, t, p1 + p + p2 + o + p3 + language + p4);
    assert(s =~= (p0 + t + p1) + p + (p2 + o + p3 + language + p4));
    lemma_contains_middle(p0 + t + p1, p, p2 + o + p3 + language + p4);
    assert(s =~= (p0 + t + p1 + p + p2) + o + (p3 + language + p4));
    lemma_contains_middle(p0 + t + p1 + p + p2, o, p3 + language + p4);
    assert(s =~= (p0 + t + p1 + p + p2 + o + p3) + language + p4);
    lemma_contains_middle(p0 + t + p1 + p + p2 + o + p3, language, p4);
}

/// Writes the user prompt for a reading.
pub fn user_prompt(reading: &HealthReading) -> (r: String)
    ensures
        r@ == user_prompt_text(
            reading.temp_tenths as int,
            reading.pulse_tenths as int,
            reading.spo2_tenths as int,
            reading.language@,
        ),
{
    let temp = format_one_decimal(reading.temp_tenths);
    let pulse = format_one_decimal(reading.pulse_tenths);
    let spo2 = format_one_decimal(reading.spo2_tenths);
    let mut out = String::from_str("A patient has the following health readings:\n- Body Temperature: ");
    out.append(temp.as_str());
    out.append("°C\n- Pulse Rate: ");
    out.append(pulse.as_str());
    out.append(" BPM\n- SpO₂ Level: ");
    out.append(spo2.as_str());
    out.append("%\n\nBased on these values, please provide a health assessment and any recommendations in ");
    out.append(reading.language.as_str());
    out.append(".");
    out
}

/// Builds the one request sent for a reading: two messages, the system
/// instruction first and the user prompt second, which carries the three
/// readings at one decimal place and the language.
pub fn build_request(reading: &HealthReading) -> (r: CompletionRequest)
    ensures
        r@ == request_for(*reading),
        r.messages@.len() == 2,
        r.messages@[0].role == Role::System,
        r.messages@[1].role == Role::User,
        contains(r.messages@[1].content@, one_decimal(reading.temp_tenths as int)),
        contains(r.messages@[1].content@, one_decimal(reading.pulse_tenths as int)),
        contains(r.messages@[1].content@, one_decimal(reading.spo2_tenths as int)),
        contains(r.messages@[1].content@, reading.language@),
{
    let system = ChatMessage {
        role: Role::System,
        content: String::from_str("You are a health monitoring assistant."),
    };
    let user = ChatMessage { role: Role::User, content: user_prompt(reading) };
    let mut messages: Vec<ChatMessage> = Vec::new();
    messages.push(system);
    messages.push(user);
    let r = CompletionRequest { model: String::from_str("gpt-3.5-turbo"), messages };
    proof {
        lemma_prompt_carries_readings(
            reading.temp_tenths as int,
            reading.pulse_tenths as int,
            reading.spo2_tenths as int,
            reading.language@,
        );
        assert(r@.1 =~= request_for(*reading).1);
    }
    r
}

/// The value of the authorization header for a provider credential.
pub fn bearer_header(credential: &str) -> (r: String)
    ensures
        r@ == "Bearer "@ + credential@,
{
    let mut out = String::from_str("Bearer ");
    out.append(credential);
    out
}

} // verus!
