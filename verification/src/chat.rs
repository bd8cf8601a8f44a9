//! One exchange with the chat-completion service: the request that is sent,
//! the reply that is read back, the record kept of it, and what is shown.

use vstd::prelude::*;

use crate::json::{
    Json, JsonTree, JsonValue, compact_json_text, compact_text, element, json_document,
    json_error_message, json_of_tree_items, json_of_tree_members, items_keys_ascending,
    key_less, keys_ascending, lemma_json_of_tree_members, member, members_keys_ascending,
    parse_json, text_of,
    unsigned_of,
};
use crate::text::{decimal_text, is_blank, is_blank_text, push_decimal};

verus! {

/// One message of the conversation sent to the service.
#[derive(Debug, Clone, PartialEq, Eq)]
pub struct MessageBody {
    pub role: String,
    pub content: String,
}

/// The model of a message: its role and its text.
pub struct MessageView {
    pub role: Seq<char>,
    pub content: Seq<char>,
}

impl View for MessageBody {
    type V = MessageView;

    open spec fn view(&self) -> MessageView {
        MessageView { role: self.role@, content: self.content@ }
    }
}

pub open spec fn message_views(ms: Seq<MessageBody>) -> Seq<MessageView> {
    Seq::new(ms.len(), |i: int| ms[i]@)
}

pub open spec fn system_role() -> Seq<char> {
    "system"@
}

pub open spec fn user_role() -> Seq<char> {
    "user"@
}

/// The messages of a request: the system prompt first unless it is blank,
/// then the user prompt.
pub open spec fn chat_messages(system_prompt: Seq<char>, prompt: Seq<char>) -> Seq<MessageView> {
    if is_blank_text(system_prompt) {
        seq![MessageView { role: user_role(), content: prompt }]
    } else {
        seq![
            MessageView { role: system_role(), content: system_prompt },
            MessageView { role: user_role(), content: prompt },
        ]
    }
}

/// Builds the messages of a request.
pub fn build_messages(system_prompt: &str, prompt: &str) -> (r: Vec<MessageBody>)
    ensures
        message_views(r@) == chat_messages(system_prompt@, prompt@),
{
    let mut messages: Vec<MessageBody> = Vec::new();
    if !is_blank(system_prompt) {
        messages.push(
            MessageBody { role: String::from_str("system"), content: String::from_str(system_prompt) },
        );
    }
    messages.push(MessageBody { role: String::from_str("user"), content: String::from_str(prompt) });
    assert(message_views(messages@) =~= chat_messages(system_prompt@, prompt@));
    messages
}

/// The model that answers.
pub open spec fn chat_model() -> Seq<char> {
    "gpt-3.5-turbo"@
}

/// The document of a message. A message goes through a JSON map, which keeps
/// its members in key order, so `content` comes before `role`.
pub open spec fn message_json(m: MessageView) -> Json {
    Json::Object(seq![("content"@, Json::Str(m.content)), ("role"@, Json::Str(m.role))])
}

/// The document of a request: the messages and the model, in key order.
pub open spec fn request_json(ms: Seq<MessageView>) -> Json {
    Json::Object(
        seq![
            ("messages"@, Json::Array(Seq::new(ms.len(), |i: int| message_json(ms[i])))),
            ("model"@, Json::Str(chat_model())),
        ],
    )
}

/// The document of a message.
pub fn message_document(m: &MessageBody) -> (r: JsonTree)
    ensures
        r@ == message_json(m@),
{
    let mut fields: Vec<(String, JsonTree)> = Vec::new();
    fields.push((String::from_str("content"), JsonTree::Str(m.content.clone())));
    fields.push((String::from_str("role"), JsonTree::Str(m.role.clone())));
    proof {
        lemma_json_of_tree_members(fields@);
        assert(json_of_tree_members(fields@) =~= seq![
            ("content"@, Json::Str(m.content@)),
            ("role"@, Json::Str(m.role@)),
        ]);
    }
    JsonTree::Object(fields)
}

/// The document of a request.
pub fn request_document(messages: &Vec<MessageBody>) -> (r: JsonTree)
    ensures
        r@ == request_json(message_views(messages@)),
{
    let mut items: Vec<JsonTree> = Vec::new();
    let mut i: usize = 0;
    while i < messages.len()
        invariant
            i <= messages.len(),
            items.len() == i,
            json_of_tree_items(items@) =~= Seq::new(i as nat, |k: int| message_json(messages@[k]@)),
        decreases messages.len() - i,
    {
        let item = message_document(&messages[i]);
        let ghost before = items@;
        items.push(item);
        proof {
            assert(items@.drop_last() =~= before);
        }
        i += 1;
    }
    let mut top: Vec<(String, JsonTree)> = Vec::new();
    top.push((String::from_str("messages"), JsonTree::Array(items)));
    top.push((String::from_str("model"), JsonTree::Str(String::from_str("gpt-3.5-turbo"))));
    proof {
        lemma_json_of_tree_members(top@);
        assert(json_of_tree_items(items@) =~= Seq::new(message_views(messages@).len(), |k: int| message_json(message_views(messages@)[k])));
        assert(json_of_tree_members(top@) =~= seq![
            ("messages"@, Json::Array(Seq::new(message_views(messages@).len(), |k: int| message_json(message_views(messages@)[k])))),
            ("model"@, Json::Str(chat_model())),
        ]);
    }
    JsonTree::Object(top)
}

/// The keys of a request document come in ascending order, as `serde_json`'s
/// map holds them.
proof fn lemma_request_keys_ascending(ms: Seq<MessageView>)
    ensures
        keys_ascending(request_json(ms)),
{
    reveal_strlit("content");
    reveal_strlit("role");
    reveal_strlit("messages");
    reveal_strlit("model");
    reveal_with_fuel(key_less, 3);
    assert(key_less("content"@, "role"@));
    assert("messages"@.drop_first() =~= seq!['e', 's', 's', 'a', 'g', 'e', 's']);
    assert("model"@.drop_first() =~= seq!['o', 'd', 'e', 'l']);
    assert(key_less("messages"@, "model"@));
    let items = Seq::new(ms.len(), |i: int| message_json(ms[i]));
    lemma_messages_keys_ascending(ms, ms.len() as int);
    assert(items.take(ms.len() as int) =~= items);
    let top = request_json(ms)->Object_0;
    assert(top.drop_last() =~= seq![top[0]]);
    assert(seq![top[0]].drop_last() =~= Seq::<(Seq<char>, Json)>::empty());
    assert(keys_ascending(top[0].1));
    assert(keys_ascending(top[1].1));
    assert(members_keys_ascending(Seq::<(Seq<char>, Json)>::empty()));
    assert(members_keys_ascending(seq![top[0]]));
    assert(members_keys_ascending(top));
}

proof fn lemma_message_keys_ascending(mv: MessageView)
    requires
        key_less("content"@, "role"@),
    ensures
        keys_ascending(message_json(mv)),
{
    let m = seq![("content"@, Json::Str(mv.content)), ("role"@, Json::Str(mv.role))];
    assert(m.drop_last() =~= seq![("content"@, Json::Str(mv.content))]);
    assert(seq![("content"@, Json::Str(mv.content))].drop_last() =~= Seq::<(Seq<char>, Json)>::empty());
    assert(keys_ascending(Json::Str(mv.content)));
    assert(keys_ascending(Json::Str(mv.role)));
    assert(members_keys_ascending(Seq::<(Seq<char>, Json)>::empty()));
    assert(members_keys_ascending(seq![("content"@, Json::Str(mv.content))]));
    assert(members_keys_ascending(m));
}

proof fn lemma_messages_keys_ascending(ms: Seq<MessageView>, n: int)
    requires
        0 <= n <= ms.len(),
        key_less("content"@, "role"@),
    ensures
        items_keys_ascending(Seq::new(ms.len(), |i: int| message_json(ms[i])).take(n)),
    decreases n,
{
    let items = Seq::new(ms.len(), |i: int| message_json(ms[i]));
    if n > 0 {
        lemma_messages_keys_ascending(ms, n - 1);
        assert(items.take(n).drop_last() =~= items.take(n - 1));
        assert(items.take(n).last() == message_json(ms[n - 1]));
        lemma_message_keys_ascending(ms[n - 1]);
    } else {
        assert(items.take(n).len() == 0);
    }
}

/// What is sent to the service: where, with which credentials, and the body.
#[derive(Debug, Clone, PartialEq, Eq)]
pub struct ChatRequest {
    pub url: String,
    pub authorization: String,
    pub content_type: String,
    pub body: String,
}

/// The path of the chat-completion endpoint below the service address.
pub open spec fn completions_path() -> Seq<char> {
    "/v1/chat/completions"@
}

/// Builds the request: the endpoint below `url_prefix`, the key as a bearer
/// token, and the compact JSON text of the messages and the model.
pub fn build_chat_request(url_prefix: &str, secret: &str, system_prompt: &str, prompt: &str) -> (r: ChatRequest)
    ensures
        r.url@ == url_prefix@ + completions_path(),
        r.authorization@ == "Bearer "@ + secret@,
        r.content_type@ == "application/json"@,
        r.body@ == compact_text(request_json(chat_messages(system_prompt@, prompt@))),
{
    let messages = build_messages(system_prompt, prompt);
    let document = request_document(&messages);
    proof {
        lemma_request_keys_ascending(message_views(messages@));
    }
    let body = compact_json_text(&document);
    let mut url = String::from_str(url_prefix);
    url.append("/v1/chat/completions");
    let mut authorization = String::from_str("Bearer ");
    authorization.append(secret);
    ChatRequest { url, authorization, content_type: String::from_str("application/json"), body }
}

/// What the service answered: the answer text (markdown) and the token counts.
#[derive(Debug, Clone, PartialEq, Eq)]
pub struct ChatReply {
    pub content: String,
    pub prompt_tokens: u64,
    pub completion_tokens: u64,
}

/// The model of a reply.
pub struct ReplyView {
    pub content: Seq<char>,
    pub prompt_tokens: u64,
    pub completion_tokens: u64,
}

impl View for ChatReply {
    type V = ReplyView;

    open spec fn view(&self) -> ReplyView {
        ReplyView {
            content: self.content@,
            prompt_tokens: self.prompt_tokens,
            completion_tokens: self.completion_tokens,
        }
    }
}

/// What a reply document says. A string at `error.message` is the service's
/// refusal. Otherwise the answer is the string at
/// `choices[0].message.content` (empty where there is none), and the token
/// counts are the unsigned integers at `usage.prompt_tokens` and
/// `usage.completion_tokens` (0 where there is none).
pub open spec fn reply_from_json(j: Json) -> Result<ReplyView, Seq<char>> {
    match j.at("error"@).at("message"@).text() {
        Some(m) => Err(m),
        None => Ok(
            ReplyView {
                content: match j.at("choices"@).at_index(0).at("message"@).at("content"@).text() {
                    Some(c) => c,
                    None => Seq::empty(),
                },
                prompt_tokens: match j.at("usage"@).at("prompt_tokens"@).unsigned() {
                    Some(n) => n,
                    None => 0,
                },
                completion_tokens: match j.at("usage"@).at("completion_tokens"@).unsigned() {
                    Some(n) => n,
                    None => 0,
                },
            },
        ),
    }
}

/// The document found at a place, or `null` where there is nothing.
pub open spec fn json_or_null(o: Option<&JsonValue>) -> Json {
    match o {
        Some(v) => v@,
        None => Json::Null,
    }
}

fn step_member<'a>(v: Option<&'a JsonValue>, key: &str) -> (r: Option<&'a JsonValue>)
    ensures
        json_or_null(r) == json_or_null(v).at(key@),
{
    match v {
        Some(x) => {
            let k = String::from_str(key);
            member(x, &k)
        },
        None => None,
    }
}

fn step_element<'a>(v: Option<&'a JsonValue>, i: usize) -> (r: Option<&'a JsonValue>)
    ensures
        json_or_null(r) == json_or_null(v).at_index(i as int),
{
    match v {
        Some(x) => element(x, i),
        None => None,
    }
}

fn text_at(v: Option<&JsonValue>) -> (r: Option<&String>)
    ensures
        match r {
            Some(s) => json_or_null(v).text() == Some(s@),
            None => json_or_null(v).text() is None,
        },
{
    match v {
        Some(x) => text_of(x),
        None => None,
    }
}

fn unsigned_at(v: Option<&JsonValue>) -> (r: Option<u64>)
    ensures
        r == json_or_null(v).unsigned(),
{
    match v {
        Some(x) => unsigned_of(x),
        None => None,
    }
}

/// Reads the answer, or the service's refusal, out of a reply document.
pub fn reply_from_document(v: &JsonValue) -> (r: Result<ChatReply, String>)
    ensures
        match r {
            Ok(x) => reply_from_json(v@) == Ok::<ReplyView, Seq<char>>(x@),
            Err(m) => reply_from_json(v@) == Err::<ReplyView, Seq<char>>(m@),
        },
{
    let root = Some(v);
    let refusal = step_member(step_member(root, "error"), "message");
    if let Some(m) = text_at(refusal) {
        return Err(m.clone());
    }
    let answer = step_member(step_member(step_element(step_member(root, "choices"), 0), "message"), "content");
    let content = match text_at(answer) {
        Some(c) => c.clone(),
        None => String::new(),
    };
    let usage = step_member(root, "usage");
    let prompt_tokens = match unsigned_at(step_member(usage, "prompt_tokens")) {
        Some(n) => n,
        None => 0,
    };
    let completion_tokens = match unsigned_at(step_member(usage, "completion_tokens")) {
        Some(n) => n,
        None => 0,
    };
    Ok(ChatReply { content, prompt_tokens, completion_tokens })
}

/// Why an exchange gave no answer: the reply was not JSON, or the service
/// refused (its message).
#[derive(Debug, PartialEq, Eq)]
pub enum ChatError {
    InvalidJson(String),
    Refused(String),
}

impl ChatError {
    /// The message shown for the failure.
    pub fn message(&self) -> (r: String)
        ensures
            r@ == match self {
                ChatError::InvalidJson(m) => m@,
                ChatError::Refused(m) => m@,
            },
    {
        match self {
            ChatError::InvalidJson(m) => m.clone(),
            ChatError::Refused(m) => m.clone(),
        }
    }
}

/// Reads the reply text of the service: it is parsed as JSON
/// (`json_document`), then read with `reply_from_json`.
pub fn read_chat_reply(raw: &str) -> (r: Result<ChatReply, ChatError>)
    ensures
        match r {
            Ok(x) => exists|j: Json| json_document(raw@) == Some(j) && reply_from_json(j) == Ok::<ReplyView, Seq<char>>(x@),
            Err(ChatError::InvalidJson(m)) => json_document(raw@) is None && m@ == json_error_message(raw@),
            Err(ChatError::Refused(m)) => exists|j: Json| json_document(raw@) == Some(j) && reply_from_json(j) == Err::<ReplyView, Seq<char>>(m@),
        },
{
    match parse_json(raw) {
        Ok(v) => match reply_from_document(&v) {
            Ok(x) => Ok(x),
            Err(m) => Err(ChatError::Refused(m)),
        },
        Err(m) => Err(ChatError::InvalidJson(m)),
    }
}

/// The HTML that `markdown::to_html` makes of a markdown text.
pub uninterp spec fn markdown_html(markdown: Seq<char>) -> Seq<char>;

/// Calls `markdown::to_html`. The contract names the result
/// (`markdown_html`); the CommonMark rendering itself is not restated. The
/// crate documents that this conversion does not fail on markdown.
#[verifier::external_body]
fn render_markdown(markdown: &str) -> (r: String)
    ensures
        r@ == markdown_html(markdown@),
{
    markdown::to_html(markdown)
}

/// What the window shows of an answer: its HTML and the token counts.
#[derive(Debug, Clone, PartialEq, Eq)]
pub struct ChatResponse {
    pub content: String,
    pub prompt_tokens: u64,
    pub completion_tokens: u64,
}

/// The shown form of a reply: the answer rendered from markdown to HTML.
pub fn chat_response(reply: &ChatReply) -> (r: ChatResponse)
    ensures
        r.content@ == markdown_html(reply.content@),
        r.prompt_tokens == reply.prompt_tokens,
        r.completion_tokens == reply.completion_tokens,
{
    ChatResponse {
        content: render_markdown(reply.content.as_str()),
        prompt_tokens: reply.prompt_tokens,
        completion_tokens: reply.completion_tokens,
    }
}

/// The record kept of an exchange: both prompts, the answer, the token
/// counts, and the full reply text.
pub open spec fn log_text(
    system_prompt: Seq<char>,
    prompt: Seq<char>,
    reply: ReplyView,
    raw: Seq<char>,
) -> Seq<char> {
    "system prompt:"@ + system_prompt + "\nuser prompt:"@ + prompt + "\n\nanswer:"@ + reply.content
        + "\nprompt_tokens:"@ + decimal_text(reply.prompt_tokens as nat) + " completion_tokens:"@
        + decimal_text(reply.completion_tokens as nat) + "\n\nfull body:"@ + raw
}

/// Writes the record kept of an exchange.
pub fn chat_log_text(system_prompt: &str, prompt: &str, reply: &ChatReply, raw: &str) -> (r: String)
    ensures
        r@ == log_text(system_prompt@, prompt@, reply@, raw@),
{
    let mut out = String::from_str("system prompt:");
    out.append(system_prompt);
    out.append("\nuser prompt:");
    out.append(prompt);
    out.append("\n\nanswer:");
    out.append(reply.content.as_str());
    out.append("\nprompt_tokens:");
    push_decimal(&mut out, reply.prompt_tokens);
    out.append(" completion_tokens:");
    push_decimal(&mut out, reply.completion_tokens);
    out.append("\n\nfull body:");
    out.append(raw);
    out
}

/// The last message of a request is always the user prompt, whole; a system
/// message comes before it exactly when the system prompt is not blank, and
/// then it carries the whole system prompt (whatever lines it has).
pub proof fn lemma_messages_of_prompts(system_prompt: Seq<char>, prompt: Seq<char>)
    ensures
        chat_messages(system_prompt, prompt).len() == if is_blank_text(system_prompt) { 1int } else { 2int },
        chat_messages(system_prompt, prompt).last() == (MessageView { role: user_role(), content: prompt }),
        !is_blank_text(system_prompt) ==> chat_messages(system_prompt, prompt)[0] == (MessageView {
            role: system_role(),
            content: system_prompt,
        }),
{
}

/// Every message document has exactly two members, `content` and `role`,
/// holding the message's text and role whole, empty text included.
pub proof fn lemma_message_members(m: MessageView)
    ensures
        message_json(m) is Object,
        message_json(m)->Object_0.len() == 2,
        message_json(m).member("content"@) == Some(Json::Str(m.content)),
        message_json(m).member("role"@) == Some(Json::Str(m.role)),
{
    reveal_strlit("content");
    reveal_strlit("role");
    let ms = message_json(m)->Object_0;
    assert("content"@ != "role"@) by {
        assert("content"@.len() != "role"@.len());
    }
    assert(ms.drop_first() =~= seq![("role"@, Json::Str(m.role))]);
    assert(crate::json::member_of(ms.drop_first(), "role"@) == Some(Json::Str(m.role)));
}

/// A request document holds, under `messages`, the document of each message
/// in order, and under `model`, the model's name.
pub proof fn lemma_request_members(ms: Seq<MessageView>)
    ensures
        request_json(ms).member("model"@) == Some(Json::Str(chat_model())),
        request_json(ms).at("messages"@) is Array,
        request_json(ms).at("messages"@)->Array_0.len() == ms.len(),
        forall|i: int| 0 <= i < ms.len() ==> #[trigger] request_json(ms).at("messages"@).at_index(i) == message_json(ms[i]),
{
    reveal_strlit("messages");
    reveal_strlit("model");
    let top = request_json(ms)->Object_0;
    assert("messages"@ != "model"@) by {
        assert("messages"@[1] != "model"@[1]);
    }
    assert(top.drop_first() =~= seq![("model"@, Json::Str(chat_model()))]);
    assert(crate::json::member_of(top.drop_first(), "model"@) == Some(Json::Str(chat_model())));
}

/// A reply whose `error.message` is a string is the service's refusal with
/// that message.
pub proof fn lemma_reply_refusal(j: Json, message: Seq<char>)
    requires
        j.at("error"@).at("message"@) == Json::Str(message),
    ensures
        reply_from_json(j) == Err::<ReplyView, Seq<char>>(message),
{
}

/// Without a refusal, the answer is the whole string at
/// `choices[0].message.content` (every line of it), and each token count is
/// the unsigned integer found at its place in `usage`.
pub proof fn lemma_reply_answer(j: Json, content: Seq<char>)
    requires
        j.at("error"@).at("message"@).text() is None,
        j.at("choices"@).at_index(0).at("message"@).at("content"@) == Json::Str(content),
    ensures
        reply_from_json(j) is Ok,
        reply_from_json(j)->Ok_0.content == content,
        j.at("usage"@).at("prompt_tokens"@).unsigned() matches Some(n) ==> reply_from_json(j)->Ok_0.prompt_tokens == n,
        j.at("usage"@).at("completion_tokens"@).unsigned() matches Some(n) ==> reply_from_json(j)->Ok_0.completion_tokens == n,
{
}

} // verus!
