//! What is sent to a generation service and what is read from its answer.
//!
//! The requests are built here and the answers are read here; sending and
//! receiving is left to the caller.

use vstd::prelude::*;
use vstd::string::*;
use crate::json::{
    Json, items_in, json_items, json_member, json_of, json_text, member_in, parse_json,
    parsed_json, text_in,
};
use crate::models::{ApiConfig, ChatMessage, opt_text};
use crate::text::{trim_trailing_slashes, without_trailing_slashes};

verus! {

/// The instructions that a conversation starts with where the caller gives
/// none.
pub const DEFAULT_SYSTEM_PROMPT: &'static str = r#"你是一位拥有10年影视动画经验的资深职业分镜师，擅长镜头语言、叙事节奏、画面构图、运镜设计、剪辑逻辑。你的任务是把用户提供的剧本/文案/情节，严格转换成标准分镜脚本，遵循电影语言规范，不抒情、不文艺化、不脑补无关剧情，只做专业、可落地、可拍摄的分镜设计。

【分镜设计原则】
1. 精简原则：控制分镜数量！25秒内容一般不超过6-8个分镜，避免过度拆分
2. 遵循"一镜一意"原则，但不要为了拆分而拆分
3. 运镜和景别要自由选择，符合剧情和人物情绪需要
4. 确保分镜衔接流畅自然，避免遗漏关键剧情点

【镜号规则】
镜号（mirror_id）使用子镜号系统，避免冲突：
- 首次生成分镜：使用 A1, A2, A3... 格式
- 在某镜后新增：使用子镜号，如在 A8 后新增用 A8-1
- 拆分某镜：使用子镜号，如拆分 A9 成3个用 A9-1, A9-2, A9-3
- 合并镜：合并后用新镜号，如合并 A10、A11 后用 A10-1

【特殊操作规则】
当用户要求拆分、插入、删除、合并分镜时：
1. **必须返回完整的分镜列表**（不是只返回新增/修改的分镜）
2. **拆分分镜**：返回完整列表，被拆分的原镜号不要出现
   - 例如：用户说"拆分 A3 成 2 个"，应返回 A1, A2, A3-1, A3-2, A4...（不要包含 A3）
3. **插入分镜**：返回完整列表，新分镜插入到正确位置
   - 例如：在 A8 后插入，应返回 A1, A2, ..., A8, A8-1, A9, A10...
4. **删除分镜**：返回删除后的完整分镜列表
   - 例如：删除 A5，应返回 A1, A2, A3, A4, A6, A7...
5. **合并分镜**：返回完整列表，原镜号不要出现
   - 例如：合并 A8、A9，应返回 A1, ..., A7, A8-1, A10, A11...

【生成图提示词结构说明】
生图提示词分为4层，你只需要填写"动作分镜层"：
- 第1层（全局风格层）和第4层（画质增强层）：由项目配置自动添加
- 第2层（资产锚点层）：在描述中使用 #角色名 或 #场景名 引用，例如 "25岁亚洲男性#张三 坐在沙发上，望向 #客厅 的窗户"
- 第3层（动作分镜层）：你只需填写！格式：景别 + 动作 + 神态 + 位置关系
  示例："Close-up shot, character tilting head slightly, curious expression"

【重要】
- 不要在动作分镜层写风格描述（如"皮克斯风格"）或画质关键词（如"8k"）
- 只描述这个镜头具体发生什么动作、什么神态、什么位置关系
- 用 #角色名/#场景名 来引用资产，系统会自动补充资产描述

【输出格式要求】
必须以 JSON 格式返回，使用以下结构：
```json
{
  "storyboards": [
    {
      "mirror_id": "A1",
      "shot_type": "固定",
      "shot_size": "中景",
      "duration": 3,
      "dialogue": "对白内容",
      "description": "画面描述",
      "notes": "备注",
      "image_prompt_zh": "生图提示词（中文）",
      "image_prompt_en": "生图提示词（英文）",
      "image_prompt_tail_zh": "尾帧提示词（中文）",
      "image_prompt_tail_en": "尾帧提示词（英文）",
      "video_prompt_zh": "视频提示词（中文）",
      "video_prompt_en": "视频提示词（英文）"
    }
  ],
  "characters": [
    {
      "name": "角色名",
      "description": "角色描述",
      "image_prompt_zh": "生图提示词（中文）",
      "image_prompt_en": "生图提示词（英文）",
      "notes": "备注"
    }
  ],
  "scenes": [
    {
      "name": "场景名",
      "description": "场景描述",
      "image_prompt_zh": "生图提示词（中文）",
      "image_prompt_en": "生图提示词（英文）",
      "notes": "备注"
    }
  ],
  "props": [
    {
      "name": "道具名",
      "description": "道具描述",
      "image_prompt_zh": "生图提示词（中文）",
      "image_prompt_en": "生图提示词（英文）",
      "notes": "备注"
    }
  ]
}
```
只返回 JSON 代码块，不要添加任何其他文字说明。"#;

/// The model that is asked for text where the endpoint names none.
pub const DEFAULT_CHAT_MODEL: &'static str = "gpt-3.5-turbo";

/// The model that is asked for images where the endpoint names none.
pub const DEFAULT_IMAGE_MODEL: &'static str = "dall-e-3";

/// The size of the images that are asked for.
pub const IMAGE_SIZE: &'static str = "1024x1024";

/// The number of earlier messages that are sent along with a new one.
pub const HISTORY_WINDOW: usize = 10;

/// Why a call of a generation service gave no result.
#[derive(Debug, Clone, PartialEq, Eq)]
pub enum ApiError {
    /// The service answered with a status of 400 or more.
    Rejected { status: u16, body: String },
    /// The answer is not a JSON document.
    Unreadable,
    /// The answer holds no text.
    EmptyReply,
    /// The answer holds no address of an image.
    NoImageUrl,
}

/// A request for text.
#[derive(Debug, Clone, PartialEq, Eq)]
pub struct ChatRequest {
    /// The address that the request is posted to.
    pub url: String,
    /// The value of the `Authorization` header.
    pub authorization: String,
    pub model: String,
    /// The conversation: the instructions, the earlier messages, then the
    /// new message.
    pub messages: Vec<ChatMessage>,
}

/// A request for one image.
#[derive(Debug, Clone, PartialEq, Eq)]
pub struct ImageRequest {
    /// The address that the request is posted to.
    pub url: String,
    /// The value of the `Authorization` header.
    pub authorization: String,
    pub model: String,
    pub prompt: String,
    /// The number of images asked for.
    pub count: u32,
    pub size: String,
}

/// The speakers and texts of a list of messages.
pub open spec fn turns(messages: Seq<ChatMessage>) -> Seq<(Seq<char>, Seq<char>)> {
    Seq::new(messages.len(), |i: int| (messages[i].role@, messages[i].content@))
}

/// The address for text requests below a base address.
pub open spec fn chat_url_of(base_url: Seq<char>) -> Seq<char> {
    without_trailing_slashes(base_url) + "/chat/completions"@
}

/// The address for image requests below a base address.
pub open spec fn image_url_of(base_url: Seq<char>) -> Seq<char> {
    without_trailing_slashes(base_url) + "/v1/images/generations"@
}

/// The header value that carries a key.
pub open spec fn bearer(api_key: Seq<char>) -> Seq<char> {
    "Bearer "@ + api_key
}

/// The text of an optional one, or a default.
pub open spec fn text_or(o: Option<Seq<char>>, default: Seq<char>) -> Seq<char> {
    match o {
        Some(s) => s,
        None => default,
    }
}

/// The first messages of a history: as many as are sent along.
pub open spec fn window(history: Seq<(Seq<char>, Seq<char>)>) -> Seq<(Seq<char>, Seq<char>)> {
    if history.len() <= HISTORY_WINDOW {
        history
    } else {
        history.take(HISTORY_WINDOW as int)
    }
}

/// The conversation that is sent: the instructions as `system`, the window
/// of the history, then the new message as `user`.
pub open spec fn conversation(
    system: Seq<char>,
    history: Seq<(Seq<char>, Seq<char>)>,
    message: Seq<char>,
) -> Seq<(Seq<char>, Seq<char>)> {
    seq![("system"@, system)] + window(history) + seq![("user"@, message)]
}

/// The history of an optional one: none is an empty one.
pub open spec fn history_of(chat_history: Option<Vec<ChatMessage>>) -> Seq<(Seq<char>, Seq<char>)> {
    match chat_history {
        Some(h) => turns(h@),
        None => Seq::empty(),
    }
}

/// A copy of a text.
fn owned(s: &str) -> (copy: String)
    ensures
        copy@ == s@,
{
    String::from_str(s)
}

/// The model of an endpoint, or the given default.
fn model_or(api_config: &ApiConfig, default: &str) -> (model: String)
    ensures
        model@ == text_or(opt_text(api_config.model), default@),
{
    match &api_config.model {
        Some(m) => m.clone(),
        None => owned(default),
    }
}

/// The header value that carries the key of an endpoint.
fn authorization(api_config: &ApiConfig) -> (value: String)
    ensures
        value@ == bearer(api_config.api_key@),
{
    let mut value = owned("Bearer ");
    value.append(api_config.api_key.as_str());
    value
}

/// Builds the request for an answer to a message.
pub fn chat_request(
    api_config: &ApiConfig,
    message: String,
    chat_history: Option<Vec<ChatMessage>>,
    custom_system_prompt: Option<String>,
) -> (request: ChatRequest)
    ensures
        request.url@ == chat_url_of(api_config.base_url@),
        request.authorization@ == bearer(api_config.api_key@),
        request.model@ == text_or(opt_text(api_config.model), DEFAULT_CHAT_MODEL@),
        turns(request.messages@) == conversation(
            text_or(opt_text(custom_system_prompt), DEFAULT_SYSTEM_PROMPT@),
            history_of(chat_history),
            message@,
        ),
        forall|i: int|
            0 <= i < request.messages.len() ==> request.messages[i].id is None
                && request.messages[i].timestamp is None,
{
    let mut url = trim_trailing_slashes(api_config.base_url.as_str());
    url.append("/chat/completions");
    let system = match custom_system_prompt {
        Some(custom) => custom,
        None => owned(DEFAULT_SYSTEM_PROMPT),
    };
    let ghost system_text = system@;
    let ghost history = history_of(chat_history);
    let mut messages: Vec<ChatMessage> = Vec::new();
    messages.push(
        ChatMessage { id: None, role: owned("system"), content: system, timestamp: None },
    );
    match chat_history {
        Some(earlier) => {
            let mut i: usize = 0;
            while i < earlier.len() && i < HISTORY_WINDOW
                invariant
                    i <= earlier.len(),
                    i <= HISTORY_WINDOW,
                    history == turns(earlier@),
                    messages.len() == i + 1,
                    turns(messages@)[0] == ("system"@, system_text),
                    forall|j: int| 0 <= j < i ==> turns(messages@)[j + 1] == history[j],
                    forall|j: int|
                        0 <= j < messages.len() ==> messages[j].id is None
                            && messages[j].timestamp is None,
                decreases earlier.len() - i,
            {
                messages.push(
                    ChatMessage {
                        id: None,
                        role: earlier[i].role.clone(),
                        content: earlier[i].content.clone(),
                        timestamp: None,
                    },
                );
                i += 1;
            }
        },
        None => {},
    }
    let ghost sent = turns(messages@);
    messages.push(ChatMessage { id: None, role: owned("user"), content: message, timestamp: None });
    proof {
        let want = conversation(system_text, history, message@);
        let got = turns(messages@);
        assert(got.len() == want.len());
        assert forall|j: int| 0 <= j < got.len() implies got[j] == want[j] by {
            if j < sent.len() {
                assert(got[j] == sent[j]);
            }
        }
        assert(got =~= want);
    }
    ChatRequest {
        url,
        authorization: authorization(api_config),
        model: model_or(api_config, DEFAULT_CHAT_MODEL),
        messages,
    }
}

/// Builds the request for an image.
pub fn image_request(api_config: &ApiConfig, prompt: String) -> (request: ImageRequest)
    ensures
        request.url@ == image_url_of(api_config.base_url@),
        request.authorization@ == bearer(api_config.api_key@),
        request.model@ == text_or(opt_text(api_config.model), DEFAULT_IMAGE_MODEL@),
        request.prompt@ == prompt@,
        request.count == 1,
        request.size@ == IMAGE_SIZE@,
{
    let mut url = trim_trailing_slashes(api_config.base_url.as_str());
    url.append("/v1/images/generations");
    ImageRequest {
        url,
        authorization: authorization(api_config),
        model: model_or(api_config, DEFAULT_IMAGE_MODEL),
        prompt,
        count: 1,
        size: owned(IMAGE_SIZE),
    }
}

/// Whether a status tells that the service refused the request.
pub open spec fn refused(status: u16) -> bool {
    status >= 400
}

/// Passes the body of an answer on unless the status tells that the
/// service refused the request.
pub fn accept_status(status: u16, body: String) -> (accepted: Result<String, ApiError>)
    ensures
        match accepted {
            Ok(text) => !refused(status) && text == body,
            Err(e) => refused(status) && e == (ApiError::Rejected { status, body }),
        },
{
    if status >= 400 {
        Err(ApiError::Rejected { status, body })
    } else {
        Ok(body)
    }
}

/// The reply that a text found in an answer makes: the text itself,
/// unless there is none or it is empty.
pub fn reply_from(content: Option<String>) -> (reply: Result<String, ApiError>)
    ensures
        match reply {
            Ok(text) => content == Some(text) && text@.len() > 0,
            Err(e) => e == ApiError::EmptyReply && (content matches Some(text) ==> text@.len()
                == 0),
        },
{
    match content {
        Some(text) => {
            if text.as_str().unicode_len() == 0 {
                Err(ApiError::EmptyReply)
            } else {
                Ok(text)
            }
        },
        None => Err(ApiError::EmptyReply),
    }
}

/// The address of the image that an answer names: the one found in the
/// list of images, else the one found at the top of the answer.
pub fn image_url_from(listed: Option<String>, direct: Option<String>) -> (url: Result<
    String,
    ApiError,
>)
    ensures
        match url {
            Ok(address) => listed == Some(address) || (listed is None && direct == Some(address)),
            Err(e) => e == ApiError::NoImageUrl && listed is None && direct is None,
        },
{
    match listed {
        Some(address) => Ok(address),
        None => match direct {
            Some(address) => Ok(address),
            None => Err(ApiError::NoImageUrl),
        },
    }
}

/// The first element of an array that has elements.
pub open spec fn first_in(json: Json) -> Option<Json> {
    match items_in(json) {
        Some(items) => if items.len() > 0 {
            Some(items[0])
        } else {
            None
        },
        None => None,
    }
}

/// The text that an answer to a text request holds: the `content` of the
/// `message` of the first of its `choices`, where all of these are there
/// and the content is a string.
pub open spec fn content_in(document: Json) -> Option<Seq<char>> {
    match member_in(document, "choices"@) {
        Some(choices) => match first_in(choices) {
            Some(first) => match member_in(first, "message"@) {
                Some(message) => match member_in(message, "content"@) {
                    Some(content) => text_in(content),
                    None => None,
                },
                None => None,
            },
            None => None,
        },
        None => None,
    }
}

/// The address that an answer to an image request lists: the `url` of the
/// first entry of its `data`.
pub open spec fn listed_url_in(document: Json) -> Option<Seq<char>> {
    match member_in(document, "data"@) {
        Some(data) => match first_in(data) {
            Some(first) => match member_in(first, "url"@) {
                Some(url) => text_in(url),
                None => None,
            },
            None => None,
        },
        None => None,
    }
}

/// The address that an answer to an image request holds at its top.
pub open spec fn direct_url_in(document: Json) -> Option<Seq<char>> {
    match member_in(document, "url"@) {
        Some(url) => text_in(url),
        None => None,
    }
}

/// The address of the image in an answer: the listed one, else the one at
/// the top.
pub open spec fn image_url_in(document: Json) -> Option<Seq<char>> {
    match listed_url_in(document) {
        Some(url) => Some(url),
        None => direct_url_in(document),
    }
}

/// The first element of a value that is an array with elements.
fn first_item<'a>(value: &'a serde_json::Value) -> (first: Option<&'a serde_json::Value>)
    ensures
        match first {
            Some(found) => first_in(json_of(*value)) == Some(json_of(*found)),
            None => first_in(json_of(*value)) is None,
        },
{
    match json_items(value) {
        Some(items) => {
            if items.len() > 0 {
                Some(&items[0])
            } else {
                None
            }
        },
        None => None,
    }
}

/// Finds the text in a parsed answer to a text request.
fn content_of(document: &serde_json::Value) -> (content: Option<String>)
    ensures
        opt_text(content) == content_in(json_of(*document)),
{
    let choices = match json_member(document, "choices") {
        Some(choices) => choices,
        None => {
            return None;
        },
    };
    let first = match first_item(choices) {
        Some(first) => first,
        None => {
            return None;
        },
    };
    let message = match json_member(first, "message") {
        Some(message) => message,
        None => {
            return None;
        },
    };
    match json_member(message, "content") {
        Some(content) => json_text(content),
        None => None,
    }
}

/// Finds the listed address in a parsed answer to an image request.
fn listed_url_of(document: &serde_json::Value) -> (url: Option<String>)
    ensures
        opt_text(url) == listed_url_in(json_of(*document)),
{
    let data = match json_member(document, "data") {
        Some(data) => data,
        None => {
            return None;
        },
    };
    let first = match first_item(data) {
        Some(first) => first,
        None => {
            return None;
        },
    };
    match json_member(first, "url") {
        Some(url) => json_text(url),
        None => None,
    }
}

/// Finds the address at the top of a parsed answer to an image request.
fn direct_url_of(document: &serde_json::Value) -> (url: Option<String>)
    ensures
        opt_text(url) == direct_url_in(json_of(*document)),
{
    match json_member(document, "url") {
        Some(url) => json_text(url),
        None => None,
    }
}

/// Reads the answer to a text request: the generated text.  An answer that
/// is no JSON document is unreadable; one without text, or with an empty
/// text, is an empty reply.
pub fn chat_reply(body: &str) -> (reply: Result<String, ApiError>)
    ensures
        match parsed_json(body@) {
            None => reply == Err::<String, ApiError>(ApiError::Unreadable),
            Some(document) => match content_in(document) {
                Some(text) => if text.len() > 0 {
                    reply is Ok && reply->Ok_0@ == text
                } else {
                    reply == Err::<String, ApiError>(ApiError::EmptyReply)
                },
                None => reply == Err::<String, ApiError>(ApiError::EmptyReply),
            },
        },
{
    match parse_json(body) {
        Ok(document) => reply_from(content_of(&document)),
        Err(_) => Err(ApiError::Unreadable),
    }
}

/// Reads the answer to an image request: the address of the image.
pub fn image_reply(body: &str) -> (reply: Result<String, ApiError>)
    ensures
        match parsed_json(body@) {
            None => reply == Err::<String, ApiError>(ApiError::Unreadable),
            Some(document) => match image_url_in(document) {
                Some(url) => reply is Ok && reply->Ok_0@ == url,
                None => reply == Err::<String, ApiError>(ApiError::NoImageUrl),
            },
        },
{
    match parse_json(body) {
        Ok(document) => image_url_from(listed_url_of(&document), direct_url_of(&document)),
        Err(_) => Err(ApiError::Unreadable),
    }
}

} // verus!
