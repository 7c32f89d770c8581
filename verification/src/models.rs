//! Model-facing items: message content, image tags, allow-prefix lists and
//! function-call output payloads.
use vstd::prelude::*;

use std::collections::HashMap;

use crate::text::append_chars;
use crate::text::append_str;
use crate::text::chars_lt;
use crate::text::chars_of;
use crate::text::compare_chars;
use crate::text::dec;
use crate::text::ends_with;
use crate::text::ends_with_str;
use crate::text::join;
use crate::text::join_chars;
use crate::text::push_dec;
use crate::text::slice_chars;
use crate::text::starts_with;
use crate::text::starts_with_str;
use crate::text::string_of;
use crate::text::trim;
use crate::text::trim_chars;
use crate::text::utf8_len;
use crate::text::views;

verus! {

// ------------------------------------------------------------ message content

#[derive(Clone, Copy, PartialEq, Eq, Structural, Debug)]
pub enum ImageDetail {
    Auto,
    Low,
    High,
    Original,
}

pub const DEFAULT_IMAGE_DETAIL: ImageDetail = ImageDetail::High;

#[derive(Clone, Debug, PartialEq, Eq)]
pub enum ContentItem {
    InputText { text: String },
    InputImage { image_url: String, detail: Option<ImageDetail> },
    OutputText { text: String },
}

#[derive(Clone, Debug, PartialEq, Eq)]
pub enum AgentMessageInputContent {
    InputText { text: String },
    EncryptedContent { encrypted_content: String },
}

/// Classifies an assistant message as interim commentary or final answer text.
#[derive(Clone, Copy, PartialEq, Eq, Structural, Debug)]
pub enum MessagePhase {
    Commentary,
    FinalAnswer,
}

/// Passthrough metadata copied into underlying chat messages.
#[derive(Clone, Debug, PartialEq, Eq)]
pub struct InternalChatMessageMetadataPassthrough {
    pub turn_id: Option<String>,
}

impl Default for InternalChatMessageMetadataPassthrough {
    fn default() -> (r: InternalChatMessageMetadataPassthrough)
        ensures
            r.turn_id is None,
    {
        InternalChatMessageMetadataPassthrough { turn_id: None }
    }
}

pub open spec fn opt_chars(o: Option<String>) -> Option<Seq<char>> {
    match o {
        Some(s) => Some(s@),
        None => None,
    }
}

/// Whether metadata already records a non-empty turn id.
pub open spec fn has_turn_id(m: Option<InternalChatMessageMetadataPassthrough>) -> bool {
    match m {
        Some(x) => match x.turn_id {
            Some(t) => t@.len() > 0,
            None => false,
        },
        None => false,
    }
}

impl InternalChatMessageMetadataPassthrough {
    /// Records the turn id unless it is empty or one is already recorded.
    pub fn set_turn_id_if_missing(metadata: &mut Option<InternalChatMessageMetadataPassthrough>, turn_id: &str)
        ensures
            (turn_id@.len() == 0 || has_turn_id(*old(metadata))) ==> *final(metadata) == *old(metadata),
            !(turn_id@.len() == 0 || has_turn_id(*old(metadata))) ==> (match *final(metadata) {
                Some(m) => opt_chars(m.turn_id) == Some(turn_id@),
                None => false,
            }),
    {
        let present = match metadata {
            Some(m) => match &m.turn_id {
                Some(t) => t.unicode_len() > 0,
                None => false,
            },
            None => false,
        };
        if turn_id.unicode_len() == 0 || present {
            return;
        }
        *metadata = Some(InternalChatMessageMetadataPassthrough { turn_id: Some(String::from_str(turn_id)) });
    }
}

pub open spec fn agent_text_parts(content: Seq<AgentMessageInputContent>) -> Option<Seq<Seq<char>>>
    decreases content.len(),
{
    if content.len() == 0 {
        Some(Seq::<Seq<char>>::empty())
    } else {
        match agent_text_parts(content.drop_last()) {
            Some(parts) => match content.last() {
                AgentMessageInputContent::InputText { text } => Some(parts.push(text@)),
                AgentMessageInputContent::EncryptedContent { .. } => None,
            },
            None => None,
        }
    }
}

/// The text of an agent message that is entirely plaintext, its parts
/// joined by newlines; none when a part is encrypted or the text is blank.
pub open spec fn spec_plaintext_agent_message(content: Seq<AgentMessageInputContent>) -> Option<Seq<char>> {
    match agent_text_parts(content) {
        Some(parts) => if trim(join(parts, "\n"@)).len() > 0 {
            Some(join(parts, "\n"@))
        } else {
            None
        },
        None => None,
    }
}

pub fn plaintext_agent_message_content(content: &[AgentMessageInputContent]) -> (r: Option<String>)
    ensures
        opt_chars(r) == spec_plaintext_agent_message(content@),
{
    let mut parts: Vec<Vec<char>> = Vec::new();
    for i in 0..content.len()
        invariant
            agent_text_parts(content@.take(i as int)) == Some(views(parts@)),
    {
        assert(content@.take(i + 1).drop_last() =~= content@.take(i as int));
        assert(content@.take(i + 1).last() == content@[i as int]);
        match &content[i] {
            AgentMessageInputContent::InputText { text } => {
                crate::digest::push_row(&mut parts, chars_of(text.as_str()));
            },
            AgentMessageInputContent::EncryptedContent { .. } => {
                proof {
                    lemma_agent_parts_stay_none(content@, i as int + 1);
                }
                return None;
            },
        }
    }
    assert(content@.take(content.len() as int) =~= content@);
    let text = join_chars(&parts, "\n");
    if trim_chars(&text).len() > 0 {
        Some(string_of(&text))
    } else {
        None
    }
}

proof fn lemma_agent_parts_stay_none(content: Seq<AgentMessageInputContent>, i: int)
    requires
        0 <= i <= content.len(),
        agent_text_parts(content.take(i)) is None,
    ensures
        agent_text_parts(content) is None,
    decreases content.len() - i,
{
    if i < content.len() {
        assert(content.take(i + 1).drop_last() =~= content.take(i));
        lemma_agent_parts_stay_none(content, i + 1);
    } else {
        assert(content.take(i) =~= content);
    }
}

/// Whether any part of an agent message is encrypted.
pub open spec fn has_encrypted_part(content: Seq<AgentMessageInputContent>) -> bool {
    exists|i: int| 0 <= i < content.len() && #[trigger] content[i] is EncryptedContent
}

/// The texts of the plain parts of an agent message, in order.
pub open spec fn input_texts(content: Seq<AgentMessageInputContent>) -> Seq<Seq<char>> {
    content.map_values(
        |p: AgentMessageInputContent|
            match p {
                AgentMessageInputContent::InputText { text } => text@,
                AgentMessageInputContent::EncryptedContent { .. } => Seq::<char>::empty(),
            },
    )
}

proof fn lemma_agent_text_parts(content: Seq<AgentMessageInputContent>)
    ensures
        agent_text_parts(content) == if has_encrypted_part(content) {
            None
        } else {
            Some(input_texts(content))
        },
    decreases content.len(),
{
    if content.len() > 0 {
        let init = content.drop_last();
        lemma_agent_text_parts(init);
        assert(input_texts(content) =~= input_texts(init).push(input_texts(content).last()));
        if has_encrypted_part(init) {
            let i = choose|i: int| 0 <= i < init.len() && #[trigger] init[i] is EncryptedContent;
            assert(content[i] == init[i]);
        }
        if has_encrypted_part(content) && !(content.last() is EncryptedContent) {
            let i = choose|i: int| 0 <= i < content.len() && #[trigger] content[i] is EncryptedContent;
            assert(init[i] == content[i]);
        }
        if content.last() is EncryptedContent {
            assert(content[content.len() - 1] is EncryptedContent);
        }
    } else {
        assert(input_texts(content) =~= Seq::<Seq<char>>::empty());
    }
}

/// The plaintext of an agent message is nothing when any part is encrypted;
/// else the texts of its parts joined by newlines, or nothing when that text
/// is blank.
pub proof fn law_plaintext_is_the_joined_text(content: Seq<AgentMessageInputContent>)
    ensures
        spec_plaintext_agent_message(content) == if has_encrypted_part(content) {
            None
        } else if trim(join(input_texts(content), "\n"@)).len() > 0 {
            Some(join(input_texts(content), "\n"@))
        } else {
            None
        },
{
    lemma_agent_text_parts(content);
}

// ------------------------------------------------------------ image tags

pub const VIEW_IMAGE_TOOL_NAME: &'static str = "view_image";

pub fn image_open_tag_text() -> (r: String)
    ensures
        r@ == "<image>"@,
{
    String::from_str("<image>")
}

pub fn image_close_tag_text() -> (r: String)
    ensures
        r@ == "</image>"@,
{
    String::from_str("</image>")
}

pub open spec fn spec_local_image_label(n: nat) -> Seq<char> {
    "[Image #"@ + dec(n) + "]"@
}

pub fn local_image_label_text(label_number: usize) -> (r: String)
    ensures
        r@ == spec_local_image_label(label_number as nat),
{
    let mut r = chars_of("[Image #");
    push_dec(&mut r, label_number);
    append_str(&mut r, "]");
    string_of(&r)
}

/// `<image name=[Image #n] path="...">`.
pub fn local_image_open_tag_text_with_path(label_number: usize, path: &str) -> (r: String)
    ensures
        r@ == "<image name="@ + spec_local_image_label(label_number as nat) + " path=\""@ + path@
            + "\""@ + ">"@,
{
    let mut r = chars_of("<image name=");
    let label = local_image_label_text(label_number);
    append_str(&mut r, label.as_str());
    append_str(&mut r, " path=\"");
    append_str(&mut r, path);
    append_str(&mut r, "\"");
    append_str(&mut r, ">");
    string_of(&r)
}

/// Whether a text is a local image open tag: `<image name=` ... `>`.
pub fn is_local_image_open_tag_text(text: &str) -> (r: bool)
    ensures
        r == (starts_with(text@, "<image name="@) && ends_with(
            text@.skip("<image name="@.len() as int),
            ">"@,
        )),
{
    let c = chars_of(text);
    if !starts_with_str(&c, "<image name=") {
        return false;
    }
    let p = chars_of("<image name=");
    let rest = slice_chars(&c, p.len(), c.len());
    assert(rest@ =~= text@.skip("<image name="@.len() as int));
    ends_with_str(&rest, ">")
}

pub fn is_image_open_tag_text(text: &str) -> (r: bool)
    ensures
        r == (text@ == "<image>"@),
{
    crate::text::eq_str(&chars_of(text), "<image>")
}

pub fn is_image_close_tag_text(text: &str) -> (r: bool)
    ensures
        r == (text@ == "</image>"@),
{
    crate::text::eq_str(&chars_of(text), "</image>")
}

pub fn is_local_image_close_tag_text(text: &str) -> (r: bool)
    ensures
        r == (text@ == "</image>"@),
{
    is_image_close_tag_text(text)
}

/// Whether a local image is processed now or later.
#[derive(Clone, Copy, PartialEq, Eq, Structural, Debug)]
pub enum LocalImagePreparation {
    Process,
    Defer,
}

/// How an image is prepared for a prompt: as it is, or resized to fit.
#[derive(Clone, Copy, PartialEq, Eq, Structural, Debug)]
pub enum PromptImageMode {
    Original,
    ResizeToFit,
}

/// The preparation a detail level asks for: only `Original` keeps the image
/// as it is.
pub fn prompt_image_mode(detail: ImageDetail) -> (r: PromptImageMode)
    ensures
        (r == PromptImageMode::Original) == (detail == ImageDetail::Original),
{
    match detail {
        ImageDetail::Original => PromptImageMode::Original,
        ImageDetail::Auto | ImageDetail::Low | ImageDetail::High => PromptImageMode::ResizeToFit,
    }
}

/// Why a local image could not be prepared, with the error's message.
#[derive(Clone, Debug, PartialEq, Eq)]
pub enum ImageLoadFailure {
    Read { message: String },
    Encode { message: String },
    InvalidDataUrl { message: String },
    ImageTooLarge { message: String },
    /// A decoding failure; `invalid_image` tells a malformed image from other
    /// decoding trouble.
    Decode { message: String, invalid_image: bool },
    UnsupportedImageFormat { mime: String },
}

pub open spec fn read_failure_text(path: Seq<char>, error: Seq<char>) -> Seq<char> {
    "Codex could not read the local image at `"@ + path + "`: "@ + error
}

pub open spec fn invalid_image_text(path: Seq<char>, error: Seq<char>) -> Seq<char> {
    "Image located at `"@ + path + "` is invalid: "@ + error
}

pub open spec fn unsupported_image_text(path: Seq<char>, mime: Seq<char>) -> Seq<char> {
    "Codex cannot attach image at `"@ + path + "`: unsupported image `"@ + mime + "`."@
}

fn input_text(text: Vec<char>) -> (r: ContentItem)
    ensures
        r matches ContentItem::InputText { text: t } && t@ == text@,
{
    ContentItem::InputText { text: string_of(&text) }
}

/// The text that stands in for a local image that could not be read.
fn local_image_error_placeholder(path: &str, error: &str) -> (r: ContentItem)
    ensures
        r matches ContentItem::InputText { text } && text@ == read_failure_text(path@, error@),
{
    let mut t = chars_of("Codex could not read the local image at `");
    append_str(&mut t, path);
    append_str(&mut t, "`: ");
    append_str(&mut t, error);
    input_text(t)
}

/// The text that stands in for a malformed local image.
fn invalid_image_error_placeholder(path: &str, error: &str) -> (r: ContentItem)
    ensures
        r matches ContentItem::InputText { text } && text@ == invalid_image_text(path@, error@),
{
    let mut t = chars_of("Image located at `");
    append_str(&mut t, path);
    append_str(&mut t, "` is invalid: ");
    append_str(&mut t, error);
    input_text(t)
}

/// The text that stands in for a local image of a type that cannot be sent.
fn unsupported_image_error_placeholder(path: &str, mime: &str) -> (r: ContentItem)
    ensures
        r matches ContentItem::InputText { text } && text@ == unsupported_image_text(path@, mime@),
{
    let mut t = chars_of("Codex cannot attach image at `");
    append_str(&mut t, path);
    append_str(&mut t, "`: unsupported image `");
    append_str(&mut t, mime);
    append_str(&mut t, "`.");
    input_text(t)
}

pub open spec fn is_text_item(item: ContentItem, text: Seq<char>) -> bool {
    item matches ContentItem::InputText { text: t } && t@ == text
}

/// The items of a prepared local image: the image, framed by its labelled
/// open tag and the close tag when a label number is given.
pub open spec fn local_image_items_ok(
    items: Seq<ContentItem>,
    path: Seq<char>,
    image_url: Seq<char>,
    label_number: Option<usize>,
    detail: ImageDetail,
) -> bool {
    let image_at = if label_number is Some { 1int } else { 0int };
    &&& items.len() == if label_number is Some { 3int } else { 1int }
    &&& items[image_at] matches ContentItem::InputImage { image_url: u, detail: d } && u@ == image_url
        && d == Some(detail)
    &&& label_number matches Some(n) ==> is_text_item(
        items[0],
        "<image name="@ + spec_local_image_label(n as nat) + " path=\""@ + path + "\""@ + ">"@,
    ) && is_text_item(items[2], "</image>"@)
}

fn local_image_content_items(
    path: &str,
    image_url: String,
    label_number: Option<usize>,
    detail: ImageDetail,
) -> (r: Vec<ContentItem>)
    ensures
        local_image_items_ok(r@, path@, image_url@, label_number, detail),
{
    let mut items: Vec<ContentItem> = Vec::new();
    if let Some(n) = label_number {
        items.push(ContentItem::InputText { text: local_image_open_tag_text_with_path(n, path) });
    }
    items.push(ContentItem::InputImage { image_url, detail: Some(detail) });
    if label_number.is_some() {
        items.push(ContentItem::InputText { text: image_close_tag_text() });
    }
    items
}

/// The items of a local image given the outcome of preparing it (a data URL,
/// or why it failed): the framed image, or one placeholder text that names
/// the path and the failure.
pub fn local_image_content_items_with_label_number(
    path: &str,
    prepared: Result<String, ImageLoadFailure>,
    label_number: Option<usize>,
    detail: ImageDetail,
) -> (r: Vec<ContentItem>)
    ensures
        match prepared {
            Ok(url) => local_image_items_ok(r@, path@, url@, label_number, detail),
            Err(failure) => r@.len() == 1 && match failure {
                ImageLoadFailure::Read { message } => is_text_item(r@[0], read_failure_text(path@, message@)),
                ImageLoadFailure::Encode { message } => is_text_item(r@[0], read_failure_text(path@, message@)),
                ImageLoadFailure::InvalidDataUrl { message } => is_text_item(r@[0], read_failure_text(path@, message@)),
                ImageLoadFailure::ImageTooLarge { message } => is_text_item(r@[0], read_failure_text(path@, message@)),
                ImageLoadFailure::Decode { message, invalid_image } => is_text_item(
                    r@[0],
                    if invalid_image {
                        invalid_image_text(path@, message@)
                    } else {
                        read_failure_text(path@, message@)
                    },
                ),
                ImageLoadFailure::UnsupportedImageFormat { mime } => is_text_item(
                    r@[0],
                    unsupported_image_text(path@, mime@),
                ),
            },
        },
{
    match prepared {
        Ok(url) => local_image_content_items(path, url, label_number, detail),
        Err(failure) => {
            let item = match &failure {
                ImageLoadFailure::Read { message }
                | ImageLoadFailure::Encode { message }
                | ImageLoadFailure::InvalidDataUrl { message }
                | ImageLoadFailure::ImageTooLarge { message } => local_image_error_placeholder(path, message.as_str()),
                ImageLoadFailure::Decode { message, invalid_image } => {
                    if *invalid_image {
                        invalid_image_error_placeholder(path, message.as_str())
                    } else {
                        local_image_error_placeholder(path, message.as_str())
                    }
                },
                ImageLoadFailure::UnsupportedImageFormat { mime } => unsupported_image_error_placeholder(path, mime.as_str()),
            };
            vec![item]
        },
    }
}

// ------------------------------------------------------------ tool calls

#[derive(Clone, Copy, PartialEq, Eq, Structural, Debug)]
pub enum LocalShellStatus {
    Completed,
    InProgress,
    Incomplete,
}

#[derive(Clone, Debug, PartialEq, Eq)]
pub struct LocalShellExecAction {
    pub command: Vec<String>,
    pub timeout_ms: Option<u64>,
    pub working_directory: Option<String>,
    pub env: Option<HashMap<String, String>>,
    pub user: Option<String>,
}

#[derive(Clone, Debug, PartialEq, Eq)]
pub enum LocalShellAction {
    Exec(LocalShellExecAction),
}

#[derive(Clone, Debug, PartialEq, Eq)]
pub enum WebSearchAction {
    Search { query: Option<String>, queries: Option<Vec<String>> },
    OpenPage { url: Option<String> },
    FindInPage { url: Option<String>, pattern: Option<String> },
    Other,
}

#[derive(Clone, Debug, PartialEq, Eq)]
pub enum ReasoningItemReasoningSummary {
    SummaryText { text: String },
}

#[derive(Clone, Debug, PartialEq, Eq)]
pub enum ReasoningItemContent {
    ReasoningText { text: String },
    Text { text: String },
}

/// Whether reasoning content is sent along: only when present and free of
/// raw reasoning text.
pub fn should_serialize_reasoning_content(content: &Option<Vec<ReasoningItemContent>>) -> (r: bool)
    ensures
        r == (content is Some && forall|i: int|
            0 <= i < content.unwrap()@.len() ==> !(content.unwrap()@[i] is ReasoningText)),
{
    match content {
        Some(c) => {
            for i in 0..c.len()
                invariant
                    content is Some,
                    c@ == content.unwrap()@,
                    forall|j: int| 0 <= j < i ==> !(c@[j] is ReasoningText),
            {
                match &c[i] {
                    ReasoningItemContent::ReasoningText { .. } => {
                        assert(c@[i as int] is ReasoningText);
                        return false;
                    },
                    ReasoningItemContent::Text { .. } => {},
                }
            }
            true
        },
        None => false,
    }
}

#[derive(Clone, Debug, PartialEq, Eq)]
pub struct SearchToolCallParams {
    pub query: String,
    pub limit: Option<usize>,
}

/// The base instructions of a thread.
#[derive(Clone, Debug, PartialEq, Eq)]
pub struct BaseInstructions {
    pub text: String,
}

// ------------------------------------------------------------ function call output

#[derive(Clone, Debug, PartialEq, Eq)]
pub enum FunctionCallOutputContentItem {
    InputText { text: String },
    InputImage { image_url: String, detail: Option<ImageDetail> },
    EncryptedContent { encrypted_content: String },
}

/// The non-blank text items, in order.
pub open spec fn text_segments(items: Seq<FunctionCallOutputContentItem>) -> Seq<Seq<char>>
    decreases items.len(),
{
    if items.len() == 0 {
        Seq::<Seq<char>>::empty()
    } else {
        let r = text_segments(items.drop_last());
        match items.last() {
            FunctionCallOutputContentItem::InputText { text } => if trim(text@).len() > 0 {
                r.push(text@)
            } else {
                r
            },
            _ => r,
        }
    }
}

/// The non-blank text items joined by newlines; images and encrypted items
/// are dropped; none when no text remains.
pub open spec fn spec_items_to_text(items: Seq<FunctionCallOutputContentItem>) -> Option<Seq<char>> {
    if text_segments(items).len() == 0 {
        None
    } else {
        Some(join(text_segments(items), "\n"@))
    }
}

pub fn function_call_output_content_items_to_text(content_items: &[FunctionCallOutputContentItem]) -> (r:
    Option<String>)
    ensures
        opt_chars(r) == spec_items_to_text(content_items@),
{
    let mut segments: Vec<Vec<char>> = Vec::new();
    for i in 0..content_items.len()
        invariant
            views(segments@) == text_segments(content_items@.take(i as int)),
    {
        assert(content_items@.take(i + 1).drop_last() =~= content_items@.take(i as int));
        assert(content_items@.take(i + 1).last() == content_items@[i as int]);
        if let FunctionCallOutputContentItem::InputText { text } = &content_items[i] {
            let c = chars_of(text.as_str());
            if trim_chars(&c).len() > 0 {
                crate::digest::push_row(&mut segments, c);
            }
        }
    }
    assert(content_items@.take(content_items.len() as int) =~= content_items@);
    if segments.len() == 0 {
        None
    } else {
        Some(string_of(&join_chars(&segments, "\n")))
    }
}

#[derive(Clone, Debug, PartialEq, Eq)]
pub enum FunctionCallOutputBody {
    Text(String),
    ContentItems(Vec<FunctionCallOutputContentItem>),
}

impl Default for FunctionCallOutputBody {
    fn default() -> (r: FunctionCallOutputBody)
        ensures
            r matches FunctionCallOutputBody::Text(s) && s@.len() == 0,
    {
        FunctionCallOutputBody::Text(String::new())
    }
}

impl FunctionCallOutputBody {
    /// The body as plain text: the text itself, or the text items joined.
    pub fn to_text(&self) -> (r: Option<String>)
        ensures
            opt_chars(r) == match self {
                FunctionCallOutputBody::Text(s) => Some(s@),
                FunctionCallOutputBody::ContentItems(items) => spec_items_to_text(items@),
            },
    {
        match self {
            FunctionCallOutputBody::Text(content) => Some(content.clone()),
            FunctionCallOutputBody::ContentItems(items) => function_call_output_content_items_to_text(
                items.as_slice(),
            ),
        }
    }
}

/// What is reported back for a tool call.
#[derive(Clone, Debug, PartialEq, Eq)]
pub struct FunctionCallOutputPayload {
    pub body: FunctionCallOutputBody,
    pub success: Option<bool>,
}

impl Default for FunctionCallOutputPayload {
    fn default() -> (r: FunctionCallOutputPayload)
        ensures
            r.success is None,
            r.body matches FunctionCallOutputBody::Text(s) && s@.len() == 0,
    {
        FunctionCallOutputPayload { body: FunctionCallOutputBody::default(), success: None }
    }
}

impl FunctionCallOutputPayload {
    pub fn from_text(content: String) -> (r: FunctionCallOutputPayload)
        ensures
            r.body == FunctionCallOutputBody::Text(content),
            r.success is None,
    {
        FunctionCallOutputPayload { body: FunctionCallOutputBody::Text(content), success: None }
    }

    pub fn from_content_items(content_items: Vec<FunctionCallOutputContentItem>) -> (r:
        FunctionCallOutputPayload)
        ensures
            r.body == FunctionCallOutputBody::ContentItems(content_items),
            r.success is None,
    {
        FunctionCallOutputPayload {
            body: FunctionCallOutputBody::ContentItems(content_items),
            success: None,
        }
    }

    pub fn text_content(&self) -> (r: Option<&str>)
        ensures
            match self.body {
                FunctionCallOutputBody::Text(s) => r matches Some(t) && t@ == s@,
                FunctionCallOutputBody::ContentItems(_) => r is None,
            },
    {
        match &self.body {
            FunctionCallOutputBody::Text(content) => Some(content.as_str()),
            FunctionCallOutputBody::ContentItems(_) => None,
        }
    }

    /// The text body, for editing in place.
    pub fn text_content_mut(&mut self) -> (r: Option<&mut String>)
        ensures
            (old(self).body is Text) == (r is Some),
            r matches Some(t) ==> *t == old(self).body->Text_0 && *final(self) == (FunctionCallOutputPayload {
                body: FunctionCallOutputBody::Text(*final(t)),
                success: old(self).success,
            }),
            r is None ==> *final(self) == *old(self),
    {
        match &mut self.body {
            FunctionCallOutputBody::Text(content) => Some(content),
            FunctionCallOutputBody::ContentItems(_) => None,
        }
    }

    /// The content items, for editing in place.
    pub fn content_items_mut(&mut self) -> (r: Option<&mut Vec<FunctionCallOutputContentItem>>)
        ensures
            (old(self).body is ContentItems) == (r is Some),
            r matches Some(v) ==> *v == old(self).body->ContentItems_0 && *final(self) == (
            FunctionCallOutputPayload {
                body: FunctionCallOutputBody::ContentItems(*final(v)),
                success: old(self).success,
            }),
            r is None ==> *final(self) == *old(self),
    {
        match &mut self.body {
            FunctionCallOutputBody::Text(_) => None,
            FunctionCallOutputBody::ContentItems(items) => Some(items),
        }
    }

    pub fn content_items(&self) -> (r: Option<&[FunctionCallOutputContentItem]>)
        ensures
            match self.body {
                FunctionCallOutputBody::Text(_) => r is None,
                FunctionCallOutputBody::ContentItems(items) => r matches Some(v) && v@ == items@,
            },
    {
        match &self.body {
            FunctionCallOutputBody::Text(_) => None,
            FunctionCallOutputBody::ContentItems(items) => Some(items.as_slice()),
        }
    }
}

// ------------------------------------------------------------ allow prefixes

/// A lowercase hexadecimal digit.
pub open spec fn lower_hex_digit(d: int) -> char {
    if d < 10 {
        (48 + d) as char
    } else {
        (87 + d) as char
    }
}

/// How `serde_json` writes one character inside a string: `\"`, `\\`, the
/// short escapes `\b`, `\t`, `\n`, `\f`, `\r`, any other character below
/// 0x20 as `\u00` and two lowercase hex digits, everything else as it is.
pub open spec fn json_escape_char(c: char) -> Seq<char> {
    if c == '"' {
        seq!['\\', '"']
    } else if c == '\\' {
        seq!['\\', '\\']
    } else if c == '\u{8}' {
        seq!['\\', 'b']
    } else if c == '\t' {
        seq!['\\', 't']
    } else if c == '\n' {
        seq!['\\', 'n']
    } else if c == '\u{c}' {
        seq!['\\', 'f']
    } else if c == '\r' {
        seq!['\\', 'r']
    } else if (c as u32) < 0x20 {
        seq!['\\', 'u', '0', '0', lower_hex_digit((c as u32) as int / 16), lower_hex_digit((c as u32) as int % 16)]
    } else {
        seq![c]
    }
}

/// The characters of a string, each escaped as `serde_json` writes it.
pub open spec fn json_escaped(s: Seq<char>) -> Seq<char>
    decreases s.len(),
{
    if s.len() == 0 {
        Seq::<char>::empty()
    } else {
        json_escaped(s.drop_last()) + json_escape_char(s.last())
    }
}

/// What `serde_json::to_string` gives for a string: the escaped characters
/// between double quotes.
pub open spec fn json_string_literal(s: Seq<char>) -> Seq<char> {
    seq!['"'] + json_escaped(s) + seq!['"']
}

/// Renders one token with `serde_json::to_string`. The contract claims that
/// the result is the token quoted and escaped as `json_string_literal` states
/// (serde_json's `format_escaped_str` and its escape table); serde_json cannot
/// fail on a string, so the `Debug` rendering it would fall back on never
/// occurs.
#[verifier::external_body]
pub(crate) fn json_quote(token: &str) -> (r: String)
    ensures
        r@ == json_string_literal(token@),
{
    match serde_json::to_string(token) {
        Ok(s) => s,
        Err(_) => format!("{token:?}"),
    }
}

pub open spec fn prefix_view(p: Vec<String>) -> Seq<Seq<char>> {
    p@.map_values(|s: String| s@)
}

/// The total UTF-8 length of a prefix's tokens.
pub open spec fn combined_len(p: Seq<Seq<char>>) -> nat
    decreases p.len(),
{
    if p.len() == 0 {
        0
    } else {
        combined_len(p.drop_last()) + utf8_len(p.last())
    }
}

/// Token sequences in lexicographic order, a proper prefix first.
pub open spec fn tokens_lt(a: Seq<Seq<char>>, b: Seq<Seq<char>>) -> bool
    decreases a.len(),
{
    if a.len() == 0 {
        b.len() > 0
    } else if b.len() == 0 {
        false
    } else if a[0] != b[0] {
        chars_lt(a[0], b[0])
    } else {
        tokens_lt(a.drop_first(), b.drop_first())
    }
}

/// Shorter prefixes first, then shorter text, then in lexicographic order.
pub open spec fn prefix_before(a: Seq<Seq<char>>, b: Seq<Seq<char>>) -> bool {
    a.len() < b.len() || (a.len() == b.len() && (combined_len(a) < combined_len(b) || (
    combined_len(a) == combined_len(b) && tokens_lt(a, b))))
}

pub open spec fn insert_prefix(ps: Seq<Seq<Seq<char>>>, p: Seq<Seq<char>>) -> Seq<Seq<Seq<char>>>
    decreases ps.len(),
{
    if ps.len() == 0 {
        seq![p]
    } else if prefix_before(p, ps[0]) {
        seq![p] + ps
    } else {
        seq![ps[0]] + insert_prefix(ps.drop_first(), p)
    }
}

/// The prefixes in the order of [`prefix_before`] (a stable insertion order).
pub open spec fn sorted_prefixes(ps: Seq<Seq<Seq<char>>>) -> Seq<Seq<Seq<char>>>
    decreases ps.len(),
{
    if ps.len() == 0 {
        Seq::<Seq<Seq<char>>>::empty()
    } else {
        insert_prefix(sorted_prefixes(ps.drop_last()), ps.last())
    }
}

/// `[tok, tok, ...]` with each token as a JSON string.
pub open spec fn rendered_prefix(p: Seq<Seq<char>>) -> Seq<char> {
    "["@ + join(p.map_values(|t: Seq<char>| json_string_literal(t)), ", "@) + "]"@
}

/// One line of the list: `- ` and the rendered prefix.
pub open spec fn prefix_line(p: Seq<Seq<char>>) -> Seq<char> {
    "- "@ + rendered_prefix(p)
}

pub open spec fn allow_prefix_marker() -> Seq<char> {
    "...\n[Some commands were truncated]"@
}

/// The allowed command prefixes as a list: at most 100, sorted, cut at 5000
/// characters, with a marker when anything was left out.
pub open spec fn spec_format_allow_prefixes(ps: Seq<Seq<Seq<char>>>) -> Seq<char> {
    let sorted = sorted_prefixes(ps);
    let shown = sorted.take(if sorted.len() < 100 { sorted.len() as int } else { 100 });
    let full = join(shown.map_values(|p: Seq<Seq<char>>| prefix_line(p)), "\n"@);
    let cut = full.len() > 5000;
    let output = if cut {
        full.take(5000)
    } else {
        full
    };
    if ps.len() > 100 || cut {
        output + allow_prefix_marker()
    } else {
        output
    }
}

proof fn lemma_sorted_prefixes_len(ps: Seq<Seq<Seq<char>>>)
    ensures
        sorted_prefixes(ps).len() == ps.len(),
    decreases ps.len(),
{
    if ps.len() > 0 {
        lemma_sorted_prefixes_len(ps.drop_last());
        lemma_insert_prefix_len(sorted_prefixes(ps.drop_last()), ps.last());
    }
}

proof fn lemma_insert_prefix_len(ps: Seq<Seq<Seq<char>>>, p: Seq<Seq<char>>)
    ensures
        insert_prefix(ps, p).len() == ps.len() + 1,
    decreases ps.len(),
{
    if ps.len() > 0 && !prefix_before(p, ps[0]) {
        lemma_insert_prefix_len(ps.drop_first(), p);
    }
}

/// Every token's UTF-8 length fits in `usize`, as that of any `str` does.
pub open spec fn tokens_fit(ps: Seq<Seq<Seq<char>>>) -> bool {
    forall|i: int, j: int|
        0 <= i < ps.len() && 0 <= j < ps[i].len() ==> utf8_len(#[trigger] ps[i][j]) <= usize::MAX
}

fn prefix_combined_str_len(p: &Vec<Vec<char>>) -> (r: u128)
    requires
        forall|j: int| 0 <= j < p@.len() ==> utf8_len(#[trigger] p@[j]@) <= usize::MAX,
    ensures
        r == combined_len(views(p@)),
{
    let mut total: u128 = 0;
    let ghost pv = views(p@);
    for i in 0..p.len()
        invariant
            pv == views(p@),
            forall|j: int| 0 <= j < p@.len() ==> utf8_len(#[trigger] p@[j]@) <= usize::MAX,
            total == combined_len(pv.take(i as int)),
            total <= i * (usize::MAX as u128),
    {
        assert(pv.take(i + 1).drop_last() =~= pv.take(i as int));
        assert(pv[i as int] == p@[i as int]@);
        let n = crate::text::utf8_len_exec(&p[i]);
        assert(utf8_len(p@[i as int]@) <= usize::MAX);
        assert(total + n <= (i + 1) * (usize::MAX as u128)) by (nonlinear_arith)
            requires
                total <= i * (usize::MAX as u128),
                n <= usize::MAX,
        ;
        assert((i + 1) * (usize::MAX as u128) <= 0xffff_ffff_ffff_ffff * 0xffff_ffff_ffff_ffffu128) by (nonlinear_arith)
            requires
                i + 1 <= usize::MAX,
                usize::MAX <= 0xffff_ffff_ffff_ffff,
        ;
        total = total + n as u128;
    }
    assert(pv.take(p.len() as int) =~= pv);
    total
}

fn tokens_lt_exec(a: &Vec<Vec<char>>, b: &Vec<Vec<char>>) -> (r: bool)
    ensures
        r == tokens_lt(views(a@), views(b@)),
{
    let ghost av = views(a@);
    let ghost bv = views(b@);
    let mut i: usize = 0;
    assert(av.skip(0) =~= av);
    assert(bv.skip(0) =~= bv);
    while i < a.len() && i < b.len()
        invariant
            av == views(a@),
            bv == views(b@),
            i <= a.len(),
            i <= b.len(),
            tokens_lt(av, bv) == tokens_lt(av.skip(i as int), bv.skip(i as int)),
        decreases a.len() - i,
    {
        assert(av.skip(i as int)[0] == a@[i as int]@);
        assert(bv.skip(i as int)[0] == b@[i as int]@);
        let c = compare_chars(&a[i], &b[i]);
        if c != 0 {
            return c < 0;
        }
        assert(av.skip(i as int).drop_first() =~= av.skip(i + 1));
        assert(bv.skip(i as int).drop_first() =~= bv.skip(i + 1));
        i += 1;
    }
    i == a.len() && i < b.len()
}

fn prefix_before_exec(a: &Vec<Vec<char>>, alen: u128, b: &Vec<Vec<char>>, blen: u128) -> (r: bool)
    requires
        alen == combined_len(views(a@)),
        blen == combined_len(views(b@)),
    ensures
        r == prefix_before(views(a@), views(b@)),
{
    a.len() < b.len() || (a.len() == b.len() && (alen < blen || (alen == blen && tokens_lt_exec(a, b))))
}

/// A prefix as `[tok, tok, ...]`, each token as a JSON string.
fn render_command_prefix(prefix: &Vec<Vec<char>>) -> (r: Vec<char>)
    ensures
        r@ == rendered_prefix(views(prefix@)),
{
    let ghost tv = views(prefix@);
    let mut quoted: Vec<Vec<char>> = Vec::new();
    for t in 0..prefix.len()
        invariant
            tv == views(prefix@),
            views(quoted@) == tv.take(t as int).map_values(|x: Seq<char>| json_string_literal(x)),
    {
        let q = json_quote(string_of(&prefix[t]).as_str());
        assert(tv[t as int] == prefix@[t as int]@);
        crate::digest::push_row(&mut quoted, chars_of(q.as_str()));
        assert(tv.take(t + 1).map_values(|x: Seq<char>| json_string_literal(x)) =~= tv.take(
            t as int,
        ).map_values(|x: Seq<char>| json_string_literal(x)).push(json_string_literal(tv[t as int])));
    }
    assert(tv.take(prefix.len() as int) =~= tv);
    let mut line = chars_of("[");
    append_chars(&mut line, &join_chars(&quoted, ", "));
    append_str(&mut line, "]");
    line
}

/// The allowed command prefixes as a model-readable list.
pub fn format_allow_prefixes(prefixes: Vec<Vec<String>>) -> (r: Option<String>)
    requires
        tokens_fit(prefixes@.map_values(|p: Vec<String>| prefix_view(p))),
    ensures
        opt_chars(r) == Some(
            spec_format_allow_prefixes(prefixes@.map_values(|p: Vec<String>| prefix_view(p))),
        ),
{
    let ghost pv = prefixes@.map_values(|p: Vec<String>| prefix_view(p));
    let mut sorted: Vec<(Vec<Vec<char>>, u128)> = Vec::new();
    for i in 0..prefixes.len()
        invariant
            pv == prefixes@.map_values(|p: Vec<String>| prefix_view(p)),
            tokens_fit(pv),
            sorted@.map_values(|e: (Vec<Vec<char>>, u128)| views(e.0@)) == sorted_prefixes(pv.take(i as int)),
            forall|k: int| 0 <= k < sorted@.len() ==> (#[trigger] sorted@[k]).1 == combined_len(views(sorted@[k].0@)),
    {
        let toks = crate::review_anchor::to_chars_vec(&prefixes[i]);
        assert(views(toks@) == pv[i as int]);
        assert forall|j: int| 0 <= j < toks@.len() implies utf8_len(#[trigger] toks@[j]@) <= usize::MAX by {
            assert(toks@[j]@ == pv[i as int][j]);
        }
        let len = prefix_combined_str_len(&toks);
        let ghost sv = sorted@.map_values(|e: (Vec<Vec<char>>, u128)| views(e.0@));
        let ghost p = views(toks@);
        assert(pv.take(i + 1).drop_last() =~= pv.take(i as int));
        assert(pv.take(i + 1).last() == p);
        let mut j: usize = 0;
        assert(sv.take(0) =~= Seq::<Seq<Seq<char>>>::empty());
        assert(sv.skip(0) =~= sv);
        while j < sorted.len() && !prefix_before_exec(&toks, len, &sorted[j].0, sorted[j].1)
            invariant
                j <= sorted.len(),
                sv == sorted@.map_values(|e: (Vec<Vec<char>>, u128)| views(e.0@)),
                p == views(toks@),
                len == combined_len(p),
                forall|k: int| 0 <= k < sorted@.len() ==> (#[trigger] sorted@[k]).1 == combined_len(views(sorted@[k].0@)),
                insert_prefix(sv, p) == sv.take(j as int) + insert_prefix(sv.skip(j as int), p),
            decreases sorted.len() - j,
        {
            assert(sv.skip(j as int)[0] == views(sorted@[j as int].0@));
            assert(sv.skip(j as int).drop_first() =~= sv.skip(j + 1));
            assert(sv.take(j + 1) =~= sv.take(j as int) + seq![sv[j as int]]);
            j += 1;
        }
        proof {
            let rest = sv.skip(j as int);
            if j < sorted.len() {
                assert(rest[0] == views(sorted@[j as int].0@));
            } else {
                assert(rest =~= Seq::<Seq<Seq<char>>>::empty());
            }
            assert(insert_prefix(rest, p) == seq![p] + rest);
        }
        sorted.insert(j, (toks, len));
        assert(sorted@.map_values(|e: (Vec<Vec<char>>, u128)| views(e.0@)) =~= sv.take(j as int) + (
        seq![p] + sv.skip(j as int)));
    }
    assert(pv.take(prefixes.len() as int) =~= pv);
    let ghost sorted_v = sorted@.map_values(|e: (Vec<Vec<char>>, u128)| views(e.0@));
    proof {
        lemma_sorted_prefixes_len(pv);
    }
    let k = crate::digest::min_usize(sorted.len(), 100);
    let mut lines: Vec<Vec<char>> = Vec::new();
    for i in 0..k
        invariant
            k <= sorted.len(),
            sorted_v == sorted@.map_values(|e: (Vec<Vec<char>>, u128)| views(e.0@)),
            views(lines@) == sorted_v.take(i as int).map_values(|p: Seq<Seq<char>>| prefix_line(p)),
    {
        let toks = &sorted[i].0;
        assert(sorted_v[i as int] == views(toks@));
        let mut line = chars_of("- ");
        append_chars(&mut line, &render_command_prefix(toks));
        crate::digest::push_row(&mut lines, line);
        assert(sorted_v.take(i + 1).map_values(|p: Seq<Seq<char>>| prefix_line(p)) =~= sorted_v.take(
            i as int,
        ).map_values(|p: Seq<Seq<char>>| prefix_line(p)).push(prefix_line(sorted_v[i as int])));
    }
    let full = join_chars(&lines, "\n");
    let cut = full.len() > 5000;
    let mut output = if cut {
        let o = slice_chars(&full, 0, 5000);
        assert(full@.subrange(0, 5000) =~= full@.take(5000));
        o
    } else {
        full
    };
    if prefixes.len() > 100 || cut {
        append_str(&mut output, "...\n[Some commands were truncated]");
    }
    Some(string_of(&output))
}

} // verus!
