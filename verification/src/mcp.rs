//! MCP tool results and what the model is handed of them: text, or content
//! items when the result carries images.
use vstd::prelude::*;

use crate::json_fields::json_member_str;
use crate::json_fields::json_str_member;
use crate::json_fields::opt_view;
use crate::models::json_quote;
use crate::models::json_string_literal;
use crate::models::FunctionCallOutputBody;
use crate::models::FunctionCallOutputContentItem;
use crate::models::FunctionCallOutputPayload;
use crate::models::ImageDetail;
use crate::text::append_str;
use crate::text::chars_of;
use crate::text::join;
use crate::text::join_chars;
use crate::text::starts_with;
use crate::text::starts_with_str;
use crate::text::string_of;
use crate::text::views;

verus! {

/// One content block of an MCP tool result, as read by its `type` tag.
#[derive(Clone, Debug, PartialEq, Eq)]
pub enum McpContent {
    Text { text: String },
    /// `meta` is the block's `_meta` member as JSON text.
    Image { data: String, mime_type: Option<String>, meta: Option<String> },
    /// Another type, or a block that reads as neither.
    Unknown,
}

/// A content block: its JSON text, as `serde_json::to_string` writes it, and
/// what it reads as.
#[derive(Clone, Debug, PartialEq, Eq)]
pub struct McpContentBlock {
    pub json: String,
    pub content: McpContent,
}

/// The result of an MCP tool call; JSON values are held as their text.
#[derive(Clone, Debug, PartialEq, Eq)]
pub struct CallToolResult {
    pub content: Vec<McpContentBlock>,
    pub structured_content: Option<String>,
    pub is_error: Option<bool>,
    pub meta: Option<String>,
}

/// A content item, by its plain values.
pub enum ItemView {
    InputText(Seq<char>),
    InputImage(Seq<char>, Option<ImageDetail>),
    EncryptedContent(Seq<char>),
}

pub open spec fn item_view(i: FunctionCallOutputContentItem) -> ItemView {
    match i {
        FunctionCallOutputContentItem::InputText { text } => ItemView::InputText(text@),
        FunctionCallOutputContentItem::InputImage { image_url, detail } => ItemView::InputImage(image_url@, detail),
        FunctionCallOutputContentItem::EncryptedContent { encrypted_content } => ItemView::EncryptedContent(
            encrypted_content@,
        ),
    }
}

pub open spec fn items_view(v: Seq<FunctionCallOutputContentItem>) -> Seq<ItemView> {
    v.map_values(|i: FunctionCallOutputContentItem| item_view(i))
}

pub open spec fn detail_of(s: Seq<char>) -> Option<ImageDetail> {
    if s == "auto"@ {
        Some(ImageDetail::Auto)
    } else if s == "low"@ {
        Some(ImageDetail::Low)
    } else if s == "high"@ {
        Some(ImageDetail::High)
    } else if s == "original"@ {
        Some(ImageDetail::Original)
    } else {
        None
    }
}

/// The detail a block's `_meta` asks for under `codex/imageDetail`, else the default.
pub open spec fn image_detail(meta: Option<Seq<char>>) -> ImageDetail {
    let asked = match meta {
        Some(m) => match json_member_str(m, "codex/imageDetail"@) {
            Some(d) => detail_of(d),
            None => None,
        },
        None => None,
    };
    match asked {
        Some(d) => d,
        None => ImageDetail::High,
    }
}

/// The data itself when it is a data URL already, else a base64 data URL
/// with the MIME type (`application/octet-stream` when none is given).
pub open spec fn image_url(data: Seq<char>, mime_type: Option<Seq<char>>) -> Seq<char> {
    if starts_with(data, "data:"@) {
        data
    } else {
        "data:"@ + match mime_type {
            Some(m) => m,
            None => "application/octet-stream"@,
        } + ";base64,"@ + data
    }
}

pub open spec fn block_item(b: McpContentBlock) -> ItemView {
    match b.content {
        McpContent::Text { text } => ItemView::InputText(text@),
        McpContent::Image { data, mime_type, meta } => ItemView::InputImage(
            image_url(data@, opt_view(mime_type)),
            Some(image_detail(opt_view(meta))),
        ),
        McpContent::Unknown => ItemView::InputText(b.json@),
    }
}

pub open spec fn is_image(b: McpContentBlock) -> bool {
    b.content is Image
}

/// The blocks as content items, when at least one is an image.
pub open spec fn spec_convert_mcp_content(blocks: Seq<McpContentBlock>) -> Option<Seq<ItemView>> {
    if exists|i: int| 0 <= i < blocks.len() && is_image(#[trigger] blocks[i]) {
        Some(blocks.map_values(|b: McpContentBlock| block_item(b)))
    } else {
        None
    }
}

fn detail_of_exec(s: &str) -> (r: Option<ImageDetail>)
    ensures
        r == detail_of(s@),
{
    let c = chars_of(s);
    if crate::text::eq_str(&c, "auto") {
        Some(ImageDetail::Auto)
    } else if crate::text::eq_str(&c, "low") {
        Some(ImageDetail::Low)
    } else if crate::text::eq_str(&c, "high") {
        Some(ImageDetail::High)
    } else if crate::text::eq_str(&c, "original") {
        Some(ImageDetail::Original)
    } else {
        None
    }
}

fn block_item_exec(b: &McpContentBlock) -> (r: FunctionCallOutputContentItem)
    ensures
        item_view(r) == block_item(*b),
{
    match &b.content {
        McpContent::Text { text } => FunctionCallOutputContentItem::InputText { text: string_of(&chars_of(text.as_str())) },
        McpContent::Image { data, mime_type, meta } => {
            let url = if starts_with_str(&chars_of(data.as_str()), "data:") {
                string_of(&chars_of(data.as_str()))
            } else {
                let mut v = chars_of("data:");
                match mime_type {
                    Some(m) => append_str(&mut v, m.as_str()),
                    None => append_str(&mut v, "application/octet-stream"),
                }
                append_str(&mut v, ";base64,");
                append_str(&mut v, data.as_str());
                string_of(&v)
            };
            let asked = match meta {
                Some(m) => match json_str_member(m.as_str(), "codex/imageDetail") {
                    Some(d) => detail_of_exec(d.as_str()),
                    None => None,
                },
                None => None,
            };
            let detail = match asked {
                Some(d) => d,
                None => ImageDetail::High,
            };
            FunctionCallOutputContentItem::InputImage { image_url: url, detail: Some(detail) }
        },
        McpContent::Unknown => FunctionCallOutputContentItem::InputText { text: string_of(&chars_of(b.json.as_str())) },
    }
}

/// The content items of the blocks, when any block is an image; `None` otherwise.
pub fn convert_mcp_content_to_items(contents: &[McpContentBlock]) -> (r: Option<Vec<FunctionCallOutputContentItem>>)
    ensures
        match r {
            Some(items) => spec_convert_mcp_content(contents@) == Some(items_view(items@)),
            None => spec_convert_mcp_content(contents@) is None,
        },
{
    let ghost target = contents@.map_values(|b: McpContentBlock| block_item(b));
    let mut saw_image = false;
    let mut items: Vec<FunctionCallOutputContentItem> = Vec::new();
    for i in 0..contents.len()
        invariant
            target == contents@.map_values(|b: McpContentBlock| block_item(b)),
            items_view(items@) == target.take(i as int),
            saw_image == exists|j: int| 0 <= j < i && is_image(#[trigger] contents@[j]),
    {
        let ghost before = items@;
        match &contents[i].content {
            McpContent::Image { .. } => {
                saw_image = true;
            },
            _ => {},
        }
        items.push(block_item_exec(&contents[i]));
        assert(items_view(items@) =~= items_view(before).push(target[i as int]));
        assert(target.take(i + 1) =~= target.take(i as int).push(target[i as int]));
    }
    assert(target.take(contents.len() as int) =~= target);
    if saw_image {
        Some(items)
    } else {
        None
    }
}

// ------------------------------------------------------------ results

/// A body, by its plain values.
pub enum BodyView {
    Text(Seq<char>),
    Items(Seq<ItemView>),
}

pub open spec fn body_view(b: FunctionCallOutputBody) -> BodyView {
    match b {
        FunctionCallOutputBody::Text(t) => BodyView::Text(t@),
        FunctionCallOutputBody::ContentItems(items) => BodyView::Items(items_view(items@)),
    }
}

/// The content blocks as a JSON array, as `serde_json::to_string` writes one.
pub open spec fn content_json(blocks: Seq<McpContentBlock>) -> Seq<char> {
    "["@ + join(blocks.map_values(|b: McpContentBlock| b.json@), ","@) + "]"@
}

/// The JSON text of a text block, with the keys in order.
pub open spec fn error_block_json(text: Seq<char>) -> Seq<char> {
    "{\"text\":"@ + json_string_literal(text) + ",\"type\":\"text\"}"@
}

impl CallToolResult {
    /// A failed result whose only content is the error text.
    pub fn from_error_text(text: String) -> (r: Self)
        ensures
            r.content@.len() == 1,
            r.content@[0].json@ == error_block_json(text@),
            r.content@[0].content matches McpContent::Text { text: t } && t@ == text@,
            r.structured_content is None,
            r.is_error == Some(true),
            r.meta is None,
    {
        let mut json = chars_of("{\"text\":");
        append_str(&mut json, json_quote(text.as_str()).as_str());
        append_str(&mut json, ",\"type\":\"text\"}");
        let block = McpContentBlock { json: string_of(&json), content: McpContent::Text { text } };
        let mut content: Vec<McpContentBlock> = Vec::new();
        content.push(block);
        CallToolResult { content, structured_content: None, is_error: Some(true), meta: None }
    }

    /// The result itself, or a failed result holding the error text.
    pub fn from_result(result: Result<CallToolResult, String>) -> (r: Self)
        ensures
            match result {
                Ok(v) => r == v,
                Err(e) => {
                    &&& r.content@.len() == 1
                    &&& r.content@[0].json@ == error_block_json(e@)
                    &&& r.content@[0].content matches McpContent::Text { text: t } && t@ == e@
                    &&& r.structured_content is None
                    &&& r.is_error == Some(true)
                    &&& r.meta is None
                },
            },
    {
        match result {
            Ok(v) => v,
            Err(e) => CallToolResult::from_error_text(e),
        }
    }

    pub open spec fn spec_success(&self) -> bool {
        self.is_error != Some(true)
    }

    /// Succeeded unless marked as an error.
    pub fn success(&self) -> (r: bool)
        ensures
            r == self.spec_success(),
    {
        match self.is_error {
            Some(e) => !e,
            None => true,
        }
    }

    /// What the model is handed: the structured content when there is some
    /// (not `null`), else the content items when an image is among them, else
    /// the content as a JSON array.
    pub open spec fn spec_payload_body(&self) -> BodyView {
        match self.structured_content {
            Some(s) if s@ != "null"@ => BodyView::Text(s@),
            _ => match spec_convert_mcp_content(self.content@) {
                Some(items) => BodyView::Items(items),
                None => BodyView::Text(content_json(self.content@)),
            },
        }
    }

    pub fn as_function_call_output_payload(&self) -> (r: FunctionCallOutputPayload)
        ensures
            body_view(r.body) == self.spec_payload_body(),
            r.success == Some(self.spec_success()),
    {
        match &self.structured_content {
            Some(s) => {
                if !crate::text::eq_str(&chars_of(s.as_str()), "null") {
                    return FunctionCallOutputPayload {
                        body: FunctionCallOutputBody::Text(string_of(&chars_of(s.as_str()))),
                        success: Some(self.success()),
                    };
                }
            },
            None => {},
        }
        let body = match convert_mcp_content_to_items(&self.content) {
            Some(items) => FunctionCallOutputBody::ContentItems(items),
            None => {
                let ghost bv = self.content@.map_values(|b: McpContentBlock| b.json@);
                let mut parts: Vec<Vec<char>> = Vec::new();
                for i in 0..self.content.len()
                    invariant
                        bv == self.content@.map_values(|b: McpContentBlock| b.json@),
                        views(parts@) == bv.take(i as int),
                {
                    crate::digest::push_row(&mut parts, chars_of(self.content[i].json.as_str()));
                    assert(bv.take(i + 1) =~= bv.take(i as int).push(bv[i as int]));
                }
                assert(bv.take(self.content.len() as int) =~= bv);
                let mut v = chars_of("[");
                crate::text::append_chars(&mut v, &join_chars(&parts, ","));
                append_str(&mut v, "]");
                FunctionCallOutputBody::Text(string_of(&v))
            },
        };
        FunctionCallOutputPayload { body, success: Some(self.success()) }
    }

    pub fn into_function_call_output_payload(self) -> (r: FunctionCallOutputPayload)
        ensures
            body_view(r.body) == self.spec_payload_body(),
            r.success == Some(self.spec_success()),
    {
        self.as_function_call_output_payload()
    }
}

} // verus!
