//! The records of AI suggestions and the rules that decide what reaches a
//! model and what comes back from it: context sanitizing, validation of
//! model output, and back-mapping of suggested titles to real candidates.

use vstd::prelude::*;

use crate::chars::{chars_of, string_of, trim};
use crate::dates::{is_date_text, is_time_text};
use crate::domain::{str_eq, validation, DomainError};
use crate::json::{json_field, json_str, lemma_member_at, JsonValue};
use crate::text::{normalize_title_for_match, title_match_key};

verus! {

#[derive(PartialEq, Eq, Structural, Clone, Copy, Debug)]
pub enum AIFeature {
    Extract,
    Summary,
    Related,
    Suggest,
    Split,
}

pub open spec fn feature_text(f: AIFeature) -> Seq<char> {
    match f {
        AIFeature::Extract => "extract"@,
        AIFeature::Summary => "summary"@,
        AIFeature::Related => "related"@,
        AIFeature::Suggest => "suggest"@,
        AIFeature::Split => "split"@,
    }
}

impl AIFeature {
    pub fn as_str(&self) -> (r: &'static str)
        ensures
            r@ == feature_text(*self),
    {
        match self {
            AIFeature::Extract => "extract",
            AIFeature::Summary => "summary",
            AIFeature::Related => "related",
            AIFeature::Suggest => "suggest",
            AIFeature::Split => "split",
        }
    }
}

#[derive(PartialEq, Eq, Structural, Clone, Copy, Debug)]
pub enum SuggestionStatus {
    Pending,
    Accepted,
    Rejected,
    Dismissed,
}

pub open spec fn status_text(s: SuggestionStatus) -> Seq<char> {
    match s {
        SuggestionStatus::Pending => "pending"@,
        SuggestionStatus::Accepted => "accepted"@,
        SuggestionStatus::Rejected => "rejected"@,
        SuggestionStatus::Dismissed => "dismissed"@,
    }
}

impl SuggestionStatus {
    pub fn as_str(&self) -> (r: &'static str)
        ensures
            r@ == status_text(*self),
    {
        match self {
            SuggestionStatus::Pending => "pending",
            SuggestionStatus::Accepted => "accepted",
            SuggestionStatus::Rejected => "rejected",
            SuggestionStatus::Dismissed => "dismissed",
        }
    }

    /// A stored status; anything unknown reads as pending.
    pub fn from_stored(value: &str) -> (r: SuggestionStatus)
        ensures
            value@ == "accepted"@ ==> r == SuggestionStatus::Accepted,
            value@ == "rejected"@ ==> r == SuggestionStatus::Rejected,
            value@ == "dismissed"@ ==> r == SuggestionStatus::Dismissed,
    {
        proof {
            reveal_strlit("accepted");
            reveal_strlit("rejected");
            reveal_strlit("dismissed");
            assert("rejected"@[0] != "accepted"@[0]);
            assert("dismissed"@.len() != "accepted"@.len());
            assert("dismissed"@.len() != "rejected"@.len());
        }
        if str_eq(value, "accepted") {
            SuggestionStatus::Accepted
        } else if str_eq(value, "rejected") {
            SuggestionStatus::Rejected
        } else if str_eq(value, "dismissed") {
            SuggestionStatus::Dismissed
        } else {
            SuggestionStatus::Pending
        }
    }
}

/// Which features the user has switched on.
pub struct AIFeatureToggles {
    pub extract: bool,
    pub summary: bool,
    pub related: bool,
    pub suggest: bool,
    pub split: bool,
}

pub open spec fn feature_on(t: AIFeatureToggles, f: AIFeature) -> bool {
    match f {
        AIFeature::Extract => t.extract,
        AIFeature::Summary => t.summary,
        AIFeature::Related => t.related,
        AIFeature::Suggest => t.suggest,
        AIFeature::Split => t.split,
    }
}

impl AIFeatureToggles {
    pub fn enabled(&self, f: AIFeature) -> (r: bool)
        ensures
            r == feature_on(*self, f),
    {
        match f {
            AIFeature::Extract => self.extract,
            AIFeature::Summary => self.summary,
            AIFeature::Related => self.related,
            AIFeature::Suggest => self.suggest,
            AIFeature::Split => self.split,
        }
    }
}

#[derive(PartialEq, Eq, Structural, Clone, Copy, Debug)]
pub enum AIMode {
    Off,
    Ollama,
    Custom,
}

pub open spec fn mode_text(m: AIMode) -> Seq<char> {
    match m {
        AIMode::Off => "off"@,
        AIMode::Ollama => "ollama"@,
        AIMode::Custom => "custom"@,
    }
}

impl AIMode {
    pub fn as_str(&self) -> (r: &'static str)
        ensures
            r@ == mode_text(*self),
    {
        match self {
            AIMode::Off => "off",
            AIMode::Ollama => "ollama",
            AIMode::Custom => "custom",
        }
    }
}

/// The settings the suggestion service reads.
pub struct AISettings {
    pub mode: AIMode,
    pub ollama_model: String,
    pub custom_model: String,
    pub features: AIFeatureToggles,
    /// Source apps whose content never reaches a model.
    pub excluded_apps: Vec<String>,
}

/// The model in use: the one of the active mode, none when off.
pub fn active_model_name(s: &AISettings) -> (r: String)
    ensures
        s.mode == AIMode::Ollama ==> r@ == s.ollama_model@,
        s.mode == AIMode::Custom ==> r@ == s.custom_model@,
        s.mode == AIMode::Off ==> r@.len() == 0,
{
    match s.mode {
        AIMode::Ollama => s.ollama_model.clone(),
        AIMode::Custom => s.custom_model.clone(),
        AIMode::Off => String::new(),
    }
}

/// A piece of context offered to a model.
pub struct ContextItem {
    pub entity_type: String,
    pub entity_id: String,
    pub text: String,
    pub source_app: Option<String>,
}

/// Two context items with the same fields.
pub open spec fn same_context(a: ContextItem, b: ContextItem) -> bool {
    &&& a.entity_type@ == b.entity_type@
    &&& a.entity_id@ == b.entity_id@
    &&& a.text@ == b.text@
    &&& crate::templates::opt_text(a.source_app) == crate::templates::opt_text(b.source_app)
}

/// A context item that may reach a model as far as its own fields go: its
/// text is not blank and its source app is not excluded.
pub open spec fn admissible(item: ContextItem, user_excluded: Seq<String>) -> bool {
    &&& trim(item.text@).len() > 0
    &&& match item.source_app {
        Some(a) => !app_is_excluded(a@, user_excluded),
        None => true,
    }
}

/// `r` keeps some of `items`, in their order, each unchanged and admissible;
/// when `complete`, it keeps every admissible item that is not a memory.
pub open spec fn sanitized_from(
    r: Seq<ContextItem>,
    items: Seq<ContextItem>,
    user_excluded: Seq<String>,
    complete: bool,
) -> bool {
    exists|idx: Seq<int>|
        {
            &&& idx.len() == r.len()
            &&& forall|i: int| 0 <= i < idx.len() ==> 0 <= #[trigger] idx[i] < items.len()
            &&& forall|i: int, j: int| 0 <= i < j < idx.len() ==> idx[i] < idx[j]
            &&& forall|i: int| 0 <= i < r.len() ==> same_context(#[trigger] r[i], items[idx[i]])
            &&& forall|i: int| 0 <= i < r.len() ==> admissible(#[trigger] r[i], user_excluded)
            &&& complete ==> forall|j: int|
                0 <= j < items.len() && admissible(#[trigger] items[j], user_excluded)
                    && items[j].entity_type@ != "memory"@ ==> idx.contains(j)
        }
}

/// Something kept was admissible in the first place.
pub proof fn lemma_sanitized_admits(r: Seq<ContextItem>, items: Seq<ContextItem>, user: Seq<String>, complete: bool)
    requires
        sanitized_from(r, items, user, complete),
        r.len() > 0,
    ensures
        exists|j: int| 0 <= j < items.len() && admissible(#[trigger] items[j], user),
{
    let idx = choose|idx: Seq<int>| #[trigger] idx.len() == r.len() && {
        &&& forall|i: int| 0 <= i < idx.len() ==> 0 <= #[trigger] idx[i] < items.len()
        &&& forall|i: int, j: int| 0 <= i < j < idx.len() ==> idx[i] < idx[j]
        &&& forall|i: int| 0 <= i < r.len() ==> same_context(#[trigger] r[i], items[idx[i]])
        &&& forall|i: int| 0 <= i < r.len() ==> admissible(#[trigger] r[i], user)
        &&& complete ==> forall|j: int|
            0 <= j < items.len() && admissible(#[trigger] items[j], user)
                && items[j].entity_type@ != "memory"@ ==> idx.contains(j)
    };
    assert(same_context(r[0], items[idx[0]]));
    assert(admissible(r[0], user));
    assert(admissible(items[idx[0]], user));
}

pub struct CompletionRequest {
    pub system_prompt: String,
    pub user_context: String,
}

pub struct CompletionOutput {
    pub raw_json: String,
}

/// A model behind the suggestion service. What it answers is up to it;
/// nothing is assumed of the answer.
pub trait AIProvider {
    fn complete(&self, request: &CompletionRequest) -> Option<CompletionOutput>;
}

/// One item a model suggested.
pub struct SuggestionItem {
    pub title: String,
    pub detail: Option<String>,
    pub due_date: Option<String>,
    pub due_time: Option<String>,
    pub ambiguous: bool,
    pub source_excerpt: String,
}

pub struct SuggestionContent {
    pub items: Vec<SuggestionItem>,
    pub summary: Option<String>,
}

/// Where a suggested item comes from.
pub struct SuggestionSource {
    pub entity_type: String,
    pub entity_id: String,
    pub text_offset: i64,
    pub excerpt: String,
}

pub struct AISuggestionRecord {
    pub id: String,
    pub feature_type: String,
    pub source_entity_type: String,
    pub source_entity_id: String,
    pub payload: SuggestionContent,
    pub sources: Vec<SuggestionSource>,
    pub status: SuggestionStatus,
    pub provider: String,
    pub model: String,
    pub created_at: String,
    pub decided_at: Option<String>,
}

/// The items of a suggestion a user picked.
pub struct ExtractApplyInput {
    pub suggestion_id: String,
    pub selected_indices: Vec<usize>,
}

// ---------------------------------------------------------------------
// Validation of model output

/// An optional text member: absent or null is none, a string is its text;
/// anything else is invalid.
pub open spec fn opt_text_member(v: JsonValue, key: Seq<char>) -> Option<Option<Seq<char>>> {
    match json_field(v, key) {
        None => Some(None),
        Some(JsonValue::Null) => Some(None),
        Some(JsonValue::Str(s)) => Some(Some(s@)),
        _ => None,
    }
}

/// Whether an item of model output is acceptable: an object with a title
/// that is not blank, optional text fields, an optional flag, and (unless
/// flagged ambiguous) a valid date and time where given.
pub open spec fn item_valid(v: JsonValue) -> bool {
    &&& v is Object
    &&& json_field(v, "title"@) matches Some(JsonValue::Str(t)) && trim(t@).len() > 0
    &&& opt_text_member(v, "detail"@) is Some
    &&& opt_text_member(v, "dueDate"@) is Some
    &&& opt_text_member(v, "dueTime"@) is Some
    &&& opt_text_member(v, "sourceExcerpt"@) is Some
    &&& match json_field(v, "ambiguous"@) {
        None => true,
        Some(JsonValue::Null) => true,
        Some(JsonValue::Bool(_)) => true,
        _ => false,
    }
    &&& !item_ambiguous(v) ==> (opt_text_member(v, "dueDate"@) matches Some(Some(d))
        ==> is_date_text(d)) && (opt_text_member(v, "dueTime"@) matches Some(Some(t))
        ==> is_time_text(t))
}

pub open spec fn item_ambiguous(v: JsonValue) -> bool {
    json_field(v, "ambiguous"@) == Some(JsonValue::Bool(true))
}

/// Whether a document is acceptable model output: an object whose
/// `items` is an array of acceptable items and whose `summary`, if any,
/// is text or null.
pub open spec fn content_valid(v: JsonValue) -> bool {
    &&& json_field(v, "items"@) matches Some(JsonValue::Array(items)) && forall|i: int|
        0 <= i < items@.len() ==> item_valid(#[trigger] items@[i])
    &&& opt_text_member(v, "summary"@) is Some
}

fn opt_text_of(v: &JsonValue, key: &str) -> (r: Result<Option<String>, ()>)
    ensures
        match r {
            Ok(Some(s)) => opt_text_member(*v, key@) == Some(Some(s@)),
            Ok(None) => opt_text_member(*v, key@) == Some(None::<Seq<char>>),
            Err(_) => opt_text_member(*v, key@) is None,
        },
{
    match v.get(key) {
        None => Ok(None),
        Some(JsonValue::Null) => Ok(None),
        Some(JsonValue::Str(s)) => Ok(Some(s.clone())),
        Some(_) => Err(()),
    }
}

/// The item an acceptable item of output reads as: its title, its
/// optional texts, its excerpt (empty when absent) and its flag.
pub open spec fn item_reads_as(v: JsonValue, it: SuggestionItem) -> bool {
    &&& json_field(v, "title"@) matches Some(JsonValue::Str(t)) && it.title@ == t@
    &&& opt_text_member(v, "detail"@) == Some(crate::templates::opt_text(it.detail))
    &&& opt_text_member(v, "dueDate"@) == Some(crate::templates::opt_text(it.due_date))
    &&& opt_text_member(v, "dueTime"@) == Some(crate::templates::opt_text(it.due_time))
    &&& it.source_excerpt@ == match opt_text_member(v, "sourceExcerpt"@) {
        Some(Some(e)) => e,
        _ => Seq::empty(),
    }
    &&& it.ambiguous == item_ambiguous(v)
}

/// The content an acceptable document reads as.
pub open spec fn content_reads_as(v: JsonValue, c: SuggestionContent) -> bool {
    &&& json_field(v, "items"@) matches Some(JsonValue::Array(items)) && items@.len() == c.items@.len()
        && forall|i: int| 0 <= i < items@.len() ==> item_reads_as(#[trigger] items@[i], c.items@[i])
    &&& opt_text_member(v, "summary"@) == Some(crate::templates::opt_text(c.summary))
}

/// `v` is the stored form of an item: an object with all its members.
pub open spec fn item_stored(it: SuggestionItem, v: JsonValue) -> bool {
    &&& v is Object
    &&& json_field(v, "title"@) matches Some(JsonValue::Str(t)) && t@ == it.title@
    &&& opt_text_member(v, "detail"@) == Some(crate::templates::opt_text(it.detail))
    &&& opt_text_member(v, "dueDate"@) == Some(crate::templates::opt_text(it.due_date))
    &&& opt_text_member(v, "dueTime"@) == Some(crate::templates::opt_text(it.due_time))
    &&& opt_text_member(v, "sourceExcerpt"@) == Some(Some(it.source_excerpt@))
    &&& json_field(v, "ambiguous"@) == Some(JsonValue::Bool(it.ambiguous))
}

/// `v` is the stored form of a suggestion's content.
pub open spec fn content_stored(c: SuggestionContent, v: JsonValue) -> bool {
    &&& json_field(v, "items"@) matches Some(JsonValue::Array(items)) && items@.len() == c.items@.len()
        && forall|i: int| 0 <= i < items@.len() ==> item_stored(c.items@[i], #[trigger] items@[i])
    &&& opt_text_member(v, "summary"@) == Some(crate::templates::opt_text(c.summary))
}

/// What validation lets through: items with a title that is not blank
/// and, unless flagged ambiguous, a valid date and time where given.
pub open spec fn content_acceptable(c: SuggestionContent) -> bool {
    forall|i: int|
        0 <= i < c.items@.len() ==> {
            let it = #[trigger] c.items@[i];
            &&& trim(it.title@).len() > 0
            &&& !it.ambiguous ==> (it.due_date matches Some(d) ==> is_date_text(d@))
            &&& !it.ambiguous ==> (it.due_time matches Some(t) ==> is_time_text(t@))
        }
}

/// Two items with the same values.
pub open spec fn same_item(a: SuggestionItem, b: SuggestionItem) -> bool {
    &&& a.title@ == b.title@
    &&& crate::templates::opt_text(a.detail) == crate::templates::opt_text(b.detail)
    &&& crate::templates::opt_text(a.due_date) == crate::templates::opt_text(b.due_date)
    &&& crate::templates::opt_text(a.due_time) == crate::templates::opt_text(b.due_time)
    &&& a.source_excerpt@ == b.source_excerpt@
    &&& a.ambiguous == b.ambiguous
}

/// A recorded suggestion's content reads back as it was recorded: the
/// stored form of content that validation let through is valid again, and
/// what it reads as has the same items and summary.
pub proof fn content_roundtrip(c: SuggestionContent, v: JsonValue, back: SuggestionContent)
    requires
        content_stored(c, v),
        content_acceptable(c),
        content_reads_as(v, back),
    ensures
        content_valid(v),
        back.items@.len() == c.items@.len(),
        forall|i: int| 0 <= i < c.items@.len() ==> same_item(#[trigger] c.items@[i], back.items@[i]),
        crate::templates::opt_text(back.summary) == crate::templates::opt_text(c.summary),
{
    let items = json_field(v, "items"@)->Some_0->Array_0;
    assert forall|i: int| 0 <= i < items@.len() implies item_valid(#[trigger] items@[i]) by {
        assert(item_stored(c.items@[i], items@[i]));
        assert(trim(c.items@[i].title@).len() > 0);
    }
    assert forall|i: int| 0 <= i < c.items@.len() implies same_item(#[trigger] c.items@[i], back.items@[i]) by {
        assert(item_stored(c.items@[i], items@[i]));
        assert(item_reads_as(items@[i], back.items@[i]));
    }
}

fn item_from_json(v: &JsonValue) -> (r: Option<SuggestionItem>)
    ensures
        r is Some <==> item_valid(*v),
        r matches Some(it) ==> trim(it.title@).len() > 0 && item_reads_as(*v, it),
{
    match v {
        JsonValue::Object(_) => {},
        _ => return None,
    }
    let title = match v.get("title") {
        Some(JsonValue::Str(t)) => t.clone(),
        _ => return None,
    };
    if trim_is_empty(title.as_str()) {
        return None;
    }
    let detail = match opt_text_of(v, "detail") {
        Ok(d) => d,
        Err(_) => return None,
    };
    let due_date = match opt_text_of(v, "dueDate") {
        Ok(d) => d,
        Err(_) => return None,
    };
    let due_time = match opt_text_of(v, "dueTime") {
        Ok(d) => d,
        Err(_) => return None,
    };
    let excerpt = match opt_text_of(v, "sourceExcerpt") {
        Ok(Some(e)) => e,
        Ok(None) => String::new(),
        Err(_) => return None,
    };
    let ambiguous = match v.get("ambiguous") {
        None => false,
        Some(JsonValue::Null) => false,
        Some(JsonValue::Bool(b)) => *b,
        Some(_) => return None,
    };
    if !ambiguous {
        if let Some(d) = &due_date {
            if !crate::dates::is_date(d.as_str()) {
                return None;
            }
        }
        if let Some(t) = &due_time {
            if !crate::dates::is_time(t.as_str()) {
                return None;
            }
        }
    }
    Some(SuggestionItem { title, detail, due_date, due_time, ambiguous, source_excerpt: excerpt })
}

/// Whether a text is blank.
pub fn trim_is_empty(s: &str) -> (r: bool)
    ensures
        r == (trim(s@).len() == 0),
{
    let v = chars_of(s);
    let (a, b) = crate::chars::trim_bounds(&v, 0, v.len());
    assert(v@.subrange(0, v@.len() as int) =~= v@);
    a == b
}

/// Reads model output: the suggestion content when the text is JSON of the
/// expected shape, an error otherwise.
/// A model answer that is valid suggestion content.
pub open spec fn output_valid(raw: Seq<char>) -> bool {
    crate::json::json_parse(raw) matches Some(v) && content_valid(v)
}

/// `c` is what the model answer `raw` says.
pub open spec fn output_reads_as(raw: Seq<char>, c: SuggestionContent) -> bool {
    crate::json::json_parse(raw) matches Some(v) && content_reads_as(v, c)
}

pub fn parse_suggestion_content(raw: &str) -> (r: Result<SuggestionContent, DomainError>)
    ensures
        r is Ok <==> (crate::json::json_parse(raw@) matches Some(v) && content_valid(v)),
        r matches Ok(c) ==> output_reads_as(raw@, c),
        r matches Err(e) ==> e is Validation,
        r matches Ok(c) ==> forall|i: int| 0 <= i < c.items@.len() ==> trim((#[trigger] c.items@[i]).title@).len() > 0,
{
    let doc = match crate::json::parse_json(raw) {
        Some(d) => d,
        None => return Err(validation("模型输出不是有效的 JSON")),
    };
    content_from_json(&doc)
}

/// The suggestion content of a document of the expected shape.
pub fn content_from_json(doc: &JsonValue) -> (r: Result<SuggestionContent, DomainError>)
    ensures
        r is Ok <==> content_valid(*doc),
        r matches Ok(c) ==> content_reads_as(*doc, c),
        r matches Err(e) ==> e is Validation,
        r matches Ok(c) ==> forall|i: int| 0 <= i < c.items@.len() ==> trim((#[trigger] c.items@[i]).title@).len() > 0,
{
    let arr = match doc.get("items") {
        Some(JsonValue::Array(a)) => a,
        _ => return Err(validation("模型输出缺少 items")),
    };
    let mut items: Vec<SuggestionItem> = Vec::new();
    let mut i: usize = 0;
    while i < arr.len()
        invariant
            i <= arr@.len(),
            json_field(*doc, "items"@) == Some(JsonValue::Array(*arr)),
            forall|k: int| 0 <= k < i ==> item_valid(#[trigger] arr@[k]),
            forall|k: int| 0 <= k < items@.len() ==> trim((#[trigger] items@[k]).title@).len() > 0,
            items@.len() == i,
            forall|k: int| 0 <= k < i ==> item_reads_as(#[trigger] arr@[k], items@[k]),
        decreases arr@.len() - i,
    {
        match item_from_json(&arr[i]) {
            Some(it) => items.push(it),
            None => {
                proof {
                    assert(!item_valid(arr@[i as int]));
                    if content_valid(*doc) {
                        let items = json_field(*doc, "items"@)->Some_0->Array_0;
                        assert(items == *arr);
                        assert(item_valid(items@[i as int]));
                    }
                }
                return Err(validation("模型输出条目无效"));
            },
        }
        i = i + 1;
    }
    let summary = match opt_text_of(doc, "summary") {
        Ok(s) => s,
        Err(_) => return Err(validation("模型输出摘要无效")),
    };
    Ok(SuggestionContent { items, summary })
}

fn opt_json_text(s: &Option<String>) -> (r: JsonValue)
    ensures
        match s {
            Some(t) => r matches JsonValue::Str(u) && u@ == t@,
            None => r is Null,
        },
{
    match s {
        Some(t) => JsonValue::Str(t.clone()),
        None => JsonValue::Null,
    }
}

fn member(key: &str, v: JsonValue) -> (r: (String, JsonValue))
    ensures
        r.0@ == key@,
        r.1 == v,
{
    (key.to_string(), v)
}

proof fn lemma_content_keys()
    ensures
        "dueDate"@ != "dueTime"@,
        "ambiguous"@ != "detail"@,
        "ambiguous"@ != "dueDate"@,
        "ambiguous"@ != "dueTime"@,
        "ambiguous"@ != "sourceExcerpt"@,
        "ambiguous"@ != "title"@,
        "detail"@ != "dueDate"@,
        "detail"@ != "dueTime"@,
        "detail"@ != "sourceExcerpt"@,
        "detail"@ != "title"@,
        "dueDate"@ != "sourceExcerpt"@,
        "dueDate"@ != "title"@,
        "dueTime"@ != "sourceExcerpt"@,
        "dueTime"@ != "title"@,
        "sourceExcerpt"@ != "title"@,
        "items"@ != "summary"@,
{
    reveal_strlit("ambiguous");
    reveal_strlit("detail");
    reveal_strlit("dueDate");
    reveal_strlit("dueTime");
    reveal_strlit("sourceExcerpt");
    reveal_strlit("title");
    reveal_strlit("items");
    reveal_strlit("summary");
    assert("dueDate"@[3] != "dueTime"@[3]);
    assert("ambiguous"@.len() == 9 && "detail"@.len() == 6 && "dueDate"@.len() == 7 && "dueTime"@.len() == 7);
    assert("sourceExcerpt"@.len() == 13 && "title"@.len() == 5 && "items"@.len() == 5 && "summary"@.len() == 7);
}

/// The stored JSON of a suggestion's content.
pub fn content_to_json(c: &SuggestionContent) -> (r: JsonValue)
    ensures
        content_stored(*c, r),
{
    proof {
        lemma_content_keys();
    }
    let mut items: Vec<JsonValue> = Vec::new();
    let mut i: usize = 0;
    while i < c.items.len()
        invariant
            i <= c.items@.len(),
            items@.len() == i,
            forall|k: int| 0 <= k < i ==> item_stored(c.items@[k], #[trigger] items@[k]),
        decreases c.items@.len() - i,
    {
        let it = &c.items[i];
        let mut m: Vec<(String, JsonValue)> = Vec::new();
        m.push(member("ambiguous", JsonValue::Bool(it.ambiguous)));
        m.push(member("detail", opt_json_text(&it.detail)));
        m.push(member("dueDate", opt_json_text(&it.due_date)));
        m.push(member("dueTime", opt_json_text(&it.due_time)));
        m.push(member("sourceExcerpt", JsonValue::Str(it.source_excerpt.clone())));
        m.push(member("title", JsonValue::Str(it.title.clone())));
        proof {
            lemma_content_keys();
            assert(m@[0].0@ == "ambiguous"@ && m@[1].0@ == "detail"@ && m@[2].0@ == "dueDate"@);
            assert(m@[3].0@ == "dueTime"@ && m@[4].0@ == "sourceExcerpt"@ && m@[5].0@ == "title"@);
            lemma_member_at(m@, "ambiguous"@, 0);
            lemma_member_at(m@, "detail"@, 1);
            lemma_member_at(m@, "dueDate"@, 2);
            lemma_member_at(m@, "dueTime"@, 3);
            lemma_member_at(m@, "sourceExcerpt"@, 4);
            lemma_member_at(m@, "title"@, 5);
        }
        items.push(JsonValue::Object(m));
        i = i + 1;
    }
    let mut root: Vec<(String, JsonValue)> = Vec::new();
    root.push(member("items", JsonValue::Array(items)));
    root.push(member("summary", opt_json_text(&c.summary)));
    proof {
        lemma_member_at(root@, "items"@, 0);
        lemma_member_at(root@, "summary"@, 1);
    }
    JsonValue::Object(root)
}

/// `v` holds source `s`: its type, id and excerpt as strings and its
/// offset as an integer.
pub open spec fn source_in(v: JsonValue, s: SuggestionSource) -> bool {
    &&& json_field(v, "entityType"@) matches Some(JsonValue::Str(t)) && t@ == s.entity_type@
    &&& json_field(v, "entityId"@) matches Some(JsonValue::Str(t)) && t@ == s.entity_id@
    &&& json_field(v, "excerpt"@) matches Some(JsonValue::Str(t)) && t@ == s.excerpt@
    &&& json_field(v, "textOffset"@) matches Some(n) && crate::json::json_i64(n) == Some(s.text_offset)
}

/// Whether `v` holds some source.
pub open spec fn source_readable(v: JsonValue) -> bool {
    &&& json_field(v, "entityType"@) matches Some(JsonValue::Str(_))
    &&& json_field(v, "entityId"@) matches Some(JsonValue::Str(_))
    &&& json_field(v, "excerpt"@) matches Some(JsonValue::Str(_))
    &&& json_field(v, "textOffset"@) matches Some(n) && crate::json::json_i64(n) is Some
}

/// `v` is an array holding the sources, in order.
pub open spec fn sources_in(v: JsonValue, sources: Seq<SuggestionSource>) -> bool {
    v matches JsonValue::Array(a) && a@.len() == sources.len() && forall|i: int|
        0 <= i < a@.len() ==> source_in(#[trigger] a@[i], sources[i])
}

/// Two sources with the same values.
pub open spec fn same_source(a: SuggestionSource, b: SuggestionSource) -> bool {
    &&& a.entity_type@ == b.entity_type@
    &&& a.entity_id@ == b.entity_id@
    &&& a.excerpt@ == b.excerpt@
    &&& a.text_offset == b.text_offset
}

/// Stored sources read back as they were stored.
pub proof fn sources_roundtrip(stored: Seq<SuggestionSource>, v: JsonValue, back: Seq<SuggestionSource>)
    requires
        sources_in(v, stored),
        sources_in(v, back),
    ensures
        back.len() == stored.len(),
        forall|i: int| 0 <= i < stored.len() ==> same_source(#[trigger] stored[i], back[i]),
{
    let a = v->Array_0;
    assert forall|i: int| 0 <= i < stored.len() implies same_source(#[trigger] stored[i], back[i]) by {
        assert(source_in(a@[i], stored[i]));
        assert(source_in(a@[i], back[i]));
    }
}

proof fn lemma_source_keys()
    ensures
        "entityId"@ != "entityType"@,
        "entityId"@ != "excerpt"@,
        "entityId"@ != "textOffset"@,
        "entityType"@ != "excerpt"@,
        "entityType"@ != "textOffset"@,
        "excerpt"@ != "textOffset"@,
{
    reveal_strlit("entityId");
    reveal_strlit("entityType");
    reveal_strlit("excerpt");
    reveal_strlit("textOffset");
    assert("entityId"@.len() == 8 && "entityType"@.len() == 10 && "excerpt"@.len() == 7);
    assert("textOffset"@.len() == 10 && "entityType"@[0] != "textOffset"@[0]);
}

/// The stored JSON of a suggestion's sources.
pub fn sources_to_json(sources: &Vec<SuggestionSource>) -> (r: JsonValue)
    ensures
        sources_in(r, sources@),
{
    let mut out: Vec<JsonValue> = Vec::new();
    let mut i: usize = 0;
    while i < sources.len()
        invariant
            i <= sources@.len(),
            out@.len() == i,
            forall|k: int| 0 <= k < i ==> source_in(#[trigger] out@[k], sources@[k]),
        decreases sources@.len() - i,
    {
        let s = &sources[i];
        let mut m: Vec<(String, JsonValue)> = Vec::new();
        m.push(member("entityId", JsonValue::Str(s.entity_id.clone())));
        m.push(member("entityType", JsonValue::Str(s.entity_type.clone())));
        m.push(member("excerpt", JsonValue::Str(s.excerpt.clone())));
        let offset = crate::json::number_text(s.text_offset);
        m.push(member("textOffset", JsonValue::Number(offset)));
        proof {
            lemma_source_keys();
            assert(m@[0].0@ == "entityId"@ && m@[1].0@ == "entityType"@ && m@[2].0@ == "excerpt"@);
            assert(m@[3].0@ == "textOffset"@);
            lemma_member_at(m@, "entityId"@, 0);
            lemma_member_at(m@, "entityType"@, 1);
            lemma_member_at(m@, "excerpt"@, 2);
            lemma_member_at(m@, "textOffset"@, 3);
        }
        out.push(JsonValue::Object(m));
        i = i + 1;
    }
    JsonValue::Array(out)
}

/// Reads stored sources: an array of objects with text members
/// `entityType`, `entityId` and `excerpt` and an integer `textOffset`.
pub fn sources_from_json(doc: &JsonValue) -> (r: Option<Vec<SuggestionSource>>)
    ensures
        r matches Some(v) ==> sources_in(*doc, v@),
        (doc matches JsonValue::Array(a) && forall|i: int| 0 <= i < a@.len() ==> source_readable(#[trigger] a@[i]))
            ==> r is Some,
{
    let arr = match doc {
        JsonValue::Array(a) => a,
        _ => return None,
    };
    let ghost all_ok = forall|q: int| 0 <= q < arr@.len() ==> source_readable(#[trigger] arr@[q]);
    assert((doc matches JsonValue::Array(a) && forall|q: int| 0 <= q < a@.len() ==> source_readable(#[trigger] a@[q]))
        ==> all_ok);
    let mut out: Vec<SuggestionSource> = Vec::new();
    let mut i: usize = 0;
    while i < arr.len()
        invariant
            i <= arr@.len(),
            *doc == JsonValue::Array(*arr),
            all_ok == forall|q: int| 0 <= q < arr@.len() ==> source_readable(#[trigger] arr@[q]),
            (doc matches JsonValue::Array(a) && forall|q: int| 0 <= q < a@.len() ==> source_readable(#[trigger] a@[q]))
                ==> all_ok,
            out@.len() == i,
            forall|k: int| 0 <= k < i ==> source_in(#[trigger] arr@[k], out@[k]),
        decreases arr@.len() - i,
    {
        let v = &arr[i];
        let ghost readable = source_readable(arr@[i as int]);
        proof {
            if forall|q: int| 0 <= q < arr@.len() ==> source_readable(#[trigger] arr@[q]) {
                assert(readable);
            }

        }
        let entity_type = match v.get("entityType") {
            Some(JsonValue::Str(s)) => s.clone(),
            _ => {
                assert(!all_ok);
                return None;
            },
        };
        let entity_id = match v.get("entityId") {
            Some(JsonValue::Str(s)) => s.clone(),
            _ => {
                assert(!all_ok);
                return None;
            },
        };
        let excerpt = match v.get("excerpt") {
            Some(JsonValue::Str(s)) => s.clone(),
            _ => {
                assert(!all_ok);
                return None;
            },
        };
        let text_offset = match v.get("textOffset") {
            Some(n) => match n.as_i64() {
                Some(k) => k,
                None => {
                    assert(!all_ok);
                    return None;
                },
            },
            None => {
                assert(!all_ok);
                return None;
            },
        };
        out.push(SuggestionSource { entity_type, entity_id, text_offset, excerpt });
        i = i + 1;
    }
    Some(out)
}

// ---------------------------------------------------------------------
// Context rules


/// `eq_ignore_ascii_case`.
pub open spec fn same_ignoring_ascii_case(a: Seq<char>, b: Seq<char>) -> bool {
    crate::memories::same_title(a, b)
}

/// `b` occurs in `a`.
pub open spec fn occurs_in(a: Seq<char>, b: Seq<char>) -> bool {
    exists|i: int| 0 <= i && i + b.len() <= a.len() && #[trigger] a.subrange(i, i + b.len()) == b
}

/// An app matches an exclusion when it equals it ignoring ASCII case or
/// contains it.
pub open spec fn app_matches(app: Seq<char>, ex: Seq<char>) -> bool {
    same_ignoring_ascii_case(app, ex) || occurs_in(app, ex)
}

pub fn contains_text(a: &str, b: &str) -> (r: bool)
    ensures
        r == occurs_in(a@, b@),
{
    let x = chars_of(a);
    let y = chars_of(b);
    if y.len() > x.len() {
        proof {
            assert forall|i: int| 0 <= i && i + y@.len() <= x@.len() implies #[trigger] x@.subrange(i, i + y@.len()) != y@ by {}
        }
        return false;
    }
    let mut i: usize = 0;
    while i <= x.len() - y.len()
        invariant
            x@ == a@,
            y@ == b@,
            y@.len() <= x@.len(),
            i <= x@.len() - y@.len() + 1,
            forall|k: int| 0 <= k < i ==> #[trigger] x@.subrange(k, k + y@.len()) != y@,
        decreases x@.len() - y@.len() + 1 - i,
    {
        let mut j: usize = 0;
        let mut same = true;
        while j < y.len()
            invariant
                i + y@.len() <= x@.len(),
                j <= y@.len(),
                same == (forall|q: int| 0 <= q < j ==> x@[i + q] == y@[q]),
            decreases y@.len() - j,
        {
            assert(i + j < x@.len());
            assert(x@.len() == x.len());
            let idx: usize = i + j;
            if x[idx] != y[j] {
                same = false;
            }
            j = j + 1;
        }
        if same {
            assert(x@.subrange(i as int, i + y@.len()) =~= y@);
            return true;
        }
        proof {
            if x@.subrange(i as int, i + y@.len()) == y@ {
                assert(forall|q: int| 0 <= q < y@.len() ==> x@[i + q] == #[trigger] x@.subrange(i as int, i + y@.len())[q]);
            }
        }
        i = i + 1;
    }
    false
}

pub fn eq_ignore_ascii_case(a: &str, b: &str) -> (r: bool)
    ensures
        r == same_ignoring_ascii_case(a@, b@),
{
    crate::memories::titles_match(a, b)
}

/// Whether the app matches one of the exclusions.
pub fn app_excluded(app: &str, excluded: &Vec<String>) -> (r: bool)
    ensures
        r == exists|i: int| 0 <= i < excluded@.len() && app_matches(app@, #[trigger] excluded@[i]@),
{
    let mut i: usize = 0;
    while i < excluded.len()
        invariant
            i <= excluded@.len(),
            forall|k: int| 0 <= k < i ==> !app_matches(app@, #[trigger] excluded@[k]@),
        decreases excluded@.len() - i,
    {
        let ex = excluded[i].as_str();
        if eq_ignore_ascii_case(app, ex) || contains_text(app, ex) {
            assert(app_matches(app@, excluded@[i as int]@));
            return true;
        }
        i = i + 1;
    }
    false
}

/// The names of the built-in password managers: their content never
/// reaches a model.
pub open spec fn password_managers() -> Seq<Seq<char>> {
    seq!["1Password"@, "Bitwarden"@, "KeePassXC"@, "LastPass"@, "Dashlane"@, "Keychain Access"@]
}

/// The texts of a list of names.
pub open spec fn texts_of(v: Seq<String>) -> Seq<Seq<char>> {
    v.map_values(|s: String| s@)
}

/// Every exclusion that applies: the user's, then the password managers.
pub open spec fn every_exclusion(user: Seq<String>) -> Seq<Seq<char>> {
    texts_of(user) + password_managers()
}

/// An app whose content never reaches a model.
pub open spec fn app_is_excluded(app: Seq<char>, user: Seq<String>) -> bool {
    exists|i: int| 0 <= i < every_exclusion(user).len() && app_matches(app, #[trigger] every_exclusion(user)[i])
}

/// The user's exclusions followed by the built-in password managers.
pub fn all_excluded_apps(user: &Vec<String>) -> (r: Vec<String>)
    ensures
        texts_of(r@) == every_exclusion(user@),
{
    let mut out: Vec<String> = Vec::new();
    let mut i: usize = 0;
    while i < user.len()
        invariant
            i <= user@.len(),
            texts_of(out@) == texts_of(user@.take(i as int)),
        decreases user@.len() - i,
    {
        out.push(user[i].clone());
        proof {
            assert(texts_of(user@.take(i + 1)) =~= texts_of(user@.take(i as int)).push(user@[i as int]@));
        }
        i = i + 1;
        assert(texts_of(out@) =~= texts_of(user@.take(i as int)));
    }
    assert(user@.take(user@.len() as int) =~= user@);
    let ghost base = texts_of(out@);
    out.push("1Password".to_string());
    out.push("Bitwarden".to_string());
    out.push("KeePassXC".to_string());
    out.push("LastPass".to_string());
    out.push("Dashlane".to_string());
    out.push("Keychain Access".to_string());
    assert(texts_of(out@) =~= base + password_managers());
    out
}

/// Whether a clipboard source is excluded (user list or password managers).
pub fn excluded_source(app: &str, user_excluded: Vec<String>) -> (r: bool)
    ensures
        r == app_is_excluded(app@, user_excluded@),
{
    let all = all_excluded_apps(&user_excluded);
    let r = app_excluded(app, &all);
    proof {
        if r {
            let i = choose|i: int| 0 <= i < all@.len() && app_matches(app@, #[trigger] all@[i]@);
            assert(every_exclusion(user_excluded@)[i] == texts_of(all@)[i]);
        } else {
            assert forall|i: int| 0 <= i < every_exclusion(user_excluded@).len() implies !app_matches(app@, #[trigger] every_exclusion(user_excluded@)[i]) by {
                assert(texts_of(all@)[i] == all@[i]@);
            }
        }
    }
    r
}

/// The first fragment of a clipboard label: up to 20 characters of the
/// recognized text (or the content), with an ellipsis when cut.
pub fn display_title(ocr_text: &Option<String>, content: &str) -> (r: String)
    ensures
        match ocr_text {
            Some(t) => r@ == crate::search::clipped(t@, 20),
            None => r@ == crate::search::clipped(content@, 20),
        },
{
    match ocr_text {
        Some(t) => crate::search::clip(t.as_str(), 20),
        None => crate::search::clip(content, 20),
    }
}

/// Characters of the CJK ideograph blocks.
pub open spec fn cjk(c: char) -> bool {
    let u = c as u32;
    (0x4E00 <= u <= 0x9FFF) || (0x3400 <= u <= 0x4DBF) || (0xF900 <= u <= 0xFAFF) || (0x20000
        <= u <= 0x2FA1F)
}

pub fn is_cjk(ch: char) -> (r: bool)
    ensures
        r == cjk(ch),
{
    let u = ch as u32;
    (0x4E00 <= u && u <= 0x9FFF) || (0x3400 <= u && u <= 0x4DBF) || (0xF900 <= u && u <= 0xFAFF)
        || (0x20000 <= u && u <= 0x2FA1F)
}

/// Whether the normalized title of `title` is that of one of `titles`; the
/// index of the first such candidate.
pub open spec fn match_index(titles: Seq<Seq<char>>, title: Seq<char>) -> Option<int>
    decreases titles.len(),
{
    if titles.len() == 0 {
        None
    } else {
        match match_index(titles.drop_last(), title) {
            Some(k) => Some(k),
            None => if title_match_key(titles.last()) == title_match_key(title) {
                Some(titles.len() - 1)
            } else {
                None
            },
        }
    }
}

pub proof fn lemma_match_index(titles: Seq<Seq<char>>, title: Seq<char>)
    ensures
        match_index(titles, title) matches Some(k) ==> 0 <= k < titles.len(),
    decreases titles.len(),
{
    if titles.len() > 0 {
        lemma_match_index(titles.drop_last(), title);
    }
}

/// The candidate a suggested title maps back to: the first candidate whose
/// title is the same after normalizing both.
pub fn find_candidate(titles: &Vec<String>, title: &str) -> (r: Option<usize>)
    ensures
        match r {
            Some(k) => match_index(titles@.map_values(|t: String| t@), title@) == Some(k as int)
                && k < titles@.len(),
            None => match_index(titles@.map_values(|t: String| t@), title@) is None,
        },
{
    let ghost ts = titles@.map_values(|t: String| t@);
    let key = normalize_title_for_match(title);
    let mut i: usize = 0;
    while i < titles.len()
        invariant
            i <= titles@.len(),
            ts == titles@.map_values(|t: String| t@),
            key@ == title_match_key(title@),
            match_index(ts.take(i as int), title@) is None,
        decreases titles@.len() - i,
    {
        assert(ts.take(i + 1).drop_last() =~= ts.take(i as int));
        assert(ts.take(i + 1).last() == titles@[i as int]@);
        let k2 = normalize_title_for_match(titles[i].as_str());
        if str_eq(k2.as_str(), key.as_str()) {
            proof {
                lemma_match_prefix(ts, i as int + 1, title@);
            }
            return Some(i);
        }
        i = i + 1;
    }
    assert(ts.take(i as int) =~= ts);
    None
}

pub proof fn lemma_match_prefix(ts: Seq<Seq<char>>, n: int, title: Seq<char>)
    requires
        0 <= n <= ts.len(),
        match_index(ts.take(n), title) matches Some(k),
    ensures
        match_index(ts, title) == match_index(ts.take(n), title),
    decreases ts.len() - n,
{
    if n < ts.len() {
        assert(ts.take(n + 1).drop_last() =~= ts.take(n));
        lemma_match_prefix(ts, n + 1, title);
    } else {
        assert(ts.take(n) =~= ts);
    }
}

/// The suggested items whose titles map back to a candidate, in order.
pub open spec fn mapped_items(items: Seq<SuggestionItem>, titles: Seq<Seq<char>>) -> Seq<SuggestionItem>
    decreases items.len(),
{
    if items.len() == 0 {
        Seq::empty()
    } else {
        let prev = mapped_items(items.drop_last(), titles);
        if match_index(titles, items.last().title@) is Some {
            prev.push(items.last())
        } else {
            prev
        }
    }
}

/// Keeps the suggested items whose titles map back to a candidate (the
/// others are fabrications and are dropped), with the candidate each maps
/// to.
pub fn back_map(items: Vec<SuggestionItem>, titles: &Vec<String>) -> (r: (Vec<SuggestionItem>, Vec<usize>))
    ensures
        r.0@ == mapped_items(items@, titles@.map_values(|t: String| t@)),
        r.0@.len() == r.1@.len(),
        forall|i: int| 0 <= i < r.1@.len() ==> (#[trigger] r.1@[i]) < titles@.len()
            && match_index(titles@.map_values(|t: String| t@), r.0@[i].title@) == Some(r.1@[i] as int),
{
    let ghost ts = titles@.map_values(|t: String| t@);
    let ghost all = items@;
    let mut kept: Vec<SuggestionItem> = Vec::new();
    let mut which: Vec<usize> = Vec::new();
    let mut rest = items;
    while rest.len() > 0
        invariant
            ts == titles@.map_values(|t: String| t@),
            rest@.len() <= all.len(),
            rest@ == all.skip(all.len() - rest@.len()),
            kept@ == mapped_items(all.take(all.len() - rest@.len()), ts),
            kept@.len() == which@.len(),
            forall|i: int| 0 <= i < which@.len() ==> (#[trigger] which@[i]) < titles@.len()
                && match_index(ts, kept@[i].title@) == Some(which@[i] as int),
        decreases rest@.len(),
    {
        let ghost k = all.len() - rest@.len();
        assert(rest@[0] == all[k]);
        let item = rest.remove(0);
        proof {
            assert(all.take(k + 1).drop_last() =~= all.take(k));
            assert(all.take(k + 1).last() == item);
            assert(rest@ =~= all.skip(k + 1));
        }
        match find_candidate(titles, item.title.as_str()) {
            Some(k) => {
                kept.push(item);
                which.push(k);
            },
            None => {},
        }
    }
    assert(all.take(all.len() as int) =~= all);
    (kept, which)
}

/// The items picked for applying: valid indices (each below `n`), in
/// ascending order and each once; at least one.
pub fn normalize_selection(selected: &Vec<usize>, n: usize) -> (r: Result<Vec<usize>, DomainError>)
    ensures
        r is Ok <==> selected@.len() > 0 && forall|i: int| 0 <= i < selected@.len() ==> (#[trigger] selected@[i]) < n,
        r matches Err(e) ==> e is Validation,
        r matches Ok(v) ==> v@.len() > 0 && (forall|i: int| 0 <= i < v@.len() ==> (#[trigger] v@[i]) < n)
            && (forall|i: int| 0 <= i < v@.len() - 1 ==> #[trigger] v@[i] < v@[i + 1])
            && (forall|i: int| 0 <= i < selected@.len() ==> v@.contains(#[trigger] selected@[i]))
            && (forall|i: int| 0 <= i < v@.len() ==> selected@.contains(#[trigger] v@[i])),
{
    if selected.len() == 0 {
        return Err(validation("请至少选择一项"));
    }
    let mut k: usize = 0;
    while k < selected.len()
        invariant
            k <= selected@.len(),
            forall|i: int| 0 <= i < k ==> (#[trigger] selected@[i]) < n,
        decreases selected@.len() - k,
    {
        if selected[k] >= n {
            return Err(validation("所选条目不存在"));
        }
        k = k + 1;
    }
    let mut out: Vec<usize> = Vec::new();
    let mut x: usize = 0;
    while x < n
        invariant
            x <= n,
            forall|i: int| 0 <= i < selected@.len() ==> (#[trigger] selected@[i]) < n,
            forall|i: int| 0 <= i < out@.len() ==> (#[trigger] out@[i]) < x,
            forall|i: int| 0 <= i < out@.len() - 1 ==> #[trigger] out@[i] < out@[i + 1],
            forall|i: int| 0 <= i < selected@.len() && (#[trigger] selected@[i]) < x ==> out@.contains(selected@[i]),
            forall|i: int| 0 <= i < out@.len() ==> selected@.contains(#[trigger] out@[i]),
        decreases n - x,
    {
        let mut chosen = false;
        let mut j: usize = 0;
        while j < selected.len()
            invariant
                j <= selected@.len(),
                chosen <==> exists|q: int| 0 <= q < j && selected@[q] == x,
            decreases selected@.len() - j,
        {
            if selected[j] == x {
                chosen = true;
            }
            j = j + 1;
        }
        if chosen {
            let ghost before = out@;
            out.push(x);
            proof {
                let q = choose|q: int| 0 <= q < selected@.len() && selected@[q] == x;
                assert(selected@[q] == x);
                assert forall|i: int| 0 <= i < out@.len() implies selected@.contains(#[trigger] out@[i]) by {
                    if i < before.len() {
                        assert(out@[i] == before[i]);
                    }
                }
                assert forall|i: int| 0 <= i < selected@.len() && (#[trigger] selected@[i]) < x + 1 implies out@.contains(selected@[i]) by {
                    if selected@[i] == x {
                        assert(out@[out@.len() - 1] == x);
                    } else {
                        assert(before.contains(selected@[i]));
                        let w = choose|w: int| 0 <= w < before.len() && before[w] == selected@[i];
                        assert(out@[w] == selected@[i]);
                    }
                }
            }
        } else {
            proof {
                assert forall|i: int| 0 <= i < selected@.len() && (#[trigger] selected@[i]) < x + 1 implies out@.contains(selected@[i]) by {
                    if selected@[i] == x {
                        assert(false);
                    }
                }
            }
        }
        x = x + 1;
    }
    proof {
        assert(out@.contains(selected@[0]));
    }
    Ok(out)
}

} // verus!
