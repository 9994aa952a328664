//! The AI suggestion ledger: context is sanitized before it reaches a
//! model, model output is validated before anything is recorded, and
//! suggestions only become business data when the user applies them.

use vstd::prelude::*;

use crate::ai_model::{
    active_model_name, admissible, all_excluded_apps, app_excluded, app_is_excluded, app_matches, every_exclusion,
    same_context, sanitized_from, texts_of, back_map, content_from_json, match_index, output_reads_as,
    output_valid,
    content_to_json, feature_on, feature_text, parse_suggestion_content, sources_from_json,
    sources_to_json, trim_is_empty, AIFeature, AIProvider, AISettings, AISuggestionRecord,
    CompletionRequest, ContextItem, ExtractApplyInput, SuggestionContent, SuggestionItem,
    SuggestionSource, SuggestionStatus,
};
use crate::chars::trim;
use crate::dates::{is_date_text, is_time_text};
use crate::text::joined;
use crate::clock::{local_today, new_id, now_stamp};
use crate::db::{Database, SqlValue};
use crate::domain::{internal_msg, str_eq, validation, DomainError};
use crate::ids::{format_id, id_text, parse_id, EntityId};
use crate::json::{json_or_empty_object, parse_json, render_json};
use crate::links::{EntityLink, EntityLinkService, LINK_KIND_RELATED};
use crate::memories::MemoryService;
use crate::rows::{int_at, opt_text_at, text_at, text_param};
use crate::search::{SearchEntityType, SearchHit, SearchQuery, SearchService};
use crate::store::{connect, fetch, run};
use crate::task_model::{CreateTaskInput, Task, TaskPriority, TaskStatus};
use crate::tasks::{TaskService, TodayTasks};

verus! {

/// Source id of the weekly review summary entries.
pub const WEEKLY_SOURCE_ID: &'static str = "weekly";

/// Source id of the daily work suggestions.
pub const DAILY_SOURCE_ID: &'static str = "daily";

/// How many candidates a related-content request offers.
pub const RELATED_CANDIDATES: usize = 12;

/// How many retrieval fragments a related-content request probes.
pub const RELATED_FRAGMENT_CAP: usize = 24;

/// How many tasks a daily suggestion offers.
pub const DAILY_CANDIDATE_CAP: usize = 15;

/// The instructions a feature gives the model.
pub open spec fn prompt_text(feature: AIFeature) -> Seq<char> {
    match feature {
        AIFeature::Extract => "从以下记忆中提取待办事项，输出 JSON：{\"items\":[{\"title\",\"detail\",\"dueDate\",\"dueTime\",\"ambiguous\",\"sourceExcerpt\"}],\"summary\":null}。"@,
        AIFeature::Summary => "根据以下周回顾统计写一段简短总结，输出 JSON：{\"items\":[],\"summary\":\"...\"}。"@,
        AIFeature::Related => "从候选列表中挑选与任务相关的条目，标题须原样复制，输出 JSON：{\"items\":[{\"title\",\"sourceExcerpt\"}],\"summary\":null}。"@,
        AIFeature::Suggest => "从今日候选任务中挑选 1–3 项并说明理由，标题须原样复制，输出 JSON：{\"items\":[{\"title\",\"sourceExcerpt\"}],\"summary\":null}。"@,
        AIFeature::Split => "把任务拆成检查项，每项须引用原文，输出 JSON：{\"items\":[{\"title\",\"sourceExcerpt\"}],\"summary\":null}。"@,
    }
}

/// The instructions a feature gives the model.
pub fn prompt_template(feature: AIFeature) -> (r: &'static str)
    ensures
        r@ == prompt_text(feature),
{
    match feature {
        AIFeature::Extract => "从以下记忆中提取待办事项，输出 JSON：{\"items\":[{\"title\",\"detail\",\"dueDate\",\"dueTime\",\"ambiguous\",\"sourceExcerpt\"}],\"summary\":null}。",
        AIFeature::Summary => "根据以下周回顾统计写一段简短总结，输出 JSON：{\"items\":[],\"summary\":\"...\"}。",
        AIFeature::Related => "从候选列表中挑选与任务相关的条目，标题须原样复制，输出 JSON：{\"items\":[{\"title\",\"sourceExcerpt\"}],\"summary\":null}。",
        AIFeature::Suggest => "从今日候选任务中挑选 1–3 项并说明理由，标题须原样复制，输出 JSON：{\"items\":[{\"title\",\"sourceExcerpt\"}],\"summary\":null}。",
        AIFeature::Split => "把任务拆成检查项，每项须引用原文，输出 JSON：{\"items\":[{\"title\",\"sourceExcerpt\"}],\"summary\":null}。",
    }
}

/// One context item as the model reads it: `[type:id] text`.
pub open spec fn context_line(item: ContextItem) -> Seq<char> {
    "["@ + item.entity_type@ + ":"@ + item.entity_id@ + "] "@ + item.text@
}

/// The context handed to the model: each item as `[type:id] text`,
/// separated by blank lines.
pub fn user_context(items: &Vec<ContextItem>) -> (r: String)
    ensures
        r@ == joined(items@.map_values(|c: ContextItem| context_line(c)), "\n\n"@),
{
    let ghost lines = items@.map_values(|c: ContextItem| context_line(c));
    let mut out = String::new();
    let mut i: usize = 0;
    while i < items.len()
        invariant
            i <= items@.len(),
            lines == items@.map_values(|c: ContextItem| context_line(c)),
            out@ == joined(lines.take(i as int), "\n\n"@),
        decreases items@.len() - i,
    {
        assert(lines.take(i + 1).drop_last() =~= lines.take(i as int));
        if i > 0 {
            out.append("\n\n");
        } else {
            assert(joined(lines.take(0), "\n\n"@) =~= Seq::<char>::empty());
        }
        let ghost before = out@;
        out.append("[");
        out.append(items[i].entity_type.as_str());
        out.append(":");
        out.append(items[i].entity_id.as_str());
        out.append("] ");
        out.append(items[i].text.as_str());
        proof {
            assert(lines.take(i + 1).last() == context_line(items@[i as int]));
            assert(out@ =~= before + context_line(items@[i as int]));
            if i == 0 {
                assert(joined(lines.take(1), "\n\n"@) == lines.take(1)[0]);
            }
        }
        i = i + 1;
    }
    assert(lines.take(items@.len() as int) =~= lines);
    out
}

/// One source per item, all pointing at the request's source entity.
pub fn sources_for(content: &SuggestionContent, source_type: &str, source_id: &str) -> (r: Vec<
    SuggestionSource,
>)
    ensures
        r@.len() == content.items@.len(),
        forall|i: int| 0 <= i < r@.len() ==> (#[trigger] r@[i]).entity_id@ == source_id@
            && r@[i].entity_type@ == source_type@ && r@[i].excerpt@ == content.items@[i].source_excerpt@,
{
    let mut out: Vec<SuggestionSource> = Vec::new();
    let mut i: usize = 0;
    while i < content.items.len()
        invariant
            i <= content.items@.len(),
            out@.len() == i,
            forall|k: int| 0 <= k < i ==> (#[trigger] out@[k]).entity_id@ == source_id@
                && out@[k].entity_type@ == source_type@ && out@[k].excerpt@ == content.items@[k].source_excerpt@,
        decreases content.items@.len() - i,
    {
        out.push(
            SuggestionSource {
                entity_type: source_type.to_string(),
                entity_id: source_id.to_string(),
                text_offset: 0,
                excerpt: content.items[i].source_excerpt.clone(),
            },
        );
        i = i + 1;
    }
    out
}

/// The daily feature line of a task: its due date and time, priority and
/// state, as shown to the model.
pub open spec fn feature_line(task: Task) -> Seq<char> {
    let due = match (task.due_date, task.due_time) {
        (Some(d), Some(t)) => "截止:"@ + d@ + " "@ + t@,
        (Some(d), None) => "截止:"@ + d@,
        _ => "截止:无"@,
    };
    let priority = match task.priority {
        TaskPriority::High => "高"@,
        TaskPriority::Medium => "中"@,
        TaskPriority::Low => "低"@,
        TaskPriority::Unset => "无"@,
    };
    let state = if task.status == TaskStatus::Todo {
        "未完成"@
    } else {
        "已完成"@
    };
    due + " 优先级:"@ + priority + " 状态:"@ + state
}

pub fn daily_feature_line(task: &Task) -> (r: String)
    ensures
        r@ == feature_line(*task),
{
    let mut out = String::new();
    match (&task.due_date, &task.due_time) {
        (Some(d), Some(t)) => {
            out.append("截止:");
            out.append(d.as_str());
            out.append(" ");
            out.append(t.as_str());
        },
        (Some(d), None) => {
            out.append("截止:");
            out.append(d.as_str());
        },
        _ => {
            out.append("截止:无");
        },
    }
    out.append(" 优先级:");
    out.append(
        match task.priority {
            TaskPriority::High => "高",
            TaskPriority::Medium => "中",
            TaskPriority::Low => "低",
            TaskPriority::Unset => "无",
        },
    );
    out.append(" 状态:");
    out.append(
        if task.status == TaskStatus::Todo {
            "未完成"
        } else {
            "已完成"
        },
    );
    out
}

/// `v` without its item at `index`.
pub fn without<T>(v: Vec<T>, index: usize) -> (r: Vec<T>)
    requires
        index < v@.len(),
    ensures
        r@ == v@.remove(index as int),
{
    let mut v = v;
    let _ = v.remove(index);
    v
}

fn record_from_row(row: &Vec<SqlValue>) -> (r: Result<AISuggestionRecord, DomainError>)
    ensures
        r matches Ok(rec) ==> crate::rows::text_cell(row@, 0) == Some(rec.id@),
        r matches Err(e) ==> e is Internal,
{
    let id = text_at(row, 0)?;
    let feature_type = text_at(row, 1)?;
    let source_entity_type = text_at(row, 2)?;
    let source_entity_id = text_at(row, 3)?;
    let payload_json = text_at(row, 4)?;
    let sources_json = text_at(row, 5)?;
    let status = text_at(row, 6)?;
    let payload = match parse_json(payload_json.as_str()) {
        Some(doc) => match content_from_json(&doc) {
            Ok(c) => c,
            Err(_) => return Err(internal_msg("invalid payload json")),
        },
        None => return Err(internal_msg("invalid payload json")),
    };
    let sources = match parse_json(sources_json.as_str()) {
        Some(doc) => match sources_from_json(&doc) {
            Some(s) => s,
            None => return Err(internal_msg("invalid sources json")),
        },
        None => return Err(internal_msg("invalid sources json")),
    };
    Ok(
        AISuggestionRecord {
            id,
            feature_type,
            source_entity_type,
            source_entity_id,
            payload,
            sources,
            status: SuggestionStatus::from_stored(status.as_str()),
            provider: text_at(row, 7)?,
            model: text_at(row, 8)?,
            created_at: text_at(row, 9)?,
            decided_at: opt_text_at(row, 10)?,
        },
    )
}

const RECORD_COLUMNS: &'static str = "SELECT id, feature_type, source_entity_type, source_entity_id, payload, sources_json, status, provider, model, created_at, decided_at FROM ai_suggestions";

/// The result of applying extracted items.
pub struct ExtractApplyResult {
    pub tasks: Vec<Task>,
    pub suggestion: AISuggestionRecord,
}

/// The due date a picked item gives its task: the item's date when the
/// item is not ambiguous and the date is valid, none otherwise (a date is
/// never guessed).
pub open spec fn item_due_date(item: SuggestionItem) -> Option<Seq<char>> {
    match item.due_date {
        Some(d) => if !item.ambiguous && is_date_text(d@) {
            Some(d@)
        } else {
            None
        },
        None => None,
    }
}

/// The due time a picked item gives its task: the item's valid time, and
/// only when the task gets a date.
pub open spec fn item_due_time(item: SuggestionItem) -> Option<Seq<char>> {
    match item.due_time {
        Some(t) => if item_due_date(item) is Some && is_time_text(t@) {
            Some(t@)
        } else {
            None
        },
        None => None,
    }
}

/// The notes of a task made from a picked item: the item's detail (if
/// any) on its own line, then where it came from and the excerpt.
pub open spec fn item_notes(item: SuggestionItem, memory_id: Seq<char>) -> Seq<char> {
    let head = match item.detail {
        Some(d) => if d@.len() > 0 {
            d@ + "\n"@
        } else {
            d@
        },
        None => Seq::empty(),
    };
    head + "来源：AI 从记忆《"@ + memory_id + "》提取；原文："@ + item.source_excerpt@
}

/// The task a picked item of an extraction becomes: its title, the notes
/// above, and a date and time only where the item gives them for sure.
pub fn task_input_for_item(item: &SuggestionItem, memory_id: &str) -> (r: CreateTaskInput)
    ensures
        r.title@ == item.title@,
        r.notes matches Some(n) && n@ == item_notes(*item, memory_id@),
        crate::templates::opt_text(r.due_date) == item_due_date(*item),
        crate::templates::opt_text(r.due_time) == item_due_time(*item),
        r.priority is None,
        r.list_id is None,
        r.tag_names is None,
{
    let due_date = if item.ambiguous {
        None
    } else {
        match &item.due_date {
            Some(d) => if crate::dates::is_date(d.as_str()) {
                Some(d.clone())
            } else {
                None
            },
            None => None,
        }
    };
    let due_time = if due_date.is_some() {
        match &item.due_time {
            Some(t) => if crate::dates::is_time(t.as_str()) {
                Some(t.clone())
            } else {
                None
            },
            None => None,
        }
    } else {
        None
    };
    let mut notes = match &item.detail {
        Some(d) => d.clone(),
        None => String::new(),
    };
    if !notes.as_str().is_empty() {
        notes.append("\n");
    }
    notes.append("来源：AI 从记忆《");
    notes.append(memory_id);
    notes.append("》提取；原文：");
    notes.append(item.source_excerpt.as_str());
    CreateTaskInput {
        title: item.title.clone(),
        notes: Some(notes),
        priority: None,
        list_id: None,
        due_date,
        due_time,
        tag_names: None,
    }
}

/// The tasks a daily suggestion may offer: overdue ones, then those due
/// today.
pub open spec fn daily_pool(today: TodayTasks) -> Seq<Task> {
    today.overdue@ + today.due_today@
}

/// `id` is the id of an offered task: one of the pool that is neither in
/// focus nor waiting, and was not skipped.
pub open spec fn daily_candidate_id(today: TodayTasks, skipped: Seq<Seq<char>>, id: Seq<char>) -> bool {
    exists|j: int|
        0 <= j < daily_pool(today).len() && id == id_text(#[trigger] daily_pool(today)[j].id) && daily_offerable(
            today,
            skipped,
            daily_pool(today)[j],
        )
}

/// Every source of a daily suggestion is an offered task.
pub open spec fn daily_sources_ok(today: TodayTasks, skipped: Seq<Seq<char>>, sources: Seq<SuggestionSource>) -> bool {
    forall|i: int| 0 <= i < sources.len() ==> daily_candidate_id(today, skipped, (#[trigger] sources[i]).entity_id@)
}

pub open spec fn daily_offerable(today: TodayTasks, skipped: Seq<Seq<char>>, t: Task) -> bool {
    &&& !today.focus@.map_values(|x: Task| x.id).contains(t.id)
    &&& !today.waiting_follow_up@.map_values(|x: Task| x.id).contains(t.id)
    &&& !skipped.contains(id_text(t.id))
}

fn task_id_list(a: &Vec<Task>, b: &Vec<Task>) -> (r: Vec<EntityId>)
    ensures
        r@ == a@.map_values(|x: Task| x.id) + b@.map_values(|x: Task| x.id),
{
    let mut out: Vec<EntityId> = Vec::new();
    let mut i: usize = 0;
    while i < a.len()
        invariant
            i <= a@.len(),
            out@ == a@.take(i as int).map_values(|x: Task| x.id),
        decreases a@.len() - i,
    {
        out.push(a[i].id);
        assert(a@.take(i + 1).map_values(|x: Task| x.id) =~= a@.take(i as int).map_values(|x: Task| x.id).push(a@[i as int].id));
        i = i + 1;
    }
    assert(a@.take(a@.len() as int) =~= a@);
    let ghost mid = out@;
    let mut j: usize = 0;
    while j < b.len()
        invariant
            j <= b@.len(),
            mid == a@.map_values(|x: Task| x.id),
            out@ == mid + b@.take(j as int).map_values(|x: Task| x.id),
        decreases b@.len() - j,
    {
        out.push(b[j].id);
        assert(b@.take(j + 1).map_values(|x: Task| x.id) =~= b@.take(j as int).map_values(|x: Task| x.id).push(b@[j as int].id));
        assert(mid + b@.take(j + 1).map_values(|x: Task| x.id) =~= (mid + b@.take(j as int).map_values(|x: Task| x.id)).push(b@[j as int].id));
        j = j + 1;
    }
    assert(b@.take(b@.len() as int) =~= b@);
    out
}

/// The candidates of a daily suggestion, at most `DAILY_CANDIDATE_CAP`, in
/// pool order: their titles, their ids and the listing sent to the model
/// (one line per candidate with its features).
pub fn daily_candidates(today: &TodayTasks, skipped: &Vec<String>) -> (r: (Vec<String>, Vec<String>, String))
    ensures
        r.0@.len() == r.1@.len(),
        r.1@.len() <= DAILY_CANDIDATE_CAP,
        forall|k: int| 0 <= k < r.1@.len() ==> daily_candidate_id(*today, skipped@.map_values(|t: String| t@), (#[trigger] r.1@[k])@),
        (exists|j: int| 0 <= j < daily_pool(*today).len() && daily_offerable(*today, skipped@.map_values(|t: String| t@), #[trigger] daily_pool(*today)[j]))
            ==> r.1@.len() > 0,
{
    let ghost sk = skipped@.map_values(|t: String| t@);
    let focus = task_id_list(&today.focus, &today.waiting_follow_up);
    proof {
        assert forall|t: Task| #[trigger] focus@.contains(t.id) <==> (today.focus@.map_values(|x: Task| x.id).contains(t.id)
            || today.waiting_follow_up@.map_values(|x: Task| x.id).contains(t.id)) by {
            let fa = today.focus@.map_values(|x: Task| x.id);
            let fb = today.waiting_follow_up@.map_values(|x: Task| x.id);
            if focus@.contains(t.id) {
                let w = choose|w: int| 0 <= w < focus@.len() && focus@[w] == t.id;
                if w < fa.len() {
                    assert(fa[w] == t.id);
                } else {
                    assert(fb[w - fa.len()] == t.id);
                }
            }
            if fa.contains(t.id) {
                let w = choose|w: int| 0 <= w < fa.len() && fa[w] == t.id;
                assert(focus@[w] == t.id);
            }
            if fb.contains(t.id) {
                let w = choose|w: int| 0 <= w < fb.len() && fb[w] == t.id;
                assert(focus@[fa.len() + w] == t.id);
            }
        }
    }
    let mut titles: Vec<String> = Vec::new();
    let mut ids: Vec<String> = Vec::new();
    let mut listing = String::new();
    let mut j: u128 = 0;
    let n_overdue = today.overdue.len();
    let n_due = today.due_today.len();
    let total: u128 = n_overdue as u128 + n_due as u128;
    let ghost pool = daily_pool(*today);
    while j < total && titles.len() < DAILY_CANDIDATE_CAP
        invariant
            titles@.len() == ids@.len(),
            ids@.len() <= DAILY_CANDIDATE_CAP,
            n_overdue == today.overdue@.len(),
            n_due == today.due_today@.len(),
            pool == daily_pool(*today),
            total == pool.len(),
            j <= pool.len(),
            sk == skipped@.map_values(|t: String| t@),
            forall|t: Task| #[trigger] focus@.contains(t.id) <==> (today.focus@.map_values(|x: Task| x.id).contains(t.id)
                || today.waiting_follow_up@.map_values(|x: Task| x.id).contains(t.id)),
            forall|k: int| 0 <= k < ids@.len() ==> daily_candidate_id(*today, sk, (#[trigger] ids@[k])@),
            ids@.len() == 0 ==> forall|q: int| 0 <= q < j ==> !daily_offerable(*today, sk, #[trigger] pool[q]),
        decreases pool.len() - j,
    {
        let task = if j < n_overdue as u128 {
            &today.overdue[j as usize]
        } else {
            &today.due_today[(j - n_overdue as u128) as usize]
        };
        assert(*task == pool[j as int]);
        let id_text = format_id(task.id);
        let skip = has_text(skipped, id_text.as_str());
        proof {
            if skip {
                let w = choose|w: int| 0 <= w < skipped@.len() && (#[trigger] skipped@[w])@ == id_text@;
                assert(sk[w] == id_text@);
            } else {
                assert forall|w: int| 0 <= w < sk.len() implies sk[w] != id_text@ by {
                    assert(sk[w] == skipped@[w]@);
                }
            }
        }
        if !crate::memories::has_id(&focus, task.id) && !skip {
            let feature = daily_feature_line(task);
            if titles.len() > 0 {
                listing.append("\n");
            }
            listing.append("《");
            listing.append(task.title.as_str());
            listing.append("》 ");
            listing.append(feature.as_str());
            titles.push(task.title.clone());
            proof {
                assert(daily_offerable(*today, sk, pool[j as int]));
                assert(daily_candidate_id(*today, sk, id_text@));
            }
            ids.push(id_text);
        }
        j = j + 1;
    }
    proof {
        if ids@.len() == 0 {
            assert(j == pool.len());
        }
    }
    (titles, ids, listing)
}

/// A candidate may be offered as related: it is not linked to the task,
/// was not rejected or dismissed for it before, and is not a sensitive
/// memory.
pub open spec fn related_allowed(linked: Seq<Seq<char>>, rejected: Seq<Seq<char>>, sensitive: Seq<Seq<char>>, hit: SearchHit) -> bool {
    &&& !linked.contains(id_text(hit.entity_id))
    &&& !rejected.contains(id_text(hit.entity_id))
    &&& !sensitive.contains(id_text(hit.entity_id))
}

pub open spec fn texts(v: Seq<String>) -> Seq<Seq<char>> {
    v.map_values(|t: String| t@)
}

fn has_text_spec(v: &Vec<String>, s: &str) -> (r: bool)
    ensures
        r == texts(v@).contains(s@),
{
    let r = has_text(v, s);
    proof {
        if r {
            let w = choose|w: int| 0 <= w < v@.len() && (#[trigger] v@[w])@ == s@;
            assert(texts(v@)[w] == s@);
        } else {
            assert forall|w: int| 0 <= w < texts(v@).len() implies texts(v@)[w] != s@ by {
                assert(texts(v@)[w] == v@[w]@);
            }
        }
    }
    r
}

pub open spec fn hit_titles(hits: Seq<SearchHit>) -> Seq<Seq<char>> {
    hits.map_values(|h: SearchHit| h.title@)
}

/// A source of a related suggestion points at the candidate whose title
/// the item's title matches.
pub open spec fn related_source_ok(cands: Seq<SearchHit>, item: SuggestionItem, src: SuggestionSource) -> bool {
    match match_index(hit_titles(cands), item.title@) {
        Some(w) => 0 <= w < cands.len() && src.entity_id@ == id_text(cands[w].entity_id)
            && src.excerpt@ == item.source_excerpt@,
        None => false,
    }
}

/// A related suggestion whose items each match a candidate, every
/// candidate being one that may be offered.
pub open spec fn related_result_ok(
    cands: Seq<SearchHit>,
    linked: Seq<Seq<char>>,
    rejected: Seq<Seq<char>>,
    sensitive: Seq<Seq<char>>,
    items: Seq<SuggestionItem>,
    sources: Seq<SuggestionSource>,
) -> bool {
    &&& forall|c: int| 0 <= c < cands.len() ==> related_allowed(linked, rejected, sensitive, #[trigger] cands[c])
    &&& items.len() == sources.len()
    &&& forall|i: int| 0 <= i < sources.len() ==> related_source_ok(cands, items[i], #[trigger] sources[i])
}

/// The first twenty characters of a snippet.
pub open spec fn excerpt_of(s: Seq<char>) -> Seq<char> {
    if s.len() <= 20 {
        s
    } else {
        s.take(20)
    }
}

/// The numbered candidate lines sent to the model: `n. 《title》 摘要：excerpt`.
pub open spec fn related_listing(hits: Seq<SearchHit>) -> Seq<char>
    decreases hits.len(),
{
    if hits.len() == 0 {
        Seq::empty()
    } else {
        let prev = related_listing(hits.drop_last());
        let head = if hits.len() > 1 {
            prev + "\n"@
        } else {
            prev
        };
        head + crate::json::decimal(hits.len() as int) + ". 《"@ + hits.last().title@ + "》 摘要："@ + excerpt_of(
            hits.last().snippet@,
        )
    }
}

/// What a related-items request sends: the task's title and notes, then
/// the numbered candidates; and the candidates' titles to map answers back.
/// The first place at or after `k` in `pool` that holds entity `id`
/// (the pool's length when there is none).
pub open spec fn first_slot(pool: Seq<SearchHit>, id: EntityId, k: int) -> int
    decreases pool.len() - k,
{
    if k < 0 || k >= pool.len() {
        pool.len() as int
    } else if pool[k].entity_id == id {
        k
    } else {
        first_slot(pool, id, k + 1)
    }
}

/// A candidate pool and its hit counts after the hits `found`: a hit of
/// an entity already pooled adds one to its count (saturating), any other
/// joins the pool with a count of one.
pub open spec fn tally(pool: Seq<SearchHit>, counts: Seq<u64>, found: Seq<SearchHit>) -> (Seq<SearchHit>, Seq<u64>)
    decreases found.len(),
{
    if found.len() == 0 {
        (pool, counts)
    } else {
        let (p, c) = tally(pool, counts, found.drop_last());
        let h = found.last();
        let s = first_slot(p, h.entity_id, 0);
        if s < p.len() {
            (p, c.update(s, if c[s] < u64::MAX { (c[s] + 1) as u64 } else { c[s] }))
        } else {
            (p.push(h), c.push(1))
        }
    }
}

/// Adds the hits `found` to a candidate pool and its counts.
pub fn tally_hits(pool: &mut Vec<SearchHit>, counts: &mut Vec<u64>, found: Vec<SearchHit>)
    requires
        old(pool)@.len() == old(counts)@.len(),
    ensures
        (final(pool)@, final(counts)@) == tally(old(pool)@, old(counts)@, found@),
        final(pool)@.len() == final(counts)@.len(),
{
    let ghost p0 = pool@;
    let ghost c0 = counts@;
    let ghost all = found@;
    let mut found = found;
    let n = found.len();
    let mut done: usize = 0;
    while found.len() > 0
        invariant
            n == all.len(),
            done + found@.len() == all.len(),
            found@ == all.skip(done as int),
            pool@.len() == counts@.len(),
            (pool@, counts@) == tally(p0, c0, all.take(done as int)),
        decreases found@.len(),
    {
        let hit = found.remove(0);
        assert(hit == all[done as int]);
        let mut slot: usize = 0;
        while slot < pool.len() && pool[slot].entity_id != hit.entity_id
            invariant
                slot <= pool@.len(),
                first_slot(pool@, hit.entity_id, 0) == first_slot(pool@, hit.entity_id, slot as int),
            decreases pool@.len() - slot,
        {
            slot = slot + 1;
        }
        assert(all.take(done + 1).drop_last() =~= all.take(done as int));
        assert(all.take(done + 1).last() == hit);
        if slot < pool.len() {
            let c = counts[slot];
            if c < u64::MAX {
                counts.set(slot, c + 1);
            }
        } else {
            pool.push(hit);
            counts.push(1);
        }
        assert(found@ =~= all.skip(done + 1));
        done = done + 1;
    }
    assert(all.take(done as int) =~= all);
}

/// The entity at the other end of a link from `id`.
pub open spec fn other_end(l: EntityLink, id: EntityId) -> EntityId {
    if l.source_id == id {
        l.target_id
    } else {
        l.source_id
    }
}

/// The ids (as text) of what each link connects `id` to, in order.
pub fn other_ends(links: &Vec<EntityLink>, id: EntityId) -> (r: Vec<String>)
    ensures
        r@.len() == links@.len(),
        forall|i: int| 0 <= i < r@.len() ==> (#[trigger] r@[i])@ == id_text(other_end(links@[i], id)),
{
    let mut out: Vec<String> = Vec::new();
    let mut k: usize = 0;
    while k < links.len()
        invariant
            k <= links@.len(),
            out@.len() == k,
            forall|i: int| 0 <= i < k ==> (#[trigger] out@[i])@ == id_text(other_end(links@[i], id)),
        decreases links@.len() - k,
    {
        let other = if links[k].source_id == id {
            links[k].target_id
        } else {
            links[k].source_id
        };
        out.push(format_id(other));
        k = k + 1;
    }
    out
}

pub fn related_context(task_id: &str, task: &Task, ranked: &Vec<SearchHit>) -> (r: (Vec<ContextItem>, Vec<String>))
    requires
        ranked@.len() <= RELATED_CANDIDATES,
    ensures
        texts(r.1@) == hit_titles(ranked@),
        r.0@.len() == 2,
        forall|i: int| 0 <= i < 2 ==> (#[trigger] r.0@[i]).entity_type@ == "task"@ && r.0@[i].entity_id@ == task_id@
            && r.0@[i].source_app is None,
        r.0@[0].text@ == "任务：《"@ + task.title@ + "》\n说明："@ + task.notes@,
        r.0@[1].text@ == "候选列表：\n"@ + related_listing(ranked@),
{
    let mut titles: Vec<String> = Vec::new();
    let mut listing = String::new();
    let mut q: usize = 0;
    assert(ranked@.take(0) =~= Seq::<SearchHit>::empty());
    while q < ranked.len()
        invariant
            q <= ranked@.len(),
            ranked@.len() <= RELATED_CANDIDATES,
            titles@.len() == q,
            forall|k: int| 0 <= k < q ==> (#[trigger] titles@[k])@ == ranked@[k].title@,
            listing@ == related_listing(ranked@.take(q as int)),
        decreases ranked@.len() - q,
    {
        assert(ranked@.take(q + 1).drop_last() =~= ranked@.take(q as int));
        assert(ranked@.take(q + 1).last() == ranked@[q as int]);
        let excerpt = crate::fragments::first_chars(ranked[q].snippet.as_str(), 20);
        if q > 0 {
            listing.append("\n");
        }
        let n = crate::json::number_text((q + 1) as i64);
        listing.append(n.as_str());
        listing.append(". 《");
        listing.append(ranked[q].title.as_str());
        listing.append("》 摘要：");
        listing.append(excerpt.as_str());
        titles.push(ranked[q].title.clone());
        q = q + 1;
    }
    assert(ranked@.take(ranked@.len() as int) =~= ranked@);
    assert(texts(titles@) =~= hit_titles(ranked@));
    let mut task_text = "任务：《".to_string();
    task_text.append(task.title.as_str());
    task_text.append("》\n说明：");
    task_text.append(task.notes.as_str());
    let mut list_text = "候选列表：\n".to_string();
    list_text.append(listing.as_str());
    let kind = "task";
    proof {
        reveal_strlit("task");
    }
    let context = vec![
        ContextItem { entity_type: kind.to_string(), entity_id: task_id.to_string(), text: task_text, source_app: None },
        ContextItem { entity_type: kind.to_string(), entity_id: task_id.to_string(), text: list_text, source_app: None },
    ];
    (context, titles)
}

/// `x` is one of the first `upto` pooled hits, found `s` times.
pub open spec fn drawn_from(x: SearchHit, s: u64, pool: Seq<SearchHit>, counts: Seq<u64>, upto: int) -> bool {
    exists|j: int| 0 <= j < upto && pool[j] == x && #[trigger] counts[j] == s
}

/// `r` lists pooled hits with their counts `sc`, most found first.
pub open spec fn ranked_by(r: Seq<SearchHit>, sc: Seq<u64>, pool: Seq<SearchHit>, counts: Seq<u64>) -> bool {
    &&& sc.len() == r.len()
    &&& forall|i: int, k: int| 0 <= i < k < sc.len() ==> sc[i] >= sc[k]
    &&& forall|i: int| 0 <= i < r.len() ==> drawn_from(#[trigger] r[i], sc[i], pool, counts, pool.len() as int)
}

/// The related candidates, best first: of the pooled hits (each with the
/// number of fragments that found it), those that may be offered, ordered
/// by that number (most first), at most `RELATED_CANDIDATES`.
pub fn rank_related(
    pool: Vec<crate::search::SearchHit>,
    counts: Vec<u64>,
    linked: &Vec<String>,
    rejected: &Vec<String>,
    sensitive: &Vec<String>,
) -> (r: Vec<crate::search::SearchHit>)
    requires
        pool@.len() == counts@.len(),
    ensures
        r@.len() <= RELATED_CANDIDATES,
        forall|i: int| 0 <= i < r@.len() ==> pool@.contains(#[trigger] r@[i]),
        forall|i: int| 0 <= i < r@.len() ==> related_allowed(texts(linked@), texts(rejected@), texts(sensitive@), #[trigger] r@[i]),
        (exists|j: int| 0 <= j < pool@.len() && related_allowed(texts(linked@), texts(rejected@), texts(sensitive@), #[trigger] pool@[j]))
            ==> r@.len() > 0,
        exists|sc: Seq<u64>| #[trigger] ranked_by(r@, sc, pool@, counts@),
{
    let ghost p0 = pool@;
    let ghost c0 = counts@;
    let ghost lk = texts(linked@);
    let ghost rj = texts(rejected@);
    let ghost sn = texts(sensitive@);
    let mut pool = pool;
    let mut counts = counts;
    let n = pool.len();
    assert(p0.len() == n);
    let mut ranked: Vec<crate::search::SearchHit> = Vec::new();
    let mut scores: Vec<u64> = Vec::new();
    let mut taken: usize = 0;
    while pool.len() > 0
        invariant
            pool@.len() == counts@.len(),
            ranked@.len() == scores@.len(),
            taken + pool@.len() == p0.len(),
            p0.len() <= usize::MAX,
            pool@ == p0.skip(taken as int),
            counts@ == c0.skip(taken as int),
            p0.len() == c0.len(),
            lk == texts(linked@),
            rj == texts(rejected@),
            sn == texts(sensitive@),
            forall|i: int, k: int| 0 <= i < k < scores@.len() ==> scores@[i] >= scores@[k],
            forall|i: int| 0 <= i < ranked@.len() ==> drawn_from(#[trigger] ranked@[i], scores@[i], p0, c0, taken as int),
            forall|i: int| 0 <= i < ranked@.len() ==> related_allowed(lk, rj, sn, #[trigger] ranked@[i]),
            (exists|j: int| 0 <= j < taken && related_allowed(lk, rj, sn, #[trigger] p0[j])) ==> ranked@.len() > 0,
        decreases pool@.len(),
    {
        let hit = pool.remove(0);
        let c = counts.remove(0);
        assert(hit == p0[taken as int]);
        assert(c == c0[taken as int]);
        let id = format_id(hit.entity_id);
        if !has_text_spec(linked, id.as_str()) && !has_text_spec(rejected, id.as_str())
            && !has_text_spec(sensitive, id.as_str()) {
            let mut p: usize = 0;
            while p < ranked.len() && scores[p] >= c
                invariant
                    p <= ranked@.len(),
                    ranked@.len() == scores@.len(),
                    forall|i: int| 0 <= i < p ==> scores@[i] >= c,
                decreases ranked@.len() - p,
            {
                p = p + 1;
            }
            let ghost r0 = ranked@;
            let ghost s0 = scores@;
            ranked.insert(p, hit);
            scores.insert(p, c);
            proof {
                assert forall|i: int, k: int| 0 <= i < k < scores@.len() implies scores@[i] >= scores@[k] by {
                    if k < p {
                    } else if k == p {
                        assert(scores@[k] == c);
                        if i < p { assert(scores@[i] == s0[i]); }
                    } else {
                        assert(scores@[k] == s0[k - 1]);
                        if i < p {
                            assert(scores@[i] == s0[i]);
                        } else if i == p {
                            if p < s0.len() { assert(!(s0[p as int] >= c)); }
                            assert(s0[p as int] >= s0[k - 1] || p as int == k - 1);
                        } else {
                            assert(scores@[i] == s0[i - 1]);
                        }
                    }
                }
                assert forall|i: int| 0 <= i < ranked@.len() implies drawn_from(#[trigger] ranked@[i], scores@[i], p0, c0, taken + 1) by {
                    if i < p {
                        assert(ranked@[i] == r0[i] && scores@[i] == s0[i]);
                        assert(drawn_from(r0[i], s0[i], p0, c0, taken as int));
                    } else if i == p {
                        assert(p0[taken as int] == ranked@[i] && c0[taken as int] == scores@[i]);
                    } else {
                        assert(ranked@[i] == r0[i - 1] && scores@[i] == s0[i - 1]);
                        assert(drawn_from(r0[i - 1], s0[i - 1], p0, c0, taken as int));
                    }
                }
                assert forall|i: int| 0 <= i < ranked@.len() implies related_allowed(lk, rj, sn, #[trigger] ranked@[i]) by {
                    if i < p {
                        assert(ranked@[i] == r0[i]);
                    } else if i > p {
                        assert(ranked@[i] == r0[i - 1]);
                    }
                }
            }
        }
        proof {
            assert(pool@ =~= p0.skip(taken + 1));
            assert(counts@ =~= c0.skip(taken + 1));
        }
        taken = taken + 1;
    }
    let ghost full = ranked@;
    let ghost fs = scores@;
    ranked.truncate(RELATED_CANDIDATES);
    proof {
        assert(ranked@ =~= if full.len() <= RELATED_CANDIDATES { full } else { full.take(RELATED_CANDIDATES as int) });
        let sc = if full.len() <= RELATED_CANDIDATES { fs } else { fs.take(RELATED_CANDIDATES as int) };
        assert forall|i: int| 0 <= i < ranked@.len() implies p0.contains(#[trigger] ranked@[i]) by {
            assert(ranked@[i] == full[i]);
            assert(drawn_from(full[i], fs[i], p0, c0, taken as int));
            let j = choose|j: int| 0 <= j < taken && p0[j] == full[i] && #[trigger] c0[j] == fs[i];
            assert(p0[j] == ranked@[i]);
        }
        assert forall|i: int| 0 <= i < ranked@.len() implies drawn_from(#[trigger] ranked@[i], sc[i], p0, c0, p0.len() as int) by {
            assert(ranked@[i] == full[i] && sc[i] == fs[i]);
            assert(drawn_from(full[i], fs[i], p0, c0, taken as int));
        }
        assert(ranked_by(ranked@, sc, p0, c0));
        assert forall|i: int| 0 <= i < ranked@.len() implies related_allowed(lk, rj, sn, #[trigger] ranked@[i]) by {
            assert(ranked@[i] == full[i]);
        }
        assert(sc.len() == ranked@.len());
    }
    ranked
}

/// A pending suggestion recording the model answer `raw`: its payload is
/// what the answer says, with one source per item pointing at the
/// request's source and quoting the item's excerpt.
pub open spec fn record_from_output(
    rec: AISuggestionRecord,
    raw: Seq<char>,
    feature: AIFeature,
    source_type: Seq<char>,
    source_id: Seq<char>,
) -> bool {
    &&& output_reads_as(raw, rec.payload)
    &&& rec.status == SuggestionStatus::Pending
    &&& rec.decided_at is None
    &&& rec.feature_type@ == feature_text(feature)
    &&& rec.source_entity_type@ == source_type
    &&& rec.source_entity_id@ == source_id
    &&& rec.sources@.len() == rec.payload.items@.len()
    &&& forall|i: int| 0 <= i < rec.sources@.len() ==> (#[trigger] rec.sources@[i]).entity_type@ == source_type
        && rec.sources@[i].entity_id@ == source_id && rec.sources@[i].excerpt@ == rec.payload.items@[i].source_excerpt@
}

/// What an extraction sends about a memory: nothing for a sensitive one,
/// else one item holding its title and body.
pub fn extract_context(memory: &crate::memories::Memory) -> (r: Option<Vec<ContextItem>>)
    ensures
        r is None <==> memory.sensitive,
        r matches Some(v) ==> v@.len() == 1 && v@[0].entity_type@ == "memory"@ && v@[0].entity_id@ == id_text(memory.id)
            && v@[0].text@ == memory.title@ + seq!['\n'] + memory.body@ && v@[0].source_app is None,
{
    if memory.sensitive {
        return None;
    }
    let text = crate::search::document_text(memory.title.as_str(), memory.body.as_str());
    let kind = "memory";
    proof {
        reveal_strlit("memory");
    }
    Some(vec![ContextItem { entity_type: kind.to_string(), entity_id: format_id(memory.id), text, source_app: None }])
}

/// A suggestion can be acted on as a `feature` suggestion: it is one, and
/// it is still pending.
pub open spec fn pending_of(rec: AISuggestionRecord, feature: AIFeature) -> bool {
    rec.feature_type@ == feature_text(feature) && rec.status == SuggestionStatus::Pending
}

/// Refuses a suggestion that is not a pending `feature` suggestion.
pub fn check_pending(rec: &AISuggestionRecord, feature: AIFeature) -> (r: Result<(), DomainError>)
    ensures
        r is Ok <==> pending_of(*rec, feature),
        r matches Err(e) ==> e is Validation,
{
    if !str_eq(rec.feature_type.as_str(), feature.as_str()) {
        return Err(validation("建议类型不符"));
    }
    if rec.status != SuggestionStatus::Pending {
        return Err(validation("建议已处理，不能重复应用"));
    }
    Ok(())
}

/// An item can be split off a suggestion: a pending related or daily
/// suggestion with an item and a source at `index`.
pub open spec fn item_rejectable(rec: AISuggestionRecord, index: usize) -> bool {
    &&& (pending_of(rec, AIFeature::Related) || pending_of(rec, AIFeature::Suggest))
    &&& index < rec.payload.items@.len()
    &&& index < rec.sources@.len()
}

pub fn check_item_rejectable(rec: &AISuggestionRecord, index: usize) -> (r: Result<(), DomainError>)
    ensures
        r is Ok <==> item_rejectable(*rec, index),
        r matches Err(e) ==> e is Validation,
{
    let rejectable = str_eq(rec.feature_type.as_str(), AIFeature::Related.as_str())
        || str_eq(rec.feature_type.as_str(), AIFeature::Suggest.as_str());
    if !rejectable || rec.status != SuggestionStatus::Pending {
        return Err(validation("建议不可用或已处理"));
    }
    if index >= rec.payload.items.len() || index >= rec.sources.len() {
        return Err(validation("条目不存在"));
    }
    Ok(())
}

/// `after` is `before` with the item (and source) at `index` taken out.
pub open spec fn item_split_off(before: AISuggestionRecord, index: usize, after: AISuggestionRecord) -> bool {
    &&& item_rejectable(before, index)
    &&& after.id@ == before.id@
    &&& after.payload.items@ == before.payload.items@.remove(index as int)
    &&& after.sources@ == before.sources@.remove(index as int)
}

/// The selected positions that get a link: those with a source whose
/// entity is not linked to the task already, in order.
pub open spec fn link_picks(sel: Seq<usize>, sources: Seq<SuggestionSource>, existing: Seq<Seq<char>>) -> Seq<usize>
    decreases sel.len(),
{
    if sel.len() == 0 {
        Seq::empty()
    } else {
        let prev = link_picks(sel.drop_last(), sources, existing);
        let i = sel.last();
        if i < sources.len() && !existing.contains(sources[i as int].entity_id@) {
            prev.push(i)
        } else {
            prev
        }
    }
}

pub fn related_link_picks(sources: &Vec<SuggestionSource>, selected: &Vec<usize>, existing: &Vec<String>) -> (r: Vec<usize>)
    ensures
        r@ == link_picks(selected@, sources@, texts(existing@)),
        forall|i: int| 0 <= i < r@.len() ==> (#[trigger] r@[i]) < sources@.len(),
{
    let mut out: Vec<usize> = Vec::new();
    let mut s: usize = 0;
    while s < selected.len()
        invariant
            s <= selected@.len(),
            out@ == link_picks(selected@.take(s as int), sources@, texts(existing@)),
            forall|i: int| 0 <= i < out@.len() ==> (#[trigger] out@[i]) < sources@.len(),
        decreases selected@.len() - s,
    {
        assert(selected@.take(s + 1).drop_last() =~= selected@.take(s as int));
        assert(selected@.take(s + 1).last() == selected@[s as int]);
        let idx = selected[s];
        if idx < sources.len() && !has_text_spec(existing, sources[idx].entity_id.as_str()) {
            out.push(idx);
        }
        s = s + 1;
    }
    assert(selected@.take(selected@.len() as int) =~= selected@);
    out
}

/// A related link made for a source: of kind related, to the source's
/// entity.
pub open spec fn link_to_source(l: EntityLink, src: SuggestionSource) -> bool {
    &&& l.target_type@ == src.entity_type@
    &&& Some(l.target_id) == crate::ids::id_of_text(src.entity_id@)
}

/// The links confirming a related suggestion: one per picked source, in
/// order, and no others.
pub open spec fn related_links_made(rec: AISuggestionRecord, sel: Seq<usize>, existing: Seq<Seq<char>>, links: Seq<EntityLink>) -> bool {
    let picks = link_picks(sel, rec.sources@, existing);
    &&& links.len() == picks.len()
    &&& forall|i: int| 0 <= i < links.len() ==> link_to_source(#[trigger] links[i], rec.sources@[picks[i] as int])
}

/// The links confirming the pending related suggestion `id` for the
/// picked items: one per picked source whose entity the task was not yet
/// linked to, in order.
pub open spec fn related_confirmed(id: Seq<char>, picked: Seq<usize>, links: Seq<EntityLink>) -> bool {
    exists|rec: AISuggestionRecord, sel: Seq<usize>, existing: Seq<Seq<char>>|
        #[trigger] related_links_made(rec, sel, existing, links) && rec.id@ == id && pending_of(rec, AIFeature::Related)
            && selection_of(picked, sel, rec.payload.items@.len() as int)
}

/// `sel` is the selection `picked` names: its distinct indices, ascending,
/// each below `n`.
pub open spec fn selection_of(picked: Seq<usize>, sel: Seq<usize>, n: int) -> bool {
    &&& sel.len() > 0
    &&& forall|i: int| 0 <= i < sel.len() ==> (#[trigger] sel[i]) < n && picked.contains(sel[i])
    &&& forall|i: int| 0 <= i < sel.len() - 1 ==> #[trigger] sel[i] < sel[i + 1]
    &&& forall|i: int| 0 <= i < picked.len() ==> sel.contains(#[trigger] picked[i])
}

/// The task made from an extracted item: its title trimmed, the notes
/// naming the memory and the excerpt, a date and time only where sure,
/// no priority, open.
pub open spec fn extract_task_fits(t: Task, item: SuggestionItem, memory_id: Seq<char>) -> bool {
    &&& t.title@ == trim(item.title@)
    &&& t.notes@ == item_notes(item, memory_id)
    &&& crate::task_model::opt_view(t.due_date) == item_due_date(item)
    &&& crate::task_model::opt_view(t.due_time) == item_due_time(item)
    &&& t.priority == TaskPriority::Unset
    &&& t.status == TaskStatus::Todo
}

/// An applied extraction: one task per selected item of the pending
/// extraction `rec`, in the selection's order.
pub open spec fn extract_applied(rec: AISuggestionRecord, sel: Seq<usize>, picked: Seq<usize>, tasks: Seq<Task>) -> bool {
    &&& pending_of(rec, AIFeature::Extract)
    &&& selection_of(picked, sel, rec.payload.items@.len() as int)
    &&& tasks.len() == sel.len()
    &&& forall|j: int| 0 <= j < tasks.len() ==> extract_task_fits(#[trigger] tasks[j], rec.payload.items@[sel[j] as int], rec.source_entity_id@)
}

/// A split item and its source: the source quotes, trimmed and non-blank,
/// the item's excerpt, found in the task's text, at offset 0.
pub open spec fn split_pair_ok(text: Seq<char>, task_id: Seq<char>, item: SuggestionItem, src: SuggestionSource) -> bool {
    &&& src.entity_type@ == "task"@
    &&& src.entity_id@ == task_id
    &&& src.text_offset == 0
    &&& src.excerpt@ == trim(item.source_excerpt@)
    &&& src.excerpt@.len() > 0
    &&& crate::ai_model::occurs_in(text, src.excerpt@)
}

pub open spec fn split_pairs(text: Seq<char>, task_id: Seq<char>, items: Seq<SuggestionItem>, sources: Seq<SuggestionSource>) -> bool {
    items.len() == sources.len() && forall|i: int| 0 <= i < items.len() ==> split_pair_ok(text, task_id, items[i], #[trigger] sources[i])
}

/// The items of a split whose excerpt, trimmed, is non-blank and found in
/// the text, in order.
pub open spec fn grounded_items(items: Seq<SuggestionItem>, text: Seq<char>) -> Seq<SuggestionItem>
    decreases items.len(),
{
    if items.len() == 0 {
        Seq::empty()
    } else {
        let prev = grounded_items(items.drop_last(), text);
        let e = trim(items.last().source_excerpt@);
        if e.len() > 0 && crate::ai_model::occurs_in(text, e) {
            prev.push(items.last())
        } else {
            prev
        }
    }
}

/// A split of the task `t` (with id `id`), which is open and has at least
/// four characters of text: its grounded items, each with its source,
/// quoting the task's title and notes.
pub open spec fn split_from_task(t: Task, id: EntityId, task_id: Seq<char>, items: Seq<SuggestionItem>, sources: Seq<SuggestionSource>) -> bool {
    &&& t.id == id
    &&& t.status != TaskStatus::Completed
    &&& trim(t.title@ + seq!['\n'] + t.notes@).len() >= 4
    &&& split_pairs(t.title@ + seq!['\n'] + t.notes@, task_id, items, sources)
}

/// The text a split is asked of: refused for a completed task, nothing
/// for a text (title, line break, notes) shorter than four characters
/// once trimmed.
pub fn split_text(task: &Task) -> (r: Result<Option<String>, DomainError>)
    ensures
        r is Err <==> task.status == TaskStatus::Completed,
        r matches Err(e) ==> e is Validation,
        r matches Ok(o) ==> (o is None <==> trim(task.title@ + seq!['\n'] + task.notes@).len() < 4),
        r matches Ok(Some(t)) ==> t@ == task.title@ + seq!['\n'] + task.notes@,
{
    if task.status == TaskStatus::Completed {
        return Err(validation("任务已完成，不能生成拆分"));
    }
    let source_text = crate::search::document_text(task.title.as_str(), task.notes.as_str());
    let trimmed = crate::tasks::trimmed(source_text.as_str());
    if crate::chars::chars_of(trimmed.as_str()).len() < 4 {
        return Ok(None);
    }
    Ok(Some(source_text))
}

/// Keeps the items whose excerpt is grounded in the text, each with its
/// source.
pub fn ground_split(items: Vec<SuggestionItem>, text: &str, task_id: &str) -> (r: (Vec<SuggestionItem>, Vec<SuggestionSource>))
    ensures
        r.0@ == grounded_items(items@, text@),
        split_pairs(text@, task_id@, r.0@, r.1@),
{
    let ghost all = items@;
    let mut grounded: Vec<SuggestionItem> = Vec::new();
    let mut sources: Vec<SuggestionSource> = Vec::new();
    let mut items = items;
    let mut done: usize = 0;
    let n = items.len();
    while items.len() > 0
        invariant
            done + items@.len() == all.len(),
            n == all.len(),
            items@ == all.skip(done as int),
            grounded@ == grounded_items(all.take(done as int), text@),
            split_pairs(text@, task_id@, grounded@, sources@),
        decreases items@.len(),
    {
        let item = items.remove(0);
        assert(item == all[done as int]);
        assert(all.take(done + 1).drop_last() =~= all.take(done as int));
        assert(all.take(done + 1).last() == item);
        let excerpt = crate::tasks::trimmed(item.source_excerpt.as_str());
        if !excerpt.as_str().is_empty() && crate::ai_model::contains_text(text, excerpt.as_str()) {
            let kind = "task";
            proof {
                reveal_strlit("task");
            }
            let src = SuggestionSource { entity_type: kind.to_string(), entity_id: task_id.to_string(), text_offset: 0, excerpt };
            let ghost sb = sources@;
            let ghost gb = grounded@;
            sources.push(src);
            grounded.push(item);
            assert forall|i: int| 0 <= i < grounded@.len() implies split_pair_ok(text@, task_id@, grounded@[i], #[trigger] sources@[i]) by {
                if i < sb.len() {
                    assert(sources@[i] == sb[i] && grounded@[i] == gb[i]);
                }
            }
        }
        proof {
            assert(items@ =~= all.skip(done + 1));
        }
        done = done + 1;
    }
    assert(all.take(all.len() as int) =~= all);
    (grounded, sources)
}

/// The items that reach a model, in order: the admissible ones, a memory
/// only where `cleared` (the outcome of looking up its row) holds.
pub open spec fn kept_context(items: Seq<ContextItem>, user: Seq<String>, cleared: Seq<bool>) -> Seq<ContextItem>
    decreases items.len(),
{
    if items.len() == 0 {
        Seq::empty()
    } else {
        let prev = kept_context(items.drop_last(), user, cleared);
        if admissible(items.last(), user) && (items.last().entity_type@ != "memory"@ || cleared[items.len() - 1]) {
            prev.push(items.last())
        } else {
            prev
        }
    }
}

proof fn lemma_kept_prefix(items: Seq<ContextItem>, user: Seq<String>, c1: Seq<bool>, c2: Seq<bool>)
    requires
        c1.len() >= items.len(),
        c2.len() >= items.len(),
        forall|j: int| 0 <= j < items.len() ==> c1[j] == c2[j],
    ensures
        kept_context(items, user, c1) == kept_context(items, user, c2),
    decreases items.len(),
{
    if items.len() > 0 {
        lemma_kept_prefix(items.drop_last(), user, c1, c2);
    }
}

pub struct AISuggestionService<P: AIProvider> {
    pub db: Database,
    pub settings: AISettings,
    pub provider: P,
}

impl<P: AIProvider> AISuggestionService<P> {
    /// A service reading the given settings and asking the given model.
    pub fn new(db: Database, settings: AISettings, provider: P) -> (r: Self)
        ensures
            r.db.path@ == db.path@,
    {
        AISuggestionService { db, settings, provider }
    }

    /// The same, for a provider built by the caller.
    pub fn with_provider(db: Database, settings: AISettings, provider: P) -> (r: Self)
        ensures
            r.db.path@ == db.path@,
    {
        AISuggestionService { db, settings, provider }
    }

    /// Drops what must never reach a model: blank texts, items from an
    /// excluded source app (the user's list or a password manager), and
    /// memories that are sensitive (or cannot be checked). What is kept
    /// keeps its order; when the database can be opened, every other item
    /// that is not a memory is kept.
    pub fn sanitize_context(&self, items: &Vec<ContextItem>) -> (r: Vec<ContextItem>)
        ensures
            sanitized_from(r@, items@, self.settings.excluded_apps@, false),
            r@.len() > 0 ==> sanitized_from(r@, items@, self.settings.excluded_apps@, true),
            r@.len() > 0 ==> exists|cleared: Seq<bool>| #[trigger] kept_context(items@, self.settings.excluded_apps@, cleared) == r@,
    {
        let conn = match self.db.connect() {
            Ok(c) => c,
            Err(_) => {
                assert(sanitized_from(Seq::empty(), items@, self.settings.excluded_apps@, false) ) by {
                    let idx = Seq::<int>::empty();
                    assert(idx.len() == 0);
                }
                return Vec::new();
            },
        };
        self.sanitize_on(&conn, items)
    }

    /// The sanitizing itself, on an open database: exactly the admissible
    /// items, in order, a memory only where its row says it is not
    /// sensitive (`cleared`: the outcome of each memory's lookup).
    pub fn sanitize_on(&self, conn: &rusqlite::Connection, items: &Vec<ContextItem>) -> (r: Vec<ContextItem>)
        ensures
            sanitized_from(r@, items@, self.settings.excluded_apps@, true),
            exists|cleared: Seq<bool>| #[trigger] kept_context(items@, self.settings.excluded_apps@, cleared) == r@,
    {
        let excluded = all_excluded_apps(&self.settings.excluded_apps);
        let ghost user = self.settings.excluded_apps@;
        let ghost mut cleared: Seq<bool> = Seq::empty();
        let mut out: Vec<ContextItem> = Vec::new();
        let ghost mut idx: Seq<int> = Seq::empty();
        let mut i: usize = 0;
        while i < items.len()
            invariant
                i <= items@.len(),
                texts_of(excluded@) == every_exclusion(user),
                user == self.settings.excluded_apps@,
                idx.len() == out@.len(),
                forall|k: int| 0 <= k < idx.len() ==> 0 <= #[trigger] idx[k] < i,
                forall|k: int, q: int| 0 <= k < q < idx.len() ==> idx[k] < idx[q],
                forall|k: int| 0 <= k < out@.len() ==> same_context(#[trigger] out@[k], items@[idx[k]]),
                forall|k: int| 0 <= k < out@.len() ==> admissible(#[trigger] out@[k], user),
                forall|j: int|
                    0 <= j < i && admissible(#[trigger] items@[j], user) && items@[j].entity_type@
                        != "memory"@ ==> idx.contains(j),
                cleared.len() == i,
                out@ == kept_context(items@.take(i as int), user, cleared),
            decreases items@.len() - i,
        {
            let item = &items[i];
            let mut keep = !trim_is_empty(item.text.as_str());
            if keep {
                if let Some(app) = &item.source_app {
                    if app_excluded(app.as_str(), &excluded) {
                        proof {
                            let w = choose|w: int| 0 <= w < excluded@.len() && app_matches(app@, #[trigger] excluded@[w]@);
                            assert(every_exclusion(user)[w] == texts_of(excluded@)[w]);
                            assert(app_is_excluded(app@, user));
                        }
                        keep = false;
                    } else {
                        proof {
                            assert forall|w: int| 0 <= w < every_exclusion(user).len() implies !app_matches(app@, #[trigger] every_exclusion(user)[w]) by {
                                assert(texts_of(excluded@)[w] == excluded@[w]@);
                            }
                        }
                    }
                }
            }
            let ghost idx0 = idx;
            assert(keep ==> trim(item.text@).len() > 0);
            assert(!keep ==> !admissible(items@[i as int], user));
            let is_memory = str_eq(item.entity_type.as_str(), "memory");
            let ghost admitted = keep;
            if keep && is_memory {
                let params = vec![text_param(item.entity_id.as_str())];
                keep = match crate::db::query(conn, "SELECT sensitive FROM memories WHERE id = ?1", params.as_slice()) {
                    Ok(rows) => rows.len() > 0 && match int_at(&rows[0], 0) {
                        Ok(s) => s == 0,
                        Err(_) => false,
                    },
                    Err(_) => false,
                };
            }
            if keep {
                let kept = ContextItem {
                    entity_type: item.entity_type.clone(),
                    entity_id: item.entity_id.clone(),
                    text: item.text.clone(),
                    source_app: match &item.source_app {
                        Some(a) => Some(a.clone()),
                        None => None,
                    },
                };
                assert(same_context(kept, items@[i as int]));
                assert(kept == items@[i as int]);
                out.push(kept);
                proof {
                    idx = idx.push(i as int);
                    assert(idx[idx.len() - 1] == i);
                }
            }
            proof {
                let ghost c2 = cleared.push(keep);
                lemma_kept_prefix(items@.take(i as int), user, cleared, c2);
                assert(items@.take(i + 1).drop_last() =~= items@.take(i as int));
                assert(items@.take(i + 1).last() == items@[i as int]);
                assert(admitted == admissible(items@[i as int], user));
                cleared = c2;
                assert forall|j: int|
                    0 <= j < i + 1 && admissible(#[trigger] items@[j], user) && items@[j].entity_type@
                        != "memory"@ implies idx.contains(j) by {
                    if j == i {
                        assert(idx[idx.len() - 1] == j);
                    } else {
                        let w = choose|w: int| 0 <= w < idx0.len() && idx0[w] == j;
                        assert(idx[w] == j);
                    }
                }
            }
            i = i + 1;
        }
        assert(sanitized_from(out@, items@, user, true));
        assert(items@.take(items@.len() as int) =~= items@);
        out
    }

    /// The suggestion pipeline: nothing is asked when the feature is off or
    /// the sanitized context is empty; nothing is recorded when the model
    /// does not answer; an answer that fails validation leaves only a
    /// dismissed audit row; a valid answer is recorded as pending, with one
    /// source per item pointing at the request's source.
    pub fn request(&self, feature: AIFeature, source_entity_type: &str, source_entity_id: &str, context: &Vec<
        ContextItem,
    >) -> (r: Result<Option<AISuggestionRecord>, DomainError>)
        ensures
            !feature_on(self.settings.features, feature) ==> r matches Ok(None),
            (forall|i: int| 0 <= i < context@.len() ==> !admissible(#[trigger] context@[i], self.settings.excluded_apps@))
                ==> r matches Ok(None),
            r matches Ok(Some(rec)) ==> rec.status == SuggestionStatus::Pending
                && rec.feature_type@ == feature_text(feature) && rec.source_entity_type@
                == source_entity_type@ && rec.source_entity_id@ == source_entity_id@
                && rec.sources@.len() == rec.payload.items@.len() && rec.decided_at is None,
            r matches Ok(Some(rec)) ==> exists|raw: Seq<char>|
                #[trigger] record_from_output(rec, raw, feature, source_entity_type@, source_entity_id@),
    {
        if !self.settings.features.enabled(feature) {
            return Ok(None);
        }
        let sanitized = self.sanitize_context(context);
        if sanitized.len() == 0 {
            return Ok(None);
        }
        proof {
            crate::ai_model::lemma_sanitized_admits(sanitized@, context@, self.settings.excluded_apps@, false);
        }
        let request = CompletionRequest {
            system_prompt: prompt_template(feature).to_string(),
            user_context: user_context(&sanitized),
        };
        let output = match self.provider.complete(&request) {
            Some(o) => o,
            None => return Ok(None),
        };
        self.record_output(feature, source_entity_type, source_entity_id, output.raw_json.as_str())
    }

    /// Records what a model answered: a pending suggestion when the answer
    /// is valid content, a dismissed audit row (and no suggestion) when not.
    pub fn record_output(&self, feature: AIFeature, source_entity_type: &str, source_entity_id: &str, raw: &str) -> (r:
        Result<Option<AISuggestionRecord>, DomainError>)
        ensures
            r matches Ok(Some(rec)) ==> rec.status == SuggestionStatus::Pending
                && rec.feature_type@ == feature_text(feature) && rec.source_entity_type@
                == source_entity_type@ && rec.source_entity_id@ == source_entity_id@
                && rec.sources@.len() == rec.payload.items@.len() && rec.decided_at is None,
            r matches Ok(Some(_)) ==> (crate::json::json_parse(raw@) matches Some(v)
                && crate::ai_model::content_valid(v)),
            r matches Ok(o) ==> (o is Some <==> output_valid(raw@)),
            r matches Ok(Some(rec)) ==> record_from_output(rec, raw@, feature, source_entity_type@, source_entity_id@),
            r matches Err(e) ==> e is Internal,
    {
        match parse_suggestion_content(raw) {
            Ok(content) => {
                let sources = sources_for(&content, source_entity_type, source_entity_id);
                let record = AISuggestionRecord {
                    id: format_id(new_id()),
                    feature_type: feature.as_str().to_string(),
                    source_entity_type: source_entity_type.to_string(),
                    source_entity_id: source_entity_id.to_string(),
                    payload: content,
                    sources,
                    status: SuggestionStatus::Pending,
                    provider: self.settings.mode.as_str().to_string(),
                    model: active_model_name(&self.settings),
                    created_at: now_stamp(),
                    decided_at: None,
                };
                self.insert(&record)?;
                Ok(Some(record))
            },
            Err(_) => {
                self.insert_invalid(feature, source_entity_type, source_entity_id)?;
                Ok(None)
            },
        }
    }

    /// The latest pending suggestion of a feature for a source, if any.
    pub fn find_pending(&self, feature: AIFeature, source_entity_id: &str) -> (r: Result<
        Option<AISuggestionRecord>,
        DomainError,
    >)
        ensures
            r matches Ok(Some(rec)) ==> rec.status == SuggestionStatus::Pending
                && rec.feature_type@ == feature_text(feature) && rec.source_entity_id@ == source_entity_id@,
            r matches Err(e) ==> e is Internal,
    {
        let conn = connect(&self.db)?;
        let mut sql = RECORD_COLUMNS.to_string();
        sql.append(
            " WHERE feature_type = ?1 AND source_entity_id = ?2 AND status = 'pending' ORDER BY created_at DESC LIMIT 1",
        );
        let params = vec![text_param(feature.as_str()), text_param(source_entity_id)];
        let rows = fetch(&conn, sql.as_str(), params.as_slice())?;
        if rows.len() == 0 {
            return Ok(None);
        }
        let rec = record_from_row(&rows[0])?;
        if rec.status == SuggestionStatus::Pending && str_eq(rec.feature_type.as_str(), feature.as_str())
            && str_eq(rec.source_entity_id.as_str(), source_entity_id) {
            Ok(Some(rec))
        } else {
            Ok(None)
        }
    }

    /// Extracts task drafts from a memory: a pending extraction of the same
    /// memory is returned as it is; a sensitive memory is never sent.
    pub fn request_extract(&self, memory_id: &str, memories: &MemoryService) -> (r: Result<
        Option<AISuggestionRecord>,
        DomainError,
    >)
        ensures
            r matches Ok(Some(rec)) ==> rec.status == SuggestionStatus::Pending
                && rec.feature_type@ == feature_text(AIFeature::Extract) && rec.source_entity_id@ == memory_id@,
            parse_id_spec(memory_id@) is None ==> r matches Err(DomainError::Validation(_)),
    {
        let id = match parse_id(memory_id) {
            Some(x) => x,
            None => return Err(validation("记忆 id 非法")),
        };
        if let Some(existing) = self.find_pending(AIFeature::Extract, memory_id)? {
            return Ok(Some(existing));
        }
        let memory = memories.get(id)?;
        let context = match extract_context(&memory) {
            Some(c) => c,
            None => return Ok(None),
        };
        self.request(AIFeature::Extract, "memory", memory_id, &context)
    }

    /// Creates tasks (in the inbox) from the picked items of a pending
    /// extraction, links them to the memory, and accepts the suggestion. A
    /// date is kept only for an item that is not ambiguous, and a time only
    /// with a date.
    pub fn apply_extract(&self, input: ExtractApplyInput, tasks: &TaskService, links: &EntityLinkService, search: &SearchService) -> (r:
        Result<ExtractApplyResult, DomainError>)
        ensures
            r matches Ok(res) ==> res.tasks@.len() > 0 && res.suggestion.id@ == input.suggestion_id@
                && res.suggestion.status == SuggestionStatus::Accepted && res.suggestion.decided_at is Some,
            r matches Ok(res) ==> input.selected_indices@.len() > 0,
            r matches Ok(res) ==> exists|rec: AISuggestionRecord, sel: Seq<usize>| #[trigger] extract_applied(
                rec,
                sel,
                input.selected_indices@,
                res.tasks@,
            ) && rec.id@ == input.suggestion_id@,
    {
        let record = self.get(input.suggestion_id.as_str())?;
        check_pending(&record, AIFeature::Extract)?;
        let selected = crate::ai_model::normalize_selection(&input.selected_indices, record.payload.items.len())?;
        let mut created: Vec<Task> = Vec::new();
        let mut k: usize = 0;
        while k < selected.len()
            invariant
                k <= selected@.len(),
                created@.len() == k,
                forall|q: int| 0 <= q < selected@.len() ==> (#[trigger] selected@[q]) < record.payload.items@.len(),
                forall|j: int| 0 <= j < k ==> extract_task_fits(
                    #[trigger] created@[j],
                    record.payload.items@[selected@[j] as int],
                    record.source_entity_id@,
                ),
            decreases selected@.len() - k,
        {
            let item = &record.payload.items[selected[k]];
            let task = tasks.create_task(task_input_for_item(item, record.source_entity_id.as_str()))?;
            search.upsert(SearchEntityType::Task, task.id, task.title.as_str(), task.notes.as_str())?;
            if let Some(memory_id) = parse_id(record.source_entity_id.as_str()) {
                links.link("memory", memory_id, "task", task.id, "ai_extract")?;
            }
            created.push(task);
            k = k + 1;
        }
        let suggestion = self.decide(input.suggestion_id.as_str(), SuggestionStatus::Accepted)?;
        let res = ExtractApplyResult { tasks: created, suggestion };
        assert(extract_applied(record, selected@, input.selected_indices@, res.tasks@));
        Ok(res)
    }

    /// Dismisses the pending suggestions of a feature for a source.
    fn dismiss_pending(&self, feature: AIFeature, source_entity_id: &str) -> (r: Result<(), DomainError>)
        ensures
            r matches Err(e) ==> e is Internal,
    {
        let conn = connect(&self.db)?;
        let params = vec![text_param(feature.as_str()), text_param(source_entity_id), SqlValue::Text(now_stamp())];
        run(
            &conn,
            "UPDATE ai_suggestions SET status = 'dismissed', decided_at = ?3
             WHERE feature_type = ?1 AND source_entity_id = ?2 AND status = 'pending'",
            params.as_slice(),
        )?;
        Ok(())
    }

    /// Asks for a prose summary of the weekly review's numbers; a fresh
    /// request supersedes a pending one.
    pub fn request_weekly_summary(&self, snapshot: &crate::weekly_review::WeeklyReviewSnapshot) -> (r: Result<
        Option<AISuggestionRecord>,
        DomainError,
    >)
        ensures
            r matches Ok(Some(rec)) ==> rec.status == SuggestionStatus::Pending
                && rec.source_entity_id@ == WEEKLY_SOURCE_ID@ && rec.feature_type@ == feature_text(AIFeature::Summary)
                && rec.source_entity_type@ == "review"@,
    {
        self.dismiss_pending(AIFeature::Summary, WEEKLY_SOURCE_ID)?;
        let text = crate::weekly_review::summary_context(snapshot, &self.settings.excluded_apps);
        let context = vec![
            ContextItem {
                entity_type: "review".to_string(),
                entity_id: WEEKLY_SOURCE_ID.to_string(),
                text,
                source_app: None,
            },
        ];
        self.request(AIFeature::Summary, "review", WEEKLY_SOURCE_ID, &context)
    }

    /// Dismisses a pending weekly summary (the review was completed).
    pub fn dismiss_pending_weekly_summary(&self) -> (r: Result<(), DomainError>)
        ensures
            r matches Err(e) ==> e is Internal,
    {
        self.dismiss_pending(AIFeature::Summary, WEEKLY_SOURCE_ID)
    }

    /// Suggests memories related to a task. Candidates come from a local
    /// search for the task's fragments, ranked by how many fragments found
    /// them; linked, rejected and sensitive candidates are left out. Items
    /// whose titles are not candidates are dropped, and so is a suggestion
    /// that keeps none.
    pub fn request_related(&self, task_id: &str, tasks: &TaskService, search: &SearchService, memories: &MemoryService, links: &EntityLinkService) -> (r:
        Result<Option<AISuggestionRecord>, DomainError>)
        ensures
            parse_id_spec(task_id@) is None ==> r is Err,
            r matches Ok(Some(rec)) ==> rec.status == SuggestionStatus::Pending
                && rec.sources@.len() == rec.payload.items@.len() && rec.payload.items@.len() > 0,
            r matches Ok(Some(rec)) ==> exists|cands: Seq<SearchHit>, linked: Seq<Seq<char>>, rejected: Seq<Seq<char>>, sensitive: Seq<Seq<char>>|
                #[trigger] related_result_ok(cands, linked, rejected, sensitive, rec.payload.items@, rec.sources@),
    {
        self.dismiss_pending(AIFeature::Related, task_id)?;
        let entity_id = match parse_id(task_id) {
            Some(x) => x,
            None => return Err(validation("任务 id 非法")),
        };
        let task = tasks.get_task(entity_id)?;
        let rejected = self.rejected_pair_ids(AIFeature::Related, task_id)?;
        let sensitive = self.sensitive_memory_ids()?;
        let mut source_text = task.title.clone();
        source_text.append(" ");
        source_text.append(task.notes.as_str());
        let fragments = crate::fragments::bigrams(source_text.as_str());
        let mut pool: Vec<crate::search::SearchHit> = Vec::new();
        let mut counts: Vec<u64> = Vec::new();
        let mut f: usize = 0;
        while f < fragments.len() && f < RELATED_FRAGMENT_CAP
            invariant
                pool@.len() == counts@.len(),
            decreases fragments@.len() - f,
        {
            let hits = search.query(
                SearchQuery {
                    query: fragments[f].clone(),
                    types: Some(vec![SearchEntityType::Memory]),
                    limit: Some(RELATED_CANDIDATES as i64),
                },
            )?;
            tally_hits(&mut pool, &mut counts, hits.memories);
            f = f + 1;
        }
        let around = links.list_for_entity("task", entity_id)?;
        let linked = other_ends(&around, entity_id);
        let ranked = rank_related(pool, counts, &linked, &rejected, &sensitive);
        if ranked.len() == 0 {
            return Ok(None);
        }
        let (context, titles) = related_context(task_id, &task, &ranked);
        let _ = memories;
        let record = match self.request(AIFeature::Related, "task", task_id, &context)? {
            Some(rec) => rec,
            None => return Ok(None),
        };
        assert(texts(titles@) =~= hit_titles(ranked@));
        let (matched, which) = back_map(record.payload.items, &titles);
        assert(titles@.map_values(|t: String| t@) =~= texts(titles@));
        if matched.len() == 0 {
            let _ = self.decide(record.id.as_str(), SuggestionStatus::Dismissed)?;
            return Ok(None);
        }
        let mut sources: Vec<SuggestionSource> = Vec::new();
        let mut m: usize = 0;
        while m < matched.len()
            invariant
                m <= matched@.len(),
                matched@.len() == which@.len(),
                sources@.len() == m,
                forall|i: int| 0 <= i < which@.len() ==> (#[trigger] which@[i]) < ranked@.len(),
                titles@.len() == ranked@.len(),
                texts(titles@) == hit_titles(ranked@),
                forall|i: int| 0 <= i < which@.len() ==> match_index(texts(titles@), (#[trigger] matched@[i]).title@) == Some(which@[i] as int),
                forall|i: int| 0 <= i < m ==> related_source_ok(ranked@, matched@[i], #[trigger] sources@[i]),
            decreases matched@.len() - m,
        {
            let hit = &ranked[which[m]];
            sources.push(
                SuggestionSource {
                    entity_type: hit.entity_type.as_str().to_string(),
                    entity_id: format_id(hit.entity_id),
                    text_offset: 0,
                    excerpt: matched[m].source_excerpt.clone(),
                },
            );
            m = m + 1;
        }
        let updated = AISuggestionRecord {
            id: record.id,
            feature_type: record.feature_type,
            source_entity_type: record.source_entity_type,
            source_entity_id: record.source_entity_id,
            payload: SuggestionContent { items: matched, summary: None },
            sources,
            status: record.status,
            provider: record.provider,
            model: record.model,
            created_at: record.created_at,
            decided_at: record.decided_at,
        };
        self.replace_payload(&updated)?;
        assert(related_result_ok(ranked@, texts(linked@), texts(rejected@), texts(sensitive@), updated.payload.items@, updated.sources@));
        Ok(Some(updated))
    }

    /// Links a task to the picked related items (skipping those already
    /// linked), then accepts the suggestion.
    pub fn confirm_related(&self, input: ExtractApplyInput, task_id: &str, links: &EntityLinkService) -> (r:
        Result<Vec<EntityLink>, DomainError>)
        ensures
            r matches Ok(v) ==> forall|i: int| 0 <= i < v@.len() ==> (#[trigger] v@[i]).link_kind@ == LINK_KIND_RELATED@,
            r matches Ok(v) ==> parse_id_spec(task_id@) matches Some(t) && forall|i: int| 0 <= i < v@.len()
                ==> (#[trigger] v@[i]).source_id == t && v@[i].source_type@ == "task"@,
            r matches Ok(_) ==> input.selected_indices@.len() > 0,
            r matches Ok(v) ==> related_confirmed(input.suggestion_id@, input.selected_indices@, v@),
    {
        let record = self.get(input.suggestion_id.as_str())?;
        check_pending(&record, AIFeature::Related)?;
        let selected = crate::ai_model::normalize_selection(&input.selected_indices, record.payload.items.len())?;
        let source = match parse_id(task_id) {
            Some(x) => x,
            None => return Err(validation("任务 id 非法")),
        };
        let around = links.list_for_entity("task", source)?;
        let mut existing: Vec<String> = Vec::new();
        let mut k: usize = 0;
        while k < around.len()
            invariant
                k <= around@.len(),
            decreases around@.len() - k,
        {
            existing.push(format_id(around[k].target_id));
            k = k + 1;
        }
        let picks = related_link_picks(&record.sources, &selected, &existing);
        let ghost sk = picks@;
        let mut created: Vec<EntityLink> = Vec::new();
        let mut s: usize = 0;
        while s < picks.len()
            invariant
                s <= picks@.len(),
                sk == picks@,
                created@.len() == s,
                forall|i: int| 0 <= i < picks@.len() ==> (#[trigger] picks@[i]) < record.sources@.len(),
                forall|i: int| 0 <= i < created@.len() ==> (#[trigger] created@[i]).link_kind@ == LINK_KIND_RELATED@,
                parse_id_spec(task_id@) == Some(source),
                input.selected_indices@.len() > 0,
                forall|i: int| 0 <= i < created@.len() ==> (#[trigger] created@[i]).source_id == source
                    && created@[i].source_type@ == "task"@,
                forall|i: int| 0 <= i < created@.len() ==> link_to_source(#[trigger] created@[i], record.sources@[picks@[i] as int]),
            decreases picks@.len() - s,
        {
            let src = &record.sources[picks[s]];
            let target = match parse_id(src.entity_id.as_str()) {
                Some(x) => x,
                None => return Err(validation("候选 id 非法")),
            };
            let link = links.link("task", source, src.entity_type.as_str(), target, LINK_KIND_RELATED)?;
            created.push(link);
            s = s + 1;
        }
        assert(related_links_made(record, selected@, texts(existing@), created@));
        assert(selection_of(input.selected_indices@, selected@, record.payload.items@.len() as int));
        let _ = self.decide(input.suggestion_id.as_str(), SuggestionStatus::Accepted)?;
        assert(related_links_made(record, selected@, texts(existing@), created@) && record.id@ == input.suggestion_id@
            && pending_of(record, AIFeature::Related));
        assert(related_confirmed(input.suggestion_id@, input.selected_indices@, created@));
        Ok(created)
    }

    /// Rejects one item of a pending related or daily suggestion: the item
    /// is recorded on its own with `pair_status` (so it is not offered
    /// again) and removed; the suggestion is closed as rejected when no item
    /// is left.
    pub fn reject_suggestion_item(&self, suggestion_id: &str, index: usize, pair_status: SuggestionStatus) -> (r:
        Result<AISuggestionRecord, DomainError>)
        ensures
            r matches Ok(rec) ==> rec.id@ == suggestion_id@,
            r matches Ok(rec) ==> (rec.payload.items@.len() == 0 ==> rec.status == SuggestionStatus::Rejected
                && rec.decided_at is Some) && (rec.payload.items@.len() > 0 ==> rec.status == SuggestionStatus::Pending),
            r matches Ok(rec) ==> exists|before: AISuggestionRecord| #[trigger] item_split_off(before, index, rec),
    {
        let record = self.get(suggestion_id)?;
        check_item_rejectable(&record, index)?;
        let ghost record_before = record;
        let item = &record.payload.items[index];
        let src = &record.sources[index];
        let pair = AISuggestionRecord {
            id: format_id(new_id()),
            feature_type: record.feature_type.clone(),
            source_entity_type: record.source_entity_type.clone(),
            source_entity_id: record.source_entity_id.clone(),
            payload: SuggestionContent {
                items: vec![copy_item(item)],
                summary: None,
            },
            sources: vec![copy_source(src)],
            status: pair_status,
            provider: record.provider.clone(),
            model: record.model.clone(),
            created_at: now_stamp(),
            decided_at: Some(now_stamp()),
        };
        self.insert(&pair)?;
        let items = without(record.payload.items, index);
        let sources = without(record.sources, index);
        let empty = items.len() == 0;
        let updated = AISuggestionRecord {
            id: record.id,
            feature_type: record.feature_type,
            source_entity_type: record.source_entity_type,
            source_entity_id: record.source_entity_id,
            payload: SuggestionContent { items, summary: None },
            sources,
            status: record.status,
            provider: record.provider,
            model: record.model,
            created_at: record.created_at,
            decided_at: record.decided_at,
        };
        self.replace_payload(&updated)?;
        if empty {
            let decided = self.decide(suggestion_id, SuggestionStatus::Rejected)?;
            let closed = AISuggestionRecord {
                id: updated.id,
                feature_type: updated.feature_type,
                source_entity_type: updated.source_entity_type,
                source_entity_id: updated.source_entity_id,
                payload: updated.payload,
                sources: updated.sources,
                status: decided.status,
                provider: updated.provider,
                model: updated.model,
                created_at: updated.created_at,
                decided_at: decided.decided_at,
            };
            assert(item_split_off(record_before, index, closed));
            return Ok(closed);
        }
        assert(item_split_off(record_before, index, updated));
        Ok(updated)
    }

    /// Rejects one related item (it is not offered again).
    pub fn reject_related_item(&self, suggestion_id: &str, index: usize) -> (r: Result<
        AISuggestionRecord,
        DomainError,
    >) {
        self.reject_suggestion_item(suggestion_id, index, SuggestionStatus::Dismissed)
    }

    /// Suggests up to three of today's overdue and due tasks (not those in
    /// focus or waiting, nor those skipped today) with reasons; nothing is
    /// written to tasks or focus. Items whose titles are not candidates are
    /// dropped.
    pub fn request_daily_suggest(&self, tasks: &TaskService) -> (r: Result<
        Option<AISuggestionRecord>,
        DomainError,
    >)
        ensures
            r matches Ok(Some(rec)) ==> rec.status == SuggestionStatus::Pending
                && rec.sources@.len() == rec.payload.items@.len() && rec.payload.items@.len() > 0
                && forall|i: int| 0 <= i < rec.sources@.len() ==> (#[trigger] rec.sources@[i]).entity_type@ == "task"@,
            r matches Ok(Some(rec)) ==> exists|today: TodayTasks, skipped: Seq<Seq<char>>|
                #[trigger] daily_sources_ok(today, skipped, rec.sources@),
    {
        self.dismiss_stale_daily_pending()?;
        self.dismiss_pending(AIFeature::Suggest, DAILY_SOURCE_ID)?;
        let today = tasks.today_tasks()?;
        let skipped = self.rejected_pair_ids(AIFeature::Suggest, DAILY_SOURCE_ID)?;
        let (titles, ids, listing) = daily_candidates(&today, &skipped);
        if titles.len() == 0 {
            return Ok(None);
        }
        let mut text = "今日候选任务（含确定性特征）：\n".to_string();
        text.append(listing.as_str());
        let context = vec![
            ContextItem { entity_type: "review".to_string(), entity_id: DAILY_SOURCE_ID.to_string(), text, source_app: None },
        ];
        let record = match self.request(AIFeature::Suggest, "review", DAILY_SOURCE_ID, &context)? {
            Some(rec) => rec,
            None => return Ok(None),
        };
        let (matched, which) = back_map(record.payload.items, &titles);
        if matched.len() == 0 {
            let _ = self.decide(record.id.as_str(), SuggestionStatus::Dismissed)?;
            return Ok(None);
        }
        let mut sources: Vec<SuggestionSource> = Vec::new();
        let mut m: usize = 0;
        while m < matched.len()
            invariant
                m <= matched@.len(),
                matched@.len() == which@.len(),
                sources@.len() == m,
                titles@.len() == ids@.len(),
                forall|i: int| 0 <= i < which@.len() ==> (#[trigger] which@[i]) < titles@.len(),
                forall|i: int| 0 <= i < sources@.len() ==> (#[trigger] sources@[i]).entity_type@ == "task"@,
                forall|k: int| 0 <= k < ids@.len() ==> daily_candidate_id(today, skipped@.map_values(|t: String| t@), (#[trigger] ids@[k])@),
                forall|i: int| 0 <= i < sources@.len() ==> daily_candidate_id(today, skipped@.map_values(|t: String| t@), (#[trigger] sources@[i]).entity_id@),
            decreases matched@.len() - m,
        {
            let task_type = "task";
            proof {
                reveal_strlit("task");
            }
            sources.push(
                SuggestionSource {
                    entity_type: task_type.to_string(),
                    entity_id: ids[which[m]].clone(),
                    text_offset: 0,
                    excerpt: matched[m].source_excerpt.clone(),
                },
            );
            m = m + 1;
        }
        let updated = AISuggestionRecord {
            id: record.id,
            feature_type: record.feature_type,
            source_entity_type: record.source_entity_type,
            source_entity_id: record.source_entity_id,
            payload: SuggestionContent { items: matched, summary: None },
            sources,
            status: record.status,
            provider: record.provider,
            model: record.model,
            created_at: record.created_at,
            decided_at: record.decided_at,
        };
        self.replace_payload(&updated)?;
        assert(daily_sources_ok(today, skipped@.map_values(|t: String| t@), updated.sources@));
        Ok(Some(updated))
    }

    /// Removes a daily suggestion item once the user acted on it: joined
    /// focus (`accepted`) or skipped (not offered again today).
    pub fn remove_daily_suggest_item(&self, suggestion_id: &str, index: usize, accepted: bool) -> (r:
        Result<AISuggestionRecord, DomainError>)
        ensures
            r matches Ok(rec) ==> rec.id@ == suggestion_id@,
            r matches Ok(rec) ==> (rec.payload.items@.len() == 0 ==> rec.status == SuggestionStatus::Rejected
                && rec.decided_at is Some) && (rec.payload.items@.len() > 0 ==> rec.status == SuggestionStatus::Pending),
            r matches Ok(rec) ==> exists|before: AISuggestionRecord| #[trigger] item_split_off(before, index, rec),
    {
        self.reject_suggestion_item(
            suggestion_id,
            index,
            if accepted {
                SuggestionStatus::Accepted
            } else {
                SuggestionStatus::Dismissed
            },
        )
    }

    /// Closes the pending daily suggestions made before today.
    fn dismiss_stale_daily_pending(&self) -> (r: Result<(), DomainError>)
        ensures
            r matches Err(e) ==> e is Internal,
    {
        let today = local_today();
        let conn = connect(&self.db)?;
        let params = vec![text_param(DAILY_SOURCE_ID), SqlValue::Text(now_stamp()), SqlValue::Text(today)];
        run(
            &conn,
            "UPDATE ai_suggestions SET status = 'dismissed', decided_at = ?2
             WHERE feature_type = 'suggest' AND source_entity_id = ?1
               AND status = 'pending' AND substr(created_at, 1, 10) < ?3",
            params.as_slice(),
        )?;
        Ok(())
    }

    fn replace_payload(&self, record: &AISuggestionRecord) -> (r: Result<(), DomainError>)
        ensures
            r matches Err(e) ==> e is Internal,
    {
        let payload_json = render_json(&content_to_json(&record.payload));
        let sources_json = render_json(&sources_to_json(&record.sources));
        let conn = connect(&self.db)?;
        let params = vec![text_param(record.id.as_str()), SqlValue::Text(payload_json), SqlValue::Text(sources_json)];
        run(
            &conn,
            "UPDATE ai_suggestions SET payload = ?2, sources_json = ?3 WHERE id = ?1",
            params.as_slice(),
        )?;
        Ok(())
    }

    /// The entity ids of the items rejected or dismissed before for a
    /// feature and source.
    fn rejected_pair_ids(&self, feature: AIFeature, source_entity_id: &str) -> (r: Result<
        Vec<String>,
        DomainError,
    >)
        ensures
            r matches Err(e) ==> e is Internal,
    {
        let conn = connect(&self.db)?;
        let params = vec![text_param(source_entity_id), text_param(feature.as_str())];
        let rows = fetch(
            &conn,
            "SELECT sources_json FROM ai_suggestions
             WHERE feature_type = ?2 AND source_entity_id = ?1
               AND status IN ('rejected','dismissed')",
            params.as_slice(),
        )?;
        let mut ids: Vec<String> = Vec::new();
        let mut i: usize = 0;
        while i < rows.len()
            invariant
                i <= rows@.len(),
            decreases rows@.len() - i,
        {
            let raw = text_at(&rows[i], 0)?;
            if let Some(doc) = parse_json(raw.as_str()) {
                if let Some(sources) = sources_from_json(&doc) {
                    let mut k: usize = 0;
                    while k < sources.len()
                        invariant
                            k <= sources@.len(),
                        decreases sources@.len() - k,
                    {
                        ids.push(sources[k].entity_id.clone());
                        k = k + 1;
                    }
                }
            }
            i = i + 1;
        }
        Ok(ids)
    }

    fn sensitive_memory_ids(&self) -> (r: Result<Vec<String>, DomainError>)
        ensures
            r matches Err(e) ==> e is Internal,
    {
        let conn = connect(&self.db)?;
        let rows = fetch(&conn, "SELECT id FROM memories WHERE sensitive = 1 AND deleted_at IS NULL", &[])?;
        let mut ids: Vec<String> = Vec::new();
        let mut i: usize = 0;
        while i < rows.len()
            invariant
                i <= rows@.len(),
            decreases rows@.len() - i,
        {
            ids.push(text_at(&rows[i], 0)?);
            i = i + 1;
        }
        Ok(ids)
    }

    /// Proposes checklist items from a task's own text. A completed task is
    /// refused; a task with under four characters of text is not sent; items
    /// whose excerpt is not found in the task's text are dropped.
    pub fn request_split(&self, task_id: &str, tasks: &TaskService) -> (r: Result<
        Option<AISuggestionRecord>,
        DomainError,
    >)
        ensures
            parse_id_spec(task_id@) is None ==> (r matches Err(e) && (e is Validation || e is Internal)),
            r matches Ok(Some(rec)) ==> rec.payload.items@.len() > 0 && rec.sources@.len()
                == rec.payload.items@.len() && rec.status == SuggestionStatus::Pending
                && rec.feature_type@ == feature_text(AIFeature::Split) && rec.source_entity_id@ == task_id@,
            r matches Ok(Some(rec)) ==> exists|t: Task| #[trigger] split_from_task(
                t,
                parse_id_spec(task_id@).unwrap(),
                task_id@,
                rec.payload.items@,
                rec.sources@,
            ),
    {
        self.dismiss_pending(AIFeature::Split, task_id)?;
        let entity_id = match parse_id(task_id) {
            Some(x) => x,
            None => return Err(validation("任务 id 非法")),
        };
        let task = tasks.get_task(entity_id)?;
        let source_text = match split_text(&task)? {
            Some(t) => t,
            None => return Ok(None),
        };
        let kind = "task";
        let context = vec![
            ContextItem { entity_type: kind.to_string(), entity_id: task_id.to_string(), text: source_text.clone(), source_app: None },
        ];
        let record = match self.request(AIFeature::Split, "task", task_id, &context)? {
            Some(rec) => rec,
            None => return Ok(None),
        };
        let (grounded, sources) = ground_split(record.payload.items, source_text.as_str(), task_id);
        if grounded.len() == 0 {
            let _ = self.decide(record.id.as_str(), SuggestionStatus::Dismissed)?;
            return Ok(None);
        }
        let updated = AISuggestionRecord {
            id: record.id,
            feature_type: record.feature_type,
            source_entity_type: record.source_entity_type,
            source_entity_id: record.source_entity_id,
            payload: SuggestionContent { items: grounded, summary: None },
            sources,
            status: record.status,
            provider: record.provider,
            model: record.model,
            created_at: record.created_at,
            decided_at: record.decided_at,
        };
        self.replace_payload(&updated)?;
        assert(split_pairs(source_text@, task_id@, updated.payload.items@, updated.sources@));
        assert(task.title@ + seq!['\n'] + task.notes@ == source_text@);
        assert(split_from_task(task, entity_id, task_id@, updated.payload.items@, updated.sources@));
        Ok(Some(updated))
    }

    /// Suggestions, latest first (at most 200), of a feature and status
    /// when given.
    pub fn list(&self, feature: Option<AIFeature>, status: Option<SuggestionStatus>) -> (r: Result<
        Vec<AISuggestionRecord>,
        DomainError,
    >)
        ensures
            r matches Err(e) ==> e is Internal,
    {
        let conn = connect(&self.db)?;
        let mut sql = RECORD_COLUMNS.to_string();
        sql.append(" WHERE 1=1");
        let mut params: Vec<SqlValue> = Vec::new();
        if let Some(f) = feature {
            sql.append(" AND feature_type = ?");
            params.push(text_param(f.as_str()));
        }
        if let Some(s) = status {
            sql.append(" AND status = ?");
            params.push(text_param(s.as_str()));
        }
        sql.append(" ORDER BY created_at DESC LIMIT 200");
        let rows = fetch(&conn, sql.as_str(), params.as_slice())?;
        let mut out: Vec<AISuggestionRecord> = Vec::new();
        let mut i: usize = 0;
        while i < rows.len()
            invariant
                i <= rows@.len(),
            decreases rows@.len() - i,
        {
            out.push(record_from_row(&rows[i])?);
            i = i + 1;
        }
        Ok(out)
    }

    /// Moves a pending suggestion to a final status; a suggestion that is
    /// unknown or already decided is refused.
    pub fn decide(&self, id: &str, status: SuggestionStatus) -> (r: Result<AISuggestionRecord, DomainError>)
        ensures
            r matches Ok(rec) ==> rec.id@ == id@ && rec.status == status && rec.decided_at is Some,
    {
        let conn = connect(&self.db)?;
        let params = vec![text_param(id), text_param(status.as_str()), SqlValue::Text(now_stamp())];
        let updated = run(
            &conn,
            "UPDATE ai_suggestions SET status = ?2, decided_at = ?3 WHERE id = ?1 AND status = 'pending'",
            params.as_slice(),
        )?;
        if updated == 0 {
            return Err(validation("建议不存在或已处理"));
        }
        let rec = self.get(id)?;
        if rec.status != status || rec.decided_at.is_none() {
            return Err(internal_msg("决定未写入"));
        }
        Ok(rec)
    }

    /// A suggestion by id.
    pub fn get(&self, id: &str) -> (r: Result<AISuggestionRecord, DomainError>)
        ensures
            r matches Ok(rec) ==> rec.id@ == id@,
    {
        let conn = connect(&self.db)?;
        let mut sql = RECORD_COLUMNS.to_string();
        sql.append(" WHERE id = ?1");
        let params = vec![text_param(id)];
        let rows = fetch(&conn, sql.as_str(), params.as_slice())?;
        let mut i: usize = 0;
        while i < rows.len()
            invariant
                i <= rows@.len(),
            decreases rows@.len() - i,
        {
            let rec = record_from_row(&rows[i])?;
            if str_eq(rec.id.as_str(), id) {
                return Ok(rec);
            }
            i = i + 1;
        }
        Err(validation("建议不存在"))
    }

    /// Deletes every suggestion (derived data only); returns how many.
    pub fn clear_history(&self) -> (r: Result<usize, DomainError>)
        ensures
            r matches Err(e) ==> e is Internal,
    {
        let conn = connect(&self.db)?;
        run(&conn, "DELETE FROM ai_suggestions", &[])
    }

    fn insert(&self, record: &AISuggestionRecord) -> (r: Result<(), DomainError>)
        ensures
            r matches Err(e) ==> e is Internal,
    {
        let payload_json = render_json(&content_to_json(&record.payload));
        let sources_json = render_json(&sources_to_json(&record.sources));
        let conn = connect(&self.db)?;
        let decided = match &record.decided_at {
            Some(d) => SqlValue::Text(d.clone()),
            None => SqlValue::Null,
        };
        let params = vec![
            text_param(record.id.as_str()),
            text_param(record.feature_type.as_str()),
            text_param(record.source_entity_type.as_str()),
            text_param(record.source_entity_id.as_str()),
            SqlValue::Text(payload_json),
            SqlValue::Text(sources_json),
            text_param(record.status.as_str()),
            text_param(record.provider.as_str()),
            text_param(record.model.as_str()),
            text_param(record.created_at.as_str()),
            decided,
        ];
        run(
            &conn,
            "INSERT INTO ai_suggestions (
                id, feature_type, source_entity_type, source_entity_id, payload, sources_json,
                status, provider, model, created_at, decided_at
             ) VALUES (?1, ?2, ?3, ?4, ?5, ?6, ?7, ?8, ?9, ?10, ?11)",
            params.as_slice(),
        )?;
        Ok(())
    }

    /// The audit row of a rejected model answer: no items, dismissed.
    fn insert_invalid(&self, feature: AIFeature, source_entity_type: &str, source_entity_id: &str) -> (r:
        Result<(), DomainError>)
        ensures
            r matches Err(e) ==> e is Internal,
    {
        let now = now_stamp();
        let record = AISuggestionRecord {
            id: format_id(new_id()),
            feature_type: feature.as_str().to_string(),
            source_entity_type: source_entity_type.to_string(),
            source_entity_id: source_entity_id.to_string(),
            payload: SuggestionContent { items: Vec::new(), summary: None },
            sources: Vec::new(),
            status: SuggestionStatus::Dismissed,
            provider: self.settings.mode.as_str().to_string(),
            model: active_model_name(&self.settings),
            created_at: now.clone(),
            decided_at: Some(now),
        };
        self.insert(&record)
    }
}

pub open spec fn parse_id_spec(s: Seq<char>) -> Option<EntityId> {
    crate::ids::id_of_text(s)
}

/// Whether `s` is one of `v`.
pub fn has_text(v: &Vec<String>, s: &str) -> (r: bool)
    ensures
        r == exists|i: int| 0 <= i < v@.len() && (#[trigger] v@[i])@ == s@,
{
    let mut i: usize = 0;
    while i < v.len()
        invariant
            i <= v@.len(),
            forall|k: int| 0 <= k < i ==> (#[trigger] v@[k])@ != s@,
        decreases v@.len() - i,
    {
        if str_eq(v[i].as_str(), s) {
            return true;
        }
        i = i + 1;
    }
    false
}

fn opt_copy(s: &Option<String>) -> (r: Option<String>)
    ensures
        r == *s,
{
    match s {
        Some(t) => Some(t.clone()),
        None => None,
    }
}

fn copy_item(item: &SuggestionItem) -> (r: SuggestionItem)
    ensures
        r == *item,
{
    SuggestionItem {
        title: item.title.clone(),
        detail: opt_copy(&item.detail),
        due_date: opt_copy(&item.due_date),
        due_time: opt_copy(&item.due_time),
        ambiguous: item.ambiguous,
        source_excerpt: item.source_excerpt.clone(),
    }
}

fn copy_source(s: &SuggestionSource) -> (r: SuggestionSource)
    ensures
        r == *s,
{
    SuggestionSource {
        entity_type: s.entity_type.clone(),
        entity_id: s.entity_id.clone(),
        text_offset: s.text_offset,
        excerpt: s.excerpt.clone(),
    }
}

} // verus!
