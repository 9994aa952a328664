//! Memories: notes with tags, wiki-style mention links between them, and
//! a search document each.

use vstd::prelude::*;

use rusqlite::Connection;

use crate::ai_model::texts_of;
use crate::chars::{chars_of, trim};
use crate::clock::{new_id, now_stamp};
use crate::db::{Database, SqlValue};
use crate::domain::{not_found, str_eq, validation, DomainError};
use crate::ids::EntityId;
use crate::links::{EntityLink, EntityLinkService, LINK_KIND_MENTION};
use crate::memory_text::{
    wikilink_titles,
    overlap, parse_wikilink_titles, passes, passes_threshold, related_score, score_at_least, score_of, shared_count, tokens,
    score_ge, tokenize, Score,
};
use crate::rows::{flag_at, id_at, id_param, int_at, opt_text_at, text_at, text_param};
use crate::search::{document_text, SearchEntityType, SearchService};
use crate::store::{begin, connect, fetch, finish, run};
use crate::task_model::{page_limit, page_offset, CreateTaskInput, PagedResult, Task};
use crate::task_query::contains_pattern;
use crate::task_rules::{nonblank, opt_str_view, trim_nonblank};
use crate::tasks::{notes_of, trimmed, TaskService};

verus! {

pub struct CreateMemoryInput {
    pub title: String,
    pub body: Option<String>,
    pub pinned: Option<bool>,
    pub quick_insert: Option<bool>,
    pub trigger_word: Option<String>,
    pub tag_names: Option<Vec<String>>,
}

pub struct UpdateMemoryInput {
    pub id: EntityId,
    pub title: String,
    pub body: String,
    pub pinned: bool,
    pub archived: bool,
    pub quick_insert: bool,
    pub trigger_word: Option<String>,
    pub sensitive: bool,
    pub tag_names: Vec<String>,
}

pub struct Memory {
    pub id: EntityId,
    pub title: String,
    pub body: String,
    pub pinned: bool,
    pub archived: bool,
    pub quick_insert: bool,
    pub trigger_word: Option<String>,
    pub mention_use_count: i64,
    pub sensitive: bool,
    pub tag_ids: Vec<EntityId>,
    pub tag_names: Vec<String>,
    pub created_at: String,
    pub updated_at: String,
    pub revision: i64,
}

pub struct MemoryQuery {
    pub search: Option<String>,
    pub tag_id: Option<EntityId>,
    pub pinned_only: Option<bool>,
    pub quick_insert_only: Option<bool>,
    pub include_archived: Option<bool>,
    pub limit: Option<i64>,
    pub offset: Option<i64>,
}

pub struct MemorySummary {
    pub id: EntityId,
    pub title: String,
}

pub struct MemoryBacklink {
    pub memory_id: EntityId,
    pub title: String,
}

/// A memory related to another, with its score `score.num / score.den`.
pub struct RelatedMemoryHit {
    pub memory_id: EntityId,
    pub title: String,
    pub score: Score,
    pub reasons: Vec<String>,
}

#[derive(PartialEq, Eq, Structural, Clone, Copy, Debug)]
pub enum WikilinkPendingReason {
    Missing,
    Ambiguous,
}

pub struct WikilinkPending {
    pub title: String,
    pub reason: WikilinkPendingReason,
    pub candidates: Vec<MemorySummary>,
}

#[derive(PartialEq, Eq, Structural, Clone, Copy, Debug)]
pub enum WikilinkResolutionAction {
    Link,
    Create,
    Skip,
}

pub struct WikilinkResolution {
    pub title: String,
    pub action: WikilinkResolutionAction,
    pub target_id: Option<EntityId>,
}

pub struct WikilinkSyncResult {
    pub memory: Memory,
    pub linked_ids: Vec<EntityId>,
    pub pending: Vec<WikilinkPending>,
}

pub struct ConvertMemoryToTaskResult {
    pub memory: Memory,
    pub task_id: EntityId,
}

// ---------------------------------------------------------------------
// Pure rules

/// ASCII letters lowered (`to_ascii_lowercase`).
pub open spec fn ascii_lower(c: char) -> char {
    if 'A' <= c && c <= 'Z' {
        (((c as u8) + 32) as u8) as char
    } else {
        c
    }
}

pub open spec fn same_title(a: Seq<char>, b: Seq<char>) -> bool {
    a.map_values(|c: char| ascii_lower(c)) == b.map_values(|c: char| ascii_lower(c))
}

/// Whether two titles are equal ignoring ASCII case.
pub fn titles_match(a: &str, b: &str) -> (r: bool)
    ensures
        r == same_title(a@, b@),
{
    let x = chars_of(a);
    let y = chars_of(b);
    let ghost xl = x@.map_values(|c: char| ascii_lower(c));
    let ghost yl = y@.map_values(|c: char| ascii_lower(c));
    if x.len() != y.len() {
        assert(xl.len() != yl.len());
        return false;
    }
    let mut i: usize = 0;
    while i < x.len()
        invariant
            x@ == a@,
            y@ == b@,
            x@.len() == y@.len(),
            i <= x@.len(),
            xl == x@.map_values(|c: char| ascii_lower(c)),
            yl == y@.map_values(|c: char| ascii_lower(c)),
            forall|j: int| 0 <= j < i ==> xl[j] == yl[j],
        decreases x@.len() - i,
    {
        let c = x[i];
        let d = y[i];
        let lc: char = if 'A' <= c && c <= 'Z' {
            let u: u8 = (c as u8) + 32;
            u as char
        } else {
            c
        };
        let ld: char = if 'A' <= d && d <= 'Z' {
            let u: u8 = (d as u8) + 32;
            u as char
        } else {
            d
        };
        assert(xl[i as int] == lc);
        assert(yl[i as int] == ld);
        if lc != ld {
            return false;
        }
        i = i + 1;
    }
    assert(xl =~= yl);
    true
}

/// The resolution that applies to a title: the last one given for it
/// (titles compared ignoring ASCII case).
pub open spec fn resolution_for(res: Seq<WikilinkResolution>, title: Seq<char>) -> Option<int>
    decreases res.len(),
{
    if res.len() == 0 {
        None
    } else if same_title(res.last().title@, title) {
        Some(res.len() - 1)
    } else {
        resolution_for(res.drop_last(), title)
    }
}

pub proof fn lemma_resolution_for(res: Seq<WikilinkResolution>, title: Seq<char>)
    ensures
        resolution_for(res, title) matches Some(k) ==> 0 <= k < res.len() && same_title(
            res[k].title@,
            title,
        ),
    decreases res.len(),
{
    if res.len() > 0 && !same_title(res.last().title@, title) {
        lemma_resolution_for(res.drop_last(), title);
    }
}

/// The resolutions given, none when none are.
pub open spec fn given_resolutions(r: Option<Vec<WikilinkResolution>>) -> Seq<WikilinkResolution> {
    match r {
        Some(v) => v@,
        None => Seq::empty(),
    }
}

/// The target a resolution links `title` to: the chosen memory of a
/// `Link` resolution.
pub open spec fn linked_by_resolution(res: Seq<WikilinkResolution>, title: Seq<char>) -> Option<EntityId> {
    match resolution_for(res, title) {
        Some(k) => if res[k].action == WikilinkResolutionAction::Link {
            res[k].target_id
        } else {
            None
        },
        None => None,
    }
}

/// Every `[[title]]` of `body` that a resolution links to another memory
/// is linked.
pub open spec fn resolutions_followed(body: Seq<char>, res: Seq<WikilinkResolution>, self_id: EntityId, linked: Seq<EntityId>) -> bool {
    forall|i: int| 0 <= i < wikilink_titles(body).len() ==> link_kept(
        linked_by_resolution(res, #[trigger] wikilink_titles(body)[i]),
        self_id,
        linked,
    )
}

/// A chosen target is linked (unless it is the memory itself).
pub open spec fn link_kept(target: Option<EntityId>, self_id: EntityId, linked: Seq<EntityId>) -> bool {
    match target {
        Some(x) => x == self_id || linked.contains(x),
        None => true,
    }
}

fn find_resolution(res: &Vec<WikilinkResolution>, title: &str) -> (r: Option<usize>)
    ensures
        match r {
            Some(k) => resolution_for(res@, title@) == Some(k as int) && k < res@.len(),
            None => resolution_for(res@, title@) is None,
        },
{
    let mut k = res.len();
    assert(res@.take(k as int) =~= res@);
    while k > 0
        invariant
            k <= res@.len(),
            resolution_for(res@, title@) == resolution_for(res@.take(k as int), title@),
        decreases k,
    {
        let ghost t = res@.take(k as int);
        assert(t.drop_last() =~= res@.take(k - 1));
        assert(t.last() == res@[k - 1]);
        if titles_match(res[k - 1].title.as_str(), title) {
            return Some(k - 1);
        }
        k = k - 1;
    }
    None
}

pub open spec fn pending_ok(p: WikilinkPending) -> bool {
    match p.reason {
        WikilinkPendingReason::Missing => p.candidates@.len() == 0,
        WikilinkPendingReason::Ambiguous => p.candidates@.len() >= 2,
    }
}

/// What a title with `candidates` matches comes to: nothing pending and
/// one target with one candidate; a missing or ambiguous title otherwise.
pub fn pending_for(title: String, candidates: Vec<MemorySummary>) -> (r: Option<WikilinkPending>)
    ensures
        candidates@.len() == 1 <==> r is None,
        r matches Some(p) ==> pending_ok(p) && p.title@ == title@ && (p.reason
            == WikilinkPendingReason::Missing <==> candidates@.len() == 0),
{
    if candidates.len() == 0 {
        Some(WikilinkPending { title, reason: WikilinkPendingReason::Missing, candidates: Vec::new() })
    } else if candidates.len() == 1 {
        None
    } else {
        Some(WikilinkPending { title, reason: WikilinkPendingReason::Ambiguous, candidates })
    }
}

/// Whether `id` is in `ids`.
pub fn has_id(ids: &Vec<EntityId>, id: EntityId) -> (r: bool)
    ensures
        r == ids@.contains(id),
{
    let mut i: usize = 0;
    while i < ids.len()
        invariant
            i <= ids@.len(),
            forall|j: int| 0 <= j < i ==> ids@[j] != id,
        decreases ids@.len() - i,
    {
        if ids[i] == id {
            assert(ids@[i as int] == id);
            return true;
        }
        i = i + 1;
    }
    false
}

/// The items of `a` that are not in `b`, in order.
pub open spec fn minus(a: Seq<EntityId>, b: Seq<EntityId>) -> Seq<EntityId>
    decreases a.len(),
{
    if a.len() == 0 {
        Seq::empty()
    } else {
        let r = minus(a.drop_last(), b);
        if b.contains(a.last()) {
            r
        } else {
            r.push(a.last())
        }
    }
}

/// The ids of `a` that are not in `b`, in order.
pub fn ids_minus(a: &Vec<EntityId>, b: &Vec<EntityId>) -> (r: Vec<EntityId>)
    ensures
        r@ == minus(a@, b@),
{
    let mut out: Vec<EntityId> = Vec::new();
    let mut i: usize = 0;
    while i < a.len()
        invariant
            i <= a@.len(),
            out@ == minus(a@.take(i as int), b@),
        decreases a@.len() - i,
    {
        assert(a@.take(i + 1).drop_last() =~= a@.take(i as int));
        assert(a@.take(i + 1).last() == a@[i as int]);
        let x = a[i];
        if !has_id(b, x) {
            out.push(x);
        }
        i = i + 1;
    }
    assert(a@.take(i as int) =~= a@);
    out
}

/// A link that is a mention of a memory.
pub open spec fn is_memory_mention(l: EntityLink) -> bool {
    l.link_kind@ == LINK_KIND_MENTION@ && l.target_type@ == "memory"@
}

/// The targets of the memory-to-memory mention links among `links`, each
/// once.
pub fn mention_targets(links: &Vec<EntityLink>) -> (r: Vec<EntityId>)
    ensures
        r@.no_duplicates(),
        forall|x: EntityId| #[trigger] r@.contains(x) <==> exists|k: int|
            0 <= k < links@.len() && is_memory_mention(#[trigger] links@[k]) && links@[k].target_id == x,
{
    let mut out: Vec<EntityId> = Vec::new();
    let mut i: usize = 0;
    while i < links.len()
        invariant
            i <= links@.len(),
            out@.no_duplicates(),
            forall|x: EntityId| #[trigger] out@.contains(x) <==> exists|k: int|
                0 <= k < i && is_memory_mention(#[trigger] links@[k]) && links@[k].target_id == x,
        decreases links@.len() - i,
    {
        let l = &links[i];
        let ghost before = out@;
        if str_eq(l.link_kind.as_str(), LINK_KIND_MENTION) && str_eq(l.target_type.as_str(), "memory") {
            add_id(&mut out, l.target_id);
        }
        proof {
            assert forall|x: EntityId| #[trigger] out@.contains(x) <==> exists|k: int|
                0 <= k < i + 1 && is_memory_mention(#[trigger] links@[k]) && links@[k].target_id == x by {
                if exists|k: int| 0 <= k < i + 1 && is_memory_mention(#[trigger] links@[k]) && links@[k].target_id == x {
                    let k = choose|k: int| 0 <= k < i + 1 && is_memory_mention(#[trigger] links@[k]) && links@[k].target_id == x;
                    if k < i {
                        assert(before.contains(x));
                    }
                }
                if before.contains(x) {
                    let k = choose|k: int| 0 <= k < i && is_memory_mention(#[trigger] links@[k]) && links@[k].target_id == x;
                    assert(0 <= k < i + 1);
                }
                if out@.contains(x) && !before.contains(x) {
                    assert(is_memory_mention(links@[i as int]) && links@[i as int].target_id == x);
                }
            }
        }
        i = i + 1;
    }
    out
}

/// Adds `id` to `ids` unless it is there.
fn add_id(ids: &mut Vec<EntityId>, id: EntityId)
    requires
        old(ids)@.no_duplicates(),
    ensures
        final(ids)@.no_duplicates(),
        forall|x: EntityId| #[trigger] final(ids)@.contains(x) <==> old(ids)@.contains(x) || x == id,
{
    if !has_id(ids, id) {
        ids.push(id);
        proof {
            assert forall|x: EntityId| #[trigger] ids@.contains(x) <==> old(ids)@.contains(x) || x == id by {
                if x == id {
                    assert(ids@[ids@.len() - 1] == id);
                }
                if old(ids)@.contains(x) {
                    let k = choose|k: int| 0 <= k < old(ids)@.len() && old(ids)@[k] == x;
                    assert(ids@[k] == x);
                }
            }
        }
    }
}

/// Ranks hits by score, highest first; hits with equal scores keep their
/// order.
pub open spec fn ranked(hits: Seq<RelatedMemoryHit>) -> bool {
    forall|i: int| 0 <= i < hits.len() - 1 ==> score_ge(#[trigger] hits[i].score, hits[i + 1].score)
}

/// The ids in the first column of the candidate rows.
pub open spec fn row_ids(rows: Seq<Vec<crate::db::SqlValue>>) -> Seq<EntityId> {
    rows.map_values(|r: Vec<crate::db::SqlValue>| crate::rows::id_cell(r@, 0).unwrap())
}

/// A word list as texts.
pub open spec fn words_of(w: Seq<Vec<char>>) -> Seq<Seq<char>> {
    w.map_values(|x: Vec<char>| x@)
}

/// A candidate row (`id, title, body, tags`) decodes.
pub open spec fn row_decodes(row: Seq<SqlValue>) -> bool {
    &&& crate::rows::id_cell(row, 0) is Some
    &&& crate::rows::text_cell(row, 1) is Some
    &&& crate::rows::text_cell(row, 2) is Some
    &&& crate::rows::opt_text_cell(row, 3) is Some
}

pub open spec fn row_id(row: Seq<SqlValue>) -> EntityId {
    crate::rows::id_cell(row, 0).unwrap()
}

/// The tag names of a candidate row (its comma-separated tags column).
pub open spec fn row_tags(row: Seq<SqlValue>) -> Seq<Seq<char>> {
    match crate::rows::opt_text_cell(row, 3) {
        Some(Some(t)) => comma_pieces(t),
        _ => Seq::empty(),
    }
}

/// The words of a candidate row: of its title and body.
pub open spec fn row_words(row: Seq<SqlValue>) -> Seq<Seq<char>> {
    tokens(crate::rows::text_cell(row, 1).unwrap() + " "@ + crate::rows::text_cell(row, 2).unwrap())
}

/// A link between two memories, one of them `target`.
pub open spec fn touches_memory(l: EntityLink, target: EntityId) -> bool {
    &&& l.source_id == target || l.target_id == target
    &&& l.source_type@ == "memory"@
    &&& l.target_type@ == "memory"@
}

pub open spec fn linked_to(around: Seq<EntityLink>, target: EntityId) -> bool {
    exists|k: int| 0 <= k < around.len() && #[trigger] touches_memory(around[k], target)
}

/// The score of a candidate row for a memory with tags `tags` and words
/// `src`, given the memory's links `around`: shared tags, an existing
/// link, and the overlap of the two word sets.
pub open spec fn row_score(tags: Seq<Seq<char>>, src: Seq<Seq<char>>, around: Seq<EntityLink>, row: Seq<SqlValue>) -> Score {
    let w = row_words(row);
    let common = shared_count(src, w);
    score_of(
        shared_texts(tags, row_tags(row)).len() as int,
        linked_to(around, row_id(row)),
        common as int,
        src.len() + w.len() - common,
    )
}

/// A candidate row qualifies: it is neither the memory itself nor one it
/// already mentions, and it scores at least 0.25.
pub open spec fn row_qualifies(m: Memory, src: Seq<Seq<char>>, existing: Seq<EntityId>, around: Seq<EntityLink>, row: Seq<SqlValue>) -> bool {
    &&& row_decodes(row)
    &&& row_id(row) != m.id
    &&& !existing.contains(row_id(row))
    &&& src.len() + row_words(row).len() <= u64::MAX
    &&& passes(row_score(texts_of(m.tag_names@), src, around, row))
}

/// Hit `h` stands for candidate row `row`.
pub open spec fn hit_of_row(h: RelatedMemoryHit, m: Memory, src: Seq<Seq<char>>, around: Seq<EntityLink>, row: Seq<SqlValue>) -> bool {
    &&& h.memory_id == row_id(row)
    &&& h.title@ == crate::rows::text_cell(row, 1).unwrap()
    &&& h.score == row_score(texts_of(m.tag_names@), src, around, row)
}

/// `v` holds the best five qualifying rows, best first: hit `k` stands
/// for row `picks[k]`, no row twice; a qualifying row left out was left
/// out because five scored at least as high.
pub open spec fn best_related(
    v: Seq<RelatedMemoryHit>,
    picks: Seq<int>,
    m: Memory,
    src: Seq<Seq<char>>,
    existing: Seq<EntityId>,
    around: Seq<EntityLink>,
    rows: Seq<Vec<SqlValue>>,
) -> bool {
    &&& v.len() == picks.len()
    &&& v.len() <= 5
    &&& ranked(v)
    &&& picks.no_duplicates()
    &&& forall|k: int| 0 <= k < v.len() ==> 0 <= #[trigger] picks[k] < rows.len() && row_qualifies(m, src, existing, around, rows[picks[k]]@)
        && hit_of_row(v[k], m, src, around, rows[picks[k]]@)
    &&& forall|j: int| 0 <= j < rows.len() && row_qualifies(m, src, existing, around, #[trigger] rows[j]@) && !picks.contains(j)
        ==> v.len() == 5 && forall|k: int| 0 <= k < 5 ==> score_ge(#[trigger] v[k].score, row_score(texts_of(m.tag_names@), src, around, rows[j]@))
}

/// `v` holds the best five qualifying rows of `rows`, best first.
pub open spec fn best_related_of(
    v: Seq<RelatedMemoryHit>,
    m: Memory,
    src: Seq<Seq<char>>,
    existing: Seq<EntityId>,
    around: Seq<EntityLink>,
    rows: Seq<Vec<SqlValue>>,
) -> bool {
    exists|picks: Seq<int>| #[trigger] best_related(v, picks, m, src, existing, around, rows)
}

proof fn lemma_ranked_ge(s: Seq<RelatedMemoryHit>, a: int, b: int)
    requires
        ranked(s),
        0 <= a <= b < s.len(),
        forall|k: int| 0 <= k < s.len() ==> (#[trigger] s[k]).score.den > 0,
    ensures
        score_ge(s[a].score, s[b].score),
    decreases b - a,
{
    if a == b {
        assert(s[a].score.num * s[a].score.den >= s[a].score.num * s[a].score.den);
    } else {
        lemma_ranked_ge(s, a, b - 1);
        assert(score_ge(s[b - 1].score, s[b].score));
        crate::memory_text::lemma_score_ge_trans(s[a].score, s[b - 1].score, s[b].score);
    }
}

/// Scores the candidate rows (`id, title, body, tags`) against a memory:
/// the best five that pass the threshold, best first (equal scores keep
/// the rows' order), leaving out the memory itself and the memories it
/// already mentions. Every row must decode.
#[verifier::rlimit(40)]
pub fn rank_related_memories(
    memory: &Memory,
    source_tokens: &Vec<Vec<char>>,
    rows: &Vec<Vec<crate::db::SqlValue>>,
    existing: &Vec<EntityId>,
    around: &Vec<crate::links::EntityLink>,
) -> (r: Result<Vec<RelatedMemoryHit>, DomainError>)
    ensures
        r is Ok <==> forall|j: int| 0 <= j < rows@.len() ==> row_decodes(#[trigger] rows@[j]@),
        r matches Ok(v) ==> best_related_of(v@, *memory, words_of(source_tokens@), existing@, around@, rows@),
        r matches Err(e) ==> e is Internal,
{
    let ghost src = words_of(source_tokens@);
    let ghost tags = texts_of(memory.tag_names@);
    let memory_id = memory.id;
    let mut hits: Vec<RelatedMemoryHit> = Vec::new();
    let ghost mut picks: Seq<int> = Seq::empty();
    let mut i: usize = 0;
    while i < rows.len()
        invariant
            i <= rows@.len(),
            ranked(hits@),
            memory_id == memory.id,
            src == words_of(source_tokens@),
            tags == texts_of(memory.tag_names@),
            hits@.len() == picks.len(),
            picks.no_duplicates(),
            forall|j: int| 0 <= j < i ==> row_decodes(#[trigger] rows@[j]@),
            forall|k: int| 0 <= k < hits@.len() ==> 0 <= #[trigger] picks[k] < i && row_qualifies(*memory, src, existing@, around@, rows@[picks[k]]@)
                && hit_of_row(hits@[k], *memory, src, around@, rows@[picks[k]]@) && hits@[k].score.den > 0,
            forall|j: int| 0 <= j < i && row_qualifies(*memory, src, existing@, around@, #[trigger] rows@[j]@) ==> picks.contains(j),
        decreases rows@.len() - i,
    {
        let row = &rows[i];
        let target_id = match id_at(row, 0) {
            Ok(x) => x,
            Err(e) => {
                assert(!row_decodes(rows@[i as int]@));
                return Err(e);
            },
        };
        let title = match text_at(row, 1) {
            Ok(x) => x,
            Err(e) => {
                assert(!row_decodes(rows@[i as int]@));
                return Err(e);
            },
        };
        let body = match text_at(row, 2) {
            Ok(x) => x,
            Err(e) => {
                assert(!row_decodes(rows@[i as int]@));
                return Err(e);
            },
        };
        let tags_csv = match opt_text_at(row, 3) {
            Ok(x) => x,
            Err(e) => {
                assert(!row_decodes(rows@[i as int]@));
                return Err(e);
            },
        };
        let ghost rw = rows@[i as int]@;
        assert(row_decodes(rw));
        if target_id != memory_id && !has_id(&existing, target_id) {
            let target_tags = match &tags_csv {
                Some(t) => split_tags(t.as_str()),
                None => Vec::new(),
            };
            assert(texts_of(target_tags@) == row_tags(rw));
            let shared = shared_names(&memory.tag_names, &target_tags);
            let mut linked = false;
            let mut k: usize = 0;
            while k < around.len()
                invariant
                    k <= around@.len(),
                    linked == exists|x: int| 0 <= x < k && #[trigger] touches_memory(around@[x], target_id),
                decreases around@.len() - k,
            {
                let l = &around[k];
                if (l.source_id == target_id || l.target_id == target_id) && str_eq(l.source_type.as_str(), "memory")
                    && str_eq(l.target_type.as_str(), "memory") {
                    linked = true;
                }
                proof {
                    if touches_memory(around@[k as int], target_id) {
                        assert(linked);
                    }
                    if linked && !touches_memory(around@[k as int], target_id) {
                        let x = choose|x: int| 0 <= x < k && #[trigger] touches_memory(around@[x], target_id);
                        assert(0 <= x < k + 1);
                    }
                }
                k = k + 1;
            }
            assert(linked == linked_to(around@, row_id(rw)));
            let mut target_text = title.clone();
            target_text.append(" ");
            target_text.append(body.as_str());
            let target_tokens = tokenize(target_text.as_str());
            assert(words_of(target_tokens@) == row_words(rw));
            if (source_tokens.len() as u128) + (target_tokens.len() as u128) <= (u64::MAX as u128) {
                let (common, union) = overlap(&source_tokens, &target_tokens);
                let score = related_score(shared.len() as u64, linked, common, union);
                assert(score == row_score(tags, src, around@, rw));
                if passes_threshold(&score) {
                    let mut reasons: Vec<String> = Vec::new();
                    if shared.len() > 0 {
                        let mut reason = "共同标签：".to_string();
                        let joined = join_names(&shared, "、");
                        reason.append(joined.as_str());
                        reasons.push(reason);
                    }
                    if linked {
                        reasons.push("已有其他关联".to_string());
                    }
                    if union > 0 && 5 * (common as u128) >= (union as u128) {
                        reasons.push("正文关键词重合".to_string());
                    }
                    let ghost h0 = hits@;
                    let ghost p0 = picks;
                    let h = RelatedMemoryHit { memory_id: target_id, title, score, reasons };
                    let ghost gh = h;
                    let p = insert_ranked(&mut hits, h);
                    proof {
                        picks = p0.insert(p as int, i as int);
                        assert(hit_of_row(gh, *memory, src, around@, rw));
                        assert(row_qualifies(*memory, src, existing@, around@, rw));
                        assert forall|k: int| 0 <= k < hits@.len() implies 0 <= #[trigger] picks[k] < i + 1 && row_qualifies(*memory, src, existing@, around@, rows@[picks[k]]@)
                            && hit_of_row(hits@[k], *memory, src, around@, rows@[picks[k]]@) && hits@[k].score.den > 0 by {
                            if k < p {
                                assert(picks[k] == p0[k] && hits@[k] == h0[k]);
                            } else if k > p {
                                assert(picks[k] == p0[k - 1] && hits@[k] == h0[k - 1]);
                            } else {
                                assert(picks[k] == i && hits@[k] == gh);
                            }
                        }
                        assert forall|j: int| 0 <= j < i + 1 && row_qualifies(*memory, src, existing@, around@, #[trigger] rows@[j]@) implies picks.contains(j) by {
                            if j < i {
                                let x = choose|x: int| 0 <= x < p0.len() && p0[x] == j;
                                if x < p {
                                    assert(picks[x] == j);
                                } else {
                                    assert(picks[x + 1] == j);
                                }
                            } else {
                                assert(picks[p as int] == j);
                            }
                        }
                        assert forall|x: int, y: int| 0 <= x < picks.len() && 0 <= y < picks.len() && x != y implies picks[x] != picks[y] by {
                            if x != p && y != p {
                                let x0 = if x < p { x } else { x - 1 };
                                let y0 = if y < p { y } else { y - 1 };
                                assert(picks[x] == p0[x0] && picks[y] == p0[y0]);
                            } else if x == p {
                                let y0 = if y < p { y } else { y - 1 };
                                assert(picks[y] == p0[y0] && p0[y0] < i);
                            } else {
                                let x0 = if x < p { x } else { x - 1 };
                                assert(picks[x] == p0[x0] && p0[x0] < i);
                            }
                        }
                    }
                }
            }
        }
        proof {
            assert forall|j: int| 0 <= j < i + 1 && row_qualifies(*memory, src, existing@, around@, #[trigger] rows@[j]@) implies picks.contains(j) by {
                if j == i {
                    assert(row_qualifies(*memory, src, existing@, around@, rw));
                }
            }
        }
        i = i + 1;
    }
    let ghost full = hits@;
    let ghost fp = picks;
    hits.truncate(5);
    let ghost picks5 = if fp.len() <= 5 { fp } else { fp.take(5) };
    proof {
        assert forall|k: int| 0 <= k < full.len() implies (#[trigger] full[k]).score.den > 0 by {
            assert(0 <= fp[k]);
        }
        assert(hits@ =~= if full.len() <= 5 { full } else { full.take(5) });
        assert forall|x: int| 0 <= x < hits@.len() - 1 implies score_ge(#[trigger] hits@[x].score, hits@[x + 1].score) by {
            assert(hits@[x] == full[x] && hits@[x + 1] == full[x + 1]);
        }
        assert forall|x: int, y: int| 0 <= x < picks5.len() && 0 <= y < picks5.len() && x != y implies picks5[x] != picks5[y] by {
            assert(picks5[x] == fp[x] && picks5[y] == fp[y]);
        }
        assert forall|k: int| 0 <= k < hits@.len() implies 0 <= #[trigger] picks5[k] < rows@.len() && row_qualifies(*memory, src, existing@, around@, rows@[picks5[k]]@)
            && hit_of_row(hits@[k], *memory, src, around@, rows@[picks5[k]]@) by {
            assert(hits@[k] == full[k] && picks5[k] == fp[k]);
        }
        assert forall|j: int| 0 <= j < rows@.len() && row_qualifies(*memory, src, existing@, around@, #[trigger] rows@[j]@) && !picks5.contains(j)
            implies hits@.len() == 5 && forall|k: int| 0 <= k < 5 ==> score_ge(#[trigger] hits@[k].score, row_score(tags, src, around@, rows@[j]@)) by {
            let x = choose|x: int| 0 <= x < fp.len() && fp[x] == j;
            if x < 5 {
                assert(picks5[x] == j);
            }
            assert forall|k: int| 0 <= k < 5 implies score_ge(#[trigger] hits@[k].score, row_score(tags, src, around@, rows@[j]@)) by {
                lemma_ranked_ge(full, k, x);
                assert(hits@[k] == full[k]);
            }
        }
        assert(best_related(hits@, picks5, *memory, src, existing@, around@, rows@));
    }
    assert(best_related(hits@, picks5, *memory, words_of(source_tokens@), existing@, around@, rows@));
    assert(best_related_of(hits@, *memory, words_of(source_tokens@), existing@, around@, rows@));
    Ok(hits)
}

/// The SQL conditions of a memory query, in order: archived hidden unless
/// included, pinned only, quick-insert only, tag, text search.
pub open spec fn memory_filter_sql(q: MemoryQuery) -> Seq<char> {
    crate::task_query::piece(q.include_archived != Some(true), " AND archived = 0"@) + crate::task_query::piece(
        q.pinned_only == Some(true),
        " AND pinned = 1"@,
    ) + crate::task_query::piece(q.quick_insert_only == Some(true), " AND quick_insert = 1"@) + crate::task_query::piece(
        q.tag_id is Some,
        " AND EXISTS (SELECT 1 FROM memory_tags mt WHERE mt.memory_id = memories.id AND mt.tag_id = ?)"@,
    ) + crate::task_query::piece(
        crate::task_rules::nonblank(crate::task_rules::opt_str_view(q.search)) is Some,
        " AND (title LIKE ? ESCAPE '\\' OR body LIKE ? ESCAPE '\\')"@,
    )
}

/// The texts bound to the `?`s of `memory_filter_sql(q)`, in order; a
/// search binds its `LIKE` pattern (wildcards escaped) twice.
pub open spec fn memory_filter_params(q: MemoryQuery) -> Seq<Seq<char>> {
    (match q.tag_id {
        Some(x) => seq![crate::ids::id_text(x)],
        None => Seq::empty(),
    }) + (match crate::task_rules::nonblank(crate::task_rules::opt_str_view(q.search)) {
        Some(t) => seq![crate::task_query::search_pattern(t), crate::task_query::search_pattern(t)],
        None => Seq::empty(),
    })
}

/// The SQL conditions and bound parameters of a memory query.
pub fn memory_filters(q: &MemoryQuery) -> (r: (String, Vec<SqlValue>))
    ensures
        r.0@ == memory_filter_sql(*q),
        crate::task_query::binds_texts(r.1@, memory_filter_params(*q)),
{
    let mut filters = String::new();
    let mut values: Vec<SqlValue> = Vec::new();
    let ghost mut texts: Seq<Seq<char>> = Seq::empty();
    let ghost qq = *q;
    if q.include_archived != Some(true) {
        filters.append(" AND archived = 0");
    }
    assert(filters@ =~= crate::task_query::piece(qq.include_archived != Some(true), " AND archived = 0"@));
    let ghost f1 = filters@;
    if q.pinned_only == Some(true) {
        filters.append(" AND pinned = 1");
    }
    assert(filters@ =~= f1 + crate::task_query::piece(qq.pinned_only == Some(true), " AND pinned = 1"@));
    let ghost f2 = filters@;
    if q.quick_insert_only == Some(true) {
        filters.append(" AND quick_insert = 1");
    }
    assert(filters@ =~= f2 + crate::task_query::piece(qq.quick_insert_only == Some(true), " AND quick_insert = 1"@));
    let ghost f3 = filters@;
    if let Some(tag_id) = q.tag_id {
        filters.append(
            " AND EXISTS (SELECT 1 FROM memory_tags mt WHERE mt.memory_id = memories.id AND mt.tag_id = ?)",
        );
        let v = id_param(tag_id);
        proof {
            crate::task_query::lemma_bind_push(values@, texts, v, crate::ids::id_text(tag_id));
            texts = texts + seq![crate::ids::id_text(tag_id)];
        }
        values.push(v);
    }
    assert(filters@ =~= f3 + crate::task_query::piece(
        qq.tag_id is Some,
        " AND EXISTS (SELECT 1 FROM memory_tags mt WHERE mt.memory_id = memories.id AND mt.tag_id = ?)"@,
    ));
    assert(texts =~= Seq::<Seq<char>>::empty() + match qq.tag_id {
        Some(x) => seq![crate::ids::id_text(x)],
        None => Seq::<Seq<char>>::empty(),
    });
    let ghost f4 = filters@;
    let ghost t4 = texts;
    if let Some(text) = crate::task_rules::trim_nonblank(&q.search) {
        filters.append(" AND (title LIKE ? ESCAPE '\\' OR body LIKE ? ESCAPE '\\')");
        let pattern = contains_pattern(text.as_str());
        let v1 = SqlValue::Text(pattern.clone());
        proof {
            crate::task_query::lemma_bind_push(values@, texts, v1, crate::task_query::search_pattern(text@));
            texts = texts + seq![crate::task_query::search_pattern(text@)];
        }
        values.push(v1);
        let v2 = SqlValue::Text(pattern);
        proof {
            crate::task_query::lemma_bind_push(values@, texts, v2, crate::task_query::search_pattern(text@));
            texts = texts + seq![crate::task_query::search_pattern(text@)];
        }
        values.push(v2);
    }
    assert(filters@ =~= f4 + crate::task_query::piece(
        crate::task_rules::nonblank(crate::task_rules::opt_str_view(qq.search)) is Some,
        " AND (title LIKE ? ESCAPE '\\' OR body LIKE ? ESCAPE '\\')"@,
    ));
    assert(texts =~= t4 + match crate::task_rules::nonblank(crate::task_rules::opt_str_view(qq.search)) {
        Some(t) => seq![crate::task_query::search_pattern(t), crate::task_query::search_pattern(t)],
        None => Seq::<Seq<char>>::empty(),
    });
    assert(filters@ =~= memory_filter_sql(qq));
    assert(texts =~= memory_filter_params(qq));
    (filters, values)
}

/// The task made from a memory: it has the returned id, the memory's
/// title (trimmed), its body as notes, and it is open.
pub open spec fn converted_from(t: Task, m: Memory, task_id: EntityId) -> bool {
    &&& t.id == task_id
    &&& t.title@ == trim(m.title@)
    &&& t.notes@ == m.body@
    &&& t.status == crate::task_model::TaskStatus::Todo
}

/// Inserts a hit after every hit that scores at least as high; the
/// position it took is returned.
pub fn insert_ranked(hits: &mut Vec<RelatedMemoryHit>, h: RelatedMemoryHit) -> (p: usize)
    requires
        ranked(old(hits)@),
    ensures
        ranked(final(hits)@),
        p <= old(hits)@.len(),
        final(hits)@ == old(hits)@.insert(p as int, h),
        forall|i: int| 0 <= i < p ==> score_ge(#[trigger] old(hits)@[i].score, h.score),
        p < old(hits)@.len() ==> !score_ge(old(hits)@[p as int].score, h.score),
{
    let mut p: usize = 0;
    while p < hits.len() && score_at_least(&hits[p].score, &h.score)
        invariant
            p <= hits@.len(),
            hits@ == old(hits)@,
            forall|i: int| 0 <= i < p ==> score_ge(#[trigger] hits@[i].score, h.score),
        decreases hits@.len() - p,
    {
        p = p + 1;
    }
    let ghost before = hits@;
    hits.insert(p, h);
    proof {
        assert forall|i: int| 0 <= i < hits@.len() - 1 implies score_ge(
            #[trigger] hits@[i].score,
            hits@[i + 1].score,
        ) by {
            if i + 1 < p {
                assert(hits@[i] == before[i] && hits@[i + 1] == before[i + 1]);
            } else if i + 1 == p {
                assert(hits@[i] == before[i]);
            } else if i == p {
                assert(hits@[i + 1] == before[p as int]);
            } else {
                assert(hits@[i] == before[i - 1] && hits@[i + 1] == before[i]);
                assert(ranked(before));
                assert(score_ge(before[i - 1].score, before[i].score));
            }
        }
        assert(hits@ =~= before.insert(p as int, h));
    }
    p
}

/// The pieces of a comma-separated text read so far: the non-empty
/// pieces already closed by a comma, and the piece being read.
pub open spec fn comma_split(s: Seq<char>) -> (Seq<Seq<char>>, Seq<char>)
    decreases s.len(),
{
    if s.len() == 0 {
        (Seq::empty(), Seq::empty())
    } else {
        let (done, cur) = comma_split(s.drop_last());
        if s.last() == ',' {
            (if cur.len() > 0 {
                done.push(cur)
            } else {
                done
            }, Seq::empty())
        } else {
            (done, cur.push(s.last()))
        }
    }
}

/// The non-empty pieces of a comma-separated text, in order.
pub open spec fn comma_pieces(s: Seq<char>) -> Seq<Seq<char>> {
    let (done, cur) = comma_split(s);
    if cur.len() > 0 {
        done.push(cur)
    } else {
        done
    }
}

/// The tag names of a comma-separated list, empty pieces dropped.
pub fn split_tags(csv: &str) -> (r: Vec<String>)
    ensures
        texts_of(r@) == comma_pieces(csv@),
        forall|i: int| 0 <= i < r@.len() ==> (#[trigger] r@[i])@.len() > 0,
{
    let v = chars_of(csv);
    let mut out: Vec<String> = Vec::new();
    let mut cur: Vec<char> = Vec::new();
    let mut i: usize = 0;
    while i < v.len()
        invariant
            i <= v@.len(),
            v@ == csv@,
            (texts_of(out@), cur@) == comma_split(v@.take(i as int)),
            forall|k: int| 0 <= k < out@.len() ==> (#[trigger] out@[k])@.len() > 0,
        decreases v@.len() - i,
    {
        assert(v@.take(i + 1).drop_last() =~= v@.take(i as int));
        let ghost prev = out@;
        if v[i] == ',' {
            if cur.len() > 0 {
                out.push(crate::chars::string_of(cur.as_slice()));
                assert(texts_of(out@) =~= texts_of(prev).push(cur@));
            }
            cur = Vec::new();
        } else {
            cur.push(v[i]);
        }
        i = i + 1;
    }
    assert(v@.take(v@.len() as int) =~= v@);
    let ghost prev = out@;
    if cur.len() > 0 {
        out.push(crate::chars::string_of(cur.as_slice()));
        assert(texts_of(out@) =~= texts_of(prev).push(cur@));
    }
    out
}

/// The names of `a` that also occur in `b`, in the order of `a`.
pub open spec fn shared_texts(a: Seq<Seq<char>>, b: Seq<Seq<char>>) -> Seq<Seq<char>>
    decreases a.len(),
{
    if a.len() == 0 {
        Seq::empty()
    } else {
        let prev = shared_texts(a.drop_last(), b);
        if b.contains(a.last()) {
            prev.push(a.last())
        } else {
            prev
        }
    }
}

/// The names in `a` that are also in `b`, in the order of `a`.
pub fn shared_names(a: &Vec<String>, b: &Vec<String>) -> (r: Vec<String>)
    ensures
        texts_of(r@) == shared_texts(texts_of(a@), texts_of(b@)),
        r@.len() <= a@.len(),
{
    let ghost ta = texts_of(a@);
    let ghost tb = texts_of(b@);
    let mut out: Vec<String> = Vec::new();
    let mut i: usize = 0;
    while i < a.len()
        invariant
            i <= a@.len(),
            ta == texts_of(a@),
            tb == texts_of(b@),
            texts_of(out@) == shared_texts(ta.take(i as int), tb),
            out@.len() <= i,
        decreases a@.len() - i,
    {
        let mut found = false;
        let mut j: usize = 0;
        while j < b.len()
            invariant
                i < a@.len(),
                j <= b@.len(),
                tb == texts_of(b@),
                found == exists|q: int| 0 <= q < j && tb[q] == a@[i as int]@,
            decreases b@.len() - j,
        {
            if str_eq(a[i].as_str(), b[j].as_str()) {
                assert(tb[j as int] == a@[i as int]@);
                found = true;
            }
            j = j + 1;
        }
        proof {
            assert(ta.take(i + 1).drop_last() =~= ta.take(i as int));
            assert(ta.take(i + 1).last() == a@[i as int]@);
            if found {
                let q = choose|q: int| 0 <= q < b@.len() && tb[q] == a@[i as int]@;
                assert(tb.contains(a@[i as int]@));
            } else {
                assert(!tb.contains(a@[i as int]@));
            }
        }
        let ghost prev = out@;
        if found {
            out.push(a[i].clone());
            assert(texts_of(out@) =~= texts_of(prev).push(a@[i as int]@));
        }
        i = i + 1;
    }
    assert(ta.take(a@.len() as int) =~= ta);
    out
}

fn join_names(names: &Vec<String>, sep: &str) -> (r: String)
    ensures
        r@ == crate::text::joined(texts_of(names@), sep@),
{
    let ghost t = texts_of(names@);
    let mut out = String::new();
    let mut i: usize = 0;
    while i < names.len()
        invariant
            i <= names@.len(),
            t == texts_of(names@),
            out@ == crate::text::joined(t.take(i as int), sep@),
        decreases names@.len() - i,
    {
        assert(t.take(i + 1).drop_last() =~= t.take(i as int));
        if i > 0 {
            out.append(sep);
        } else {
            assert(crate::text::joined(t.take(0), sep@) =~= Seq::<char>::empty());
        }
        out.append(names[i].as_str());
        proof {
            assert(t.take(i + 1).last() == names@[i as int]@);
            if i == 0 {
                assert(crate::text::joined(t.take(1), sep@) == t.take(1)[0]);
            }
        }
        i = i + 1;
    }
    assert(t.take(names@.len() as int) =~= t);
    out
}

fn memory_from_row(row: &Vec<SqlValue>) -> (r: Result<Memory, DomainError>)
    ensures
        r matches Ok(m) ==> m.id == crate::rows::id_cell(row@, 0).unwrap(),
        r matches Err(e) ==> e is Internal,
{
    Ok(
        Memory {
            id: id_at(row, 0)?,
            title: text_at(row, 1)?,
            body: text_at(row, 2)?,
            pinned: flag_at(row, 3)?,
            archived: flag_at(row, 4)?,
            quick_insert: flag_at(row, 5)?,
            trigger_word: opt_text_at(row, 6)?,
            mention_use_count: int_at(row, 7)?,
            sensitive: flag_at(row, 8)?,
            tag_ids: Vec::new(),
            tag_names: Vec::new(),
            created_at: text_at(row, 9)?,
            updated_at: text_at(row, 10)?,
            revision: int_at(row, 11)?,
        },
    )
}

const MEMORY_COLUMNS: &'static str = "SELECT id, title, body, pinned, archived, quick_insert, trigger_word, mention_use_count, sensitive, created_at, updated_at, revision FROM memories";

/// A flag as it is stored: 1 or 0.
pub open spec fn flag_value(b: bool) -> SqlValue {
    SqlValue::Integer(if b { 1 } else { 0 })
}

pub fn flag_param(b: bool) -> (r: SqlValue)
    ensures
        r == flag_value(b),
{
    SqlValue::Integer(if b { 1 } else { 0 })
}

/// A memory as `input` creates it: trimmed title, the body (or none),
/// pinned and quick-insert only when asked, a trigger word only when not
/// blank (trimmed), not archived.
pub open spec fn memory_created_as(m: Memory, input: CreateMemoryInput) -> bool {
    &&& m.title@ == trim(input.title@)
    &&& m.body@ == notes_of(input.body)
    &&& m.pinned == (input.pinned == Some(true))
    &&& m.quick_insert == (input.quick_insert == Some(true))
    &&& opt_str_view(m.trigger_word) == nonblank(opt_str_view(input.trigger_word))
    &&& !m.archived
}

/// A memory as `input` leaves it: its id, trimmed title, body, flags and
/// trigger word (only when not blank, trimmed).
pub open spec fn memory_updated_as(m: Memory, input: UpdateMemoryInput) -> bool {
    &&& m.id == input.id
    &&& m.title@ == trim(input.title@)
    &&& m.body@ == input.body@
    &&& m.pinned == input.pinned
    &&& m.archived == input.archived
    &&& m.quick_insert == input.quick_insert
    &&& m.sensitive == input.sensitive
    &&& opt_str_view(m.trigger_word) == nonblank(opt_str_view(input.trigger_word))
}

/// The bound values of a new memory's row, in the order of its INSERT: id,
/// title, body, pinned, quick insert, trigger word, stamp.
pub fn new_memory_params(
    id: EntityId,
    title: &str,
    body: &str,
    pinned: bool,
    quick_insert: bool,
    trigger_word: &Option<String>,
    now: &str,
) -> (r: Vec<SqlValue>)
    ensures
        r@.len() == 7,
        crate::db::sql_text(r@[0]) == Some(crate::ids::id_text(id)),
        crate::db::sql_text(r@[1]) == Some(title@),
        crate::db::sql_text(r@[2]) == Some(body@),
        r@[3] == flag_value(pinned),
        r@[4] == flag_value(quick_insert),
        crate::tasks::binds_opt(r@[5], *trigger_word),
        crate::db::sql_text(r@[6]) == Some(now@),
{
    vec![
        id_param(id),
        text_param(title),
        text_param(body),
        flag_param(pinned),
        flag_param(quick_insert),
        crate::rows::opt_text_param(trigger_word),
        text_param(now),
    ]
}

/// The bound values of a memory's UPDATE, in order: title, body, pinned,
/// archived, quick insert, trigger word, sensitive, stamp, id.
pub fn memory_update_params(input: &UpdateMemoryInput, title: &str, trigger_word: &Option<String>, now: &str) -> (r: Vec<
    SqlValue,
>)
    ensures
        r@.len() == 9,
        crate::db::sql_text(r@[0]) == Some(title@),
        crate::db::sql_text(r@[1]) == Some(input.body@),
        r@[2] == flag_value(input.pinned),
        r@[3] == flag_value(input.archived),
        r@[4] == flag_value(input.quick_insert),
        crate::tasks::binds_opt(r@[5], *trigger_word),
        r@[6] == flag_value(input.sensitive),
        crate::db::sql_text(r@[7]) == Some(now@),
        crate::db::sql_text(r@[8]) == Some(crate::ids::id_text(input.id)),
{
    vec![
        text_param(title),
        text_param(input.body.as_str()),
        flag_param(input.pinned),
        flag_param(input.archived),
        flag_param(input.quick_insert),
        crate::rows::opt_text_param(trigger_word),
        flag_param(input.sensitive),
        text_param(now),
        id_param(input.id),
    ]
}

/// The text a memory is found by: its body, and its trigger word on a
/// second line when it has one.
pub fn searchable_text(body: &str, trigger_word: &Option<String>) -> (r: String)
    ensures
        match trigger_word {
            Some(w) => r@ == body@ + seq!['\n'] + w@,
            None => r@ == body@,
        },
{
    match trigger_word {
        Some(w) => document_text(body, w.as_str()),
        None => body.to_string(),
    }
}

pub struct MemoryService {
    pub db: Database,
    pub search: SearchService,
    pub tasks: TaskService,
    pub links: EntityLinkService,
}

impl MemoryService {
    pub fn new(db: Database) -> (r: Self)
        ensures
            r.db.path@ == db.path@,
    {
        MemoryService {
            search: SearchService::new(db.clone()),
            tasks: TaskService::new(db.clone()),
            links: EntityLinkService::new(db.clone()),
            db,
        }
    }

    /// Writes a new memory (no wiki-link sync); returns its id.
    fn insert_memory(&self, input: CreateMemoryInput) -> (r: Result<EntityId, DomainError>)
        ensures
            r matches Err(DomainError::Validation(_)) <==> trim(input.title@).len() == 0,
    {
        let title = trimmed(input.title.as_str());
        if title.as_str().is_empty() {
            return Err(validation("标题不能为空"));
        }
        let body = match input.body {
            Some(b) => b,
            None => String::new(),
        };
        let id = new_id();
        let now = now_stamp();
        let pinned = match input.pinned {
            Some(p) => p,
            None => false,
        };
        let quick_insert = match input.quick_insert {
            Some(q) => q,
            None => false,
        };
        let trigger_word = trim_nonblank(&input.trigger_word);
        let conn = connect(&self.db)?;
        begin(&conn)?;
        let params = new_memory_params(id, title.as_str(), body.as_str(), pinned, quick_insert, &trigger_word, now.as_str());
        let outcome = match run(
            &conn,
            "INSERT INTO memories (
                id, title, body, pinned, archived, quick_insert, trigger_word,
                created_at, updated_at, revision, deleted_at
             ) VALUES (?1, ?2, ?3, ?4, 0, ?5, ?6, ?7, ?7, 1, NULL)",
            params.as_slice(),
        ) {
            Ok(_) => {
                let tagged = match &input.tag_names {
                    Some(names) => self.replace_tags(&conn, id, names),
                    None => Ok(()),
                };
                match tagged {
                    Ok(()) => {
                        let searchable = searchable_text(body.as_str(), &trigger_word);
                        self.search.upsert_conn(
                            &conn,
                            SearchEntityType::Memory,
                            id,
                            title.as_str(),
                            searchable.as_str(),
                        )
                    },
                    Err(e) => Err(e),
                }
            },
            Err(e) => Err(e),
        };
        finish(&conn, outcome)?;
        Ok(id)
    }

    /// Creates a memory: the title is trimmed and must not be blank, a
    /// blank trigger word is dropped; its wiki links are then synced.
    pub fn create(&self, input: CreateMemoryInput) -> (r: Result<Memory, DomainError>)
        ensures
            r matches Err(DomainError::Validation(_)) <==> trim(input.title@).len() == 0,
            r matches Ok(m) ==> memory_created_as(m, input),
    {
        let title = trimmed(input.title.as_str());
        let body = match &input.body {
            Some(b) => b.clone(),
            None => String::new(),
        };
        let pinned = input.pinned == Some(true);
        let quick_insert = input.quick_insert == Some(true);
        let word = trim_nonblank(&input.trigger_word);
        let ghost given = input;
        let id = self.insert_memory(input)?;
        let _ = self.sync_wikilinks(id, None)?;
        let m = self.get(id)?;
        if !str_eq(m.title.as_str(), title.as_str()) || !str_eq(m.body.as_str(), body.as_str()) || m.pinned != pinned
            || m.quick_insert != quick_insert || m.archived || !crate::tasks::same_opt_text(&m.trigger_word, &word) {
            return Err(crate::domain::internal_msg("新记忆未按输入写入"));
        }
        assert(memory_created_as(m, given));
        Ok(m)
    }

    /// Updates a live memory; an archived memory leaves the search index.
    pub fn update(&self, input: UpdateMemoryInput) -> (r: Result<Memory, DomainError>)
        ensures
            r matches Ok(m) ==> memory_updated_as(m, input),
            trim(input.title@).len() == 0 ==> r is Err,
            r matches Err(DomainError::Validation(_)) ==> trim(input.title@).len() == 0,
    {
        let _ = self.get(input.id)?;
        let title = trimmed(input.title.as_str());
        if title.as_str().is_empty() {
            return Err(validation("标题不能为空"));
        }
        let now = now_stamp();
        let word = trim_nonblank(&input.trigger_word);
        let conn = connect(&self.db)?;
        begin(&conn)?;
        let params = memory_update_params(&input, title.as_str(), &word, now.as_str());
        let outcome = match run(
            &conn,
            "UPDATE memories SET title = ?1, body = ?2, pinned = ?3, archived = ?4,
                quick_insert = ?5, trigger_word = ?6, sensitive = ?7,
                updated_at = ?8, revision = revision + 1
             WHERE id = ?9 AND deleted_at IS NULL",
            params.as_slice(),
        ) {
            Ok(_) => match self.replace_tags(&conn, input.id, &input.tag_names) {
                Ok(()) => if !input.archived {
                    let searchable = searchable_text(input.body.as_str(), &word);
                    self.search.upsert_conn(
                        &conn,
                        SearchEntityType::Memory,
                        input.id,
                        title.as_str(),
                        searchable.as_str(),
                    )
                } else {
                    Ok(())
                },
                Err(e) => Err(e),
            },
            Err(e) => Err(e),
        };
        finish(&conn, outcome)?;
        if input.archived {
            self.search.remove(SearchEntityType::Memory, input.id)?;
        }
        let _ = self.sync_wikilinks(input.id, None)?;
        let m = self.get(input.id)?;
        if !str_eq(m.title.as_str(), title.as_str()) || !str_eq(m.body.as_str(), input.body.as_str()) || m.pinned
            != input.pinned || m.archived != input.archived || m.quick_insert != input.quick_insert || m.sensitive
            != input.sensitive || !crate::tasks::same_opt_text(&m.trigger_word, &word) {
            return Err(crate::domain::internal_msg("记忆未按输入写入"));
        }
        Ok(m)
    }

    /// Brings the memory's mention links in line with the `[[titles]]` in
    /// its body. A title with a resolution is linked to the given target,
    /// created as a new memory, or skipped; any other title is linked when
    /// exactly one other live memory has that title (ignoring case), and
    /// reported as missing or ambiguous otherwise. Mention counts of
    /// memories that gain or lose a mention are adjusted.
    pub fn sync_wikilinks(&self, memory_id: EntityId, resolutions: Option<Vec<WikilinkResolution>>) -> (r:
        Result<WikilinkSyncResult, DomainError>)
        ensures
            r matches Ok(s) ==> s.memory.id == memory_id && !s.linked_ids@.contains(memory_id)
                && forall|i: int| 0 <= i < s.pending@.len() ==> pending_ok(#[trigger] s.pending@[i]),
            r matches Ok(s) ==> exists|body: Seq<char>| #[trigger] resolutions_followed(
                body,
                given_resolutions(resolutions),
                memory_id,
                s.linked_ids@,
            ),
            resolutions is None ==> (r matches Err(e) ==> !(e is Validation)),
    {
        let memory = self.get(memory_id)?;
        let titles = parse_wikilink_titles(memory.body.as_str());
        let ghost given = given_resolutions(resolutions);
        let res = match resolutions {
            Some(v) => v,
            None => Vec::new(),
        };
        assert(res@ == given);
        let ghost wt_body = memory.body@;
        let ghost wt = wikilink_titles(memory.body@);
        assert(titles@.map_values(|t: String| t@) == wt);
        let outgoing = self.links.list_outgoing("memory", memory_id)?;
        let old_targets = mention_targets(&outgoing);
        let conn = connect(&self.db)?;
        let mut new_targets: Vec<EntityId> = Vec::new();
        let mut linked_ids: Vec<EntityId> = Vec::new();
        let mut pending: Vec<WikilinkPending> = Vec::new();
        let mut i: usize = 0;
        while i < titles.len()
            invariant
                i <= titles@.len(),
                new_targets@.no_duplicates(),
                !new_targets@.contains(memory_id),
                !linked_ids@.contains(memory_id),
                forall|k: int| 0 <= k < pending@.len() ==> pending_ok(#[trigger] pending@[k]),
                titles@.map_values(|t: String| t@) == wt,
                forall|k: int| 0 <= k < i ==> link_kept(linked_by_resolution(res@, #[trigger] wt[k]), memory_id, linked_ids@),
                resolutions is None ==> res@.len() == 0,
            decreases titles@.len() - i,
        {
            let title = &titles[i];
            let ghost linked0 = linked_ids@;
            assert(wt[i as int] == title@);
            match find_resolution(&res, title.as_str()) {
                Some(k) => {
                    match res[k].action {
                        WikilinkResolutionAction::Skip => {},
                        WikilinkResolutionAction::Create => {
                            let created = self.insert_memory(
                                CreateMemoryInput {
                                    title: title.clone(),
                                    body: Some(String::new()),
                                    pinned: None,
                                    quick_insert: None,
                                    trigger_word: None,
                                    tag_names: None,
                                },
                            )?;
                            if created != memory_id {
                                add_id(&mut new_targets, created);
                                linked_ids.push(created);
                            }
                        },
                        WikilinkResolutionAction::Link => {
                            if let Some(target) = res[k].target_id {
                                if target != memory_id {
                                    add_id(&mut new_targets, target);
                                    linked_ids.push(target);
                                    assert(linked_ids@[linked_ids@.len() - 1] == target);
                                }
                            }
                            assert(linked_by_resolution(res@, title@) == res@[k as int].target_id);
                        },
                    }
                },
                None => {
                    let candidates = self.find_by_title(&conn, title.as_str(), memory_id)?;
                    if candidates.len() == 1 {
                        let target = candidates[0].id;
                        if target != memory_id {
                            add_id(&mut new_targets, target);
                            linked_ids.push(target);
                        }
                    } else {
                        match pending_for(title.clone(), candidates) {
                            Some(p) => pending.push(p),
                            None => {},
                        }
                    }
                },
            }
            proof {
                assert forall|k: int| 0 <= k < i + 1 implies link_kept(linked_by_resolution(res@, #[trigger] wt[k]), memory_id, linked_ids@) by {
                    if k < i {
                        match linked_by_resolution(res@, wt[k]) {
                            Some(x) => {
                                if x != memory_id {
                                    assert(linked0.contains(x));
                                    let w = choose|w: int| 0 <= w < linked0.len() && linked0[w] == x;
                                    assert(linked_ids@[w] == x);
                                }
                            },
                            None => {},
                        }
                    }
                }
            }
            i = i + 1;
        }
        let removed = ids_minus(&old_targets, &new_targets);
        let added = ids_minus(&new_targets, &old_targets);
        let mut j: usize = 0;
        while j < removed.len()
            invariant
                j <= removed@.len(),
            decreases removed@.len() - j,
        {
            self.bump_mention_use_count(&conn, removed[j], -1)?;
            j = j + 1;
        }
        let mut j: usize = 0;
        while j < added.len()
            invariant
                j <= added@.len(),
            decreases added@.len() - j,
        {
            self.bump_mention_use_count(&conn, added[j], 1)?;
            j = j + 1;
        }
        let params = vec![id_param(memory_id), text_param(LINK_KIND_MENTION)];
        run(
            &conn,
            "DELETE FROM entity_links
             WHERE source_type = 'memory' AND source_id = ?1 AND link_kind = ?2",
            params.as_slice(),
        )?;
        let mut j: usize = 0;
        while j < new_targets.len()
            invariant
                j <= new_targets@.len(),
            decreases new_targets@.len() - j,
        {
            self.links.link("memory", memory_id, "memory", new_targets[j], LINK_KIND_MENTION)?;
            j = j + 1;
        }
        let memory = self.get(memory_id)?;
        assert(titles@.len() == wt.len());
        assert(resolutions_followed(wt_body, given, memory_id, linked_ids@));
        assert(given == given_resolutions(resolutions));
        let result = WikilinkSyncResult { memory, linked_ids, pending };
        assert(resolutions_followed(wt_body, given_resolutions(resolutions), memory_id, result.linked_ids@));
        Ok(result)
    }

    /// The body's wiki-link titles that do not resolve to exactly one other
    /// live memory.
    pub fn wikilink_pending(&self, memory_id: EntityId) -> (r: Result<
        Vec<WikilinkPending>,
        DomainError,
    >)
        ensures
            r matches Ok(v) ==> forall|i: int| 0 <= i < v@.len() ==> pending_ok(#[trigger] v@[i]),
    {
        let memory = self.get(memory_id)?;
        let titles = parse_wikilink_titles(memory.body.as_str());
        let conn = connect(&self.db)?;
        let mut pending: Vec<WikilinkPending> = Vec::new();
        let mut i: usize = 0;
        while i < titles.len()
            invariant
                i <= titles@.len(),
                forall|k: int| 0 <= k < pending@.len() ==> pending_ok(#[trigger] pending@[k]),
            decreases titles@.len() - i,
        {
            let candidates = self.find_by_title(&conn, titles[i].as_str(), memory_id)?;
            match pending_for(titles[i].clone(), candidates) {
                Some(p) => pending.push(p),
                None => {},
            }
            i = i + 1;
        }
        Ok(pending)
    }

    /// Syncs the wiki links with the given resolutions.
    pub fn resolve_wikilinks(&self, memory_id: EntityId, resolutions: Vec<WikilinkResolution>) -> (r:
        Result<WikilinkSyncResult, DomainError>)
        ensures
            r matches Ok(s) ==> s.memory.id == memory_id && !s.linked_ids@.contains(memory_id),
    {
        self.sync_wikilinks(memory_id, Some(resolutions))
    }

    /// Live memories that mention this one, by title.
    pub fn backlinks(&self, memory_id: EntityId) -> (r: Result<Vec<MemoryBacklink>, DomainError>)
        ensures
            r matches Ok(v) ==> forall|i: int|
                0 <= i < v@.len() - 1 ==> !crate::dates::text_lt(
                    (#[trigger] v@[i + 1]).title@,
                    v@[i].title@,
                ),
    {
        let _ = self.get(memory_id)?;
        let links = self.links.list_incoming("memory", memory_id)?;
        let conn = connect(&self.db)?;
        let mut out: Vec<MemoryBacklink> = Vec::new();
        let mut i: usize = 0;
        while i < links.len()
            invariant
                i <= links@.len(),
                forall|k: int|
                    0 <= k < out@.len() - 1 ==> !crate::dates::text_lt(
                        (#[trigger] out@[k + 1]).title@,
                        out@[k].title@,
                    ),
            decreases links@.len() - i,
        {
            let l = &links[i];
            if str_eq(l.link_kind.as_str(), LINK_KIND_MENTION) && str_eq(l.source_type.as_str(), "memory") {
                let params = vec![id_param(l.source_id)];
                let rows = fetch(
                    &conn,
                    "SELECT title FROM memories WHERE id = ?1 AND deleted_at IS NULL",
                    params.as_slice(),
                )?;
                if rows.len() > 0 {
                    let title = text_at(&rows[0], 0)?;
                    insert_by_title(&mut out, MemoryBacklink { memory_id: l.source_id, title });
                }
            }
            i = i + 1;
        }
        Ok(out)
    }

    /// Up to five live, unarchived memories related to this one, best
    /// first: scored by shared tags, existing links and overlapping words
    /// (see `related_score`); memories it already mentions are left out,
    /// and only scores of at least 0.25 count.
    pub fn related_memories(&self, memory_id: EntityId) -> (r: Result<
        Vec<RelatedMemoryHit>,
        DomainError,
    >)
        ensures
            r matches Ok(v) ==> exists|m: Memory, rows: Seq<Vec<SqlValue>>, existing: Seq<EntityId>, around: Seq<EntityLink>|
                m.id == memory_id && #[trigger] best_related_of(v@, m, tokens(m.title@ + " "@ + m.body@), existing, around, rows),
    {
        let memory = self.get(memory_id)?;
        let conn = connect(&self.db)?;
        let outgoing = self.links.list_outgoing("memory", memory_id)?;
        let existing = mention_targets(&outgoing);
        let params = vec![id_param(memory_id)];
        let rows = fetch(
            &conn,
            "SELECT m.id, m.title, m.body, GROUP_CONCAT(tg.name) AS tags
             FROM memories m
             LEFT JOIN memory_tags mt ON mt.memory_id = m.id
             LEFT JOIN tags tg ON tg.id = mt.tag_id AND tg.deleted_at IS NULL
             WHERE m.deleted_at IS NULL AND m.archived = 0 AND m.id != ?1
             GROUP BY m.id
             ORDER BY m.updated_at DESC
             LIMIT 120",
            params.as_slice(),
        )?;
        let mut source_text = memory.title.clone();
        source_text.append(" ");
        source_text.append(memory.body.as_str());
        let source_tokens = tokenize(source_text.as_str());
        let around = self.links.list_for_entity("memory", memory_id)?;
        let r = rank_related_memories(&memory, &source_tokens, &rows, &existing, &around);
        assert(source_text@ == memory.title@ + " "@ + memory.body@);
        r
    }

    /// Records that one memory mentions another (not itself); a mention
    /// already recorded is left alone.
    pub fn link_mention(&self, source_id: EntityId, target_id: EntityId) -> (r: Result<
        (),
        DomainError,
    >)
        ensures
            source_id == target_id ==> r matches Err(DomainError::Validation(_)),
    {
        if source_id == target_id {
            return Err(validation("不能关联自身"));
        }
        let _ = self.get(source_id)?;
        let _ = self.get(target_id)?;
        let outgoing = self.links.list_outgoing("memory", source_id)?;
        let mut present = false;
        let mut i: usize = 0;
        while i < outgoing.len()
            invariant
                i <= outgoing@.len(),
            decreases outgoing@.len() - i,
        {
            if str_eq(outgoing[i].link_kind.as_str(), LINK_KIND_MENTION) && outgoing[i].target_id
                == target_id {
                present = true;
            }
            i = i + 1;
        }
        if !present {
            let conn = connect(&self.db)?;
            self.bump_mention_use_count(&conn, target_id, 1)?;
            self.links.link("memory", source_id, "memory", target_id, LINK_KIND_MENTION)?;
        }
        Ok(())
    }

    /// Up to five other live, unarchived memories with the title (ignoring
    /// case), most recently updated first.
    fn find_by_title(&self, conn: &Connection, title: &str, exclude: EntityId) -> (r: Result<
        Vec<MemorySummary>,
        DomainError,
    >)
        ensures
            r matches Ok(v) ==> forall|i: int| 0 <= i < v@.len() ==> (#[trigger] v@[i]).id != exclude,
            r matches Err(e) ==> e is Internal,
    {
        let params = vec![text_param(title), id_param(exclude)];
        let rows = fetch(
            conn,
            "SELECT id, title FROM memories
             WHERE deleted_at IS NULL AND archived = 0 AND title = ?1 COLLATE NOCASE AND id != ?2
             ORDER BY updated_at DESC LIMIT 5",
            params.as_slice(),
        )?;
        let mut out: Vec<MemorySummary> = Vec::new();
        let mut i: usize = 0;
        while i < rows.len()
            invariant
                i <= rows@.len(),
                forall|k: int| 0 <= k < out@.len() ==> (#[trigger] out@[k]).id != exclude,
            decreases rows@.len() - i,
        {
            let id = id_at(&rows[i], 0)?;
            let t = text_at(&rows[i], 1)?;
            if id != exclude {
                out.push(MemorySummary { id, title: t });
            }
            i = i + 1;
        }
        Ok(out)
    }

    fn bump_mention_use_count(&self, conn: &Connection, memory_id: EntityId, delta: i64) -> (r: Result<
        (),
        DomainError,
    >)
        ensures
            r matches Err(e) ==> e is Internal,
    {
        let params = vec![SqlValue::Integer(delta), id_param(memory_id)];
        run(
            conn,
            "UPDATE memories SET mention_use_count = MAX(0, mention_use_count + ?1)
             WHERE id = ?2 AND deleted_at IS NULL",
            params.as_slice(),
        )?;
        Ok(())
    }

    /// A live memory by id, with its tags.
    pub fn get(&self, id: EntityId) -> (r: Result<Memory, DomainError>)
        ensures
            r matches Ok(m) ==> m.id == id,
            r matches Err(e) ==> e is Internal || e is NotFound,
    {
        let conn = connect(&self.db)?;
        let mut sql = MEMORY_COLUMNS.to_string();
        sql.append(" WHERE id = ?1 AND deleted_at IS NULL");
        let params = vec![id_param(id)];
        let rows = fetch(&conn, sql.as_str(), params.as_slice())?;
        let mut i: usize = 0;
        while i < rows.len()
            invariant
                i <= rows@.len(),
            decreases rows@.len() - i,
        {
            let mut m = memory_from_row(&rows[i])?;
            if m.id == id {
                self.attach_tags(&conn, &mut m)?;
                return Ok(m);
            }
            i = i + 1;
        }
        Err(not_found("记忆不存在"))
    }

    /// A page of memories: unarchived unless asked, optionally pinned or
    /// quick-insert only, with a tag, or containing the search text in the
    /// title or body; pinned first, then (for quick insert) most mentioned,
    /// then most recently updated.
    pub fn query(&self, query: MemoryQuery) -> (r: Result<PagedResult<Memory>, DomainError>)
        ensures
            r matches Ok(p) ==> p.offset == match query.offset {
                Some(o) => if o < 0 {
                    0
                } else {
                    o
                },
                None => 0,
            } && p.has_more == (p.offset + p.items@.len() < p.total),
            r matches Err(e) ==> e is Internal,
    {
        let conn = connect(&self.db)?;
        let limit = page_limit(query.limit);
        let offset = page_offset(query.offset);
        let (filters, mut values) = memory_filters(&query);
        let quick_only = query.quick_insert_only == Some(true);
        let mut count_sql = "SELECT COUNT(*) FROM memories WHERE deleted_at IS NULL".to_string();
        count_sql.append(filters.as_str());
        let rows = fetch(&conn, count_sql.as_str(), values.as_slice())?;
        let total = crate::rows::single_int(&rows)?;
        let order = if quick_only {
            " ORDER BY pinned DESC, mention_use_count DESC, updated_at DESC LIMIT ? OFFSET ?"
        } else {
            " ORDER BY pinned DESC, updated_at DESC LIMIT ? OFFSET ?"
        };
        let mut sql = MEMORY_COLUMNS.to_string();
        sql.append(" WHERE deleted_at IS NULL");
        sql.append(filters.as_str());
        sql.append(order);
        values.push(SqlValue::Integer(limit));
        values.push(SqlValue::Integer(offset));
        let rows = fetch(&conn, sql.as_str(), values.as_slice())?;
        let mut items: Vec<Memory> = Vec::new();
        let mut i: usize = 0;
        while i < rows.len()
            invariant
                i <= rows@.len(),
            decreases rows@.len() - i,
        {
            let mut m = memory_from_row(&rows[i])?;
            self.attach_tags(&conn, &mut m)?;
            items.push(m);
            i = i + 1;
        }
        Ok(PagedResult::new(items, total, offset))
    }

    /// Deletes a live memory (softly): the memories it mentions lose a
    /// mention, it leaves the search index and its links are purged.
    pub fn delete(&self, id: EntityId) -> (r: Result<(), DomainError>)
        ensures
            r matches Err(e) ==> e is Internal || e is NotFound,
    {
        let _ = self.get(id)?;
        let conn = connect(&self.db)?;
        let outgoing = self.links.list_outgoing("memory", id)?;
        let mut i: usize = 0;
        while i < outgoing.len()
            invariant
                i <= outgoing@.len(),
            decreases outgoing@.len() - i,
        {
            let l = &outgoing[i];
            if str_eq(l.link_kind.as_str(), LINK_KIND_MENTION) && str_eq(l.target_type.as_str(), "memory") {
                self.bump_mention_use_count(&conn, l.target_id, -1)?;
            }
            i = i + 1;
        }
        let now = now_stamp();
        let params = vec![SqlValue::Text(now), id_param(id)];
        run(
            &conn,
            "UPDATE memories SET deleted_at = ?1, updated_at = ?1, revision = revision + 1 WHERE id = ?2",
            params.as_slice(),
        )?;
        self.search.remove(SearchEntityType::Memory, id)?;
        let _ = self.links.purge_for_source("memory", id);
        let _ = self.links.purge_incoming_for_target("memory", id);
        Ok(())
    }

    /// Makes a task from a memory (title, body as notes, tags), indexes it,
    /// and links the memory to it as `converted_to`. The memory stays.
    pub fn convert_to_task(&self, id: EntityId) -> (r: Result<ConvertMemoryToTaskResult, DomainError>)
        ensures
            r matches Ok(c) ==> c.memory.id == id,
            r matches Ok(c) ==> exists|t: Task| #[trigger] converted_from(t, c.memory, c.task_id),
    {
        let memory = self.get(id)?;
        let input = CreateTaskInput {
            title: memory.title.clone(),
            notes: Some(memory.body.clone()),
            priority: None,
            list_id: None,
            due_date: None,
            due_time: None,
            tag_names: Some(memory.tag_names.clone()),
        };
        assert(input.title@ == memory.title@ && notes_of(input.notes) == memory.body@);
        let task = self.tasks.create_task(input)?;
        self.search.upsert(SearchEntityType::Task, task.id, task.title.as_str(), task.notes.as_str())?;
        self.links.link("memory", id, "task", task.id, "converted_to")?;
        let res = ConvertMemoryToTaskResult { memory, task_id: task.id };
        assert(converted_from(task, res.memory, res.task_id));
        Ok(res)
    }

    fn attach_tags(&self, conn: &Connection, memory: &mut Memory) -> (r: Result<(), DomainError>)
        ensures
            final(memory).id == old(memory).id,
            r matches Err(e) ==> e is Internal,
    {
        let params = vec![id_param(memory.id)];
        let rows = fetch(
            conn,
            "SELECT tg.id, tg.name FROM tags tg
             JOIN memory_tags mt ON mt.tag_id = tg.id
             WHERE mt.memory_id = ?1 AND tg.deleted_at IS NULL
             ORDER BY tg.name COLLATE NOCASE",
            params.as_slice(),
        )?;
        let mut ids: Vec<EntityId> = Vec::new();
        let mut names: Vec<String> = Vec::new();
        let mut i: usize = 0;
        while i < rows.len()
            invariant
                i <= rows@.len(),
            decreases rows@.len() - i,
        {
            ids.push(id_at(&rows[i], 0)?);
            names.push(text_at(&rows[i], 1)?);
            i = i + 1;
        }
        memory.tag_ids = ids;
        memory.tag_names = names;
        Ok(())
    }

    fn replace_tags(&self, conn: &Connection, memory_id: EntityId, tag_names: &Vec<String>) -> (r:
        Result<(), DomainError>)
        ensures
            r matches Err(e) ==> e is Internal,
    {
        let params = vec![id_param(memory_id)];
        run(conn, "DELETE FROM memory_tags WHERE memory_id = ?1", params.as_slice())?;
        let now = now_stamp();
        let mut i: usize = 0;
        while i < tag_names.len()
            invariant
                i <= tag_names@.len(),
            decreases tag_names@.len() - i,
        {
            let name = trimmed(tag_names[i].as_str());
            if !name.as_str().is_empty() {
                let tag_id = crate::tags::find_or_create_tag(conn, name.as_str(), now.as_str())?;
                let params = vec![id_param(memory_id), id_param(tag_id)];
                run(
                    conn,
                    "INSERT OR IGNORE INTO memory_tags (memory_id, tag_id) VALUES (?1, ?2)",
                    params.as_slice(),
                )?;
            }
            i = i + 1;
        }
        Ok(())
    }
}

/// Backlinks in title order.
pub open spec fn by_title(v: Seq<MemoryBacklink>) -> bool {
    forall|k: int| 0 <= k < v.len() - 1 ==> !crate::dates::text_lt((#[trigger] v[k + 1]).title@, v[k].title@)
}

/// Inserts a backlink after every backlink whose title does not sort after
/// it.
fn insert_by_title(out: &mut Vec<MemoryBacklink>, b: MemoryBacklink)
    requires
        by_title(old(out)@),
    ensures
        by_title(final(out)@),
        exists|p: int| 0 <= p <= old(out)@.len() && final(out)@ == old(out)@.insert(p, b),
{
    let mut p: usize = 0;
    while p < out.len() && !crate::dates::str_lt(b.title.as_str(), out[p].title.as_str())
        invariant
            p <= out@.len(),
            out@ == old(out)@,
            forall|k: int| 0 <= k < p ==> !crate::dates::text_lt(b.title@, (#[trigger] out@[k]).title@),
        decreases out@.len() - p,
    {
        p = p + 1;
    }
    let ghost before = out@;
    proof {
        if p < before.len() {
            crate::dates::lemma_text_lt_asymmetric(b.title@, before[p as int].title@);
        }
        assert forall|k: int| 0 <= k < p implies !crate::dates::text_lt(b.title@, #[trigger] before[k].title@) by {
            assert(before[k] == out@[k]);
        }
    }
    let ghost bt = b.title@;
    let ghost bb = b;
    out.insert(p, b);
    assert(out@ == before.insert(p as int, bb));
    proof {
        assert forall|k: int| 0 <= k < out@.len() - 1 implies !crate::dates::text_lt(
            (#[trigger] out@[k + 1]).title@,
            out@[k].title@,
        ) by {
            if k + 1 < p {
                assert(out@[k] == before[k] && out@[k + 1] == before[k + 1]);
            } else if k + 1 == p {
                assert(out@[k] == before[k]);
            } else if k == p {
                assert(out@[k + 1] == before[p as int]);
            } else {
                assert(out@[k] == before[k - 1] && out@[k + 1] == before[k]);
                assert(by_title(before));
                let j = k - 1;
                assert(before[j + 1] == before[k]);
                assert(!crate::dates::text_lt(before[j + 1].title@, before[j].title@));
            }
        }
    }
}

} // verus!
