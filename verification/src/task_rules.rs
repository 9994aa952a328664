//! Decisions about tasks that do not depend on storage: reordering,
//! today's focus eligibility, deferral and waiting inputs.

use vstd::prelude::*;

use crate::chars::{chars_of, string_of, trim, trim_bounds};
use crate::dates::{is_date_text, str_lt, text_lt, validate_due_date};
use crate::domain::{validation, DomainError};
use crate::ids::EntityId;
use crate::task_model::{TaskStatus, TaskWorkflowState};

verus! {

/// The list a task belongs to, as reported by `(task, list)` pairs; a
/// later pair overrides an earlier one.
pub open spec fn find_list(known: Seq<(EntityId, EntityId)>, id: EntityId) -> Option<EntityId>
    decreases known.len(),
{
    if known.len() == 0 {
        None
    } else if known.last().0 == id {
        Some(known.last().1)
    } else {
        find_list(known.drop_last(), id)
    }
}

/// How many of the first `n` dragged ids belong to list `list`.
pub open spec fn count_in_list(
    ordered: Seq<EntityId>,
    known: Seq<(EntityId, EntityId)>,
    list: EntityId,
    n: int,
) -> nat
    decreases n,
{
    if n <= 0 {
        0
    } else {
        count_in_list(ordered, known, list, n - 1) + if find_list(known, ordered[n - 1]) == Some(
            list,
        ) {
            1nat
        } else {
            0nat
        }
    }
}

/// The new position of the `i`-th dragged id: its rank among the dragged
/// ids of its own list; ids of unknown tasks get none.
pub open spec fn reorder_slot(
    ordered: Seq<EntityId>,
    known: Seq<(EntityId, EntityId)>,
    i: int,
) -> Option<int> {
    match find_list(known, ordered[i]) {
        Some(list) => Some(count_in_list(ordered, known, list, i) as int),
        None => None,
    }
}

fn find_list_exec(known: &Vec<(EntityId, EntityId)>, id: EntityId) -> (r: Option<EntityId>)
    ensures
        r == find_list(known@, id),
{
    let mut i = known.len();
    proof {
        assert(known@.subrange(0, known@.len() as int) =~= known@);
    }
    while i > 0
        invariant
            i <= known@.len(),
            find_list(known@, id) == find_list(known@.subrange(0, i as int), id),
        decreases i,
    {
        proof {
            assert(known@.subrange(0, i as int).drop_last() =~= known@.subrange(0, i - 1));
        }
        if known[i - 1].0 == id {
            return Some(known[i - 1].1);
        }
        i = i - 1;
    }
    proof {
        assert(known@.subrange(0, 0) =~= Seq::<(EntityId, EntityId)>::empty());
    }
    None
}

pub proof fn lemma_count_le(
    ordered: Seq<EntityId>,
    known: Seq<(EntityId, EntityId)>,
    list: EntityId,
    n: int,
)
    requires
        0 <= n,
    ensures
        count_in_list(ordered, known, list, n) <= n,
    decreases n,
{
    if n > 0 {
        lemma_count_le(ordered, known, list, n - 1);
    }
}

pub proof fn lemma_count_monotone(
    ordered: Seq<EntityId>,
    known: Seq<(EntityId, EntityId)>,
    list: EntityId,
    a: int,
    b: int,
)
    requires
        0 <= a <= b,
    ensures
        count_in_list(ordered, known, list, a) <= count_in_list(ordered, known, list, b),
    decreases b - a,
{
    if a < b {
        lemma_count_monotone(ordered, known, list, a, b - 1);
    }
}

proof fn lemma_count_after_insert(
    a: Seq<EntityId>,
    known: Seq<(EntityId, EntityId)>,
    list: EntityId,
    p: int,
    x: EntityId,
    n: int,
)
    requires
        0 <= p <= a.len(),
        0 <= n <= a.len(),
        find_list(known, x) != Some(list),
    ensures
        count_in_list(a.insert(p, x), known, list, if n <= p { n } else { n + 1 }) == count_in_list(
            a,
            known,
            list,
            n,
        ),
    decreases n,
{
    let b = a.insert(p, x);
    if n == 0 {
    } else if n <= p {
        lemma_count_after_insert(a, known, list, p, x, n - 1);
        assert(b[n - 1] == a[n - 1]);
    } else {
        lemma_count_after_insert(a, known, list, p, x, n - 1);
        assert(b[n] == a[n - 1]);
        if n - 1 == p {
            assert(b[p] == x);
            assert(count_in_list(b, known, list, p + 1) == count_in_list(b, known, list, p));
        }
    }
}

/// Dragging a task of another list into the order (anywhere) changes no
/// position of the tasks of this list: lists are numbered independently.
pub proof fn reorder_ignores_other_lists(
    a: Seq<EntityId>,
    known: Seq<(EntityId, EntityId)>,
    p: int,
    x: EntityId,
    i: int,
)
    requires
        0 <= p <= a.len(),
        0 <= i < a.len(),
        find_list(known, x) != find_list(known, a[i]),
    ensures
        reorder_slot(a.insert(p, x), known, if i < p { i } else { i + 1 }) == reorder_slot(a, known, i),
{
    let b = a.insert(p, x);
    let j = if i < p { i } else { i + 1 };
    assert(b[j] == a[i]);
    match find_list(known, a[i]) {
        Some(list) => {
            lemma_count_after_insert(a, known, list, p, x, i);
        },
        None => {},
    }
}

/// New positions for a drag-reorder: for each dragged id, its rank within
/// its own list (0, 1, 2, … in drag order), or none when the task is not
/// known. Tasks of one list never affect the numbering of another.
pub fn plan_reorder(ordered: &Vec<EntityId>, known: &Vec<(EntityId, EntityId)>) -> (r: Vec<
    Option<i64>,
>)
    requires
        ordered@.len() < i64::MAX,
    ensures
        r@.len() == ordered@.len(),
        forall|i: int|
            0 <= i < ordered@.len() ==> match #[trigger] reorder_slot(ordered@, known@, i) {
                Some(k) => r@[i] == Some(k as i64),
                None => r@[i] is None,
            },
        forall|i: int, j: int|
            0 <= i < j < ordered@.len() && find_list(known@, ordered@[i]) is Some && find_list(
                known@,
                ordered@[i],
            ) == find_list(known@, ordered@[j]) ==> r@[i].unwrap() < r@[j].unwrap(),
{
    let mut out: Vec<Option<i64>> = Vec::new();
    let mut i: usize = 0;
    while i < ordered.len()
        invariant
            i <= ordered@.len() < i64::MAX,
            out@.len() == i,
            forall|k: int|
                0 <= k < i ==> match #[trigger] reorder_slot(ordered@, known@, k) {
                    Some(s) => out@[k] == Some(s as i64),
                    None => out@[k] is None,
                },
        decreases ordered@.len() - i,
    {
        match find_list_exec(known, ordered[i]) {
            None => out.push(None),
            Some(list) => {
                let mut c: i64 = 0;
                let mut j: usize = 0;
                while j < i
                    invariant
                        j <= i < ordered@.len() < i64::MAX,
                        c == count_in_list(ordered@, known@, list, j as int),
                        c <= j,
                    decreases i - j,
                {
                    if find_list_exec(known, ordered[j]) == Some(list) {
                        c = c + 1;
                    }
                    j = j + 1;
                }
                out.push(Some(c));
                proof {
                    lemma_count_le(ordered@, known@, list, i as int);
                }
            },
        }
        proof {
            assert forall|k: int| 0 <= k < i + 1 implies match #[trigger] reorder_slot(
                ordered@,
                known@,
                k,
            ) {
                Some(s) => out@[k] == Some(s as i64),
                None => out@[k] is None,
            } by {}
        }
        i = i + 1;
    }
    proof {
        assert forall|a: int, b: int|
            0 <= a < b < ordered@.len() && find_list(known@, ordered@[a]) is Some && find_list(
                known@,
                ordered@[a],
            ) == find_list(known@, ordered@[b]) implies out@[a].unwrap() < out@[b].unwrap() by {
            let list = find_list(known@, ordered@[a]).unwrap();
            assert(reorder_slot(ordered@, known@, a) == Some(count_in_list(ordered@, known@, list, a) as int));
            assert(reorder_slot(ordered@, known@, b) == Some(count_in_list(ordered@, known@, list, b) as int));
            lemma_count_monotone(ordered@, known@, list, a + 1, b);
            lemma_count_le(ordered@, known@, list, a);
            lemma_count_le(ordered@, known@, list, b);
            assert(count_in_list(ordered@, known@, list, a + 1) == count_in_list(ordered@, known@, list, a) + 1);
        }
    }
    out
}

/// Why a task may not join today's focus, if it may not.
pub open spec fn focus_ineligible(
    status: TaskStatus,
    workflow: TaskWorkflowState,
    available_at: Option<Seq<char>>,
    today: Seq<char>,
) -> bool {
    ||| status != TaskStatus::Todo
    ||| workflow == TaskWorkflowState::Waiting
    ||| (available_at matches Some(a) && text_lt(today, a))
}

/// Only open, non-waiting tasks that are not deferred past `today` may be
/// added to the day's focus.
pub fn validate_focus_eligible(
    status: TaskStatus,
    workflow: TaskWorkflowState,
    available_at: &Option<String>,
    today: &str,
) -> (r: Result<(), DomainError>)
    ensures
        r is Ok <==> !focus_ineligible(
            status,
            workflow,
            match available_at {
                Some(s) => Some(s@),
                None => None,
            },
            today@,
        ),
        r matches Err(e) ==> e is Validation,
{
    if status != TaskStatus::Todo {
        return Err(validation("只能将待办任务加入今日重点"));
    }
    if workflow == TaskWorkflowState::Waiting {
        return Err(validation("等待中的任务请先结束等待，再加入今日重点"));
    }
    if let Some(avail) = available_at {
        if str_lt(today, avail.as_str()) {
            return Err(validation("推迟显示中的任务暂不能加入今日重点"));
        }
    }
    Ok(())
}

/// The trimmed text, or none when it is empty after trimming.
pub open spec fn nonblank(s: Option<Seq<char>>) -> Option<Seq<char>> {
    match s {
        Some(t) => if trim(t).len() == 0 {
            None
        } else {
            Some(trim(t))
        },
        None => None,
    }
}

pub open spec fn opt_str_view(s: Option<String>) -> Option<Seq<char>> {
    match s {
        Some(t) => Some(t@),
        None => None,
    }
}

/// `nonblank` on an optional string.
pub fn trim_nonblank(s: &Option<String>) -> (r: Option<String>)
    ensures
        opt_str_view(r) == nonblank(opt_str_view(*s)),
{
    match s {
        None => None,
        Some(t) => {
            let v = chars_of(t.as_str());
            let (a, b) = trim_bounds(&v, 0, v.len());
            proof {
                assert(v@.subrange(0, v@.len() as int) =~= v@);
            }
            if a == b {
                None
            } else {
                let mut w: Vec<char> = Vec::new();
                let mut i = a;
                while i < b
                    invariant
                        a <= i <= b <= v@.len(),
                        w@ =~= v@.subrange(a as int, i as int),
                    decreases b - i,
                {
                    w.push(v[i]);
                    i = i + 1;
                }
                Some(string_of(w.as_slice()))
            }
        },
    }
}

/// The focus date: today when none (or a blank one) is given, otherwise
/// the given date, trimmed, which must be a valid date.
pub fn normalize_focus_date(focus_date: &Option<String>, today: &str) -> (r: Result<
    String,
    DomainError,
>)
    ensures
        match nonblank(opt_str_view(*focus_date)) {
            None => r matches Ok(d) && d@ == today@,
            Some(d) => (r is Ok <==> is_date_text(d)) && (r matches Ok(x) ==> x@ == d) && (
            r matches Err(e) ==> e is Validation),
        },
{
    match trim_nonblank(focus_date) {
        None => Ok(today.to_string()),
        Some(d) => {
            validate_due_date(d.as_str())?;
            Ok(d)
        },
    }
}

/// A deferral date (`available_at`) must not come after the due date.
pub fn validate_due_vs_available(due: &Option<String>, available: &Option<String>) -> (r: Result<
    (),
    DomainError,
>)
    ensures
        r is Err <==> (due is Some && available is Some && text_lt(
            due->Some_0@,
            available->Some_0@,
        )),
        r matches Err(e) ==> e is Validation,
{
    match (due, available) {
        (Some(d), Some(a)) => {
            if str_lt(d.as_str(), a.as_str()) {
                Err(validation("推迟显示日期不能晚于截止日期"))
            } else {
                Ok(())
            }
        },
        _ => Ok(()),
    }
}

/// Checks a deferral request for a task in the given state: returns the
/// normalized `available_at` (blank clears it).
pub fn check_defer(
    status: TaskStatus,
    workflow: TaskWorkflowState,
    due: &Option<String>,
    available_at: &Option<String>,
) -> (r: Result<Option<String>, DomainError>)
    ensures
        r is Ok <==> {
            &&& status == TaskStatus::Todo
            &&& workflow != TaskWorkflowState::Waiting
            &&& nonblank(opt_str_view(*available_at)) matches Some(a) ==> is_date_text(a)
            &&& !(due is Some && nonblank(opt_str_view(*available_at)) is Some && text_lt(
                due->Some_0@,
                nonblank(opt_str_view(*available_at))->Some_0,
            ))
        },
        r matches Ok(a) ==> opt_str_view(a) == nonblank(opt_str_view(*available_at)),
        r matches Err(e) ==> e is Validation,
{
    if status != TaskStatus::Todo {
        return Err(validation("只能推迟待办任务"));
    }
    if workflow == TaskWorkflowState::Waiting {
        return Err(validation("等待中的任务请先结束等待，再设置推迟显示"));
    }
    let normalized = trim_nonblank(available_at);
    if let Some(date) = &normalized {
        validate_due_date(date.as_str())?;
    }
    validate_due_vs_available(due, &normalized)?;
    Ok(normalized)
}

/// Checks a "waiting for" request: the task must be open; the waiting-for
/// text (blank clears it) is at most 500 characters; the follow-up date
/// (blank clears it) must be a valid date. Returns both, normalized.
pub fn check_waiting(
    status: TaskStatus,
    waiting_for: &Option<String>,
    follow_up_date: &Option<String>,
) -> (r: Result<(Option<String>, Option<String>), DomainError>)
    ensures
        r is Ok <==> {
            &&& status == TaskStatus::Todo
            &&& nonblank(opt_str_view(*waiting_for)) matches Some(w) ==> w.len() <= 500
            &&& nonblank(opt_str_view(*follow_up_date)) matches Some(d) ==> is_date_text(d)
        },
        r matches Ok(p) ==> opt_str_view(p.0) == nonblank(opt_str_view(*waiting_for))
            && opt_str_view(p.1) == nonblank(opt_str_view(*follow_up_date)),
        r matches Err(e) ==> e is Validation,
{
    if status != TaskStatus::Todo {
        return Err(validation("只能标记待办任务为等待"));
    }
    let waiting = trim_nonblank(waiting_for);
    if let Some(text) = &waiting {
        if chars_of(text.as_str()).len() > 500 {
            return Err(validation("等待对象不能超过 500 个字符"));
        }
    }
    let follow_up = trim_nonblank(follow_up_date);
    if let Some(date) = &follow_up {
        validate_due_date(date.as_str())?;
    }
    Ok((waiting, follow_up))
}

} // verus!
