//! Database backups: copies of the workbench database in a backup
//! directory, named after why they were made, and restoring one.

use vstd::prelude::*;

use crate::ai_model::occurs_in;
use crate::assets::join_path;
use crate::chars::{chars_of, string_of};
use crate::dates::{str_lt, text_lt};
use crate::db::{copy_database, open_connection, open_read_only, path_exists, Database};
use crate::domain::{internal, str_eq, DomainError};
use crate::fragments::ascii_alnum;

verus! {

pub struct BackupInfo {
    pub file_name: String,
    pub path: String,
    pub size_bytes: u64,
    pub created_at: String,
    pub reason: String,
}

pub struct BackupStatus {
    pub directory: String,
    pub count: usize,
    pub latest: Option<BackupInfo>,
    pub last_error: Option<String>,
}

/// A character kept in a backup's file name: an ASCII letter or digit,
/// `-` or `_`; any other becomes `-`.
pub open spec fn safe_char(c: char) -> char {
    if ascii_alnum(c) || c == '-' || c == '_' {
        c
    } else {
        '-'
    }
}

pub open spec fn safe_text(s: Seq<char>) -> Seq<char> {
    s.map_values(|c: char| safe_char(c))
}

pub fn safe_reason(reason: &str) -> (r: String)
    ensures
        r@ == safe_text(reason@),
{
    let v = chars_of(reason);
    let mut out: Vec<char> = Vec::new();
    let mut i: usize = 0;
    while i < v.len()
        invariant
            i <= v@.len(),
            v@ == reason@,
            out@ =~= safe_text(v@.take(i as int)),
        decreases v@.len() - i,
    {
        let c = v[i];
        let alnum = ('a' <= c && c <= 'z') || ('A' <= c && c <= 'Z') || ('0' <= c && c <= '9');
        if alnum || c == '-' || c == '_' {
            out.push(c);
        } else {
            out.push('-');
        }
        i = i + 1;
    }
    assert(v@.take(i as int) =~= v@);
    string_of(out.as_slice())
}

/// The file name of a backup: `workbench-<reason>-<stamp>.db`.
pub open spec fn backup_name(reason: Seq<char>, stamp: Seq<char>) -> Seq<char> {
    "workbench-"@ + safe_text(reason) + "-"@ + stamp + ".db"@
}

pub fn backup_file_name(reason: &str, stamp: &str) -> (r: String)
    ensures
        r@ == backup_name(reason@, stamp@),
{
    let mut s = "workbench-".to_string();
    s.append(safe_reason(reason).as_str());
    s.append("-");
    s.append(stamp);
    s.append(".db");
    s
}

/// The position of the last `-` in a text.
pub open spec fn last_dash(s: Seq<char>) -> Option<int>
    decreases s.len(),
{
    if s.len() == 0 {
        None
    } else if s.last() == '-' {
        Some(s.len() - 1)
    } else {
        last_dash(s.drop_last())
    }
}

pub proof fn lemma_last_dash_bounds(s: Seq<char>)
    ensures
        last_dash(s) matches Some(k) ==> 0 <= k < s.len() && s[k] == '-',
    decreases s.len(),
{
    if s.len() > 0 && s.last() != '-' {
        lemma_last_dash_bounds(s.drop_last());
    }
}

pub open spec fn prefix_of(p: Seq<char>, s: Seq<char>) -> bool {
    p.len() <= s.len() && s.take(p.len() as int) == p
}

/// Why a backup was made, read back from its file name: what lies between
/// `workbench-` and the last `-`; `backup` when the name has no such part.
pub open spec fn reason_in_name(name: Seq<char>) -> Seq<char> {
    let head = "workbench-"@;
    if prefix_of(head, name) {
        let rest = name.skip(head.len() as int);
        match last_dash(rest) {
            Some(k) => rest.take(k),
            None => "backup"@,
        }
    } else {
        "backup"@
    }
}

fn take_text(v: &Vec<char>, a: usize, b: usize) -> (r: String)
    requires
        a <= b <= v@.len(),
    ensures
        r@ == v@.subrange(a as int, b as int),
{
    let mut out: Vec<char> = Vec::new();
    let mut i = a;
    while i < b
        invariant
            a <= i <= b <= v@.len(),
            out@ =~= v@.subrange(a as int, i as int),
        decreases b - i,
    {
        out.push(v[i]);
        i = i + 1;
    }
    string_of(out.as_slice())
}

pub fn reason_from_file_name(name: &str) -> (r: String)
    ensures
        r@ == reason_in_name(name@),
{
    let v = chars_of(name);
    let head = chars_of("workbench-");
    proof {
        reveal_strlit("workbench-");
    }
    if head.len() > v.len() {
        return "backup".to_string();
    }
    let mut i: usize = 0;
    while i < head.len()
        invariant
            i <= head@.len() <= v@.len(),
            head@ == "workbench-"@,
            v@ == name@,
            forall|k: int| 0 <= k < i ==> v@[k] == head@[k],
        decreases head@.len() - i,
    {
        if v[i] != head[i] {
            assert(v@.take(head@.len() as int)[i as int] != head@[i as int]);
            return "backup".to_string();
        }
        i = i + 1;
    }
    assert(v@.take(head@.len() as int) =~= head@);
    let ghost rest = v@.skip(head@.len() as int);
    let mut j = v.len();
    assert(rest.take(j - head@.len()) =~= rest);
    while j > head.len()
        invariant
            head@.len() <= j <= v@.len(),
            v@ == name@,
            head@ == "workbench-"@,
            v@.take(head@.len() as int) == head@,
            rest == v@.skip(head@.len() as int),
            last_dash(rest) == last_dash(rest.take(j - head@.len())),
        decreases j,
    {
        let ghost t = rest.take(j - head@.len());
        assert(t.drop_last() =~= rest.take(j - 1 - head@.len()));
        assert(t.last() == v@[j - 1]);
        if v[j - 1] == '-' {
            assert(last_dash(t) == Some(t.len() - 1));
            assert(t.take(t.len() - 1) =~= rest.take(j - 1 - head@.len()));
            assert(rest.take(j - 1 - head@.len()) =~= v@.subrange(head@.len() as int, j - 1));
            return take_text(&v, head.len(), j - 1);
        }
        j = j - 1;
    }
    assert(rest.take(0) =~= Seq::<char>::empty());
    "backup".to_string()
}

/// A name a backup may be restored by: no `..`, `/` or `\`, ending in
/// `.db`.
pub open spec fn allowed_name(name: Seq<char>) -> bool {
    &&& !occurs_in(name, ".."@)
    &&& !occurs_in(name, "/"@)
    &&& !occurs_in(name, "\\"@)
    &&& name.len() >= 3 && name.skip(name.len() - 3) == ".db"@
}

fn ends_with_db(name: &str) -> (r: bool)
    ensures
        r == (name@.len() >= 3 && name@.skip(name@.len() - 3) == ".db"@),
{
    let v = chars_of(name);
    proof {
        reveal_strlit(".db");
    }
    if v.len() < 3 {
        return false;
    }
    let n = v.len();
    let r = v[n - 3] == '.' && v[n - 2] == 'd' && v[n - 1] == 'b';
    if r {
        assert(v@.skip(n - 3) =~= ".db"@);
    } else {
        assert(v@.skip(n - 3)[0] != '.' || v@.skip(n - 3)[1] != 'd' || v@.skip(n - 3)[2] != 'b');
    }
    r
}

/// Refuses a backup name that could leave the backup directory or is not
/// a database file.
pub fn check_backup_name(name: &str) -> (r: Result<(), DomainError>)
    ensures
        r is Ok <==> allowed_name(name@),
        r matches Err(e) ==> e is Validation,
{
    if crate::ai_model::contains_text(name, "..") || crate::ai_model::contains_text(name, "/")
        || crate::ai_model::contains_text(name, "\\") || !ends_with_db(name) {
        return Err(crate::domain::validation("非法备份文件名"));
    }
    Ok(())
}

/// What `PRAGMA quick_check` answered, as a verdict on a backup.
pub fn quick_check_verdict(answer: &str) -> (r: Result<(), DomainError>)
    ensures
        r is Ok <==> answer@ == "ok"@,
        r matches Err(e) ==> e is Validation,
{
    if str_eq(answer, "ok") {
        Ok(())
    } else {
        let mut m = "备份文件校验失败（".to_string();
        m.append(answer);
        m.append("），已取消恢复，数据未改动");
        Err(DomainError::Validation(m))
    }
}

pub open spec fn newest_first(v: Seq<BackupInfo>) -> bool {
    forall|a: int, b: int| 0 <= a < b < v.len() ==> !text_lt(#[trigger] v[a].created_at@, #[trigger] v[b].created_at@)
}

/// The backups, newest first (by creation time, ties in their order).
pub fn sort_newest_first(items: Vec<BackupInfo>) -> (r: Vec<BackupInfo>)
    ensures
        r@.len() == items@.len(),
        newest_first(r@),
        forall|x: BackupInfo| r@.contains(x) <==> items@.contains(x),
{
    let mut out: Vec<BackupInfo> = Vec::new();
    let mut rest = items;
    let ghost all = rest@;
    while rest.len() > 0
        invariant
            out@.len() + rest@.len() == all.len(),
            newest_first(out@),
            forall|x: BackupInfo| (out@.contains(x) || rest@.contains(x)) <==> all.contains(x),
        decreases rest@.len(),
    {
        let ghost rest_before = rest@;
        let x = rest.remove(0);
        let ghost xv = x;
        let mut p: usize = 0;
        while p < out.len() && !str_lt(out[p].created_at.as_str(), x.created_at.as_str())
            invariant
                p <= out@.len(),
                forall|a: int| 0 <= a < p ==> !text_lt(#[trigger] out@[a].created_at@, x.created_at@),
            decreases out@.len() - p,
        {
            p = p + 1;
        }
        let ghost before = out@;
        assert(p < before.len() ==> text_lt(before[p as int].created_at@, xv.created_at@));
        out.insert(p, x);
        proof {
            assert forall|a: int, b: int| 0 <= a < b < out@.len() implies !text_lt(
                #[trigger] out@[a].created_at@,
                #[trigger] out@[b].created_at@,
            ) by {
                if b < p {
                    assert(out@[a] == before[a] && out@[b] == before[b]);
                } else if b == p {
                    assert(out@[a] == before[a]);
                } else if a == p {
                    assert(out@[b] == before[b - 1]);
                    let cp = before[p as int].created_at@;
                    let cb = before[b - 1].created_at@;
                    let cx = xv.created_at@;
                    if b - 1 > p {
                        assert(!text_lt(before[p as int].created_at@, before[b - 1].created_at@));
                        crate::dates::lemma_text_lt_total(cb, cp);
                        if text_lt(cx, cb) {
                            if cb == cp {
                                crate::dates::lemma_text_lt_asymmetric(cp, cx);
                            } else {
                                crate::dates::lemma_text_lt_transitive(cx, cb, cp);
                                crate::dates::lemma_text_lt_asymmetric(cp, cx);
                            }
                        }
                    } else {
                        crate::dates::lemma_text_lt_asymmetric(cp, cx);
                    }
                } else if a < p {
                    assert(out@[a] == before[a] && out@[b] == before[b - 1]);
                    assert(!text_lt(before[a].created_at@, before[b - 1].created_at@));
                } else {
                    assert(out@[a] == before[a - 1] && out@[b] == before[b - 1]);
                    assert(!text_lt(before[a - 1].created_at@, before[b - 1].created_at@));
                }
            }
            assert forall|y: BackupInfo| (out@.contains(y) || rest@.contains(y)) <==> all.contains(y) by {
                if out@.contains(y) {
                    let k = choose|k: int| 0 <= k < out@.len() && out@[k] == y;
                    if k < p {
                        assert(before[k] == y);
                    } else if k > p {
                        assert(before[k - 1] == y);
                    } else {
                        assert(rest_before[0] == y);
                    }
                }
                if rest@.contains(y) {
                    let k = choose|k: int| 0 <= k < rest@.len() && rest@[k] == y;
                    assert(rest_before[k + 1] == y);
                }
                if before.contains(y) {
                    let k = choose|k: int| 0 <= k < before.len() && before[k] == y;
                    if k < p {
                        assert(out@[k] == y);
                    } else {
                        assert(out@[k + 1] == y);
                    }
                }
                if rest_before.contains(y) {
                    let k = choose|k: int| 0 <= k < rest_before.len() && rest_before[k] == y;
                    if k == 0 {
                        assert(out@[p as int] == y);
                    } else {
                        assert(rest@[k - 1] == y);
                    }
                }
            }
        }
    }
    out
}

/// All but the `max(keep, 1)` first backups.
pub open spec fn victims(v: Seq<BackupInfo>, keep: int) -> Seq<BackupInfo> {
    let k = if keep < 1 { 1 } else { keep };
    if k <= v.len() {
        v.skip(k)
    } else {
        Seq::empty()
    }
}

/// A rotation keeps the `max(keep, 1)` newest backups and removes all the
/// others: the kept ones followed by the victims are the whole list, and
/// there are `len - max(keep, 1)` victims when that is positive, else
/// none.
pub proof fn law_rotation_keeps_the_newest(v: Seq<BackupInfo>, keep: int)
    ensures
        ({
            let k = if keep < 1 { 1 } else { keep };
            &&& victims(v, keep).len() == if v.len() > k { v.len() - k } else { 0 }
            &&& forall|i: int| 0 <= i < victims(v, keep).len() ==> #[trigger] victims(v, keep)[i] == v[i + k]
            &&& (if v.len() > k { v.take(k) } else { v }) + victims(v, keep) == v
        }),
{
    let k = if keep < 1 { 1 } else { keep };
    if v.len() > k {
        assert(v.take(k) + v.skip(k) =~= v);
    } else {
        assert(v + Seq::<BackupInfo>::empty() =~= v);
    }
}

/// The backups a rotation removes, given them newest first.
pub fn rotation_victims(sorted: Vec<BackupInfo>, keep: usize) -> (r: Vec<BackupInfo>)
    ensures
        r@ == victims(sorted@, keep as int),
{
    let k = if keep < 1 {
        1
    } else {
        keep
    };
    let mut out: Vec<BackupInfo> = Vec::new();
    let mut rest = sorted;
    let total = rest.len();
    let ghost all = rest@;
    let mut i: usize = 0;
    while rest.len() > 0
        invariant
            all.len() == i + rest@.len(),
            all.len() == total,
            rest@ == all.skip(i as int),
            out@ == all.subrange(if (k as int) < (i as int) { k as int } else { i as int }, i as int),
        decreases rest@.len(),
    {
        let x = rest.remove(0);
        assert(rest@ =~= all.skip(i + 1));
        assert(x == all[i as int]);
        if i >= k {
            out.push(x);
        }
        assert(out@ =~= all.subrange(if (k as int) < (i + 1) { k as int } else { i + 1 }, i + 1));
        i = i + 1;
    }
    assert(out@ =~= victims(all, keep as int));
    out
}

/// The index of the first backup among the newest ones.
pub open spec fn is_latest(v: Seq<BackupInfo>, i: int) -> bool {
    &&& 0 <= i < v.len()
    &&& forall|j: int| 0 <= j < v.len() ==> !text_lt(v[i].created_at@, #[trigger] v[j].created_at@)
    &&& forall|j: int| 0 <= j < i ==> text_lt(#[trigger] v[j].created_at@, v[i].created_at@)
}

pub struct BackupService {
    pub db: Database,
    pub backup_dir: String,
    pub last_error: Option<String>,
}

impl BackupService {
    pub fn new(db: Database, backup_dir: String) -> (r: Self)
        ensures
            r.db.path@ == db.path@,
            r.backup_dir@ == backup_dir@,
            r.last_error is None,
    {
        BackupService { db, backup_dir, last_error: None }
    }

    pub fn backup_dir(&self) -> (r: &str)
        ensures
            r@ == self.backup_dir@,
    {
        self.backup_dir.as_str()
    }

    /// The state of the backups, given what the directory holds: how many
    /// there are, the newest (the first of the newest, when several share
    /// a time), and the error of the last backup, if it failed.
    pub fn status(&self, listed: Vec<BackupInfo>) -> (r: BackupStatus)
        ensures
            r.directory@ == self.backup_dir@,
            r.count == listed@.len(),
            listed@.len() == 0 <==> r.latest is None,
            r.latest matches Some(b) ==> exists|i: int| is_latest(listed@, i) && listed@[i] == b,
            r.last_error == self.last_error,
    {
        let count = listed.len();
        let mut best: usize = 0;
        let mut i: usize = 1;
        if count > 0 {
            proof {
                crate::dates::lemma_text_lt_asymmetric(listed@[0].created_at@, listed@[0].created_at@);
            }
            while i < listed.len()
                invariant
                    1 <= i <= listed@.len(),
                    best < i,
                    forall|j: int| 0 <= j < i ==> !text_lt(listed@[best as int].created_at@, #[trigger] listed@[j].created_at@),
                    forall|j: int| 0 <= j < best ==> text_lt(#[trigger] listed@[j].created_at@, listed@[best as int].created_at@),
                decreases listed@.len() - i,
            {
                if str_lt(listed[best].created_at.as_str(), listed[i].created_at.as_str()) {
                    proof {
                        assert forall|j: int| 0 <= j < i implies text_lt(#[trigger] listed@[j].created_at@, listed@[i as int].created_at@) by {
                            crate::dates::lemma_text_lt_total(listed@[j].created_at@, listed@[best as int].created_at@);
                            if text_lt(listed@[j].created_at@, listed@[best as int].created_at@) {
                                crate::dates::lemma_text_lt_transitive(
                                    listed@[j].created_at@,
                                    listed@[best as int].created_at@,
                                    listed@[i as int].created_at@,
                                );
                            }
                        }
                        assert forall|j: int| 0 <= j <= i implies !text_lt(listed@[i as int].created_at@, #[trigger] listed@[j].created_at@) by {
                            if j < i {
                                crate::dates::lemma_text_lt_asymmetric(listed@[j].created_at@, listed@[i as int].created_at@);
                            } else {
                                crate::dates::lemma_text_lt_asymmetric(listed@[i as int].created_at@, listed@[i as int].created_at@);
                            }
                        }
                    }
                    best = i;
                } else {
                    proof {
                        crate::dates::lemma_text_lt_total(listed@[best as int].created_at@, listed@[i as int].created_at@);
                    }
                }
                i = i + 1;
            }
        }
        let mut items = listed;
        let latest = if count > 0 {
            proof {
                assert(is_latest(items@, best as int));
            }
            let ghost chosen = items@[best as int];
            let b = items.remove(best);
            assert(b == chosen);
            Some(b)
        } else {
            None
        };
        BackupStatus {
            directory: self.backup_dir.clone(),
            count,
            latest,
            last_error: match &self.last_error {
                Some(e) => Some(e.clone()),
                None => None,
            },
        }
    }

    /// Copies the database into the backup directory (which must exist)
    /// under `workbench-<reason>-<stamp>.db`. The size reported is the
    /// copy's page count times its page size. The outcome is kept as the
    /// last error (cleared on success).
    pub fn create(&mut self, reason: &str) -> (r: Result<BackupInfo, DomainError>)
        ensures
            r matches Ok(info) ==> info.reason@ == reason@ && final(self).last_error is None
                && exists|stamp: Seq<char>| info.file_name@ == backup_name(reason@, stamp),
            r matches Err(e) ==> final(self).last_error matches Some(m) && m@ == crate::domain::error_text(e),
            final(self).db == old(self).db,
            final(self).backup_dir == old(self).backup_dir,
    {
        match self.create_inner(reason) {
            Ok(info) => {
                self.last_error = None;
                Ok(info)
            },
            Err(e) => {
                self.last_error = Some(crate::domain::error_message(&e));
                Err(e)
            },
        }
    }

    fn create_inner(&self, reason: &str) -> (r: Result<BackupInfo, DomainError>)
        ensures
            r matches Ok(info) ==> info.reason@ == reason@ && exists|stamp: Seq<char>|
                info.file_name@ == backup_name(reason@, stamp),
    {
        let stamp = crate::clock::local_file_stamp();
        let file_name = backup_file_name(reason, stamp.as_str());
        let dest = join_path(self.backup_dir.as_str(), file_name.as_str());
        let src = match self.db.connect() {
            Ok(c) => c,
            Err(e) => return Err(internal(e)),
        };
        let mut dst = match open_connection(dest.as_str()) {
            Ok(c) => c,
            Err(e) => return Err(internal(e)),
        };
        match copy_database(&src, &mut dst) {
            Ok(()) => {},
            Err(e) => return Err(internal(e)),
        }
        let count = crate::store::fetch(&dst, "PRAGMA page_count", &[])?;
        let size = crate::store::fetch(&dst, "PRAGMA page_size", &[])?;
        let pages = crate::rows::single_int(&count)?;
        let page_size = crate::rows::single_int(&size)?;
        let size_bytes: u64 = if pages > 0 && page_size > 0 && pages <= 0xffff_ffff && page_size <= 0xffff_ffff {
            let a = pages as u64;
            let b = page_size as u64;
            assert(a * b <= 0xffff_ffff * 0xffff_ffff) by (nonlinear_arith)
                requires
                    a <= 0xffff_ffff,
                    b <= 0xffff_ffff,
            ;
            a * b
        } else {
            0
        };
        Ok(
            BackupInfo {
                file_name,
                path: dest,
                size_bytes,
                created_at: crate::clock::local_now(),
                reason: reason.to_string(),
            },
        )
    }

    /// The path of a backup to restore: refused when the name is not
    /// allowed, not found when nothing is there.
    pub fn resolve_backup_path(&self, file_name: &str) -> (r: Result<String, DomainError>)
        ensures
            !allowed_name(file_name@) ==> r matches Err(DomainError::Validation(_)),
            r matches Ok(p) ==> p@ == self.backup_dir@ + seq!['/'] + file_name@,
            r matches Err(e) ==> e is Validation || e is NotFound,
    {
        check_backup_name(file_name)?;
        let path = join_path(self.backup_dir.as_str(), file_name);
        if !path_exists(path.as_str()) {
            return Err(crate::domain::not_found("备份不存在"));
        }
        Ok(path)
    }

    /// Restores a backup over the database. The backup is checked first
    /// (it must open and pass `PRAGMA quick_check`); only then is a
    /// `pre-restore` backup of the current database attempted, the copy
    /// made, and the schema brought up to date.
    pub fn restore(&mut self, file_name: &str) -> (r: Result<(), DomainError>)
        ensures
            !allowed_name(file_name@) ==> r matches Err(DomainError::Validation(_)),
            r is Ok ==> final(self).last_error is None,
            final(self).db == old(self).db,
            final(self).backup_dir == old(self).backup_dir,
    {
        let path = self.resolve_backup_path(file_name)?;
        let check = match open_read_only(path.as_str()) {
            Ok(c) => c,
            Err(e) => {
                let mut m = "备份文件无法打开或已损坏（".to_string();
                m.append(e.message.as_str());
                m.append("），已取消恢复，数据未改动");
                return Err(DomainError::Validation(m));
            },
        };
        let answer = match crate::db::query(&check, "PRAGMA quick_check", &[]) {
            Ok(rows) => {
                if rows.len() == 0 {
                    return Err(crate::domain::validation("备份文件校验失败（无结果），已取消恢复，数据未改动"));
                }
                match crate::rows::text_at(&rows[0], 0) {
                    Ok(s) => s,
                    Err(_) => return Err(crate::domain::validation("备份文件校验失败（结果无效），已取消恢复，数据未改动")),
                }
            },
            Err(e) => {
                let mut m = "备份文件校验失败（".to_string();
                m.append(e.message.as_str());
                m.append("），已取消恢复，数据未改动");
                return Err(DomainError::Validation(m));
            },
        };
        quick_check_verdict(answer.as_str())?;
        let _ = self.create_inner("pre-restore");
        let src = match open_connection(path.as_str()) {
            Ok(c) => c,
            Err(e) => return Err(internal(e)),
        };
        let mut dst = match self.db.connect() {
            Ok(c) => c,
            Err(e) => return Err(internal(e)),
        };
        match copy_database(&src, &mut dst) {
            Ok(()) => {},
            Err(e) => return Err(internal(e)),
        }
        crate::store::run_batch(&dst, crate::schema::SCHEMA)?;
        self.last_error = None;
        Ok(())
    }
}

} // verus!
