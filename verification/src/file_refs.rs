//! References to files on disk, attached to entities.

use vstd::prelude::*;

use crate::chars::{chars_of, string_of};
use crate::clock::{new_id, now_stamp};
use crate::db::{path_exists, Database, SqlValue};
use crate::domain::{not_found, str_eq, validation, DomainError};
use crate::ids::EntityId;
use crate::links::{EntityLink, EntityLinkService};
use crate::rows::{flag_at, id_at, id_param, int_at, opt_int_at, opt_text_at, text_at, text_param};
use crate::store::{connect, fetch, run};
use crate::templates::opt_text;

verus! {

/// The link kind of a file attached to an entity.
pub const LINK_KIND_ATTACHMENT: &'static str = "attachment";

pub struct FileReference {
    pub id: EntityId,
    pub display_name: String,
    pub path_hint: String,
    pub mime_type: Option<String>,
    pub byte_size: Option<i64>,
    pub accessible: bool,
    pub created_at: String,
    pub updated_at: String,
    pub revision: i64,
}

pub struct LinkedFileReference {
    pub link_id: EntityId,
    pub file: FileReference,
}

/// The pieces of a path between `/` separators.
pub open spec fn path_pieces(s: Seq<char>) -> Seq<Seq<char>>
    decreases s.len(),
{
    if s.len() == 0 {
        seq![Seq::<char>::empty()]
    } else {
        let p = path_pieces(s.drop_last());
        if s.last() == '/' {
            p.push(Seq::<char>::empty())
        } else {
            p.update(p.len() - 1, p.last().push(s.last()))
        }
    }
}

pub proof fn lemma_path_pieces_nonempty(s: Seq<char>)
    ensures
        path_pieces(s).len() >= 1,
    decreases s.len(),
{
    if s.len() > 0 {
        lemma_path_pieces_nonempty(s.drop_last());
    }
}

/// The last piece that names something (not empty, not `.`), if any.
pub open spec fn last_named(pieces: Seq<Seq<char>>) -> Option<Seq<char>>
    decreases pieces.len(),
{
    if pieces.len() == 0 {
        None
    } else if pieces.last().len() == 0 || pieces.last() == "."@ {
        last_named(pieces.drop_last())
    } else {
        Some(pieces.last())
    }
}

/// The file name of a path (`Path::file_name` with `/` separators): its
/// last component, unless that is `..`.
pub open spec fn file_name_of(path: Seq<char>) -> Option<Seq<char>> {
    match last_named(path_pieces(path)) {
        Some(n) => if n == ".."@ {
            None
        } else {
            Some(n)
        },
        None => None,
    }
}

fn is_dot(v: &Vec<char>) -> (r: bool)
    ensures
        r == (v@ == "."@),
{
    proof {
        reveal_strlit(".");
    }
    let r = v.len() == 1 && v[0] == '.';
    if r {
        assert(v@ =~= "."@);
    }
    r
}

fn is_dot_dot(v: &Vec<char>) -> (r: bool)
    ensures
        r == (v@ == ".."@),
{
    proof {
        reveal_strlit("..");
    }
    let r = v.len() == 2 && v[0] == '.' && v[1] == '.';
    if r {
        assert(v@ =~= ".."@);
    }
    r
}

pub fn file_name(path: &str) -> (r: Option<String>)
    ensures
        opt_text(r) == file_name_of(path@),
{
    let v = chars_of(path);
    let mut cur: Vec<char> = Vec::new();
    let mut last: Option<Vec<char>> = None;
    let ghost mut done: Seq<Seq<char>> = Seq::empty();
    let mut i: usize = 0;
    while i < v.len()
        invariant
            i <= v@.len(),
            v@ == path@,
            path_pieces(v@.take(i as int)) == done.push(cur@),
            match last {
                Some(l) => last_named(done) == Some(l@),
                None => last_named(done) is None,
            },
        decreases v@.len() - i,
    {
        assert(v@.take(i + 1).drop_last() =~= v@.take(i as int));
        let c = v[i];
        if c == '/' {
            let ghost cur_v = cur@;
            proof {
                assert(done.push(cur_v).drop_last() =~= done);
            }
            if cur.len() > 0 && !is_dot(&cur) {
                last = Some(cur);
            } else {
                proof {
                    assert(last_named(done.push(cur_v)) == last_named(done));
                }
            }
            proof {
                done = done.push(cur_v);
            }
            cur = Vec::new();
            assert(path_pieces(v@.take(i + 1)) =~= done.push(cur@));
        } else {
            cur.push(c);
            assert(path_pieces(v@.take(i + 1)) =~= done.push(cur@));
        }
        i = i + 1;
    }
    assert(v@.take(i as int) =~= v@);
    proof {
        assert(done.push(cur@).drop_last() =~= done);
    }
    let name = if cur.len() > 0 && !is_dot(&cur) {
        Some(cur)
    } else {
        last
    };
    match name {
        Some(n) => {
            if is_dot_dot(&n) {
                None
            } else {
                Some(string_of(n.as_slice()))
            }
        },
        None => None,
    }
}

/// Where the last `.` of a text is, if anywhere.
pub open spec fn last_dot(s: Seq<char>) -> Option<int>
    decreases s.len(),
{
    if s.len() == 0 {
        None
    } else if s.last() == '.' {
        Some(s.len() - 1)
    } else {
        last_dot(s.drop_last())
    }
}

pub proof fn lemma_last_dot_bounds(s: Seq<char>)
    ensures
        last_dot(s) matches Some(k) ==> 0 <= k < s.len(),
    decreases s.len(),
{
    if s.len() > 0 && s.last() != '.' {
        lemma_last_dot_bounds(s.drop_last());
    }
}

/// The extension of a file name (`Path::extension`): what follows its
/// last `.`, unless nothing precedes that dot.
pub open spec fn extension_of(name: Seq<char>) -> Option<Seq<char>> {
    match last_dot(name) {
        Some(k) => if k == 0 {
            None
        } else {
            Some(name.skip(k + 1))
        },
        None => None,
    }
}

pub fn extension(name: &str) -> (r: Option<String>)
    ensures
        opt_text(r) == extension_of(name@),
{
    let v = chars_of(name);
    let mut j = v.len();
    assert(v@.take(j as int) =~= v@);
    while j > 0
        invariant
            j <= v@.len(),
            v@ == name@,
            last_dot(v@) == last_dot(v@.take(j as int)),
        decreases j,
    {
        assert(v@.take(j as int).drop_last() =~= v@.take(j - 1));
        if v[j - 1] == '.' {
            if j - 1 == 0 {
                return None;
            }
            let mut out: Vec<char> = Vec::new();
            let mut i = j;
            while i < v.len()
                invariant
                    j <= i <= v@.len(),
                    out@ =~= v@.subrange(j as int, i as int),
                decreases v@.len() - i,
            {
                out.push(v[i]);
                i = i + 1;
            }
            assert(v@.skip(j as int) =~= v@.subrange(j as int, v@.len() as int));
            return Some(string_of(out.as_slice()));
        }
        j = j - 1;
    }
    assert(v@.take(0) =~= Seq::<char>::empty());
    None
}

/// The MIME type `mime_guess` knows first for an extension.
pub uninterp spec fn mime_of_ext(ext: Seq<char>) -> Option<Seq<char>>;

/// `mime_guess::from_ext(ext).first_raw()`: the first MIME type known for
/// an extension (ASCII case ignored), if any. The result is named
/// `mime_of_ext`, a function of the extension.
#[verifier::external_body]
fn mime_for_ext(ext: &str) -> (r: Option<String>)
    ensures
        opt_text(r) == mime_of_ext(ext@),
{
    mime_guess::from_ext(ext).first_raw().map(|m| m.to_string())
}

/// The MIME type guessed for a path from its file name's extension.
pub open spec fn mime_of_path(path: Seq<char>) -> Option<Seq<char>> {
    match file_name_of(path) {
        Some(n) => match extension_of(n) {
            Some(e) => mime_of_ext(e),
            None => None,
        },
        None => None,
    }
}

pub fn mime_for_path(path: &str) -> (r: Option<String>)
    ensures
        opt_text(r) == mime_of_path(path@),
{
    match file_name(path) {
        Some(n) => match extension(n.as_str()) {
            Some(e) => mime_for_ext(e.as_str()),
            None => None,
        },
        None => None,
    }
}

fn reference_from_row(row: &Vec<SqlValue>) -> (r: Result<FileReference, DomainError>)
    ensures
        r matches Ok(f) ==> f.id == crate::rows::id_cell(row@, 0).unwrap(),
        r matches Err(e) ==> e is Internal,
{
    let id = id_at(row, 0)?;
    Ok(
        FileReference {
            id,
            display_name: text_at(row, 1)?,
            path_hint: text_at(row, 2)?,
            mime_type: opt_text_at(row, 3)?,
            byte_size: opt_int_at(row, 4)?,
            accessible: int_at(row, 5)? == 1,
            created_at: text_at(row, 6)?,
            updated_at: text_at(row, 7)?,
            revision: int_at(row, 8)?,
        },
    )
}

pub struct FileReferenceService {
    pub db: Database,
    pub links: EntityLinkService,
}

impl FileReferenceService {
    pub fn new(db: Database) -> (r: Self)
        ensures
            r.db.path@ == db.path@,
    {
        FileReferenceService { links: EntityLinkService::new(db.clone()), db }
    }

    /// Records a reference to the file at `path` (its size as the caller
    /// read it): shown by its file name, typed by its extension, marked
    /// accessible when something is at the path now.
    pub fn create_from_path(&self, path: &str, byte_size: Option<i64>) -> (r: Result<FileReference, DomainError>)
        ensures
            path@.len() == 0 ==> r matches Err(DomainError::Validation(_)),
            r matches Err(e) ==> e is Validation || e is Internal || e is NotFound,
    {
        if path.is_empty() {
            return Err(validation("无效文件路径"));
        }
        let display_name = match file_name(path) {
            Some(n) => n,
            None => "文件".to_string(),
        };
        let mime = mime_for_path(path);
        let accessible = path_exists(path);
        let id = new_id();
        let now = now_stamp();
        let conn = connect(&self.db)?;
        let params = vec![
            id_param(id),
            SqlValue::Text(display_name),
            text_param(path),
            match mime {
                Some(m) => SqlValue::Text(m),
                None => SqlValue::Null,
            },
            match byte_size {
                Some(b) => SqlValue::Integer(b),
                None => SqlValue::Null,
            },
            SqlValue::Integer(
                if accessible {
                    1
                } else {
                    0
                },
            ),
            SqlValue::Text(now),
        ];
        run(
            &conn,
            "INSERT INTO file_references (
                id, display_name, path_hint, mime_type, byte_size, bookmark,
                accessible, created_at, updated_at, revision, deleted_at
             ) VALUES (?1, ?2, ?3, ?4, ?5, NULL, ?6, ?7, ?7, 1, NULL)",
            params.as_slice(),
        )?;
        self.get(id)
    }

    /// A live file reference.
    pub fn get(&self, id: EntityId) -> (r: Result<FileReference, DomainError>)
        ensures
            r matches Ok(f) ==> f.id == id,
            r matches Err(e) ==> e is Internal || e is NotFound,
    {
        let conn = connect(&self.db)?;
        let params = vec![id_param(id)];
        let rows = fetch(
            &conn,
            "SELECT id, display_name, path_hint, mime_type, byte_size, accessible,
                    created_at, updated_at, revision
             FROM file_references WHERE id = ?1 AND deleted_at IS NULL",
            params.as_slice(),
        )?;
        let mut i: usize = 0;
        while i < rows.len()
            invariant
                i <= rows@.len(),
            decreases rows@.len() - i,
        {
            let f = reference_from_row(&rows[i])?;
            if f.id == id {
                return Ok(f);
            }
            i = i + 1;
        }
        Err(not_found("文件引用不存在"))
    }

    /// Attaches a file to an entity.
    pub fn attach(&self, source_type: &str, source_id: EntityId, file_id: EntityId) -> (r: Result<
        LinkedFileReference,
        DomainError,
    >)
        ensures
            r matches Ok(l) ==> l.file.id == file_id,
    {
        let file = self.get(file_id)?;
        let link = self.links.link(source_type, source_id, "file_ref", file_id, LINK_KIND_ATTACHMENT)?;
        Ok(LinkedFileReference { link_id: link.id, file })
    }

    /// The files attached to an entity (those still recorded).
    pub fn list_for_entity(&self, source_type: &str, source_id: EntityId) -> (r: Result<
        Vec<LinkedFileReference>,
        DomainError,
    >)
        ensures
            r matches Err(e) ==> e is Internal,
    {
        let links = self.links.list_outgoing(source_type, source_id)?;
        let mut out: Vec<LinkedFileReference> = Vec::new();
        let mut i: usize = 0;
        while i < links.len()
            invariant
                i <= links@.len(),
            decreases links@.len() - i,
        {
            let l = &links[i];
            if str_eq(l.target_type.as_str(), "file_ref") && str_eq(l.link_kind.as_str(), LINK_KIND_ATTACHMENT) {
                match self.get(l.target_id) {
                    Ok(file) => out.push(LinkedFileReference { link_id: l.id, file }),
                    Err(_) => {},
                }
            }
            i = i + 1;
        }
        Ok(out)
    }

    /// The path of a referenced file, when something is there now.
    pub fn resolve_path(&self, id: EntityId) -> (r: Result<String, DomainError>)
        ensures
            r matches Err(e) ==> e is Internal || e is NotFound,
    {
        let conn = connect(&self.db)?;
        let params = vec![id_param(id)];
        let rows = fetch(
            &conn,
            "SELECT path_hint FROM file_references WHERE id = ?1 AND deleted_at IS NULL",
            params.as_slice(),
        )?;
        if rows.len() == 0 {
            return Err(not_found("文件引用不存在"));
        }
        let hint = text_at(&rows[0], 0)?;
        if path_exists(hint.as_str()) {
            Ok(hint)
        } else {
            Err(not_found("文件不可访问，请重新选择文件"))
        }
    }

    /// Records whether the referenced file can be reached now.
    pub fn refresh_accessibility(&self, id: EntityId) -> (r: Result<FileReference, DomainError>)
        ensures
            r matches Ok(f) ==> f.id == id,
    {
        let accessible = self.resolve_path(id).is_ok();
        let conn = connect(&self.db)?;
        let params = vec![
            SqlValue::Integer(
                if accessible {
                    1
                } else {
                    0
                },
            ),
            SqlValue::Text(now_stamp()),
            id_param(id),
        ];
        run(
            &conn,
            "UPDATE file_references SET accessible = ?1, updated_at = ?2, revision = revision + 1
             WHERE id = ?3 AND deleted_at IS NULL",
            params.as_slice(),
        )?;
        self.get(id)
    }

    /// Points a reference at another file (chosen by the caller).
    pub fn relink(&self, id: EntityId, path: &str, byte_size: Option<i64>) -> (r: Result<FileReference, DomainError>)
        ensures
            r matches Ok(f) ==> f.id == id,
    {
        let display_name = match file_name(path) {
            Some(n) => n,
            None => "文件".to_string(),
        };
        let accessible = path_exists(path);
        let conn = connect(&self.db)?;
        let params = vec![
            SqlValue::Text(display_name),
            text_param(path),
            match byte_size {
                Some(b) => SqlValue::Integer(b),
                None => SqlValue::Null,
            },
            SqlValue::Integer(
                if accessible {
                    1
                } else {
                    0
                },
            ),
            SqlValue::Text(now_stamp()),
            id_param(id),
        ];
        run(
            &conn,
            "UPDATE file_references SET display_name = ?1, path_hint = ?2, byte_size = ?3,
             bookmark = NULL, accessible = ?4, updated_at = ?5, revision = revision + 1
             WHERE id = ?6 AND deleted_at IS NULL",
            params.as_slice(),
        )?;
        self.get(id)
    }
}

} // verus!
