//! Stored binary assets (clipboard images): found by content hash, kept
//! while referenced, collected when orphaned past the retention period.

use vstd::prelude::*;

use sha2::Digest;

use crate::db::{Database, SqlValue};
use crate::domain::{not_found, DomainError};
use crate::ids::EntityId;
use crate::rows::{id_at, id_param, int_at, opt_int_at, opt_text_at, text_at, text_param};
use crate::store::{connect, fetch, run};

verus! {

pub struct Asset {
    pub id: EntityId,
    pub kind: String,
    pub content_hash: String,
    pub relative_path: String,
    pub thumb_path: Option<String>,
    pub mime_type: String,
    pub byte_size: i64,
    pub width: Option<i64>,
    pub height: Option<i64>,
    pub created_at: String,
    pub updated_at: String,
    pub revision: i64,
}

/// An image as stored: the asset and its encoded bytes.
pub struct StoredImage {
    pub asset: Asset,
    pub png_bytes: Vec<u8>,
    pub thumb_png: Vec<u8>,
}

pub struct GcSummary {
    pub removed: usize,
    pub freed_bytes: i64,
}

pub struct GcPreview {
    pub candidate_count: usize,
    pub candidate_bytes: i64,
    pub retention_days: u32,
}

/// An asset that may be collected: id, file, thumbnail file, size.
/// The total size of the candidates, held at the ends of `i64` where it
/// would leave them.
pub open spec fn sized_total(c: Seq<GcCandidate>) -> i64
    decreases c.len(),
{
    if c.len() == 0 {
        0
    } else {
        let prev = sized_total(c.drop_last());
        let sum = prev + c.last().byte_size;
        if i64::MIN <= sum <= i64::MAX {
            sum as i64
        } else if c.last().byte_size > 0 {
            i64::MAX
        } else {
            i64::MIN
        }
    }
}

pub struct GcCandidate {
    pub id: EntityId,
    pub relative_path: String,
    pub thumb_path: Option<String>,
    pub byte_size: i64,
}

/// The SHA-256 digest of some bytes, in lowercase hex.
pub uninterp spec fn sha256_hex(bytes: Seq<u8>) -> Seq<char>;

/// `sha2::Sha256` over the bytes, encoded with `hex::encode`. The digest is
/// a function of the bytes, named `sha256_hex`.
#[verifier::external_body]
pub(crate) fn digest_hex(bytes: &[u8]) -> (r: String)
    ensures
        r@ == sha256_hex(bytes@),
{
    let mut hasher = sha2::Sha256::new();
    hasher.update(bytes);
    hex::encode(hasher.finalize())
}

/// The standard base64 text (with padding) of some bytes.
pub uninterp spec fn base64_standard(bytes: Seq<u8>) -> Seq<char>;

/// `base64::Engine::encode` with the `STANDARD` engine. The text is a
/// function of the bytes, named `base64_standard`; the length bound keeps
/// the encoder's size computation from overflowing.
#[verifier::external_body]
fn base64_encode(bytes: &[u8]) -> (r: String)
    requires
        bytes@.len() <= usize::MAX / 2,
    ensures
        r@ == base64_standard(bytes@),
{
    base64::Engine::encode(&base64::engine::general_purpose::STANDARD, bytes)
}

/// A thumbnail's PNG bytes as a `data:` URI; nothing for no bytes.
pub fn thumb_data_uri(png: &[u8]) -> (r: Option<String>)
    requires
        png@.len() <= usize::MAX / 2,
    ensures
        png@.len() == 0 <==> r is None,
        r matches Some(s) ==> s@ == "data:image/png;base64,"@ + base64_standard(png@),
{
    if png.len() == 0 {
        return None;
    }
    let mut s = "data:image/png;base64,".to_string();
    let encoded = base64_encode(png);
    s.append(encoded.as_str());
    Some(s)
}

/// The sum of the sizes, saturating at `i64::MAX`.
pub open spec fn sizes_total(c: Seq<GcCandidate>) -> int
    decreases c.len(),
{
    if c.len() == 0 {
        0
    } else {
        sizes_total(c.drop_last()) + c.last().byte_size
    }
}

fn asset_from_row(row: &Vec<SqlValue>) -> (r: Result<Asset, DomainError>)
    ensures
        r matches Ok(a) ==> a.id == crate::rows::id_cell(row@, 0).unwrap(),
        r matches Err(e) ==> e is Internal,
{
    Ok(
        Asset {
            id: id_at(row, 0)?,
            kind: text_at(row, 1)?,
            content_hash: text_at(row, 2)?,
            relative_path: text_at(row, 3)?,
            thumb_path: opt_text_at(row, 4)?,
            mime_type: text_at(row, 5)?,
            byte_size: int_at(row, 6)?,
            width: opt_int_at(row, 7)?,
            height: opt_int_at(row, 8)?,
            created_at: text_at(row, 9)?,
            updated_at: text_at(row, 10)?,
            revision: int_at(row, 11)?,
        },
    )
}

const ASSET_COLUMNS: &'static str = "SELECT id, kind, content_hash, relative_path, thumb_path, mime_type, byte_size, width, height, created_at, updated_at, revision FROM assets";

/// `root/relative`.
pub fn join_path(root: &str, relative: &str) -> (r: String)
    ensures
        r@ == root@ + seq!['/'] + relative@,
{
    let mut s = root.to_string();
    s.append("/");
    proof {
        reveal_strlit("/");
    }
    s.append(relative);
    s
}

pub struct AssetStore {
    pub db: Database,
    pub root: String,
}

impl AssetStore {
    pub fn new(db: Database, root: String) -> (r: Self)
        ensures
            r.db.path@ == db.path@,
            r.root@ == root@,
    {
        AssetStore { db, root }
    }

    /// The directory the asset files live in.
    pub fn root(&self) -> (r: &str)
        ensures
            r@ == self.root@,
    {
        self.root.as_str()
    }

    /// Where an asset's thumbnail file is, when it has one.
    pub fn thumb_file(&self, asset: &Asset) -> (r: Option<String>)
        ensures
            match asset.thumb_path {
                Some(t) => r matches Some(p) && p@ == self.root@ + seq!['/'] + t@,
                None => r is None,
            },
    {
        match &asset.thumb_path {
            Some(t) => Some(join_path(self.root.as_str(), t.as_str())),
            None => None,
        }
    }

    /// The content hash of some bytes.
    pub fn hash_bytes(bytes: &[u8]) -> (r: String)
        ensures
            r@ == sha256_hex(bytes@),
    {
        digest_hex(bytes)
    }

    /// A live asset with the given content hash, if any.
    pub fn find_by_hash(&self, hash: &str) -> (r: Result<Option<Asset>, DomainError>)
        ensures
            r matches Err(e) ==> e is Internal,
    {
        let conn = connect(&self.db)?;
        let mut sql = ASSET_COLUMNS.to_string();
        sql.append(" WHERE content_hash = ?1 AND deleted_at IS NULL LIMIT 1");
        let params = vec![text_param(hash)];
        let rows = fetch(&conn, sql.as_str(), params.as_slice())?;
        if rows.len() == 0 {
            return Ok(None);
        }
        Ok(Some(asset_from_row(&rows[0])?))
    }

    /// A live asset by id.
    pub fn get(&self, id: EntityId) -> (r: Result<Asset, DomainError>)
        ensures
            r matches Ok(a) ==> a.id == id,
            r matches Err(e) ==> e is Internal || e is NotFound,
    {
        let conn = connect(&self.db)?;
        let mut sql = ASSET_COLUMNS.to_string();
        sql.append(" WHERE id = ?1 AND deleted_at IS NULL");
        let params = vec![id_param(id)];
        let rows = fetch(&conn, sql.as_str(), params.as_slice())?;
        let mut i: usize = 0;
        while i < rows.len()
            invariant
                i <= rows@.len(),
            decreases rows@.len() - i,
        {
            let a = asset_from_row(&rows[i])?;
            if a.id == id {
                return Ok(a);
            }
            i = i + 1;
        }
        Err(not_found("资源不存在"))
    }

    /// Where an asset's file is.
    pub fn absolute_path(&self, asset: &Asset) -> (r: String)
        ensures
            r@ == self.root@ + seq!['/'] + asset.relative_path@,
    {
        join_path(self.root.as_str(), asset.relative_path.as_str())
    }

    /// Assets created before the retention period that nothing links to and
    /// no live clipboard item holds.
    pub fn gc_candidates(&self, retention_days: u32) -> (r: Result<Vec<GcCandidate>, DomainError>)
        ensures
            r matches Err(e) ==> e is Internal,
    {
        let cutoff = match crate::clock::local_days_ago(retention_days) {
            Some(c) => c,
            None => return Ok(Vec::new()),
        };
        let conn = connect(&self.db)?;
        let params = vec![SqlValue::Text(cutoff)];
        let rows = fetch(
            &conn,
            "SELECT a.id, a.relative_path, a.thumb_path, a.byte_size FROM assets a
             WHERE a.deleted_at IS NULL
               AND a.created_at < ?1
               AND NOT EXISTS (SELECT 1 FROM entity_links el
                               WHERE el.target_type = 'asset' AND el.target_id = a.id)
               AND NOT EXISTS (SELECT 1 FROM clipboard_items ci
                               WHERE ci.asset_id = a.id AND ci.deleted_at IS NULL)",
            params.as_slice(),
        )?;
        let mut out: Vec<GcCandidate> = Vec::new();
        let mut i: usize = 0;
        while i < rows.len()
            invariant
                i <= rows@.len(),
            decreases rows@.len() - i,
        {
            let row = &rows[i];
            out.push(
                GcCandidate {
                    id: id_at(row, 0)?,
                    relative_path: text_at(row, 1)?,
                    thumb_path: opt_text_at(row, 2)?,
                    byte_size: int_at(row, 3)?,
                },
            );
            i = i + 1;
        }
        Ok(out)
    }

    /// How many assets a collection would remove, and their total size.
    pub fn gc_preview(&self, retention_days: u32) -> (r: Result<GcPreview, DomainError>)
        ensures
            r matches Ok(p) ==> p.retention_days == retention_days,
            r matches Ok(p) ==> exists|c: Seq<GcCandidate>| #[trigger] sized_total(c) == p.candidate_bytes && c.len() == p.candidate_count,
            r matches Err(e) ==> e is Internal,
    {
        let candidates = self.gc_candidates(retention_days)?;
        let mut total: i64 = 0;
        let mut i: usize = 0;
        while i < candidates.len()
            invariant
                i <= candidates@.len(),
                total == sized_total(candidates@.take(i as int)),
            decreases candidates@.len() - i,
        {
            assert(candidates@.take(i + 1).drop_last() =~= candidates@.take(i as int));
            let size = candidates[i].byte_size;
            total = match total.checked_add(size) {
                Some(t) => t,
                None => if size > 0 {
                    i64::MAX
                } else {
                    i64::MIN
                },
            };
            i = i + 1;
        }
        assert(candidates@.take(candidates@.len() as int) =~= candidates@);
        Ok(GcPreview { candidate_count: candidates.len(), candidate_bytes: total, retention_days })
    }

    /// Removes the collectable assets from the store; returns the summary
    /// and the files (asset and thumbnail paths) to delete.
    pub fn collect_garbage(&self, retention_days: u32) -> (r: Result<(GcSummary, Vec<String>), DomainError>)
        ensures
            r matches Err(e) ==> e is Internal,
    {
        let candidates = self.gc_candidates(retention_days)?;
        let conn = connect(&self.db)?;
        let mut files: Vec<String> = Vec::new();
        let mut removed: usize = 0;
        let mut freed: i64 = 0;
        let mut i: usize = 0;
        while i < candidates.len()
            invariant
                i <= candidates@.len(),
                removed <= i,
            decreases candidates@.len() - i,
        {
            let c = &candidates[i];
            let params = vec![id_param(c.id)];
            run(&conn, "DELETE FROM assets WHERE id = ?1", params.as_slice())?;
            files.push(join_path(self.root.as_str(), c.relative_path.as_str()));
            if let Some(t) = &c.thumb_path {
                files.push(join_path(self.root.as_str(), t.as_str()));
            }
            removed = removed + 1;
            freed = match freed.checked_add(c.byte_size) {
                Some(t) => t,
                None => freed,
            };
            i = i + 1;
        }
        Ok((GcSummary { removed, freed_bytes: freed }, files))
    }
}

} // verus!
