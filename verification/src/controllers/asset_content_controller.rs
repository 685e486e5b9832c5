//! Files of the asset folders of a space: listing, deletion, and the checks
//! and bookkeeping around an upload.
use crate::datetime::DateTime;
use crate::insert::view_push_asset_contents;
use crate::model::{Asset, AssetContent};
use crate::queries::{load_member_ctx, member_ctx};
use crate::store::{DbError, DbView, Store};
use crate::table::{delete_rows, delete_where, find_row, first_match, select_rows};
use crate::text::{ilike, ilike_holds, ilike_pattern_ok, ilike_pattern_valid};
use crate::types::{reply, AddFileContent, AddUserToFolderPath, MailChannelPathInfo, Response};
use vstd::prelude::*;

verus! {

/// Asset folders of a space whose name matches the pattern.
pub open spec fn asset_named(space_id: i32, pat: Seq<char>) -> spec_fn(Asset) -> bool {
    |a: Asset| a.space_id == space_id && ilike_pattern_ok(pat) && ilike(a.folder_name@, pat)
}

/// Files of an asset folder.
pub open spec fn contents_of(asset_id: i32) -> spec_fn(AssetContent) -> bool {
    |c: AssetContent| c.asset_id == asset_id
}

/// The first asset folder of a space whose name matches the pattern.
pub open spec fn asset_by_name(v: DbView, space_id: i32, pat: Seq<char>) -> Result<Asset, DbError> {
    if !ilike_pattern_ok(pat) {
        Err(DbError::BadPattern)
    } else {
        match first_match(v.assets, asset_named(space_id, pat)) {
            Some(a) => Ok(a),
            None => Err(DbError::NotFound),
        }
    }
}

/// A member of the named space lists the files of one of its asset folders
/// (found by name pattern), in table order.
pub fn get_files_db(db: &Store, uid: i32, space_name: &MailChannelPathInfo) -> (r: Result<
    Response<(Asset, Vec<AssetContent>)>,
    DbError,
>)
    ensures
        match member_ctx(db@, uid, space_name.info@) {
            Err(e) => r matches Err(x) && x == e,
            Ok((_u, s, _m)) => match asset_by_name(db@, s.id, space_name.name@) {
                Err(e) => r matches Err(x) && x == e,
                Ok(a) => r matches Ok(resp) && resp@ == (true, (a, db@.asset_contents.filter(contents_of(a.id)))),
            },
        },
{
    let (_u, s, _m) = match load_member_ctx(db, uid, space_name.info.as_str()) {
        Ok(x) => x,
        Err(e) => return Err(e),
    };
    let pat = space_name.name.as_str();
    if !ilike_pattern_valid(pat) {
        return Err(DbError::BadPattern);
    }
    let sid = s.id;
    let pred = |a: &Asset| -> (b: bool) ensures b == asset_named(sid, pat@)(*a), { a.space_id == sid && ilike_holds(a.folder_name.as_str(), pat) };
    let a = match find_row(&db.assets, pred, Ghost(asset_named(sid, pat@))) {
        Some(a) => a,
        None => return Err(DbError::NotFound),
    };
    let aid = a.id;
    let sel = |c: &AssetContent| -> (b: bool) ensures b == contents_of(aid)(*c), { c.asset_id == aid };
    let files = select_rows(&db.asset_contents, sel, Ghost(contents_of(aid)));
    Ok(Response::new(true, (a, files)))
}

/// The file with the given id.
pub open spec fn content_id_is(id: i32) -> spec_fn(AssetContent) -> bool {
    |c: AssetContent| c.id == id
}

/// A member of the named space deletes the file `id`.
pub fn delete_upload_db(db: &mut Store, uid: i32, space_name: &AddUserToFolderPath) -> (r: Result<
    Response<String>,
    DbError,
>)
    ensures
        match member_ctx(old(db)@, uid, space_name.info@) {
            Err(e) => r matches Err(x) && x == e && final(db)@ == old(db)@,
            Ok(_) => final(db)@ == (DbView { asset_contents: delete_where(old(db)@.asset_contents, content_id_is(space_name.id)), ..old(db)@ })
                && (r matches Ok(resp) && resp@ == (true, "File deleted successfully"@)),
        },
{
    match load_member_ctx(db, uid, space_name.info.as_str()) {
        Ok(_) => {},
        Err(e) => return Err(e),
    }
    let id = space_name.id;
    let pred = |c: &AssetContent| -> (b: bool) ensures b == content_id_is(id)(*c), { c.id == id };
    delete_rows(&mut db.asset_contents, pred, Ghost(content_id_is(id)));
    Ok(reply(true, "File deleted successfully"))
}

/// The asset folder with the given id.
pub open spec fn asset_id_is(id: i32) -> spec_fn(Asset) -> bool {
    |a: Asset| a.id == id
}

/// The folder files are uploaded to: the requesting user must exist and be a
/// member of the named space, and the folder `id` must exist; anything else
/// refuses the upload.
pub fn upload_target(db: &Store, uid: i32, space_name: &AddFileContent) -> (r: Result<Asset, DbError>)
    ensures
        match member_ctx(db@, uid, space_name.info@) {
            Err(_) => r matches Err(x) && x == DbError::Failure,
            Ok(_) => match first_match(db@.assets, asset_id_is(space_name.id)) {
                None => r matches Err(x) && x == DbError::Failure,
                Some(a) => r == Ok::<Asset, DbError>(a),
            },
        },
{
    match load_member_ctx(db, uid, space_name.info.as_str()) {
        Ok(_) => {},
        Err(_) => return Err(DbError::Failure),
    }
    let id = space_name.id;
    let pred = |a: &Asset| -> (b: bool) ensures b == asset_id_is(id)(*a), { a.id == id };
    match find_row(&db.assets, pred, Ghost(asset_id_is(id))) {
        Some(a) => Ok(a),
        None => Err(DbError::Failure),
    }
}

/// Records a stored upload (its bucket link) as a file of the folder; an
/// upload that failed records nothing.
pub fn store_upload(db: &mut Store, asset: &Asset, space_name: &AddFileContent, uploaded: Option<String>, now: DateTime) -> (r:
    Option<AssetContent>)
    requires
        old(db)@.ids.asset_contents < i32::MAX,
    ensures
        match uploaded {
            None => r is None && final(db)@ == old(db)@,
            Some(link) => {
                let c = AssetContent {
                    id: old(db)@.ids.asset_contents,
                    file_content: link,
                    file_type: space_name.file_type,
                    asset_id: asset.id,
                    created_at: now,
                };
                r == Some(c) && final(db)@ == view_push_asset_contents(old(db)@, c)
            },
        },
{
    match uploaded {
        None => None,
        Some(link) => Some(db.insert_asset_contents(link, space_name.file_type.clone(), asset.id, now)),
    }
}

/// What became of one uploaded file.
pub enum UploadOutcome {
    /// Larger than 10 MB: the upload stops here.
    TooLarge,
    /// Not stored in the bucket: skipped.
    Failed,
    /// Stored in the bucket under this link.
    Stored(String),
}

/// The answer to an upload.
pub enum UploadAnswer {
    /// A file was too large: `(false, "file should not be larger than 10 MB")`.
    Refused(Response<String>),
    /// The files recorded, in order.
    Done(Response<Vec<AssetContent>>),
}

/// The files of an upload recorded one after the other in the folder
/// `asset_id`: each stored file adds a row, a failed one is skipped, and the
/// first file that is too large stops the upload (the rows added before it
/// stay). The store after, the rows added, and whether the upload stopped.
pub open spec fn uploads_fold(
    v: DbView,
    asset_id: i32,
    file_type: String,
    outs: Seq<UploadOutcome>,
    now: DateTime,
) -> (DbView, Seq<AssetContent>, bool)
    decreases outs.len(),
{
    if outs.len() == 0 {
        (v, Seq::empty(), false)
    } else {
        let (v1, rows, stopped) = uploads_fold(v, asset_id, file_type, outs.drop_last(), now);
        if stopped {
            (v1, rows, true)
        } else {
            match outs.last() {
                UploadOutcome::TooLarge => (v1, rows, true),
                UploadOutcome::Failed => (v1, rows, false),
                UploadOutcome::Stored(link) => {
                    let c = AssetContent {
                        id: v1.ids.asset_contents,
                        file_content: link,
                        file_type,
                        asset_id,
                        created_at: now,
                    };
                    (view_push_asset_contents(v1, c), rows.push(c), false)
                },
            }
        }
    }
}

/// Once an upload stopped, the files after change nothing.
proof fn lemma_uploads_stopped(v: DbView, asset_id: i32, file_type: String, outs: Seq<UploadOutcome>, now: DateTime, k: int)
    requires
        0 <= k <= outs.len(),
        uploads_fold(v, asset_id, file_type, outs.take(k), now).2,
    ensures
        uploads_fold(v, asset_id, file_type, outs, now) == uploads_fold(v, asset_id, file_type, outs.take(k), now),
    decreases outs.len() - k,
{
    if k < outs.len() {
        assert(outs.take(k + 1).drop_last() =~= outs.take(k));
        lemma_uploads_stopped(v, asset_id, file_type, outs, now, k + 1);
    } else {
        assert(outs.take(k) =~= outs);
    }
}

/// Records the files of an upload into the folder in order, stopping at the
/// first one that is too large; see `uploads_fold`. The answer lists the
/// rows added, or refuses the upload where a file was too large.
pub fn finish_uploads(db: &mut Store, asset: &Asset, space_name: &AddFileContent, outcomes: &Vec<UploadOutcome>, now: DateTime) -> (r:
    UploadAnswer)
    requires
        old(db)@.ids.asset_contents + outcomes.len() <= i32::MAX,
    ensures
        ({
            let (w, rows, stopped) = uploads_fold(old(db)@, asset.id, space_name.file_type, outcomes@, now);
            &&& final(db)@ == w
            &&& if stopped {
                r matches UploadAnswer::Refused(x) && x@ == (false, "file should not be larger than 10 MB"@)
            } else {
                r matches UploadAnswer::Done(x) && x.success && x.message@ == rows
            }
        }),
{
    let ghost v0 = db@;
    let mut rows: Vec<AssetContent> = Vec::new();
    let mut i: usize = 0;
    assert(outcomes@.take(0) =~= Seq::<UploadOutcome>::empty());
    while i < outcomes.len()
        invariant
            i <= outcomes.len(),
            old(db)@ == v0,
            v0.ids.asset_contents + outcomes.len() <= i32::MAX,
            db@.ids.asset_contents <= v0.ids.asset_contents + i,
            uploads_fold(v0, asset.id, space_name.file_type, outcomes@.take(i as int), now) == (db@, rows@, false),
        decreases outcomes.len() - i,
    {
        assert(outcomes@.take(i + 1).drop_last() =~= outcomes@.take(i as int));
        assert(outcomes@.take(i + 1).last() == outcomes@[i as int]);
        match &outcomes[i] {
            UploadOutcome::TooLarge => {
                proof {
                    assert(uploads_fold(v0, asset.id, space_name.file_type, outcomes@.take(i + 1), now) == (
                        db@,
                        rows@,
                        true,
                    ));
                    lemma_uploads_stopped(v0, asset.id, space_name.file_type, outcomes@, now, i + 1);
                    assert(uploads_fold(v0, asset.id, space_name.file_type, outcomes@, now).2);
                }
                return UploadAnswer::Refused(reply(false, "file should not be larger than 10 MB"));
            },
            UploadOutcome::Failed => {},
            UploadOutcome::Stored(link) => {
                let c = db.insert_asset_contents(link.clone(), space_name.file_type.clone(), asset.id, now);
                rows.push(c);
            },
        }
        i = i + 1;
    }
    assert(outcomes@.take(outcomes.len() as int) =~= outcomes@);
    UploadAnswer::Done(Response::new(true, rows))
}

} // verus!
