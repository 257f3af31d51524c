//! The stored-file table and the access rule for reading from it.

use vstd::prelude::*;

verus! {

/// One row of the stored-file table. `file_id` is the UUID of the file as a
/// 128-bit number; `share_users` are the user tokens it is shared with.
#[derive(Debug)]
pub struct File {
    pub id: i32,
    pub file_id: u128,
    pub file_name: String,
    pub file_url: String,
    pub user_token: String,
    pub room_id: String,
    pub share_users: Vec<String>,
}

/// `token` is one of the users `users` a file is shared with.
pub open spec fn spec_shared_with(users: Seq<String>, token: Seq<char>) -> bool {
    exists|j: int| 0 <= j < users.len() && #[trigger] users[j]@ == token
}

/// The user `token` may read file `f` under id `file_id`: the ids agree and
/// the user owns the file or it is shared with them.
pub open spec fn spec_may_access(f: File, token: Seq<char>, file_id: u128) -> bool {
    &&& f.file_id == file_id
    &&& (f.user_token@ == token || spec_shared_with(f.share_users@, token))
}

/// The first row of `files` that user `token` may read under `file_id`.
pub open spec fn spec_find_file(files: Seq<File>, token: Seq<char>, file_id: u128) -> Option<File>
    decreases files.len(),
{
    if files.len() == 0 {
        None
    } else if spec_may_access(files[0], token, file_id) {
        Some(files[0])
    } else {
        spec_find_file(files.drop_first(), token, file_id)
    }
}

/// Whether `token` is among `users`.
fn shared_with(users: &Vec<String>, token: &String) -> (r: bool)
    ensures
        r == spec_shared_with(users@, token@),
{
    let mut j: usize = 0;
    while j < users.len()
        invariant
            j <= users@.len(),
            forall|k: int| 0 <= k < j ==> #[trigger] users@[k]@ != token@,
        decreases users@.len() - j,
    {
        if users[j] == *token {
            return true;
        }
        j = j + 1;
    }
    false
}

impl File {
    /// The file `file_id` as user `user_token` may read it, from the rows
    /// `files` of the table: the first row with that id that the user owns
    /// or that is shared with them; `None` when there is none.
    pub fn get_file(files: Vec<File>, user_token: String, file_id: u128) -> (found: Option<File>)
        ensures
            found == spec_find_file(files@, user_token@, file_id),
    {
        let mut rows = files;
        let ghost all = rows@;
        let mut i: usize = 0;
        assert(all.skip(0) =~= all);
        while i < rows.len()
            invariant
                rows@ == all,
                files@ == all,
                i <= all.len(),
                spec_find_file(all, user_token@, file_id) == spec_find_file(all.skip(i as int), user_token@, file_id),
            decreases all.len() - i,
        {
            proof {
                assert(all.skip(i as int)[0] == all[i as int]);
            }
            let ok = rows[i].file_id == file_id && (rows[i].user_token == user_token
                || shared_with(&rows[i].share_users, &user_token));
            if ok {
                return Some(rows.remove(i));
            }
            proof {
                assert(all.skip(i as int).drop_first() =~= all.skip(i + 1));
            }
            i = i + 1;
        }
        proof {
            assert(all.skip(i as int) =~= Seq::<File>::empty());
        }
        None
    }
}

/// Reading a file grants nothing more than the access rule: what is found is
/// a row of the table with the asked id, owned by or shared with the user;
/// nothing is found exactly when no row is.
pub proof fn lemma_get_file_access(files: Seq<File>, token: Seq<char>, file_id: u128)
    ensures
        spec_find_file(files, token, file_id) matches Some(f) ==> {
            &&& spec_may_access(f, token, file_id)
            &&& files.contains(f)
        },
        spec_find_file(files, token, file_id) is None <==> (forall|k: int|
            0 <= k < files.len() ==> !spec_may_access(#[trigger] files[k], token, file_id)),
    decreases files.len(),
{
    if files.len() > 0 {
        lemma_get_file_access(files.drop_first(), token, file_id);
        if !spec_may_access(files[0], token, file_id) {
            if let Some(f) = spec_find_file(files, token, file_id) {
                let k = choose|k: int| 0 <= k < files.drop_first().len() && files.drop_first()[k] == f;
                assert(files[k + 1] == f);
            }
            assert forall|k: int|
                0 <= k < files.len() && (forall|m: int|
                    0 <= m < files.drop_first().len() ==> !spec_may_access(
                        #[trigger] files.drop_first()[m],
                        token,
                        file_id,
                    )) implies !spec_may_access(#[trigger] files[k], token, file_id) by {
                if k > 0 {
                    assert(files[k] == files.drop_first()[k - 1]);
                }
            }
        }
    }
}

/// The access rule, in terms of the rows alone: a file found is a row of
/// the table with the asked id whose owner is the user or whose list of
/// users it is shared with holds the user at some position; it is the first
/// such row; and whenever some row with the asked id is owned by or shared
/// with the user, at any position of its list, a file is found.
pub proof fn lemma_get_file_rows(files: Seq<File>, token: Seq<char>, file_id: u128)
    ensures
        spec_find_file(files, token, file_id) matches Some(f) ==> {
            &&& f.file_id == file_id
            &&& (f.user_token@ == token || exists|j: int|
                0 <= j < f.share_users@.len() && #[trigger] f.share_users@[j]@ == token)
            &&& exists|k: int|
                0 <= k < files.len() && #[trigger] files[k] == f && forall|m: int|
                    0 <= m < k ==> !((#[trigger] files[m]).file_id == file_id && (files[m].user_token@ == token
                        || exists|j: int|
                        0 <= j < files[m].share_users@.len() && #[trigger] files[m].share_users@[j]@ == token))
        },
        forall|k: int, j: int|
            0 <= k < files.len() && (#[trigger] files[k]).file_id == file_id && 0 <= j < files[k].share_users@.len()
                && #[trigger] files[k].share_users@[j]@ == token ==> spec_find_file(files, token, file_id) is Some,
        forall|k: int|
            0 <= k < files.len() && (#[trigger] files[k]).file_id == file_id && files[k].user_token@ == token
                ==> spec_find_file(files, token, file_id) is Some,
    decreases files.len(),
{
    lemma_get_file_access(files, token, file_id);
    if files.len() > 0 {
        let rest = files.drop_first();
        lemma_get_file_rows(rest, token, file_id);
        if !spec_may_access(files[0], token, file_id) {
            if let Some(f) = spec_find_file(files, token, file_id) {
                let k = choose|k: int|
                    0 <= k < rest.len() && #[trigger] rest[k] == f && forall|m: int|
                        0 <= m < k ==> !((#[trigger] rest[m]).file_id == file_id && (rest[m].user_token@ == token
                            || exists|j: int|
                            0 <= j < rest[m].share_users@.len() && #[trigger] rest[m].share_users@[j]@ == token));
                assert(files[k + 1] == f);
                assert forall|m: int| 0 <= m < k + 1 implies !((#[trigger] files[m]).file_id == file_id && (
                files[m].user_token@ == token || exists|j: int|
                    0 <= j < files[m].share_users@.len() && #[trigger] files[m].share_users@[j]@ == token)) by {
                    if m > 0 {
                        assert(files[m] == rest[m - 1]);
                    }
                }
            }
        }
        assert forall|k: int, j: int|
            0 <= k < files.len() && (#[trigger] files[k]).file_id == file_id && 0 <= j < files[k].share_users@.len()
                && #[trigger] files[k].share_users@[j]@ == token implies spec_find_file(files, token, file_id) is Some by {
            assert(spec_may_access(files[k], token, file_id));
        }
        assert forall|k: int|
            0 <= k < files.len() && (#[trigger] files[k]).file_id == file_id && files[k].user_token@ == token
                implies spec_find_file(files, token, file_id) is Some by {
            assert(spec_may_access(files[k], token, file_id));
        }
    }
}

} // verus!
