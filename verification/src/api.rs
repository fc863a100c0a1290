use vstd::prelude::*;
use crate::database::Database;
use crate::models::{User, UserView};
use crate::uuid_text;

verus! {

/// Transition of user creation: map `user_id` to a fresh record carrying the
/// token and an empty chapter sequence.
pub open spec fn create_user_spec(m: Map<u128, UserView>, user_id: u128, token: Seq<char>) -> Map<
    u128,
    UserView,
> {
    m.insert(user_id, UserView { user_id, solana_token: token, chapter_ids: Seq::empty() })
}

/// Transition of a progress update: append one chapter to the record of
/// `user_id` when it is present; leave the map unchanged otherwise.
pub open spec fn progress_spec(m: Map<u128, UserView>, user_id: u128, chapter: Seq<char>) -> Map<
    u128,
    UserView,
> {
    if m.contains_key(user_id) {
        m.insert(
            user_id,
            UserView {
                user_id: m[user_id].user_id,
                solana_token: m[user_id].solana_token,
                chapter_ids: m[user_id].chapter_ids.push(chapter),
            },
        )
    } else {
        m
    }
}

/// Core of `POST /user`: store a record under `user_id` with the given token
/// and no progress, and return the stored record. The identifier overwrite
/// semantics are those of the store: an existing record under the same id is
/// replaced.
pub fn create_user(db: &mut Database, user_id: u128, solana_token: String) -> (u: User)
    requires
        old(db).wf(),
    ensures
        final(db).wf(),
        u@.user_id == user_id,
        u@.solana_token == solana_token@,
        u@.chapter_ids == Seq::<Seq<char>>::empty(),
        final(db)@ == create_user_spec(old(db)@, user_id, solana_token@),
        final(db).token_counter == old(db).token_counter,
{
    let user = User { user_id, solana_token, chapter_ids: Vec::new() };
    let snapshot = user.clone();
    proof {
        assert(user@.chapter_ids =~= Seq::<Seq<char>>::empty());
    }
    db.insert(user);
    snapshot
}

/// `POST /user` as the HTTP handler performs it: the identifier is drawn
/// fresh as a random version-4 UUID.
pub fn create_user_fresh(db: &mut Database, solana_token: String) -> (u: User)
    requires
        old(db).wf(),
    ensures
        final(db).wf(),
        u@.solana_token == solana_token@,
        u@.chapter_ids == Seq::<Seq<char>>::empty(),
        final(db)@ == create_user_spec(old(db)@, u@.user_id, solana_token@),
        (u@.user_id >> 76) & 0xf == 4,
        (u@.user_id >> 62) & 3 == 2,
        final(db).token_counter == old(db).token_counter,
{
    let id = uuid_text::fresh_uuid_bits();
    create_user(db, id, solana_token)
}

/// Core of `GET /user/{userId}`: the stored record as a snapshot, absent
/// exactly when the id is unknown (the HTTP layer renders absence as 404).
pub fn get_user(db: &Database, user_id: u128) -> (r: Option<User>)
    requires
        db.wf(),
    ensures
        r matches Some(u) ==> db@.contains_key(user_id) && u@ == db@[user_id],
        r is None ==> !db@.contains_key(user_id),
{
    db.get(user_id)
}

/// `GET /user/{userId}` taken straight from the request path: parse the
/// hyphenated UUID text, then look the user up. Malformed text finds nobody,
/// as the HTTP layer's path guard would have rejected it.
pub fn get_user_by_text(db: &Database, user_id_text: &str) -> (r: Option<User>)
    requires
        db.wf(),
    ensures
        r matches Some(u) ==> uuid_text::is_uuid_text(user_id_text@) && db@.contains_key(
            uuid_text::uuid_of(user_id_text@) as u128,
        ) && u@ == db@[uuid_text::uuid_of(user_id_text@) as u128],
        r is None ==> !uuid_text::is_uuid_text(user_id_text@) || !db@.contains_key(
            uuid_text::uuid_of(user_id_text@) as u128,
        ),
{
    match uuid_text::parse_uuid(user_id_text) {
        Some(id) => get_user(db, id),
        None => None,
    }
}

/// Core of `PUT /userprogress`: append `chapter_id` to the user's progress
/// and return the new snapshot; an unknown user changes nothing and is
/// reported as absent (the HTTP layer renders that as 404). The challenge id
/// is accepted but ignored, as the wire contract states.
pub fn put_userprogress(
    db: &mut Database,
    user_id: u128,
    _challenge_id: &str,
    chapter_id: String,
) -> (r: Option<User>)
    requires
        old(db).wf(),
    ensures
        final(db).wf(),
        final(db)@ == progress_spec(old(db)@, user_id, chapter_id@),
        final(db).token_counter == old(db).token_counter,
        r matches Some(u) ==> old(db)@.contains_key(user_id) && u@ == progress_spec(
            old(db)@,
            user_id,
            chapter_id@,
        )[user_id],
        r is None ==> !old(db)@.contains_key(user_id),
{
    let ghost prev = *db;
    let r = db.append_chapter(user_id, chapter_id);
    proof {
        if prev@.contains_key(user_id) {
            prev.lemma_key_matches(user_id);
        }
    }
    r
}

/// Core of `POST /mint-nft`: the token to mint with, read from the stored
/// user. An unknown user yields nothing, and the caller then issues no
/// Solana call at all; the response is an empty 200 either way.
pub fn mint_nft_token(db: &Database, user_id: u128) -> (r: Option<String>)
    requires
        db.wf(),
    ensures
        r matches Some(t) ==> db@.contains_key(user_id) && t@ == db@[user_id].solana_token,
        r is None ==> !db@.contains_key(user_id),
{
    match db.get(user_id) {
        Some(u) => Some(u.solana_token),
        None => None,
    }
}

} // verus!
