use vstd::prelude::*;
use crate::api::{create_user_spec, progress_spec};
use crate::models::UserView;
use crate::uuid_text::{is_uuid_text, lemma_uuid_round_trip, lemma_uuid_str_is_uuid_text, uuid_of, uuid_str};

verus! {

// The store-level laws of the backend, stated over the transition functions
// that the handler contracts ensure. `create_user_spec` is what `POST /user`
// does to the store, and `progress_spec` is what `PUT /userprogress` does;
// `GET /user/{userId}` returns exactly the map entry of the id it is given.

/// Create-then-get round trip: after creating a user, reading the same id
/// back yields exactly the fresh record — the given token and an empty
/// chapter sequence.
pub proof fn lemma_create_then_get(m: Map<u128, UserView>, user_id: u128, token: Seq<char>)
    ensures
        create_user_spec(m, user_id, token).contains_key(user_id),
        create_user_spec(m, user_id, token)[user_id] == (UserView {
            user_id,
            solana_token: token,
            chapter_ids: Seq::empty(),
        }),
{
}

/// Create-then-get through the canonical id text: a fresh user's id formats
/// to well-formed UUID text that parses back to the same id, so looking the
/// text up after creation finds exactly the fresh record.
pub proof fn lemma_create_then_get_by_text(m: Map<u128, UserView>, user_id: u128, token: Seq<char>)
    ensures
        is_uuid_text(uuid_str(user_id)),
        uuid_of(uuid_str(user_id)) == user_id as int,
        create_user_spec(m, user_id, token)[user_id] == (UserView {
            user_id,
            solana_token: token,
            chapter_ids: Seq::empty(),
        }),
{
    lemma_uuid_str_is_uuid_text(user_id);
    lemma_uuid_round_trip(user_id);
}

/// The store after `n` progress updates for one user with one chapter id.
pub open spec fn progress_n(
    m: Map<u128, UserView>,
    user_id: u128,
    chapter: Seq<char>,
    n: nat,
) -> Map<u128, UserView>
    decreases n,
{
    if n == 0 {
        m
    } else {
        progress_spec(progress_n(m, user_id, chapter, (n - 1) as nat), user_id, chapter)
    }
}

/// Progress append: performing the same progress update `n` times appends
/// exactly `n` copies of the chapter id, duplicates preserved, and touches no
/// other user's record.
pub proof fn lemma_progress_repeat(
    m: Map<u128, UserView>,
    user_id: u128,
    chapter: Seq<char>,
    n: nat,
)
    requires
        m.contains_key(user_id),
    ensures
        progress_n(m, user_id, chapter, n).contains_key(user_id),
        progress_n(m, user_id, chapter, n)[user_id].user_id == m[user_id].user_id,
        progress_n(m, user_id, chapter, n)[user_id].solana_token == m[user_id].solana_token,
        progress_n(m, user_id, chapter, n)[user_id].chapter_ids == m[user_id].chapter_ids
            + Seq::new(n, |i: int| chapter),
        forall|k: u128|
            k != user_id ==> (#[trigger] progress_n(m, user_id, chapter, n).contains_key(k)
                <==> m.contains_key(k)),
        forall|k: u128|
            k != user_id && m.contains_key(k) ==> #[trigger] progress_n(
                m,
                user_id,
                chapter,
                n,
            )[k] == m[k],
    decreases n,
{
    if n == 0 {
        assert(m[user_id].chapter_ids + Seq::new(0, |i: int| chapter) =~= m[
            user_id
        ].chapter_ids);
    } else {
        lemma_progress_repeat(m, user_id, chapter, (n - 1) as nat);
        let prev = progress_n(m, user_id, chapter, (n - 1) as nat);
        assert(prev[user_id].chapter_ids.push(chapter) =~= m[user_id].chapter_ids + Seq::new(
            n,
            |i: int| chapter,
        ));
    }
}

/// Unknown user on progress: a progress update for an id the store does not
/// hold changes nothing at all.
pub proof fn lemma_progress_unknown(m: Map<u128, UserView>, user_id: u128, chapter: Seq<char>)
    requires
        !m.contains_key(user_id),
    ensures
        progress_spec(m, user_id, chapter) == m,
{
}

/// One successful progress update grows the user's chapter sequence by
/// exactly one, the new chapter id standing last: no update is lost and none
/// is applied twice.
pub proof fn lemma_progress_adds_one(m: Map<u128, UserView>, user_id: u128, chapter: Seq<char>)
    requires
        m.contains_key(user_id),
    ensures
        progress_spec(m, user_id, chapter).contains_key(user_id),
        progress_spec(m, user_id, chapter)[user_id].chapter_ids.len() == m[
            user_id
        ].chapter_ids.len() + 1,
        progress_spec(m, user_id, chapter)[user_id].chapter_ids.last() == chapter,
{
}

} // verus!
