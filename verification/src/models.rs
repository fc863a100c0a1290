use vstd::prelude::*;

verus! {

/// Spec-level image of a stored user: the identifier bits, the token
/// characters, and the chapter identifiers in completion order.
pub ghost struct UserView {
    pub user_id: u128,
    pub solana_token: Seq<char>,
    pub chapter_ids: Seq<Seq<char>>,
}

/// A user record. The identifier holds the 128 bits of a version-4 UUID;
/// its canonical hyphenated text form is produced by `uuid_text::format_uuid`.
/// `solana_token` is an opaque string that the store never parses, and
/// `chapter_ids` is the append-only progress sequence (duplicates permitted).
pub struct User {
    pub user_id: u128,
    pub solana_token: String,
    pub chapter_ids: Vec<String>,
}

impl View for User {
    type V = UserView;

    open spec fn view(&self) -> UserView {
        UserView {
            user_id: self.user_id,
            solana_token: self.solana_token@,
            chapter_ids: self.chapter_ids.deep_view(),
        }
    }
}

impl Clone for User {
    /// A clone is a snapshot: it carries the same identifier, token text and
    /// chapter sequence as the original.
    fn clone(&self) -> (res: Self)
        ensures
            res@ == self@,
    {
        let chapter_ids = self.chapter_ids.clone();
        proof {
            assert(chapter_ids.deep_view() =~= self.chapter_ids.deep_view()) by {
                assert forall|i: int| 0 <= i < self.chapter_ids@.len() implies chapter_ids.deep_view()[i]
                    == self.chapter_ids.deep_view()[i] by {
                    assert(cloned::<String>(self.chapter_ids@[i], chapter_ids@[i]));
                }
            }
        }
        User { user_id: self.user_id, solana_token: self.solana_token.clone(), chapter_ids }
    }
}

/// A sample canonical UUID, offered to documentation tooling.
pub fn example_uuid() -> (s: &'static str)
    ensures
        s@ == "fdb12d51-0e3f-4ff8-821e-fbc255d8e413"@,
{
    "fdb12d51-0e3f-4ff8-821e-fbc255d8e413"
}

/// A sample token value, offered to documentation tooling.
pub fn example_solana_token() -> (s: &'static str)
    ensures
        s@ == "fdb12d51-0e3f-4ff8-821e-fbc255d8e413"@,
{
    "fdb12d51-0e3f-4ff8-821e-fbc255d8e413"
}

} // verus!
