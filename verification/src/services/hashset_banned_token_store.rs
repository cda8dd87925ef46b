use vstd::hash_set::StringHashSet;
use vstd::prelude::*;

use crate::domain::BannedTokenStore;

verus! {

/// The tokens that may no longer be used.
pub struct HashsetBannedTokenStore {
    pub banned_tokens: StringHashSet,
}

/// Banning a token bans it, keeps every banned token banned and bans no
/// other token.
pub proof fn lemma_ban_is_exact(banned: Set<Seq<char>>, token: Seq<char>, other: Seq<char>)
    ensures
        banned.insert(token).contains(token),
        banned.contains(other) ==> banned.insert(token).contains(other),
        other != token ==> (banned.insert(token).contains(other) <==> banned.contains(other)),
{
}

/// The banned tokens after each of `tokens`, in order, was banned.
pub open spec fn ban_all(banned: Set<Seq<char>>, tokens: Seq<Seq<char>>) -> Set<Seq<char>>
    decreases tokens.len(),
{
    if tokens.len() == 0 {
        banned
    } else {
        ban_all(banned, tokens.drop_last()).insert(tokens.last())
    }
}

/// After any number of bans, a token is banned exactly when it was banned
/// before or is one of them; starting from no bans, exactly when it is one of
/// them.
pub proof fn lemma_bans_are_exactly_the_banned(
    banned: Set<Seq<char>>,
    tokens: Seq<Seq<char>>,
    token: Seq<char>,
)
    ensures
        ban_all(banned, tokens).contains(token) <==> banned.contains(token) || tokens.contains(
            token,
        ),
        ban_all(Set::empty(), tokens).contains(token) <==> tokens.contains(token),
    decreases tokens.len(),
{
    if tokens.len() > 0 {
        lemma_bans_are_exactly_the_banned(banned, tokens.drop_last(), token);
        lemma_bans_are_exactly_the_banned(Set::empty(), tokens.drop_last(), token);
        let front = tokens.drop_last();
        assert(tokens =~= front.push(tokens.last()));
        if front.contains(token) {
            let i = choose|i: int| 0 <= i < front.len() && front[i] == token;
            assert(tokens[i] == token);
        }
        if tokens.contains(token) && token != tokens.last() {
            let i = choose|i: int| 0 <= i < tokens.len() && tokens[i] == token;
            assert(i < front.len());
            assert(front[i] == token);
        }
        if token == tokens.last() {
            assert(tokens[tokens.len() - 1] == token);
        }
    }
}

impl View for HashsetBannedTokenStore {
    type V = Set<Seq<char>>;

    open spec fn view(&self) -> Set<Seq<char>> {
        self.banned_tokens@
    }
}

impl HashsetBannedTokenStore {
    /// A store that bans nothing.
    pub fn new() -> (store: Self)
        ensures
            store@ == Set::<Seq<char>>::empty(),
    {
        HashsetBannedTokenStore { banned_tokens: StringHashSet::new() }
    }
}

impl BannedTokenStore for HashsetBannedTokenStore {
    open spec fn banned_set(&self) -> Set<Seq<char>> {
        self@
    }

    fn add_token(&mut self, token: String) {
        self.banned_tokens.insert(token);
    }

    fn is_token_banned(&self, token: &str) -> (banned: bool) {
        self.banned_tokens.contains(token)
    }
}

impl Default for HashsetBannedTokenStore {
    fn default() -> (store: Self)
        ensures
            store@ == Set::<Seq<char>>::empty(),
    {
        Self::new()
    }
}

} // verus!
