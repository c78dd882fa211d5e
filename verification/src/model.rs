//! The documented effect of the vault operations on the two token accounts.
//!
//! The vault is owned by the operating system; the library only calls into
//! it and cannot verify it. This module writes down, over a map from
//! account name to stored value, what those calls are documented to do — a
//! store overwrites, a clear removes, a fetch never creates — and proves
//! the lifecycle laws of the bridge over that record: at most one value per
//! account, round-trip identity, absence on a fresh vault, and absence
//! after a clear.

use vstd::prelude::*;

verus! {

/// The account name under which the authentication token is stored.
pub open spec fn auth_account() -> Seq<char> {
    "auth_token"@
}

/// The account name under which the refresh token is stored.
pub open spec fn refresh_account() -> Seq<char> {
    "refresh_token"@
}

/// The vault's contents after a store: the token overwrites the auth
/// account, and the refresh token, when one is given, overwrites the
/// refresh account. No other account is touched.
pub open spec fn vault_after_store(
    vault: Map<Seq<char>, Seq<char>>,
    token: Seq<char>,
    refresh: Option<Seq<char>>,
) -> Map<Seq<char>, Seq<char>> {
    match refresh {
        Some(value) => vault.insert(auth_account(), token).insert(refresh_account(), value),
        None => vault.insert(auth_account(), token),
    }
}

/// What a fetch of one account sees: the stored value, or absence. A fetch
/// never creates or changes an entry.
pub open spec fn vault_fetch(vault: Map<Seq<char>, Seq<char>>, account: Seq<char>) -> Option<
    Seq<char>,
> {
    if vault.dom().contains(account) {
        Some(vault[account])
    } else {
        None
    }
}

/// The vault's contents after a clear: both token accounts hold nothing,
/// whatever was stored before.
pub open spec fn vault_after_clear(vault: Map<Seq<char>, Seq<char>>) -> Map<Seq<char>, Seq<char>> {
    vault.remove(auth_account()).remove(refresh_account())
}

/// The two account names differ, so the two secrets live in distinct slots.
proof fn lemma_accounts_distinct()
    ensures
        auth_account() != refresh_account(),
{
    reveal_strlit("auth_token");
    reveal_strlit("refresh_token");
    assert(auth_account().len() == 10);
    assert(refresh_account().len() == 13);
}

/// Round-trip identity: after a store, fetching the auth account yields
/// exactly the token that was stored — whether or not a refresh token came
/// with it.
pub proof fn lemma_store_fetch_round_trip(
    vault: Map<Seq<char>, Seq<char>>,
    token: Seq<char>,
    refresh: Option<Seq<char>>,
)
    ensures
        vault_fetch(vault_after_store(vault, token, refresh), auth_account()) == Some(token),
{
    lemma_accounts_distinct();
}

/// Independent persistence: a store that includes a refresh token leaves
/// each account holding its own value.
pub proof fn lemma_store_both_persists(
    vault: Map<Seq<char>, Seq<char>>,
    token: Seq<char>,
    refresh_value: Seq<char>,
)
    ensures
        vault_fetch(vault_after_store(vault, token, Some(refresh_value)), auth_account()) == Some(
            token,
        ),
        vault_fetch(vault_after_store(vault, token, Some(refresh_value)), refresh_account())
            == Some(refresh_value),
{
    lemma_accounts_distinct();
}

/// Fetching before any store finds absence, not an error: a fresh vault
/// holds nothing under any account.
pub proof fn lemma_fetch_fresh_vault_absent(account: Seq<char>)
    ensures
        vault_fetch(Map::<Seq<char>, Seq<char>>::empty(), account) is None,
{
}

/// After store then clear, a fetch of either token account finds absence.
pub proof fn lemma_clear_after_store_absent(
    vault: Map<Seq<char>, Seq<char>>,
    token: Seq<char>,
    refresh: Option<Seq<char>>,
)
    ensures
        vault_fetch(vault_after_clear(vault_after_store(vault, token, refresh)), auth_account())
            is None,
        vault_fetch(vault_after_clear(vault_after_store(vault, token, refresh)), refresh_account())
            is None,
{
}

} // verus!
