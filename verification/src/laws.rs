//! What holds of the broker across requests, proved over the model of the
//! store.

use crate::handler::{first_step, handled, outcome, Failure, PayloadView, ReplyView};
use crate::model::{
    effective, lemma_membership_of, lemma_player_named, lemma_with_auth_wf,
    lemma_with_last_login_wf, lemma_with_password_wf, lemma_with_privileges_wf, name_at, pair_at,
    record_of, AuthRecord, StoreModel,
};
use crate::route::{
    is_secret_header, request_of, route_of, secret_from, secret_text, Command, Header,
    RequestView,
};
use vstd::prelude::*;
use vstd::utf8::valid_utf8;

verus! {

/// A player row of the name and a membership row of that player under the
/// tenant give the lookup's answer.
pub proof fn lemma_auth_at(s: StoreModel, i: int, j: int, tenant: int, name: Seq<char>)
    requires
        s.players_unique(),
        s.memberships_unique(),
        name_at(s.players, i, name),
        pair_at(s.memberships, j, tenant, s.players[i].id),
    ensures
        s.auth(tenant, name) == Some(record_of(s.players[i], s.memberships[j])),
{
    lemma_player_named(s, i, name);
    lemma_membership_of(s, j, tenant, s.players[i].id);
}

/// A lookup that answers has its two rows.
pub proof fn lemma_auth_rows(s: StoreModel, tenant: int, name: Seq<char>) -> (ij: (int, int))
    requires
        s.auth(tenant, name) is Some,
    ensures
        name_at(s.players, ij.0, name),
        pair_at(s.memberships, ij.1, tenant, s.players[ij.0].id),
        s.auth(tenant, name) == Some(record_of(s.players[ij.0], s.memberships[ij.1])),
{
    let i = choose|i: int| name_at(s.players, i, name);
    let j = choose|j: int| pair_at(s.memberships, j, tenant, s.players[i].id);
    (i, j)
}

/// A request with a known path and a missing or unknown API key is answered
/// as unauthorized, whatever its body, and leaves the store as it was.
pub proof fn law_unknown_key_is_unauthorized(
    s: StoreModel,
    headers: Seq<Header>,
    path: Seq<char>,
    decoded: Option<PayloadView>,
)
    requires
        route_of(path) is Some,
        secret_from(headers, 0) is None || s.tenant_of_key(secret_from(headers, 0)->0) is None,
    ensures
        handled(s, request_of(headers, path), decoded) == (
            s,
            ReplyView::Failed(Failure::Unauthorized),
        ),
        Failure::Unauthorized.code() == 401,
{
}

/// Up to the first API key header, the key is the one that this header
/// gives.
pub proof fn lemma_secret_from_first(headers: Seq<Header>, start: int, first: int)
    requires
        0 <= start <= first < headers.len(),
        is_secret_header(headers[first]),
        forall|k: int| start <= k < first ==> !is_secret_header(#[trigger] headers[k]),
    ensures
        secret_from(headers, start) == secret_text(headers[first].value@),
    decreases first - start,
{
    if start < first {
        lemma_secret_from_first(headers, start + 1, first);
    }
}

/// A request with a known path whose first API key header is no UTF-8 is
/// answered as unauthorized, whatever the store holds and whatever its body,
/// and leaves the store as it was.
pub proof fn law_malformed_key_is_unauthorized(
    s: StoreModel,
    headers: Seq<Header>,
    first: int,
    path: Seq<char>,
    decoded: Option<PayloadView>,
)
    requires
        route_of(path) is Some,
        0 <= first < headers.len(),
        is_secret_header(headers[first]),
        forall|k: int| 0 <= k < first ==> !is_secret_header(#[trigger] headers[k]),
        !valid_utf8(headers[first].value@),
    ensures
        request_of(headers, path) == RequestView::Unauthorized,
        handled(s, request_of(headers, path), decoded) == (
            s,
            ReplyView::Failed(Failure::Unauthorized),
        ),
{
    lemma_secret_from_first(headers, 0, first);
}

/// A request with an unknown path is answered as not found, whatever its
/// headers and body, and leaves the store as it was.
pub proof fn law_unknown_path_is_not_found(
    s: StoreModel,
    headers: Seq<Header>,
    path: Seq<char>,
    decoded: Option<PayloadView>,
)
    requires
        route_of(path) is None,
    ensures
        handled(s, request_of(headers, path), decoded) == (
            s,
            ReplyView::Failed(Failure::RouteNotFound),
        ),
        Failure::RouteNotFound.code() == 404,
{
}

/// A lookup of a name that has no membership row under the tenant is
/// answered as not found, with an empty text.
pub proof fn law_lookup_without_membership(s: StoreModel, tenant: int, name: Seq<char>)
    requires
        forall|i: int, j: int|
            #![trigger name_at(s.players, i, name), s.memberships[j]]
            !(name_at(s.players, i, name) && pair_at(s.memberships, j, tenant, s.players[i].id)),
    ensures
        outcome(s, tenant, Command::GetAuth, Some(PayloadView::GetAuth { name })) == (
            s,
            ReplyView::Failed(Failure::NotFound),
        ),
        Failure::NotFound.code() == 404,
        Failure::NotFound.text() == ""@,
{
    if s.auth(tenant, name) is Some {
        let ij = lemma_auth_rows(s, tenant, name);
        assert(name_at(s.players, ij.0, name) && pair_at(
            s.memberships,
            ij.1,
            tenant,
            s.players[ij.0].id,
        ));
        let m = s.memberships[ij.1];
    }
}

/// The effective password is the override where it is present and not
/// empty, and the global password otherwise.
pub proof fn law_effective_password(global: Seq<char>, own: Seq<char>)
    ensures
        effective(global, None) == global,
        own.len() == 0 ==> effective(global, Some(own)) == global,
        own.len() > 0 ==> effective(global, Some(own)) == own,
{
}

/// A registration followed by a lookup from the same tenant answers with
/// the password and the privileges just given and an empty last login.
pub proof fn law_create_then_get(
    s: StoreModel,
    tenant: int,
    name: Seq<char>,
    password: Seq<char>,
    privileges: Seq<char>,
)
    requires
        s.wf(),
        s.can_create(name),
    ensures
        outcome(
            s,
            tenant,
            Command::CreateAuth,
            Some(PayloadView::CreateAuth { name, password, privileges }),
        ) == (s.with_auth(tenant, name, password, privileges), ReplyView::Empty),
        outcome(
            s.with_auth(tenant, name, password, privileges),
            tenant,
            Command::GetAuth,
            Some(PayloadView::GetAuth { name }),
        ) == (
            s.with_auth(tenant, name, password, privileges),
            ReplyView::Auth(AuthRecord { password, privileges, last_login: Seq::empty() }),
        ),
{
    let t = s.with_auth(tenant, name, password, privileges);
    lemma_with_auth_wf(s, tenant, name, password, privileges);
    lemma_auth_at(t, s.players.len() as int, s.memberships.len() as int, tenant, name);
}

/// A new password is set whichever tenant asks, and every tenant that the
/// player belongs to sees it, but for a tenant's own override.
pub proof fn law_password_is_global(
    s: StoreModel,
    caller: int,
    name: Seq<char>,
    password: Seq<char>,
    tenant: int,
)
    requires
        s.wf(),
        s.auth(tenant, name) is Some,
    ensures
        outcome(
            s,
            caller,
            Command::SetPassword,
            Some(PayloadView::SetPassword { name, password }),
        ) == (s.with_password(name, password), ReplyView::Empty),
        s.with_password(name, password).auth(tenant, name) == Some(
            AuthRecord {
                password: effective(
                    password,
                    s.membership_of(tenant, s.player_named(name)->0.id)->0.pw_override,
                ),
                privileges: s.auth(tenant, name)->0.privileges,
                last_login: s.auth(tenant, name)->0.last_login,
            },
        ),
{
    let t = s.with_password(name, password);
    lemma_with_password_wf(s, name, password);
    let ij = lemma_auth_rows(s, tenant, name);
    lemma_player_named(s, ij.0, name);
    lemma_membership_of(s, ij.1, tenant, s.players[ij.0].id);
    lemma_auth_at(t, ij.0, ij.1, tenant, name);
}

/// A recorded login is set whichever tenant asks, and every tenant that the
/// player belongs to sees it.
pub proof fn law_login_is_recorded(
    s: StoreModel,
    caller: int,
    name: Seq<char>,
    last_login: Seq<char>,
    tenant: int,
)
    requires
        s.wf(),
        s.auth(tenant, name) is Some,
    ensures
        outcome(
            s,
            caller,
            Command::RecordLogin,
            Some(PayloadView::RecordLogin { name, last_login }),
        ) == (s.with_last_login(name, last_login), ReplyView::Empty),
        s.with_last_login(name, last_login).auth(tenant, name) == Some(
            AuthRecord {
                password: s.auth(tenant, name)->0.password,
                privileges: s.auth(tenant, name)->0.privileges,
                last_login,
            },
        ),
{
    let t = s.with_last_login(name, last_login);
    lemma_with_last_login_wf(s, name, last_login);
    let ij = lemma_auth_rows(s, tenant, name);
    lemma_auth_at(s, ij.0, ij.1, tenant, name);
    lemma_auth_at(t, ij.0, ij.1, tenant, name);
}

/// New privileges show in the lookups of the tenant that set them.
pub proof fn law_privileges_are_set(
    s: StoreModel,
    tenant: int,
    name: Seq<char>,
    privileges: Seq<char>,
)
    requires
        s.wf(),
        s.auth(tenant, name) is Some,
    ensures
        outcome(
            s,
            tenant,
            Command::SetPrivileges,
            Some(PayloadView::SetPrivileges { name, privileges }),
        ) == (s.with_privileges(tenant, name, privileges), ReplyView::Empty),
        s.with_privileges(tenant, name, privileges).auth(tenant, name) == Some(
            AuthRecord {
                password: s.auth(tenant, name)->0.password,
                privileges,
                last_login: s.auth(tenant, name)->0.last_login,
            },
        ),
{
    let t = s.with_privileges(tenant, name, privileges);
    lemma_with_privileges_wf(s, tenant, name, privileges);
    let ij = lemma_auth_rows(s, tenant, name);
    lemma_player_named(s, ij.0, name);
    lemma_auth_at(s, ij.0, ij.1, tenant, name);
    lemma_auth_at(t, ij.0, ij.1, tenant, name);
}

/// New privileges touch one membership row: the lookup of any other tenant,
/// and of any other name, answers as before.
pub proof fn law_privileges_are_scoped(
    s: StoreModel,
    tenant: int,
    name: Seq<char>,
    privileges: Seq<char>,
    other_tenant: int,
    other_name: Seq<char>,
)
    requires
        s.wf(),
        other_tenant != tenant || other_name != name,
    ensures
        s.with_privileges(tenant, name, privileges).auth(other_tenant, other_name) == s.auth(
            other_tenant,
            other_name,
        ),
{
    let t = s.with_privileges(tenant, name, privileges);
    lemma_with_privileges_wf(s, tenant, name, privileges);
    if s.player_named(name) is Some {
        let k = choose|k: int| name_at(s.players, k, name);
        lemma_player_named(s, k, name);
        if s.auth(other_tenant, other_name) is Some {
            let ij = lemma_auth_rows(s, other_tenant, other_name);
            if s.players[ij.0].id == s.players[k].id {
                lemma_unique_ids(s, ij.0, k);
            }
            lemma_auth_at(s, ij.0, ij.1, other_tenant, other_name);
            lemma_auth_at(t, ij.0, ij.1, other_tenant, other_name);
        } else if t.auth(other_tenant, other_name) is Some {
            let ij = lemma_auth_rows(t, other_tenant, other_name);
            lemma_auth_at(s, ij.0, ij.1, other_tenant, other_name);
        }
    }
}

/// Two player rows with one id are one row.
pub proof fn lemma_unique_ids(s: StoreModel, i: int, k: int)
    requires
        s.players_unique(),
        0 <= i < s.players.len(),
        0 <= k < s.players.len(),
        s.players[i].id == s.players[k].id,
    ensures
        i == k,
{
    if i < k {
        assert(s.players[i].id != s.players[k].id);
    } else if k < i {
        assert(s.players[k].id != s.players[i].id);
    }
}

/// A body that could not be decoded is answered with an internal failure
/// once the request is authorized, and a request that fails in any way, or
/// is answered with a record, leaves the store as it was.
pub proof fn law_failure_changes_nothing(
    s: StoreModel,
    request: RequestView,
    decoded: Option<PayloadView>,
)
    ensures
        handled(s, request, None).0 == s,
        first_step(s, request) is Decode ==> handled(s, request, None).1 == ReplyView::Failed(
            Failure::Internal,
        ),
        handled(s, request, decoded).1 is Failed ==> handled(s, request, decoded).0 == s,
        !(handled(s, request, decoded).1 is Empty) ==> handled(s, request, decoded).0 == s,
        Failure::Internal.code() == 500,
{
}

} // verus!
