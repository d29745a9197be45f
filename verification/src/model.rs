//! The mathematical model of the credential store: three tables of rows, the
//! constraints that hold between them, and what each query and each update
//! means.

use vstd::prelude::*;

verus! {

/// A tenant row: a game server with its API key.
pub struct TenantRow {
    pub id: int,
    pub name: Seq<char>,
    pub api_key: Seq<char>,
}

/// A player row: one globally named identity.
pub struct PlayerRow {
    pub id: int,
    pub name: Seq<char>,
    pub password: Seq<char>,
    pub last_login: Seq<char>,
}

/// A membership row: one player under one tenant.
pub struct MembershipRow {
    pub tenant: int,
    pub player: int,
    pub privileges: Seq<char>,
    pub pw_override: Option<Seq<char>>,
}

/// What a lookup answers.
pub struct AuthRecord {
    pub password: Seq<char>,
    pub privileges: Seq<char>,
    pub last_login: Seq<char>,
}

/// The password that a tenant sees: its own override where one is present
/// and not empty, the global password otherwise.
pub open spec fn effective(global: Seq<char>, pw_override: Option<Seq<char>>) -> Seq<char> {
    match pw_override {
        Some(own) => if own.len() > 0 {
            own
        } else {
            global
        },
        None => global,
    }
}

/// The record that a player row and a membership row answer with.
pub open spec fn record_of(p: PlayerRow, m: MembershipRow) -> AuthRecord {
    AuthRecord {
        password: effective(p.password, m.pw_override),
        privileges: m.privileges,
        last_login: p.last_login,
    }
}

/// Whether the tenant row at an index has this API key.
pub open spec fn key_at(tenants: Seq<TenantRow>, i: int, key: Seq<char>) -> bool {
    0 <= i < tenants.len() && tenants[i].api_key == key
}

/// Whether the player row at an index has this name.
pub open spec fn name_at(players: Seq<PlayerRow>, i: int, name: Seq<char>) -> bool {
    0 <= i < players.len() && players[i].name == name
}

/// Whether the player row at an index has this id.
pub open spec fn id_at(players: Seq<PlayerRow>, i: int, id: int) -> bool {
    0 <= i < players.len() && players[i].id == id
}

/// Whether the membership row at an index is that of a tenant and a player.
pub open spec fn pair_at(memberships: Seq<MembershipRow>, j: int, tenant: int, player: int) -> bool {
    0 <= j < memberships.len() && memberships[j].tenant == tenant && memberships[j].player
        == player
}

/// Whether some player row has this id.
pub open spec fn has_id(players: Seq<PlayerRow>, id: int) -> bool {
    exists|i: int| id_at(players, i, id)
}

/// The id of a tenant row with this API key.
pub open spec fn find_tenant(tenants: Seq<TenantRow>, key: Seq<char>) -> Option<int> {
    if exists|i: int| key_at(tenants, i, key) {
        Some(tenants[choose|i: int| key_at(tenants, i, key)].id)
    } else {
        None
    }
}

/// A player row with this name.
pub open spec fn find_player(players: Seq<PlayerRow>, name: Seq<char>) -> Option<PlayerRow> {
    if exists|i: int| name_at(players, i, name) {
        Some(players[choose|i: int| name_at(players, i, name)])
    } else {
        None
    }
}

/// A membership row of this tenant and player.
pub open spec fn find_membership(
    memberships: Seq<MembershipRow>,
    tenant: int,
    player: int,
) -> Option<MembershipRow> {
    if exists|j: int| pair_at(memberships, j, tenant, player) {
        Some(memberships[choose|j: int| pair_at(memberships, j, tenant, player)])
    } else {
        None
    }
}

/// The three tables, and the id that the next new player gets.
pub struct StoreModel {
    pub tenants: Seq<TenantRow>,
    pub players: Seq<PlayerRow>,
    pub memberships: Seq<MembershipRow>,
    pub next_player_id: int,
}

impl StoreModel {
    /// Tenant ids, names and API keys are unique.
    pub open spec fn tenants_unique(self) -> bool {
        forall|i: int, j: int|
            0 <= i < j < self.tenants.len() ==> {
                &&& self.tenants[i].id != self.tenants[j].id
                &&& self.tenants[i].name != self.tenants[j].name
                &&& self.tenants[i].api_key != self.tenants[j].api_key
            }
    }

    /// Player ids and names are unique, and every id is below the next one.
    pub open spec fn players_unique(self) -> bool {
        &&& forall|i: int, j: int|
            0 <= i < j < self.players.len() ==> {
                &&& self.players[i].id != self.players[j].id
                &&& self.players[i].name != self.players[j].name
            }
        &&& forall|i: int| 0 <= i < self.players.len() ==> self.players[i].id < self.next_player_id
    }

    /// No two membership rows share a tenant and a player, and each row's
    /// player exists.
    pub open spec fn memberships_unique(self) -> bool {
        &&& forall|i: int, j: int|
            0 <= i < j < self.memberships.len() ==> !(self.memberships[i].tenant
                == self.memberships[j].tenant && self.memberships[i].player
                == self.memberships[j].player)
        &&& forall|j: int|
            0 <= j < self.memberships.len() ==> self.has_player_id(self.memberships[j].player)
    }

    /// The constraints of the schema.
    pub open spec fn wf(self) -> bool {
        &&& self.tenants_unique()
        &&& self.players_unique()
        &&& self.memberships_unique()
        &&& self.next_player_id <= i64::MAX
    }

    /// Whether a player row has this id.
    pub open spec fn has_player_id(self, id: int) -> bool {
        has_id(self.players, id)
    }

    /// The tenant that an API key belongs to.
    pub open spec fn tenant_of_key(self, key: Seq<char>) -> Option<int> {
        find_tenant(self.tenants, key)
    }

    /// The player row of a name.
    pub open spec fn player_named(self, name: Seq<char>) -> Option<PlayerRow> {
        find_player(self.players, name)
    }

    /// The membership row of a player under a tenant.
    pub open spec fn membership_of(self, tenant: int, player: int) -> Option<MembershipRow> {
        find_membership(self.memberships, tenant, player)
    }

    /// What a tenant's lookup of a name answers: nothing unless both the
    /// player and its membership under that tenant exist.
    pub open spec fn auth(self, tenant: int, name: Seq<char>) -> Option<AuthRecord> {
        match self.player_named(name) {
            None => None,
            Some(p) => match self.membership_of(tenant, p.id) {
                None => None,
                Some(m) => Some(record_of(p, m)),
            },
        }
    }

    /// Whether a player of this name can be registered.
    pub open spec fn can_create(self, name: Seq<char>) -> bool {
        self.player_named(name) is None && self.next_player_id < i64::MAX
    }

    /// The store after a player was registered under a tenant.
    pub open spec fn with_auth(
        self,
        tenant: int,
        name: Seq<char>,
        password: Seq<char>,
        privileges: Seq<char>,
    ) -> StoreModel {
        StoreModel {
            tenants: self.tenants,
            players: self.players.push(
                PlayerRow {
                    id: self.next_player_id,
                    name,
                    password,
                    last_login: Seq::empty(),
                },
            ),
            memberships: self.memberships.push(
                MembershipRow {
                    tenant,
                    player: self.next_player_id,
                    privileges,
                    pw_override: None,
                },
            ),
            next_player_id: self.next_player_id + 1,
        }
    }

    /// The store after the global password of a name was set.
    pub open spec fn with_password(self, name: Seq<char>, password: Seq<char>) -> StoreModel {
        StoreModel {
            players: Seq::new(
                self.players.len(),
                |i: int|
                    if self.players[i].name == name {
                        PlayerRow { password, ..self.players[i] }
                    } else {
                        self.players[i]
                    },
            ),
            ..self
        }
    }

    /// The store after the last login of a name was set.
    pub open spec fn with_last_login(self, name: Seq<char>, last_login: Seq<char>) -> StoreModel {
        StoreModel {
            players: Seq::new(
                self.players.len(),
                |i: int|
                    if self.players[i].name == name {
                        PlayerRow { last_login, ..self.players[i] }
                    } else {
                        self.players[i]
                    },
            ),
            ..self
        }
    }

    /// The store after a tenant set the privileges of a name: only that
    /// tenant's membership row of that player changes.
    pub open spec fn with_privileges(
        self,
        tenant: int,
        name: Seq<char>,
        privileges: Seq<char>,
    ) -> StoreModel {
        match self.player_named(name) {
            None => self,
            Some(p) => StoreModel {
                memberships: Seq::new(
                    self.memberships.len(),
                    |j: int|
                        if self.memberships[j].tenant == tenant && self.memberships[j].player
                            == p.id {
                            MembershipRow { privileges, ..self.memberships[j] }
                        } else {
                            self.memberships[j]
                        },
                ),
                ..self
            },
        }
    }

    /// Which tenant rows may be added.
    pub open spec fn accepts_tenant(self, row: TenantRow) -> bool {
        forall|i: int|
            0 <= i < self.tenants.len() ==> {
                &&& self.tenants[i].id != row.id
                &&& self.tenants[i].name != row.name
                &&& self.tenants[i].api_key != row.api_key
            }
    }

    /// Which player rows may be added.
    pub open spec fn accepts_player(self, row: PlayerRow) -> bool {
        &&& row.id < i64::MAX
        &&& forall|i: int|
            0 <= i < self.players.len() ==> {
                &&& self.players[i].id != row.id
                &&& self.players[i].name != row.name
            }
    }

    /// Which membership rows may be added.
    pub open spec fn accepts_membership(self, row: MembershipRow) -> bool {
        &&& self.has_player_id(row.player)
        &&& self.membership_of(row.tenant, row.player) is None
    }

    /// The store after a tenant row was added.
    pub open spec fn add_tenant(self, row: TenantRow) -> StoreModel {
        StoreModel { tenants: self.tenants.push(row), ..self }
    }

    /// The store after a player row was added: the next id stays above
    /// every id in use.
    pub open spec fn add_player(self, row: PlayerRow) -> StoreModel {
        StoreModel {
            players: self.players.push(row),
            next_player_id: if row.id < self.next_player_id {
                self.next_player_id
            } else {
                row.id + 1
            },
            ..self
        }
    }

    /// The store after a membership row was added.
    pub open spec fn add_membership(self, row: MembershipRow) -> StoreModel {
        StoreModel { memberships: self.memberships.push(row), ..self }
    }
}

/// With unique names, the row found at any index under a name is the row of
/// that name.
pub proof fn lemma_player_named(s: StoreModel, i: int, name: Seq<char>)
    requires
        s.players_unique(),
        name_at(s.players, i, name),
    ensures
        s.player_named(name) == Some(s.players[i]),
{
    let k = choose|k: int| name_at(s.players, k, name);
    assert(k == i) by {
        if k < i {
            assert(s.players[k].name != s.players[i].name);
        } else if i < k {
            assert(s.players[i].name != s.players[k].name);
        }
    }
}

/// With unique keys, the row found at any index under a key gives the
/// tenant of that key.
pub proof fn lemma_tenant_of_key(s: StoreModel, i: int, key: Seq<char>)
    requires
        s.tenants_unique(),
        key_at(s.tenants, i, key),
    ensures
        s.tenant_of_key(key) == Some(s.tenants[i].id),
{
    let k = choose|k: int| key_at(s.tenants, k, key);
    assert(k == i) by {
        if k < i {
            assert(s.tenants[k].api_key != s.tenants[i].api_key);
        } else if i < k {
            assert(s.tenants[i].api_key != s.tenants[k].api_key);
        }
    }
}

/// With unique memberships, the row found at any index under a tenant and a
/// player is the membership of the two.
pub proof fn lemma_membership_of(s: StoreModel, j: int, tenant: int, player: int)
    requires
        s.memberships_unique(),
        pair_at(s.memberships, j, tenant, player),
    ensures
        s.membership_of(tenant, player) == Some(s.memberships[j]),
{
    let k = choose|k: int| pair_at(s.memberships, k, tenant, player);
    assert(k == j) by {
        if k < j {
            assert(!(s.memberships[k].tenant == s.memberships[j].tenant && s.memberships[k].player
                == s.memberships[j].player));
        } else if j < k {
            assert(!(s.memberships[j].tenant == s.memberships[k].tenant && s.memberships[j].player
                == s.memberships[k].player));
        }
    }
}

/// Where an update keeps the player ids in their places and the player of
/// each membership row, every such row of the new store still has its
/// player.
pub proof fn lemma_players_remain(s: StoreModel, t: StoreModel)
    requires
        s.memberships_unique(),
        s.players.len() <= t.players.len(),
        forall|i: int| 0 <= i < s.players.len() ==> t.players[i].id == s.players[i].id,
        s.memberships.len() <= t.memberships.len(),
        forall|j: int|
            0 <= j < s.memberships.len() ==> t.memberships[j].player == s.memberships[j].player,
    ensures
        forall|j: int|
            0 <= j < s.memberships.len() ==> t.has_player_id(#[trigger] t.memberships[j].player),
{
    assert forall|j: int| 0 <= j < s.memberships.len() implies t.has_player_id(
        #[trigger] t.memberships[j].player,
    ) by {
        assert(s.has_player_id(s.memberships[j].player));
        let i = choose|i: int| id_at(s.players, i, s.memberships[j].player);
        assert(id_at(t.players, i, t.memberships[j].player));
    }
}

/// Setting a password keeps the constraints.
pub proof fn lemma_with_password_wf(s: StoreModel, name: Seq<char>, password: Seq<char>)
    requires
        s.wf(),
    ensures
        s.with_password(name, password).wf(),
{
    let t = s.with_password(name, password);
    lemma_players_remain(s, t);
}

/// Setting a last login keeps the constraints.
pub proof fn lemma_with_last_login_wf(s: StoreModel, name: Seq<char>, last_login: Seq<char>)
    requires
        s.wf(),
    ensures
        s.with_last_login(name, last_login).wf(),
{
    let t = s.with_last_login(name, last_login);
    lemma_players_remain(s, t);
}

/// Setting privileges keeps the constraints.
pub proof fn lemma_with_privileges_wf(
    s: StoreModel,
    tenant: int,
    name: Seq<char>,
    privileges: Seq<char>,
)
    requires
        s.wf(),
    ensures
        s.with_privileges(tenant, name, privileges).wf(),
{
    let t = s.with_privileges(tenant, name, privileges);
    lemma_players_remain(s, t);
}

/// Registering a player whose name is free keeps the constraints.
pub proof fn lemma_with_auth_wf(
    s: StoreModel,
    tenant: int,
    name: Seq<char>,
    password: Seq<char>,
    privileges: Seq<char>,
)
    requires
        s.wf(),
        s.can_create(name),
    ensures
        s.with_auth(tenant, name, password, privileges).wf(),
{
    let t = s.with_auth(tenant, name, password, privileges);
    let n = s.players.len() as int;
    assert forall|i: int| 0 <= i < n implies s.players[i].name != name by {
        if s.players[i].name == name {
            assert(name_at(s.players, i, name));
        }
    }
    lemma_players_remain(s, t);
    assert forall|j: int| 0 <= j < s.memberships.len() implies s.memberships[j].player
        < s.next_player_id by {
        assert(s.has_player_id(s.memberships[j].player));
        let i = choose|i: int| id_at(s.players, i, s.memberships[j].player);
    }
    assert(id_at(t.players, n, s.next_player_id));
    assert(t.players_unique());
    assert(t.memberships_unique());
}

/// Adding an accepted tenant row keeps the constraints.
pub proof fn lemma_add_tenant_wf(s: StoreModel, row: TenantRow)
    requires
        s.wf(),
        s.accepts_tenant(row),
    ensures
        s.add_tenant(row).wf(),
{
    let t = s.add_tenant(row);
    lemma_players_remain(s, t);
}

/// Adding an accepted player row keeps the constraints.
pub proof fn lemma_add_player_wf(s: StoreModel, row: PlayerRow)
    requires
        s.wf(),
        s.accepts_player(row),
    ensures
        s.add_player(row).wf(),
{
    let t = s.add_player(row);
    lemma_players_remain(s, t);
}

/// Adding an accepted membership row keeps the constraints.
pub proof fn lemma_add_membership_wf(s: StoreModel, row: MembershipRow)
    requires
        s.wf(),
        s.accepts_membership(row),
    ensures
        s.add_membership(row).wf(),
{
    let t = s.add_membership(row);
    let n = s.memberships.len() as int;
    lemma_players_remain(s, t);
    assert forall|j: int| 0 <= j < n implies !(s.memberships[j].tenant == row.tenant
        && s.memberships[j].player == row.player) by {
        if s.memberships[j].tenant == row.tenant && s.memberships[j].player == row.player {
            assert(pair_at(s.memberships, j, row.tenant, row.player));
        }
    }
}

} // verus!
