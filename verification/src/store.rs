//! The credential store: tenants, players and memberships held in memory,
//! with the queries and updates of the five commands.

use crate::model::{
    id_at, key_at, name_at, pair_at,
    lemma_add_membership_wf, lemma_add_player_wf, lemma_add_tenant_wf, lemma_membership_of,
    lemma_player_named, lemma_tenant_of_key, lemma_with_auth_wf, lemma_with_last_login_wf,
    lemma_with_password_wf, lemma_with_privileges_wf, AuthRecord, MembershipRow, PlayerRow,
    StoreModel, TenantRow,
};
use crate::resolve::{effective_password, text_of};
use vstd::prelude::*;
use vstd::string::*;

verus! {

/// A game server that may call the broker.
#[derive(Debug, Clone)]
pub struct Tenant {
    pub id: i64,
    pub name: String,
    pub api_key: String,
}

/// A player: one name, one global password, one last login for all tenants.
#[derive(Debug, Clone)]
pub struct Player {
    pub id: i64,
    pub name: String,
    pub password: String,
    pub last_login: String,
}

/// A player's registration under one tenant.
#[derive(Debug, Clone)]
pub struct Membership {
    pub tenant: i64,
    pub player: i64,
    pub privileges: String,
    pub pw_override: Option<String>,
}

/// The answer to a lookup.
#[derive(Debug, Clone)]
pub struct AuthAnswer {
    pub password: String,
    pub privileges: String,
    pub last_login: String,
}

/// Why a registration was refused.
#[derive(Debug, Clone, Copy, PartialEq, Eq, Structural)]
pub enum StoreError {
    /// A player of that name exists already.
    NameTaken,
    /// No player id is left.
    Exhausted,
}

impl View for Tenant {
    type V = TenantRow;

    open spec fn view(&self) -> TenantRow {
        TenantRow { id: self.id as int, name: self.name@, api_key: self.api_key@ }
    }
}

impl View for Player {
    type V = PlayerRow;

    open spec fn view(&self) -> PlayerRow {
        PlayerRow {
            id: self.id as int,
            name: self.name@,
            password: self.password@,
            last_login: self.last_login@,
        }
    }
}

impl View for Membership {
    type V = MembershipRow;

    open spec fn view(&self) -> MembershipRow {
        MembershipRow {
            tenant: self.tenant as int,
            player: self.player as int,
            privileges: self.privileges@,
            pw_override: text_of(self.pw_override),
        }
    }
}

impl View for AuthAnswer {
    type V = AuthRecord;

    open spec fn view(&self) -> AuthRecord {
        AuthRecord {
            password: self.password@,
            privileges: self.privileges@,
            last_login: self.last_login@,
        }
    }
}

/// The three tables. Every store that this module hands out meets the
/// constraints of its model, `self@.wf()`.
pub struct Store {
    tenants: Vec<Tenant>,
    players: Vec<Player>,
    memberships: Vec<Membership>,
    next_player_id: i64,
}

impl View for Store {
    type V = StoreModel;

    closed spec fn view(&self) -> StoreModel {
        StoreModel {
            tenants: self.tenants@.map_values(|t: Tenant| t@),
            players: self.players@.map_values(|p: Player| p@),
            memberships: self.memberships@.map_values(|m: Membership| m@),
            next_player_id: self.next_player_id as int,
        }
    }
}

impl Store {
    /// An empty store, whose first player will get the id 1.
    pub fn new() -> (s: Store)
        ensures
            s@.wf(),
            s@.tenants.len() == 0,
            s@.players.len() == 0,
            s@.memberships.len() == 0,
            s@.next_player_id == 1,
    {
        Store { tenants: Vec::new(), players: Vec::new(), memberships: Vec::new(), next_player_id: 1 }
    }

    /// The index of the tenant row with this API key.
    fn tenant_index(&self, key: &str) -> (r: Option<usize>)
        ensures
            match r {
                Some(i) => key_at(self@.tenants, i as int, key@),
                None => forall|k: int| !key_at(self@.tenants, k, key@),
            },
    {
        let mut i: usize = 0;
        while i < self.tenants.len()
            invariant
                i <= self.tenants.len(),
                forall|k: int| 0 <= k < i ==> !key_at(self@.tenants, k, key@),
            decreases self.tenants.len() - i,
        {
            if crate::route::same_text(self.tenants[i].api_key.as_str(), key) {
                return Some(i);
            }
            i += 1;
        }
        None
    }

    /// The index of the player row with this name.
    fn player_index(&self, name: &str) -> (r: Option<usize>)
        ensures
            match r {
                Some(i) => name_at(self@.players, i as int, name@),
                None => forall|k: int| !name_at(self@.players, k, name@),
            },
    {
        let mut i: usize = 0;
        while i < self.players.len()
            invariant
                i <= self.players.len(),
                forall|k: int| 0 <= k < i ==> !name_at(self@.players, k, name@),
            decreases self.players.len() - i,
        {
            if crate::route::same_text(self.players[i].name.as_str(), name) {
                return Some(i);
            }
            i += 1;
        }
        None
    }

    /// The index of the player row with this id.
    fn player_id_index(&self, id: i64) -> (r: Option<usize>)
        ensures
            match r {
                Some(i) => id_at(self@.players, i as int, id as int),
                None => forall|k: int| !id_at(self@.players, k, id as int),
            },
    {
        let mut i: usize = 0;
        while i < self.players.len()
            invariant
                i <= self.players.len(),
                forall|k: int| 0 <= k < i ==> !id_at(self@.players, k, id as int),
            decreases self.players.len() - i,
        {
            if self.players[i].id == id {
                return Some(i);
            }
            i += 1;
        }
        None
    }

    /// The index of the membership row of this tenant and player.
    fn membership_index(&self, tenant: i64, player: i64) -> (r: Option<usize>)
        ensures
            match r {
                Some(j) => pair_at(self@.memberships, j as int, tenant as int, player as int),
                None => forall|k: int| !pair_at(self@.memberships, k, tenant as int, player as int),
            },
    {
        let mut j: usize = 0;
        while j < self.memberships.len()
            invariant
                j <= self.memberships.len(),
                forall|k: int| 0 <= k < j ==> !pair_at(self@.memberships, k, tenant as int, player as int),
            decreases self.memberships.len() - j,
        {
            if self.memberships[j].tenant == tenant && self.memberships[j].player == player {
                return Some(j);
            }
            j += 1;
        }
        None
    }

    /// Resolves an API key to the id of its tenant.
    pub fn tenant_id(&self, key: &str) -> (r: Option<i64>)
        requires
            self@.wf(),
        ensures
            match r {
                Some(id) => self@.tenant_of_key(key@) == Some(id as int),
                None => self@.tenant_of_key(key@) is None,
            },
    {
        match self.tenant_index(key) {
            Some(i) => {
                proof {
                    lemma_tenant_of_key(self@, i as int, key@);
                }
                Some(self.tenants[i].id)
            },
            None => None,
        }
    }

    /// Looks a player up by name, as the given tenant sees it.
    pub fn get_auth(&self, tenant: i64, name: &str) -> (r: Option<AuthAnswer>)
        requires
            self@.wf(),
        ensures
            match r {
                Some(answer) => self@.auth(tenant as int, name@) == Some(answer@),
                None => self@.auth(tenant as int, name@) is None,
            },
    {
        match self.player_index(name) {
            None => None,
            Some(i) => {
                proof {
                    lemma_player_named(self@, i as int, name@);
                }
                let player = &self.players[i];
                match self.membership_index(tenant, player.id) {
                    None => None,
                    Some(j) => {
                        proof {
                            lemma_membership_of(self@, j as int, tenant as int, player.id as int);
                        }
                        let membership = &self.memberships[j];
                        Some(
                            AuthAnswer {
                                password: effective_password(
                                    &player.password,
                                    &membership.pw_override,
                                ),
                                privileges: membership.privileges.clone(),
                                last_login: player.last_login.clone(),
                            },
                        )
                    },
                }
            },
        }
    }

    /// Registers a new player under a tenant: a player row with an empty last
    /// login, and a membership row without an override. Both rows or none.
    pub fn create_auth(&mut self, tenant: i64, name: &str, password: &str, privileges: &str) -> (r:
        Result<(), StoreError>)
        requires
            old(self)@.wf(),
        ensures
            final(self)@.wf(),
            match r {
                Ok(_) => old(self)@.can_create(name@) && final(self)@ == old(self)@.with_auth(
                    tenant as int,
                    name@,
                    password@,
                    privileges@,
                ),
                Err(StoreError::NameTaken) => old(self)@.player_named(name@) is Some && final(self)@ == old(self)@,
                Err(StoreError::Exhausted) => old(self)@.player_named(name@) is None && old(self)@.next_player_id == i64::MAX && final(self)@ == old(self)@,
            },
    {
        match self.player_index(name) {
            Some(i) => {
                proof {
                    lemma_player_named(self@, i as int, name@);
                }
                Err(StoreError::NameTaken)
            },
            None => {
                if self.next_player_id == i64::MAX {
                    Err(StoreError::Exhausted)
                } else {
                    let id: i64 = self.next_player_id;
                    proof {
                        lemma_with_auth_wf(self@, tenant as int, name@, password@, privileges@);
                    }
                    self.players.push(
                        Player {
                            id,
                            name: String::from_str(name),
                            password: String::from_str(password),
                            last_login: String::new(),
                        },
                    );
                    self.memberships.push(
                        Membership {
                            tenant,
                            player: id,
                            privileges: String::from_str(privileges),
                            pw_override: None,
                        },
                    );
                    self.next_player_id = id + 1;
                    proof {
                        let want = old(self)@.with_auth(
                            tenant as int,
                            name@,
                            password@,
                            privileges@,
                        );
                        assert(self@.tenants =~= want.tenants);
                        assert(self@.players =~= want.players);
                        assert(self@.memberships =~= want.memberships);
                    }
                    Ok(())
                }
            },
        }
    }

    /// Sets the global password of a name, whichever tenant asks. Where no
    /// player has the name, nothing changes.
    pub fn set_password(&mut self, name: &str, password: &str)
        requires
            old(self)@.wf(),
        ensures
            final(self)@.wf(),
            final(self)@ == old(self)@.with_password(name@, password@),
    {
        proof {
            lemma_with_password_wf(self@, name@, password@);
        }
        let ghost want = self@.with_password(name@, password@);
        match self.player_index(name) {
            None => {
                proof {
                    assert forall|k: int| 0 <= k < self@.players.len() implies self@.players[k]
                        == want.players[k] by {
                        assert(!name_at(self@.players, k, name@));
                    }
                    assert(self@.players =~= want.players);
                }
            },
            Some(i) => {
                let current = &self.players[i];
                let updated = Player {
                    id: current.id,
                    name: current.name.clone(),
                    password: String::from_str(password),
                    last_login: current.last_login.clone(),
                };
                self.players.set(i, updated);
                proof {
                    assert(self@.tenants =~= want.tenants);
                    assert(self@.memberships =~= want.memberships);
                    assert forall|k: int| 0 <= k < self@.players.len() implies self@.players[k]
                        == want.players[k] by {
                        if k != i {
                            assert(old(self)@.players[k].name != old(self)@.players[i as int].name);
                        }
                    }
                    assert(self@.players =~= want.players);
                }
            },
        }
    }

    /// Sets the last login of a name, whichever tenant asks. Where no player
    /// has the name, nothing changes.
    pub fn record_login(&mut self, name: &str, last_login: &str)
        requires
            old(self)@.wf(),
        ensures
            final(self)@.wf(),
            final(self)@ == old(self)@.with_last_login(name@, last_login@),
    {
        proof {
            lemma_with_last_login_wf(self@, name@, last_login@);
        }
        let ghost want = self@.with_last_login(name@, last_login@);
        match self.player_index(name) {
            None => {
                proof {
                    assert forall|k: int| 0 <= k < self@.players.len() implies self@.players[k]
                        == want.players[k] by {
                        assert(!name_at(self@.players, k, name@));
                    }
                    assert(self@.players =~= want.players);
                }
            },
            Some(i) => {
                let current = &self.players[i];
                let updated = Player {
                    id: current.id,
                    name: current.name.clone(),
                    password: current.password.clone(),
                    last_login: String::from_str(last_login),
                };
                self.players.set(i, updated);
                proof {
                    assert(self@.tenants =~= want.tenants);
                    assert(self@.memberships =~= want.memberships);
                    assert forall|k: int| 0 <= k < self@.players.len() implies self@.players[k]
                        == want.players[k] by {
                        if k != i {
                            assert(old(self)@.players[k].name != old(self)@.players[i as int].name);
                        }
                    }
                    assert(self@.players =~= want.players);
                }
            },
        }
    }

    /// Sets the privileges of a name under one tenant. Where the player or
    /// its membership under that tenant is missing, nothing changes.
    pub fn set_privileges(&mut self, tenant: i64, name: &str, privileges: &str)
        requires
            old(self)@.wf(),
        ensures
            final(self)@.wf(),
            final(self)@ == old(self)@.with_privileges(tenant as int, name@, privileges@),
    {
        proof {
            lemma_with_privileges_wf(self@, tenant as int, name@, privileges@);
        }
        let ghost want = self@.with_privileges(tenant as int, name@, privileges@);
        match self.player_index(name) {
            None => {},
            Some(i) => {
                proof {
                    lemma_player_named(self@, i as int, name@);
                }
                let player: i64 = self.players[i].id;
                match self.membership_index(tenant, player) {
                    None => {
                        proof {
                            assert forall|k: int|
                                0 <= k < self@.memberships.len() implies self@.memberships[k]
                                == want.memberships[k] by {
                                assert(!pair_at(self@.memberships, k, tenant as int, player as int));
                            }
                            assert(self@.memberships =~= want.memberships);
                        }
                    },
                    Some(j) => {
                        let current = &self.memberships[j];
                        let updated = Membership {
                            tenant: current.tenant,
                            player: current.player,
                            privileges: String::from_str(privileges),
                            pw_override: current.pw_override.clone(),
                        };
                        self.memberships.set(j, updated);
                        proof {
                            assert(self@.tenants =~= want.tenants);
                            assert(self@.players =~= want.players);
                            assert forall|k: int|
                                0 <= k < self@.memberships.len() implies self@.memberships[k]
                                == want.memberships[k] by {
                                if k < j {
                                    assert(!(old(self)@.memberships[k].tenant == old(self)@.memberships[j as int].tenant && old(self)@.memberships[k].player == old(self)@.memberships[j as int].player));
                                } else if k > j {
                                    assert(!(old(self)@.memberships[j as int].tenant == old(self)@.memberships[k].tenant && old(self)@.memberships[j as int].player == old(self)@.memberships[k].player));
                                }
                            }
                            assert(self@.memberships =~= want.memberships);
                        }
                    },
                }
            },
        }
    }

    /// Whether a tenant row clashes with none in the table.
    fn accepts_tenant_row(&self, row: &Tenant) -> (r: bool)
        ensures
            r == self@.accepts_tenant(row@),
    {
        let mut i: usize = 0;
        while i < self.tenants.len()
            invariant
                i <= self.tenants.len(),
                forall|k: int|
                    0 <= k < i ==> {
                        &&& self@.tenants[k].id != row@.id
                        &&& self@.tenants[k].name != row@.name
                        &&& self@.tenants[k].api_key != row@.api_key
                    },
            decreases self.tenants.len() - i,
        {
            let other = &self.tenants[i];
            if other.id == row.id || crate::route::same_text(other.name.as_str(), row.name.as_str())
                || crate::route::same_text(other.api_key.as_str(), row.api_key.as_str()) {
                assert(self@.tenants[i as int] == other@);
                return false;
            }
            i += 1;
        }
        true
    }

    /// Whether a player row clashes with none in the table.
    fn accepts_player_row(&self, row: &Player) -> (r: bool)
        ensures
            r == self@.accepts_player(row@),
    {
        if row.id == i64::MAX {
            return false;
        }
        let mut i: usize = 0;
        while i < self.players.len()
            invariant
                i <= self.players.len(),
                forall|k: int|
                    0 <= k < i ==> {
                        &&& self@.players[k].id != row@.id
                        &&& self@.players[k].name != row@.name
                    },
            decreases self.players.len() - i,
        {
            let other = &self.players[i];
            if other.id == row.id || crate::route::same_text(other.name.as_str(), row.name.as_str()) {
                assert(self@.players[i as int] == other@);
                return false;
            }
            i += 1;
        }
        true
    }

    /// Adds a tenant row, unless its id, name or API key is in use.
    pub fn insert_tenant(&mut self, row: Tenant) -> (r: bool)
        requires
            old(self)@.wf(),
        ensures
            final(self)@.wf(),
            r == old(self)@.accepts_tenant(row@),
            r ==> final(self)@ == old(self)@.add_tenant(row@),
            !r ==> final(self)@ == old(self)@,
    {
        if !self.accepts_tenant_row(&row) {
            return false;
        }
        proof {
            lemma_add_tenant_wf(self@, row@);
        }
        let ghost want = self@.add_tenant(row@);
        self.tenants.push(row);
        proof {
            assert(self@.tenants =~= want.tenants);
            assert(self@.players =~= want.players);
            assert(self@.memberships =~= want.memberships);
        }
        true
    }

    /// Adds a player row as it stands, unless its id or name is in use or
    /// its id leaves no room for a next one.
    pub fn insert_player(&mut self, row: Player) -> (r: bool)
        requires
            old(self)@.wf(),
        ensures
            final(self)@.wf(),
            r == old(self)@.accepts_player(row@),
            r ==> final(self)@ == old(self)@.add_player(row@),
            !r ==> final(self)@ == old(self)@,
    {
        if !self.accepts_player_row(&row) {
            return false;
        }
        proof {
            lemma_add_player_wf(self@, row@);
        }
        let ghost want = self@.add_player(row@);
        if row.id >= self.next_player_id {
            self.next_player_id = row.id + 1;
        }
        self.players.push(row);
        proof {
            assert(self@.tenants =~= want.tenants);
            assert(self@.players =~= want.players);
            assert(self@.memberships =~= want.memberships);
        }
        true
    }

    /// Adds a membership row as it stands, override included, unless its
    /// player is missing or is a member of that tenant already.
    pub fn insert_membership(&mut self, row: Membership) -> (r: bool)
        requires
            old(self)@.wf(),
        ensures
            final(self)@.wf(),
            r == old(self)@.accepts_membership(row@),
            r ==> final(self)@ == old(self)@.add_membership(row@),
            !r ==> final(self)@ == old(self)@,
    {
        if self.player_id_index(row.player).is_none() {
            return false;
        }
        if self.membership_index(row.tenant, row.player).is_some() {
            return false;
        }
        proof {
            lemma_add_membership_wf(self@, row@);
        }
        let ghost want = self@.add_membership(row@);
        self.memberships.push(row);
        proof {
            assert(self@.tenants =~= want.tenants);
            assert(self@.players =~= want.players);
            assert(self@.memberships =~= want.memberships);
        }
        true
    }

    /// The tenant rows, in the order in which they were added.
    pub fn tenants(&self) -> (r: &Vec<Tenant>)
        ensures
            r@.len() == self@.tenants.len(),
            forall|i: int| 0 <= i < r@.len() ==> r@[i]@ == self@.tenants[i],
    {
        &self.tenants
    }

    /// The player rows, in the order in which they were added.
    pub fn players(&self) -> (r: &Vec<Player>)
        ensures
            r@.len() == self@.players.len(),
            forall|i: int| 0 <= i < r@.len() ==> r@[i]@ == self@.players[i],
    {
        &self.players
    }

    /// The membership rows, in the order in which they were added.
    pub fn memberships(&self) -> (r: &Vec<Membership>)
        ensures
            r@.len() == self@.memberships.len(),
            forall|i: int| 0 <= i < r@.len() ==> r@[i]@ == self@.memberships[i],
    {
        &self.memberships
    }
}

} // verus!
