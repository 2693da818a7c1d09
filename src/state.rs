use vstd::prelude::*;
use std::collections::HashMap;
use crate::error::ContractError;

verus! {

broadcast use vstd::std_specs::hash::group_hash_axioms;

/// An account address that has passed validation (by the host for callers,
/// by the host's address API for addresses carried in messages).
#[derive(Debug, Clone, PartialEq, Eq)]
pub struct Identity {
    addr: String,
}

impl View for Identity {
    type V = Seq<char>;

    closed spec fn view(&self) -> Seq<char> {
        self.addr@
    }
}

impl Identity {
    /// Wraps an address that the host has already validated.
    pub fn from_validated(addr: String) -> (r: Identity)
        ensures
            r@ == addr@,
    {
        Identity { addr }
    }

    /// The address as text.
    pub fn as_str(&self) -> (r: &str)
        ensures
            r@ == self@,
    {
        self.addr.as_str()
    }

    /// Whether two identities denote the same account.
    pub fn same(&self, other: &Identity) -> (r: bool)
        ensures
            r == (self@ == other@),
    {
        self.addr.eq(&other.addr)
    }

    /// A copy of this identity.
    pub fn copied(&self) -> (r: Identity)
        ensures
            r@ == self@,
    {
        Identity { addr: self.addr.clone() }
    }
}

/// The contract's single configuration record.
#[derive(Debug, Clone, PartialEq, Eq)]
pub struct Config {
    pub admin: Identity,
    pub total_supply: u128,
}

impl View for Config {
    type V = (Seq<char>, u128);

    open spec fn view(&self) -> (Seq<char>, u128) {
        (self.admin@, self.total_supply)
    }
}

impl Config {
    /// A copy of this record.
    pub fn copied(&self) -> (r: Config)
        ensures
            r@ == self@,
    {
        Config { admin: self.admin.copied(), total_supply: self.total_supply }
    }
}

/// Lifecycle of a governance proposal.
#[derive(Debug, Clone, Copy, PartialEq, Eq, Structural)]
pub enum ProposalStatus {
    Pending,
    Passed,
    Rejected,
}

/// A governance proposal.
#[derive(Debug, Clone, Copy, PartialEq, Eq, Structural)]
pub struct Proposal {
    pub status: ProposalStatus,
}

/// Namespace of the configuration slot.
pub const CONFIG_NAMESPACE: &'static str = "config";

/// Namespace of the balance map.
pub const BALANCES_NAMESPACE: &'static str = "bal";

/// Namespace of the proposal map.
pub const PROPOSALS_NAMESPACE: &'static str = "proposal";

/// Namespace of the backup slot.
pub const BACKUP_NAMESPACE: &'static str = "backup";

/// Whether no two names in `names` are equal.
pub open spec fn all_distinct(names: Seq<Seq<char>>) -> bool {
    forall|i: int, j: int| 0 <= i < names.len() && 0 <= j < names.len() && i != j ==> names[i] != names[j]
}

/// The namespaces of the four storage entities, in a fixed order.
pub open spec fn namespace_seq() -> Seq<Seq<char>> {
    seq![CONFIG_NAMESPACE@, BALANCES_NAMESPACE@, PROPOSALS_NAMESPACE@, BACKUP_NAMESPACE@]
}

/// The namespace of every storage entity.
pub fn storage_namespaces() -> (r: Vec<String>)
    ensures
        r@.map_values(|s: String| s@) == namespace_seq(),
{
    let mut r: Vec<String> = Vec::new();
    r.push(String::from_str(CONFIG_NAMESPACE));
    r.push(String::from_str(BALANCES_NAMESPACE));
    r.push(String::from_str(PROPOSALS_NAMESPACE));
    r.push(String::from_str(BACKUP_NAMESPACE));
    assert(r@.map_values(|s: String| s@) =~= namespace_seq());
    r
}

/// Registers storage namespaces: refuses a list in which two entities share
/// one.
pub fn check_namespaces(names: &Vec<String>) -> (r: Result<(), ContractError>)
    ensures
        r is Ok <==> all_distinct(names@.map_values(|s: String| s@)),
        r is Err ==> r->Err_0 == ContractError::KeyCollision,
{
    let ghost v = names@.map_values(|s: String| s@);
    let mut i: usize = 0;
    while i < names.len()
        invariant
            i <= names@.len(),
            v == names@.map_values(|s: String| s@),
            forall|a: int, b: int| 0 <= a < i && 0 <= b < names@.len() && a != b ==> v[a] != v[b],
        decreases names@.len() - i,
    {
        let mut j: usize = 0;
        while j < names.len()
            invariant
                i < names@.len(),
                j <= names@.len(),
                v == names@.map_values(|s: String| s@),
                forall|a: int, b: int| 0 <= a < i && 0 <= b < names@.len() && a != b ==> v[a] != v[b],
                forall|b: int| 0 <= b < j && b != i ==> v[i as int] != v[b],
            decreases names@.len() - j,
        {
            if i != j && names[i].eq(&names[j]) {
                assert(v[i as int] == v[j as int]);
                return Err(ContractError::KeyCollision);
            }
            j = j + 1;
        }
        i = i + 1;
    }
    Ok(())
}

/// Keys of `entries` are unique and the entries list exactly the map.
spec fn entries_agree(entries: Seq<(Identity, u128)>, m: Map<Seq<char>, u128>) -> bool {
    &&& forall|i: int, j: int| 0 <= i < j < entries.len() ==> entries[i].0@ != entries[j].0@
    &&& forall|i: int|
        0 <= i < entries.len() ==> {
            &&& #[trigger] m.contains_key(entries[i].0@)
            &&& m[entries[i].0@] == entries[i].1
        }
    &&& forall|k: Seq<char>|
        #[trigger] m.contains_key(k) ==> exists|i: int| 0 <= i < entries.len() && entries[i].0@ == k
}

/// The contract's persistent state: one configuration slot, a balance map
/// keyed by account, a proposal map keyed by id and a backup slot.
pub struct Store {
    config: Option<Config>,
    balances: Vec<(Identity, u128)>,
    balance_map: Ghost<Map<Seq<char>, u128>>,
    proposals: HashMap<u64, Proposal>,
    backup: Option<Vec<u8>>,
}

impl Store {
    /// What the configuration slot holds.
    pub closed spec fn config_view(&self) -> Option<(Seq<char>, u128)> {
        match self.config {
            Some(c) => Some(c@),
            None => None,
        }
    }

    /// The balance of every account that has one stored.
    pub closed spec fn balances_view(&self) -> Map<Seq<char>, u128> {
        self.balance_map@
    }

    /// The status of every stored proposal.
    pub closed spec fn proposals_view(&self) -> Map<u64, ProposalStatus> {
        Map::new(|id: u64| self.proposals@.contains_key(id), |id: u64| self.proposals@[id].status)
    }

    /// What the backup slot holds.
    pub closed spec fn backup_view(&self) -> Option<Seq<u8>> {
        match self.backup {
            Some(b) => Some(b@),
            None => None,
        }
    }

    /// Whether two stores hold the same state.
    pub open spec fn same_view(&self, other: &Store) -> bool {
        &&& self.config_view() == other.config_view()
        &&& self.balances_view() == other.balances_view()
        &&& self.proposals_view() == other.proposals_view()
        &&& self.backup_view() == other.backup_view()
    }

    /// The balance entries are unique per account and agree with the map.
    pub closed spec fn wf(&self) -> bool {
        entries_agree(self.balances@, self.balance_map@)
    }

    /// An empty store.
    pub fn new() -> (r: Store)
        ensures
            r.wf(),
            r.config_view() is None,
            r.balances_view() == Map::<Seq<char>, u128>::empty(),
            r.proposals_view() == Map::<u64, ProposalStatus>::empty(),
            r.backup_view() is None,
    {
        let r = Store {
            config: None,
            balances: Vec::new(),
            balance_map: Ghost(Map::empty()),
            proposals: HashMap::new(),
            backup: None,
        };
        assert(r.proposals_view() =~= Map::<u64, ProposalStatus>::empty());
        r
    }
    /// Reads the configuration; a missing slot is an error, never a default.
    pub fn load_config(&self) -> (r: Result<Config, ContractError>)
        ensures
            match self.config_view() {
                Some(c) => r is Ok && r->Ok_0@ == c,
                None => r == Err::<Config, ContractError>(ContractError::NotFound),
            },
    {
        match &self.config {
            Some(c) => Ok(c.copied()),
            None => Err(ContractError::NotFound),
        }
    }

    /// Writes the configuration slot.
    pub fn save_config(&mut self, config: Config)
        requires
            old(self).wf(),
        ensures
            final(self).wf(),
            final(self).config_view() == Some(config@),
            final(self).balances_view() == old(self).balances_view(),
            final(self).proposals_view() == old(self).proposals_view(),
            final(self).backup_view() == old(self).backup_view(),
    {
        self.config = Some(config);
    }

    /// Empties the configuration slot.
    pub fn remove_config(&mut self)
        requires
            old(self).wf(),
        ensures
            final(self).wf(),
            final(self).config_view() is None,
            final(self).balances_view() == old(self).balances_view(),
            final(self).proposals_view() == old(self).proposals_view(),
            final(self).backup_view() == old(self).backup_view(),
    {
        self.config = None;
    }

    /// Position of an account's entry in the balance list.
    fn find_balance(&self, who: &Identity) -> (r: Option<usize>)
        requires
            self.wf(),
        ensures
            match r {
                Some(i) => i < self.balances@.len() && self.balances@[i as int].0@ == who@,
                None => !self.balance_map@.contains_key(who@),
            },
    {
        let mut i: usize = 0;
        while i < self.balances.len()
            invariant
                self.wf(),
                i <= self.balances@.len(),
                forall|j: int| 0 <= j < i ==> self.balances@[j].0@ != who@,
            decreases self.balances@.len() - i,
        {
            if self.balances[i].0.same(who) {
                return Some(i);
            }
            i = i + 1;
        }
        None
    }

    /// Reads an account's balance; `None` where none is stored.
    pub fn load_balance(&self, who: &Identity) -> (r: Option<u128>)
        requires
            self.wf(),
        ensures
            r == (if self.balances_view().contains_key(who@) {
                Some(self.balances_view()[who@])
            } else {
                None::<u128>
            }),
    {
        match self.find_balance(who) {
            Some(i) => Some(self.balances[i].1),
            None => None,
        }
    }

    /// Writes an account's balance.
    pub fn save_balance(&mut self, who: &Identity, amount: u128)
        requires
            old(self).wf(),
        ensures
            final(self).wf(),
            final(self).balances_view() == old(self).balances_view().insert(who@, amount),
            final(self).config_view() == old(self).config_view(),
            final(self).proposals_view() == old(self).proposals_view(),
            final(self).backup_view() == old(self).backup_view(),
    {
        let ghost pre = self.balances@;
        let ghost m = self.balance_map@;
        match self.find_balance(who) {
            Some(i) => {
                self.balances.set(i, (who.copied(), amount));
                self.balance_map = Ghost(m.insert(who@, amount));
                assert forall|k: Seq<char>| #[trigger] self.balance_map@.contains_key(k) implies
                    exists|j: int| 0 <= j < self.balances@.len() && self.balances@[j].0@ == k by {
                    if k != who@ {
                        let j = choose|j: int| 0 <= j < pre.len() && pre[j].0@ == k;
                        assert(self.balances@[j].0@ == k);
                    } else {
                        assert(self.balances@[i as int].0@ == k);
                    }
                }
            },
            None => {
                self.balances.push((who.copied(), amount));
                self.balance_map = Ghost(m.insert(who@, amount));
                assert forall|k: Seq<char>| #[trigger] self.balance_map@.contains_key(k) implies
                    exists|j: int| 0 <= j < self.balances@.len() && self.balances@[j].0@ == k by {
                    if k != who@ {
                        let j = choose|j: int| 0 <= j < pre.len() && pre[j].0@ == k;
                        assert(self.balances@[j].0@ == k);
                    } else {
                        assert(self.balances@[pre.len() as int].0@ == k);
                    }
                }
            },
        }
    }

    /// Reads a proposal; a missing entry is an error.
    pub fn load_proposal(&self, id: u64) -> (r: Result<Proposal, ContractError>)
        ensures
            if self.proposals_view().contains_key(id) {
                r is Ok && r->Ok_0.status == self.proposals_view()[id]
            } else {
                r == Err::<Proposal, ContractError>(ContractError::NotFound)
            },
    {
        match self.proposals.get(&id) {
            Some(p) => Ok(*p),
            None => Err(ContractError::NotFound),
        }
    }

    /// Writes a proposal.
    pub fn save_proposal(&mut self, id: u64, proposal: Proposal)
        requires
            old(self).wf(),
        ensures
            final(self).wf(),
            final(self).proposals_view() == old(self).proposals_view().insert(id, proposal.status),
            final(self).config_view() == old(self).config_view(),
            final(self).balances_view() == old(self).balances_view(),
            final(self).backup_view() == old(self).backup_view(),
    {
        self.proposals.insert(id, proposal);
        assert(self.proposals_view() =~= old(self).proposals_view().insert(id, proposal.status));
    }

    /// Reads the backup slot.
    pub fn load_backup(&self) -> (r: Option<&Vec<u8>>)
        ensures
            match r {
                Some(b) => self.backup_view() == Some(b@),
                None => self.backup_view() is None,
            },
    {
        self.backup.as_ref()
    }

    /// Writes the backup slot.
    pub fn save_backup(&mut self, data: Vec<u8>)
        requires
            old(self).wf(),
        ensures
            final(self).wf(),
            final(self).backup_view() == Some(data@),
            final(self).config_view() == old(self).config_view(),
            final(self).balances_view() == old(self).balances_view(),
            final(self).proposals_view() == old(self).proposals_view(),
    {
        self.backup = Some(data);
    }
}

} // verus!
