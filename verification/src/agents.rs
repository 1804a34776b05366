//! The pools of accounts that a session sends from.
use vstd::prelude::*;

verus! {

/// The address of an account.
pub type Address = [u8; 20];

/// What a pool of accounts is for.
#[derive(Clone, Copy, Debug, PartialEq, Eq, Structural)]
pub enum AgentClass {
    /// Deploys contracts.
    Deployer,
    /// Sends the transactions that prepare a scenario.
    Setup,
    /// Sends the spam.
    Spammer,
}

impl Default for AgentClass {
    fn default() -> (class: Self)
        ensures
            class == AgentClass::Spammer,
    {
        AgentClass::Spammer
    }
}

/// A named pool of accounts.
pub struct AgentPool {
    pub name: String,
    pub agent_class: AgentClass,
    pub addresses: Vec<Address>,
}

/// What an [`AgentPool`] holds.
pub struct PoolModel {
    pub name: Seq<char>,
    pub agent_class: AgentClass,
    pub addresses: Seq<Address>,
}

impl View for AgentPool {
    type V = PoolModel;

    open spec fn view(&self) -> PoolModel {
        PoolModel {
            name: self.name@,
            agent_class: self.agent_class,
            addresses: self.addresses@,
        }
    }
}

/// What several pools hold, in order.
pub open spec fn pool_models(pools: Seq<AgentPool>) -> Seq<PoolModel> {
    pools.map_values(|pool: AgentPool| pool@)
}

/// The pools of `class`, in order.
pub open spec fn pools_of(pools: Seq<PoolModel>, class: AgentClass) -> Seq<PoolModel> {
    pools.filter(|pool: PoolModel| pool.agent_class == class)
}

/// The addresses of all the pools, pool by pool.
pub open spec fn addresses_of(pools: Seq<PoolModel>) -> Seq<Address>
    decreases pools.len(),
{
    if pools.len() == 0 {
        Seq::empty()
    } else {
        addresses_of(pools.drop_last()) + pools.last().addresses
    }
}

fn clone_addresses(addresses: &Vec<Address>) -> (copies: Vec<Address>)
    ensures
        copies@ == addresses@,
{
    let mut copies: Vec<Address> = Vec::new();
    let mut i: usize = 0;
    while i < addresses.len()
        invariant
            i <= addresses@.len(),
            copies@ == addresses@.take(i as int),
        decreases addresses@.len() - i,
    {
        copies.push(addresses[i]);
        assert(addresses@.take(i + 1) =~= addresses@.take(i as int).push(addresses@[i as int]));
        i += 1;
    }
    assert(addresses@.take(i as int) =~= addresses@);
    copies
}

impl Clone for AgentPool {
    fn clone(&self) -> (copy: Self)
        ensures
            copy@ == self@,
    {
        let addresses = clone_addresses(&self.addresses);
        AgentPool { name: self.name.clone(), agent_class: self.agent_class, addresses }
    }
}

/// Copies a list of pools.
pub fn clone_pools(pools: &Vec<AgentPool>) -> (copies: Vec<AgentPool>)
    ensures
        pool_models(copies@) == pool_models(pools@),
{
    let copies = pools.clone();
    assert(pool_models(copies@) =~= pool_models(pools@));
    copies
}

/// All the pools of a session.
pub struct AgentStore {
    pub pools: Vec<AgentPool>,
}

impl View for AgentStore {
    type V = Seq<PoolModel>;

    open spec fn view(&self) -> Seq<PoolModel> {
        pool_models(self.pools@)
    }
}

impl Clone for AgentStore {
    fn clone(&self) -> (copy: Self)
        ensures
            copy@ == self@,
    {
        AgentStore { pools: clone_pools(&self.pools) }
    }
}

impl AgentStore {
    /// Returns every pool of `class`, not just the first.
    pub fn pools_of_class(&self, class: AgentClass) -> (pools: Vec<AgentPool>)
        ensures
            pool_models(pools@) == pools_of(self@, class),
    {
        let ghost wanted = |pool: PoolModel| pool.agent_class == class;
        let mut pools: Vec<AgentPool> = Vec::new();
        assert(pool_models(pools@) =~= self@.take(0).filter(wanted)) by {
            reveal(Seq::filter);
        }
        let mut i: usize = 0;
        while i < self.pools.len()
            invariant
                i <= self.pools@.len(),
                wanted == (|pool: PoolModel| pool.agent_class == class),
                pool_models(pools@) == self@.take(i as int).filter(wanted),
            decreases self.pools@.len() - i,
        {
            let ghost before = pools@;
            let ghost item = self@[i as int];
            if self.pools[i].agent_class == class {
                pools.push(self.pools[i].clone());
                assert(pool_models(pools@) =~= pool_models(before).push(item));
            }
            proof {
                reveal(Seq::filter);
                let longer = self@.take(i + 1);
                assert(longer.drop_last() =~= self@.take(i as int));
                assert(longer.last() == item);
            }
            i += 1;
        }
        assert(self@.take(i as int) =~= self@);
        pools
    }
}

/// Lists the addresses of all the pools, pool by pool.
pub fn all_addresses(pools: &Vec<AgentPool>) -> (addresses: Vec<Address>)
    ensures
        addresses@ == addresses_of(pool_models(pools@)),
{
    let ghost models = pool_models(pools@);
    let mut addresses: Vec<Address> = Vec::new();
    let mut i: usize = 0;
    while i < pools.len()
        invariant
            i <= pools@.len(),
            models == pool_models(pools@),
            addresses@ == addresses_of(models.take(i as int)),
        decreases pools@.len() - i,
    {
        let mut more = clone_addresses(&pools[i].addresses);
        addresses.append(&mut more);
        proof {
            let longer = models.take(i + 1);
            assert(longer.drop_last() =~= models.take(i as int));
            assert(longer.last() == models[i as int]);
        }
        i += 1;
    }
    assert(models.take(i as int) =~= models);
    addresses
}

/// The pools of a class are exactly the store's pools of that class: none of
/// them is left out, and no other is taken in.
pub proof fn pools_of_class_are_complete(pools: Seq<PoolModel>, class: AgentClass, pool: PoolModel)
    ensures
        pools_of(pools, class).contains(pool) <==> pools.contains(pool) && pool.agent_class
            == class,
{
    let wanted = |p: PoolModel| p.agent_class == class;
    broadcast use vstd::seq_lib::group_filter_ensures;

    if pools_of(pools, class).contains(pool) {
        let i = choose|i: int|
            0 <= i < pools_of(pools, class).len() && pools_of(pools, class)[i] == pool;
        assert(wanted(pools.filter(wanted)[i]));
        pools.lemma_filter_contains_rev(wanted, pool);
    }
    if pools.contains(pool) && pool.agent_class == class {
        let i = choose|i: int| 0 <= i < pools.len() && pools[i] == pool;
        assert(wanted(pools[i]));
    }
}

/// An address is listed if and only if one of the pools holds it.
pub proof fn every_address_is_listed(pools: Seq<PoolModel>, address: Address)
    ensures
        addresses_of(pools).contains(address) <==> exists|i: int|
            0 <= i < pools.len() && (#[trigger] pools[i]).addresses.contains(address),
    decreases pools.len(),
{
    if pools.len() > 0 {
        let front = pools.drop_last();
        every_address_is_listed(front, address);
        assert(addresses_of(pools).contains(address) <==> addresses_of(front).contains(address)
            || pools.last().addresses.contains(address)) by {
            broadcast use vstd::seq_lib::group_seq_properties;

        }
        if exists|i: int| 0 <= i < front.len() && (#[trigger] front[i]).addresses.contains(address) {
            let i = choose|i: int|
                0 <= i < front.len() && (#[trigger] front[i]).addresses.contains(address);
            assert(pools[i].addresses.contains(address));
        }
        if exists|i: int| 0 <= i < pools.len() && (#[trigger] pools[i]).addresses.contains(address) {
            let i = choose|i: int|
                0 <= i < pools.len() && (#[trigger] pools[i]).addresses.contains(address);
            if i < front.len() {
                assert(front[i].addresses.contains(address));
            }
        }
    }
}

/// The models of a list of pools stand for the pools one for one, in order, and
/// leave nothing out of them; those of a store are those of its pools.
pub proof fn pool_models_are_faithful(store: AgentStore, i: int)
    requires
        0 <= i < store.pools@.len(),
    ensures
        store@ == pool_models(store.pools@),
        pool_models(store.pools@).len() == store.pools@.len(),
        pool_models(store.pools@)[i].name == store.pools@[i].name@,
        pool_models(store.pools@)[i].agent_class == store.pools@[i].agent_class,
        pool_models(store.pools@)[i].addresses == store.pools@[i].addresses@,
{
}

/// The pools of a class are picked from the list as often as they stand there
/// and in its order: `places` are rising, the pool at each of them is picked, and
/// every place that holds a pool of the class is among them.
pub proof fn pools_of_class_keep_their_places(pools: Seq<PoolModel>, class: AgentClass) -> (places:
    Seq<int>)
    ensures
        places.len() == pools_of(pools, class).len(),
        forall|k: int|
            0 <= k < places.len() ==> {
                &&& 0 <= #[trigger] places[k] < pools.len()
                &&& pools[places[k]].agent_class == class
                &&& pools_of(pools, class)[k] == pools[places[k]]
            },
        forall|j: int, k: int| 0 <= j < k < places.len() ==> places[j] < places[k],
        forall|i: int|
            0 <= i < pools.len() && (#[trigger] pools[i]).agent_class == class ==> places.contains(
                i,
            ),
    decreases pools.len(),
{
    let wanted = |pool: PoolModel| pool.agent_class == class;
    reveal(Seq::filter);
    if pools.len() == 0 {
        Seq::empty()
    } else {
        let front = pools.drop_last();
        let before = pools_of_class_keep_their_places(front, class);
        assert(pools_of(front, class) == front.filter(wanted));
        let places = if wanted(pools.last()) {
            before.push(pools.len() - 1)
        } else {
            before
        };
        assert forall|i: int|
            0 <= i < pools.len() && (#[trigger] pools[i]).agent_class == class implies places.contains(
            i,
        ) by {
            if i < front.len() {
                assert(front[i].agent_class == class);
                let k = choose|k: int| 0 <= k < before.len() && before[k] == i;
                assert(places[k] == i);
            } else {
                assert(places[before.len() as int] == i);
            }
        }
        places
    }
}

/// One more pool adds its own addresses, in order, behind those of the pools
/// before it; no pools have no addresses.
pub proof fn addresses_follow_the_pools(pools: Seq<PoolModel>, next: PoolModel)
    ensures
        addresses_of(Seq::<PoolModel>::empty()).len() == 0,
        addresses_of(pools.push(next)) == addresses_of(pools) + next.addresses,
{
    assert(pools.push(next).drop_last() =~= pools);
}

} // verus!
