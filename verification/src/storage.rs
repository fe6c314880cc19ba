//! The protocol's persistent state: the admin, the two identifier
//! counters, the plans and subscriptions by identifier, and the per-account
//! indexes of plans and subscriptions.

use std::collections::HashMap;

use vstd::prelude::*;

use crate::errors::Error;
use crate::types::{AccountId, Plan, Subscription};

verus! {

broadcast use vstd::std_specs::hash::group_hash_axioms;

/// The list of identifiers recorded for one account.
pub struct IndexEntry {
    owner: AccountId,
    ids: Vec<u64>,
}

/// The protocol's persistent state.
pub struct Storage {
    admin: Option<AccountId>,
    plan_counter: u64,
    sub_counter: u64,
    plans: HashMap<u64, Plan>,
    subscriptions: HashMap<u64, Subscription>,
    merchant_plans: Vec<IndexEntry>,
    subscriber_subs: Vec<IndexEntry>,
}

/// The abstract content of [`Storage`].
pub struct StorageView {
    pub admin: Option<AccountId>,
    pub plan_counter: u64,
    pub sub_counter: u64,
    pub plans: Map<u64, Plan>,
    pub subscriptions: Map<u64, Subscription>,
    pub merchant_plans: Map<AccountId, Seq<u64>>,
    pub subscriber_subs: Map<AccountId, Seq<u64>>,
}

/// The identifiers recorded for `who`: empty when nothing was recorded.
pub open spec fn ids_of(index: Map<AccountId, Seq<u64>>, who: AccountId) -> Seq<u64> {
    if index.contains_key(who) {
        index[who]
    } else {
        Seq::empty()
    }
}

/// An index after `id` is appended to the list of `who`.
pub open spec fn index_pushed(index: Map<AccountId, Seq<u64>>, who: AccountId, id: u64) -> Map<
    AccountId,
    Seq<u64>,
> {
    index.insert(who, ids_of(index, who).push(id))
}

impl StorageView {
    /// Plans and subscriptions are stored under their own identifiers.
    pub open spec fn keys_match(self) -> bool {
        &&& forall|k: u64| #[trigger] self.plans.contains_key(k) ==> self.plans[k].id == k
        &&& forall|k: u64| #[trigger] self.subscriptions.contains_key(k) ==> self.subscriptions[k].id == k
    }

    /// The per-account indexes are exact: every identifier listed for an
    /// account names a record of that account, and every record is listed
    /// for its account.
    pub open spec fn indexes_exact(self) -> bool {
        &&& forall|a: AccountId, i: int|
            0 <= i < ids_of(self.subscriber_subs, a).len() ==> {
                let k = #[trigger] ids_of(self.subscriber_subs, a)[i];
                self.subscriptions.contains_key(k) && self.subscriptions[k].subscriber == a
            }
        &&& forall|k: u64| #[trigger] self.subscriptions.contains_key(k) ==> ids_of(
            self.subscriber_subs,
            self.subscriptions[k].subscriber,
        ).contains(k)
        &&& forall|a: AccountId, i: int|
            0 <= i < ids_of(self.merchant_plans, a).len() ==> {
                let k = #[trigger] ids_of(self.merchant_plans, a)[i];
                self.plans.contains_key(k) && self.plans[k].merchant == a
            }
        &&& forall|k: u64| #[trigger] self.plans.contains_key(k) ==> ids_of(
            self.merchant_plans,
            self.plans[k].merchant,
        ).contains(k)
    }

    /// The counters are ahead of every stored identifier, so the next
    /// identifier handed out is fresh.
    pub open spec fn counters_ahead(self) -> bool {
        &&& forall|k: u64| #[trigger] self.plans.contains_key(k) ==> k <= self.plan_counter
        &&& forall|k: u64| #[trigger] self.subscriptions.contains_key(k) ==> k <= self.sub_counter
    }
}

spec fn index_unique(entries: Seq<IndexEntry>) -> bool {
    forall|i: int, j: int|
        0 <= i < entries.len() && 0 <= j < entries.len() && i != j ==> #[trigger] entries[i].owner
            != #[trigger] entries[j].owner
}

spec fn index_has(entries: Seq<IndexEntry>, who: AccountId) -> bool {
    exists|i: int| 0 <= i < entries.len() && #[trigger] entries[i].owner == who
}

spec fn index_view(entries: Seq<IndexEntry>) -> Map<AccountId, Seq<u64>> {
    Map::new(
        |who: AccountId| index_has(entries, who),
        |who: AccountId|
            entries[choose|i: int| 0 <= i < entries.len() && #[trigger] entries[i].owner == who].ids@,
    )
}

proof fn lemma_index_view_at(entries: Seq<IndexEntry>, i: int)
    requires
        index_unique(entries),
        0 <= i < entries.len(),
    ensures
        index_view(entries).contains_key(entries[i].owner),
        index_view(entries)[entries[i].owner] == entries[i].ids@,
{
    let who = entries[i].owner;
    assert(index_has(entries, who));
    let j = choose|j: int| 0 <= j < entries.len() && #[trigger] entries[j].owner == who;
    assert(entries[j].owner == who);
}

/// Replacing (or adding) the list of one owner changes the view at that
/// owner only.
proof fn lemma_index_update(old_e: Seq<IndexEntry>, new_e: Seq<IndexEntry>, who: AccountId, ids: Seq<u64>)
    requires
        index_unique(old_e),
        index_unique(new_e),
        index_has(new_e, who),
        forall|w: AccountId| w != who ==> (index_has(new_e, w) <==> index_has(old_e, w)),
        forall|i: int| 0 <= i < new_e.len() && #[trigger] new_e[i].owner == who ==> new_e[i].ids@ == ids,
        forall|i: int, j: int|
            0 <= i < new_e.len() && 0 <= j < old_e.len() && #[trigger] new_e[i].owner
                == #[trigger] old_e[j].owner && new_e[i].owner != who ==> new_e[i].ids@
                == old_e[j].ids@,
    ensures
        index_view(new_e) =~= index_view(old_e).insert(who, ids),
{
    assert forall|w: AccountId| #[trigger] index_view(new_e).contains_key(w) implies index_view(
        new_e,
    )[w] == index_view(old_e).insert(who, ids)[w] by {
        let i = choose|i: int| 0 <= i < new_e.len() && #[trigger] new_e[i].owner == w;
        lemma_index_view_at(new_e, i);
        if w != who {
            assert(index_has(old_e, w));
            let j = choose|j: int| 0 <= j < old_e.len() && #[trigger] old_e[j].owner == w;
            lemma_index_view_at(old_e, j);
        }
    }
}

fn copy_ids(v: &Vec<u64>) -> (r: Vec<u64>)
    ensures
        r@ == v@,
{
    let mut r: Vec<u64> = Vec::new();
    let mut k: usize = 0;
    while k < v.len()
        invariant
            k <= v.len(),
            r@ == v@.subrange(0, k as int),
        decreases v.len() - k,
    {
        r.push(v[k]);
        k = k + 1;
        proof {
            assert(r@ =~= v@.subrange(0, k as int));
        }
    }
    proof {
        assert(r@ =~= v@);
    }
    r
}

fn index_find(entries: &Vec<IndexEntry>, who: AccountId) -> (r: Option<usize>)
    ensures
        match r {
            Some(i) => i < entries@.len() && entries@[i as int].owner == who,
            None => !index_has(entries@, who),
        },
{
    let mut k: usize = 0;
    while k < entries.len()
        invariant
            k <= entries@.len(),
            forall|i: int| 0 <= i < k ==> #[trigger] entries@[i].owner != who,
        decreases entries.len() - k,
    {
        if entries[k].owner == who {
            return Some(k);
        }
        k = k + 1;
    }
    None
}

fn index_get(entries: &Vec<IndexEntry>, who: AccountId) -> (r: Vec<u64>)
    requires
        index_unique(entries@),
    ensures
        r@ == ids_of(index_view(entries@), who),
{
    match index_find(entries, who) {
        Some(i) => {
            proof {
                lemma_index_view_at(entries@, i as int);
            }
            copy_ids(&entries[i].ids)
        },
        None => Vec::new(),
    }
}

fn index_set(entries: &mut Vec<IndexEntry>, who: AccountId, ids: Vec<u64>)
    requires
        index_unique(old(entries)@),
    ensures
        index_unique(final(entries)@),
        index_view(final(entries)@) == index_view(old(entries)@).insert(who, ids@),
{
    let ghost ids_v = ids@;
    match index_find(entries, who) {
        Some(i) => {
            entries.set(i, IndexEntry { owner: who, ids });
            proof {
                let o = old(entries)@;
                let n = entries@;
                assert forall|a: int, b: int|
                    0 <= a < n.len() && 0 <= b < n.len() && a != b implies #[trigger] n[a].owner
                    != #[trigger] n[b].owner by {
                    assert(n[a].owner == o[a].owner);
                    assert(n[b].owner == o[b].owner);
                }
                assert(index_has(n, who)) by {
                    assert(n[i as int].owner == who);
                }
                assert forall|w: AccountId| w != who implies (index_has(n, w) <==> index_has(o, w)) by {
                    if index_has(n, w) {
                        let a = choose|a: int| 0 <= a < n.len() && #[trigger] n[a].owner == w;
                        assert(o[a].owner == w);
                    }
                    if index_has(o, w) {
                        let a = choose|a: int| 0 <= a < o.len() && #[trigger] o[a].owner == w;
                        assert(n[a].owner == w);
                    }
                }
                assert forall|a: int, b: int|
                    0 <= a < n.len() && 0 <= b < o.len() && #[trigger] n[a].owner
                        == #[trigger] o[b].owner && n[a].owner != who implies n[a].ids@
                    == o[b].ids@ by {
                    assert(a != i);
                    assert(n[a] == o[a]);
                    assert(o[a].owner == o[b].owner);
                }
                lemma_index_update(o, n, who, ids_v);
            }
        },
        None => {
            entries.push(IndexEntry { owner: who, ids });
            proof {
                let o = old(entries)@;
                let n = entries@;
                let last = o.len() as int;
                assert forall|a: int, b: int|
                    0 <= a < n.len() && 0 <= b < n.len() && a != b implies #[trigger] n[a].owner
                    != #[trigger] n[b].owner by {
                    if a == last {
                        assert(o[b].owner == n[b].owner);
                    } else if b == last {
                        assert(o[a].owner == n[a].owner);
                    } else {
                        assert(o[a].owner == n[a].owner);
                        assert(o[b].owner == n[b].owner);
                    }
                }
                assert(index_has(n, who)) by {
                    assert(n[last].owner == who);
                }
                assert forall|w: AccountId| w != who implies (index_has(n, w) <==> index_has(o, w)) by {
                    if index_has(n, w) {
                        let a = choose|a: int| 0 <= a < n.len() && #[trigger] n[a].owner == w;
                        assert(a != last);
                        assert(o[a].owner == w);
                    }
                    if index_has(o, w) {
                        let a = choose|a: int| 0 <= a < o.len() && #[trigger] o[a].owner == w;
                        assert(n[a].owner == w);
                    }
                }
                assert forall|a: int, b: int|
                    0 <= a < n.len() && 0 <= b < o.len() && #[trigger] n[a].owner
                        == #[trigger] o[b].owner && n[a].owner != who implies n[a].ids@
                    == o[b].ids@ by {
                    assert(a != last);
                    assert(n[a] == o[a]);
                    assert(o[a].owner == o[b].owner);
                }
                lemma_index_update(o, n, who, ids_v);
            }
        },
    }
}

impl View for Storage {
    type V = StorageView;

    closed spec fn view(&self) -> StorageView {
        StorageView {
            admin: self.admin,
            plan_counter: self.plan_counter,
            sub_counter: self.sub_counter,
            plans: self.plans@,
            subscriptions: self.subscriptions@,
            merchant_plans: index_view(self.merchant_plans@),
            subscriber_subs: index_view(self.subscriber_subs@),
        }
    }
}

impl Storage {
    /// The internal consistency of the state: each index lists an account
    /// at most once, and records sit under their own identifiers.
    pub closed spec fn wf(&self) -> bool {
        &&& index_unique(self.merchant_plans@)
        &&& index_unique(self.subscriber_subs@)
        &&& self@.keys_match()
    }

    /// A well-formed state stores records under their own identifiers.
    pub proof fn lemma_keys_match(&self)
        requires
            self.wf(),
        ensures
            self@.keys_match(),
    {
    }

    /// An empty state: no admin, counters at zero, nothing stored.
    pub fn new() -> (r: Storage)
        ensures
            r.wf(),
            r@.admin is None,
            r@.plan_counter == 0,
            r@.sub_counter == 0,
            r@.plans == Map::<u64, Plan>::empty(),
            r@.subscriptions == Map::<u64, Subscription>::empty(),
            r@.merchant_plans == Map::<AccountId, Seq<u64>>::empty(),
            r@.subscriber_subs == Map::<AccountId, Seq<u64>>::empty(),
    {
        let r = Storage {
            admin: None,
            plan_counter: 0,
            sub_counter: 0,
            plans: HashMap::new(),
            subscriptions: HashMap::new(),
            merchant_plans: Vec::new(),
            subscriber_subs: Vec::new(),
        };
        proof {
            assert(index_view(r.merchant_plans@) =~= Map::<AccountId, Seq<u64>>::empty());
            assert(index_view(r.subscriber_subs@) =~= Map::<AccountId, Seq<u64>>::empty());
        }
        r
    }

    /// A state holding the given admin and counters and nothing else; the
    /// starting point for loading stored records one by one.
    pub fn with_header(admin: Option<AccountId>, plan_counter: u64, sub_counter: u64) -> (r: Storage)
        ensures
            r.wf(),
            r@.admin == admin,
            r@.plan_counter == plan_counter,
            r@.sub_counter == sub_counter,
            r@.plans == Map::<u64, Plan>::empty(),
            r@.subscriptions == Map::<u64, Subscription>::empty(),
            r@.merchant_plans == Map::<AccountId, Seq<u64>>::empty(),
            r@.subscriber_subs == Map::<AccountId, Seq<u64>>::empty(),
    {
        let mut r = Storage::new();
        r.admin = admin;
        r.plan_counter = plan_counter;
        r.sub_counter = sub_counter;
        r
    }

    /// The last plan identifier handed out.
    pub fn plan_counter(&self) -> (r: u64)
        ensures
            r == self@.plan_counter,
    {
        self.plan_counter
    }

    /// The last subscription identifier handed out.
    pub fn sub_counter(&self) -> (r: u64)
        ensures
            r == self@.sub_counter,
    {
        self.sub_counter
    }

    /// Replaces the list of plans recorded for `merchant`.
    pub fn set_merchant_plans(&mut self, merchant: AccountId, ids: Vec<u64>)
        requires
            old(self).wf(),
        ensures
            final(self).wf(),
            final(self)@ == (StorageView {
                merchant_plans: old(self)@.merchant_plans.insert(merchant, ids@),
                ..old(self)@
            }),
    {
        index_set(&mut self.merchant_plans, merchant, ids);
    }

    /// Replaces the list of subscriptions recorded for `subscriber`.
    pub fn set_subscriber_subs(&mut self, subscriber: AccountId, ids: Vec<u64>)
        requires
            old(self).wf(),
        ensures
            final(self).wf(),
            final(self)@ == (StorageView {
                subscriber_subs: old(self)@.subscriber_subs.insert(subscriber, ids@),
                ..old(self)@
            }),
    {
        index_set(&mut self.subscriber_subs, subscriber, ids);
    }
}

/// Whether an admin has been set.
pub fn has_admin(store: &Storage) -> (r: bool)
    ensures
        r == store@.admin is Some,
{
    store.admin.is_some()
}

/// Records `admin` as the admin.
pub fn set_admin(store: &mut Storage, admin: AccountId)
    requires
        old(store).wf(),
    ensures
        final(store).wf(),
        final(store)@ == (StorageView { admin: Some(admin), ..old(store)@ }),
{
    store.admin = Some(admin);
}

/// The admin, or `NotInitialized` when none was set.
pub fn get_admin(store: &Storage) -> (r: Result<AccountId, Error>)
    ensures
        match store@.admin {
            Some(a) => r == Ok::<AccountId, Error>(a),
            None => r == Err::<AccountId, Error>(Error::NotInitialized),
        },
{
    match store.admin {
        Some(a) => Ok(a),
        None => Err(Error::NotInitialized),
    }
}

/// Advances the plan counter and returns the new identifier.
pub fn next_plan_id(store: &mut Storage) -> (id: u64)
    requires
        old(store).wf(),
        old(store)@.plan_counter < u64::MAX,
    ensures
        final(store).wf(),
        id == old(store)@.plan_counter + 1,
        final(store)@ == (StorageView { plan_counter: id, ..old(store)@ }),
{
    let id = store.plan_counter + 1;
    store.plan_counter = id;
    id
}

/// Advances the subscription counter and returns the new identifier.
pub fn next_sub_id(store: &mut Storage) -> (id: u64)
    requires
        old(store).wf(),
        old(store)@.sub_counter < u64::MAX,
    ensures
        final(store).wf(),
        id == old(store)@.sub_counter + 1,
        final(store)@ == (StorageView { sub_counter: id, ..old(store)@ }),
{
    let id = store.sub_counter + 1;
    store.sub_counter = id;
    id
}

/// Stores `plan` under its identifier, replacing any plan there.
pub fn set_plan(store: &mut Storage, plan: Plan)
    requires
        old(store).wf(),
    ensures
        final(store).wf(),
        final(store)@ == (StorageView {
            plans: old(store)@.plans.insert(plan.id, plan),
            ..old(store)@
        }),
{
    let id = plan.id;
    store.plans.insert(id, plan);
}

/// The plan stored under `plan_id`, or `PlanNotFound`.
pub fn get_plan(store: &Storage, plan_id: u64) -> (r: Result<Plan, Error>)
    ensures
        store@.plans.contains_key(plan_id) ==> r == Ok::<Plan, Error>(store@.plans[plan_id]),
        !store@.plans.contains_key(plan_id) ==> r == Err::<Plan, Error>(Error::PlanNotFound),
{
    match store.plans.get(&plan_id) {
        Some(p) => Ok(p.duplicate()),
        None => Err(Error::PlanNotFound),
    }
}

/// Stores `sub` under its identifier, replacing any subscription there.
pub fn set_subscription(store: &mut Storage, sub: Subscription)
    requires
        old(store).wf(),
    ensures
        final(store).wf(),
        final(store)@ == (StorageView {
            subscriptions: old(store)@.subscriptions.insert(sub.id, sub),
            ..old(store)@
        }),
{
    store.subscriptions.insert(sub.id, sub);
}

/// The subscription stored under `sub_id`, or `SubscriptionNotFound`.
pub fn get_subscription(store: &Storage, sub_id: u64) -> (r: Result<Subscription, Error>)
    ensures
        store@.subscriptions.contains_key(sub_id) ==> r == Ok::<Subscription, Error>(
            store@.subscriptions[sub_id],
        ),
        !store@.subscriptions.contains_key(sub_id) ==> r == Err::<Subscription, Error>(
            Error::SubscriptionNotFound,
        ),
{
    match store.subscriptions.get(&sub_id) {
        Some(s) => Ok(*s),
        None => Err(Error::SubscriptionNotFound),
    }
}

/// Appends `plan_id` to the plans of `merchant`.
pub fn push_merchant_plan(store: &mut Storage, merchant: AccountId, plan_id: u64)
    requires
        old(store).wf(),
    ensures
        final(store).wf(),
        final(store)@ == (StorageView {
            merchant_plans: index_pushed(old(store)@.merchant_plans, merchant, plan_id),
            ..old(store)@
        }),
{
    let mut ids = index_get(&store.merchant_plans, merchant);
    ids.push(plan_id);
    index_set(&mut store.merchant_plans, merchant, ids);
}

/// The plans of `merchant`, oldest first.
pub fn get_merchant_plans(store: &Storage, merchant: AccountId) -> (r: Vec<u64>)
    requires
        store.wf(),
    ensures
        r@ == ids_of(store@.merchant_plans, merchant),
{
    index_get(&store.merchant_plans, merchant)
}

/// Appends `sub_id` to the subscriptions of `subscriber`.
pub fn push_subscriber_sub(store: &mut Storage, subscriber: AccountId, sub_id: u64)
    requires
        old(store).wf(),
    ensures
        final(store).wf(),
        final(store)@ == (StorageView {
            subscriber_subs: index_pushed(old(store)@.subscriber_subs, subscriber, sub_id),
            ..old(store)@
        }),
{
    let mut ids = index_get(&store.subscriber_subs, subscriber);
    ids.push(sub_id);
    index_set(&mut store.subscriber_subs, subscriber, ids);
}

/// The subscriptions of `subscriber`, oldest first.
pub fn get_subscriber_subs(store: &Storage, subscriber: AccountId) -> (r: Vec<u64>)
    requires
        store.wf(),
    ensures
        r@ == ids_of(store@.subscriber_subs, subscriber),
{
    index_get(&store.subscriber_subs, subscriber)
}

} // verus!
