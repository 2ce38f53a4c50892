use vstd::prelude::*;
use crate::agent::InstanceId;
use crate::random::fresh_uuid;
use crate::config::names_of;
use crate::error::ScrapingError;
use crate::text::same_text;

verus! {

/// How long a proxy reported as failing stays out of rotation, in milliseconds.
pub const PROXY_COOLDOWN_MS: u64 = 300_000;

/// The pool's record of one browser instance; `created_at` is in milliseconds
/// since the Unix epoch. The page itself is owned by the caller.
#[derive(Debug, Clone)]
pub struct PooledInstance {
    pub id: InstanceId,
    pub proxy: Option<String>,
    pub created_at: u64,
}

impl PooledInstance {
    /// An identical copy of this record.
    pub fn duplicate(&self) -> (r: PooledInstance)
        ensures
            r == *self,
    {
        PooledInstance {
            id: self.id,
            proxy: match &self.proxy {
                Some(p) => Some(p.clone()),
                None => None,
            },
            created_at: self.created_at,
        }
    }
}

/// The pool as its contracts see it.
pub struct PoolModel {
    pub instances: Seq<PooledInstance>,
    pub max_instances: usize,
    pub proxies: Seq<Seq<char>>,
    pub proxy_index: usize,
    /// Proxies reported as failing, with the time of the report.
    pub bad_proxies: Seq<(Seq<char>, u64)>,
}

/// The characters of an optional text.
pub open spec fn opt_text(o: Option<String>) -> Option<Seq<char>> {
    match o {
        Some(s) => Some(s@),
        None => None,
    }
}

/// Whether `p` was reported as failing less than the cooldown before `now`.
pub open spec fn in_cooldown(bad: Seq<(Seq<char>, u64)>, p: Seq<char>, now: u64) -> bool {
    exists|j: int| 0 <= j < bad.len() && #[trigger] bad[j].0 == p && now.saturating_sub(bad[j].1) < PROXY_COOLDOWN_MS
}

/// The reports about proxies other than `p`.
pub open spec fn without_reports(bad: Seq<(Seq<char>, u64)>, p: Seq<char>) -> Seq<(Seq<char>, u64)>
    decreases bad.len(),
{
    if bad.len() == 0 {
        Seq::empty()
    } else {
        let rest = without_reports(bad.drop_last(), p);
        if bad.last().0 == p { rest } else { rest.push(bad.last()) }
    }
}

/// The instances on which `keep` holds, in order.
pub open spec fn instances_where(s: Seq<PooledInstance>, keep: spec_fn(PooledInstance) -> bool) -> Seq<PooledInstance>
    decreases s.len(),
{
    if s.len() == 0 {
        Seq::empty()
    } else {
        let rest = instances_where(s.drop_last(), keep);
        if keep(s.last()) { rest.push(s.last()) } else { rest }
    }
}

/// Whether an instance is older than `max_age_ms` at `now`.
pub open spec fn is_stale(i: PooledInstance, now: u64, max_age_ms: u64) -> bool {
    now.saturating_sub(i.created_at) > max_age_ms
}

impl PoolModel {
    /// The proxy tried `k` steps after the rotation's position.
    pub open spec fn proxy_after(self, k: int) -> Seq<char> {
        self.proxies[(self.proxy_index + k) % (self.proxies.len() as int)]
    }

    /// Whether an instance with this id is in the pool.
    pub open spec fn has_instance(self, id: InstanceId) -> bool {
        exists|i: int| 0 <= i < self.instances.len() && #[trigger] self.instances[i].id == id
    }

    /// Well-formedness: within capacity, distinct ids, rotation position in range.
    pub open spec fn wf(self) -> bool {
        &&& self.instances.len() <= self.max_instances
        &&& forall|i: int, j: int| 0 <= i < j < self.instances.len() ==> #[trigger] self.instances[i].id != #[trigger] self.instances[j].id
        &&& (self.proxies.len() > 0 ==> self.proxy_index < self.proxies.len())
    }

    /// The outcome of choosing the next proxy at `now`: the first proxy, in
    /// rotation order from the current position and trying each once, that is
    /// not in cooldown. Choosing one moves the rotation past it and forgets the
    /// reports about it; finding none leaves the pool as it is.
    pub open spec fn next_proxy_is(self, after: PoolModel, now: u64, r: Option<Seq<char>>) -> bool {
        let n = self.proxies.len() as int;
        &&& after.instances == self.instances
        &&& after.max_instances == self.max_instances
        &&& after.proxies == self.proxies
        &&& match r {
            None => {
                &&& after == self
                &&& forall|k: int| 0 <= k < n ==> in_cooldown(self.bad_proxies, #[trigger] self.proxy_after(k), now)
            },
            Some(p) => exists|k: int| {
                &&& 0 <= k < n
                &&& p == self.proxy_after(k)
                &&& !in_cooldown(self.bad_proxies, p, now)
                &&& forall|j: int| 0 <= j < k ==> in_cooldown(self.bad_proxies, #[trigger] self.proxy_after(j), now)
                &&& after.proxy_index == (self.proxy_index + k + 1) % n
                &&& after.bad_proxies == without_reports(self.bad_proxies, p)
            },
        }
    }
}

/// `after` is `before` with `inst` added, made at `now`: its id was not in the
/// pool, and its proxy is the one the rotation chose (see
/// `PoolModel::next_proxy_is`).
pub open spec fn registered(before: PoolModel, after: PoolModel, inst: PooledInstance, now: u64) -> bool {
    &&& inst.created_at == now
    &&& !before.has_instance(inst.id)
    &&& exists|mid: PoolModel| {
        &&& #[trigger] before.next_proxy_is(mid, now, opt_text(inst.proxy))
        &&& after == (PoolModel { instances: mid.instances.push(inst), ..mid })
    }
}

/// Bookkeeping of a bounded pool of browser instances: capacity, the instances
/// handed out, and proxy rotation with a cooldown for failing proxies.
pub struct BrowserPool {
    instances: Vec<PooledInstance>,
    max_instances: usize,
    proxy_list: Vec<String>,
    proxy_index: usize,
    bad_proxies: Vec<(String, u64)>,
}

impl View for BrowserPool {
    type V = PoolModel;

    closed spec fn view(&self) -> PoolModel {
        PoolModel {
            instances: self.instances@,
            max_instances: self.max_instances,
            proxies: names_of(self.proxy_list@),
            proxy_index: self.proxy_index,
            bad_proxies: self.bad_proxies@.map_values(|e: (String, u64)| (e.0@, e.1)),
        }
    }
}

impl BrowserPool {
    /// An empty pool of at most `max_instances` instances rotating through
    /// `proxy_list`.
    pub fn new(max_instances: usize, proxy_list: Vec<String>) -> (r: BrowserPool)
        ensures
            r@.wf(),
            r@.instances.len() == 0,
            r@.max_instances == max_instances,
            r@.proxies == names_of(proxy_list@),
            r@.proxy_index == 0,
            r@.bad_proxies.len() == 0,
    {
        BrowserPool { instances: Vec::new(), max_instances, proxy_list, proxy_index: 0, bad_proxies: Vec::new() }
    }

    /// Whether `proxy` is in cooldown at `now`.
    fn cooling(&self, proxy: &str, now: u64) -> (r: bool)
        ensures
            r == in_cooldown(self@.bad_proxies, proxy@, now),
    {
        let ghost bad = self@.bad_proxies;
        let mut j: usize = 0;
        while j < self.bad_proxies.len()
            invariant
                bad == self@.bad_proxies,
                bad.len() == self.bad_proxies@.len(),
                j <= bad.len(),
                forall|t: int| 0 <= t < j ==> !(bad[t].0 == proxy@ && now.saturating_sub(bad[t].1) < PROXY_COOLDOWN_MS),
            decreases bad.len() - j,
        {
            let entry = &self.bad_proxies[j];
            if same_text(entry.0.as_str(), proxy) && now.saturating_sub(entry.1) < PROXY_COOLDOWN_MS {
                assert(bad[j as int].0 == proxy@);
                return true;
            }
            j = j + 1;
        }
        false
    }

    /// Forgets the reports about `proxy`.
    fn forget_reports(&mut self, proxy: &str)
        ensures
            final(self)@ == (PoolModel { bad_proxies: without_reports(old(self)@.bad_proxies, proxy@), ..old(self)@ }),
    {
        let ghost bad = self@.bad_proxies;
        let mut kept: Vec<(String, u64)> = Vec::new();
        let mut j: usize = 0;
        while j < self.bad_proxies.len()
            invariant
                bad == self@.bad_proxies,
                bad.len() == self.bad_proxies@.len(),
                j <= bad.len(),
                kept@.map_values(|e: (String, u64)| (e.0@, e.1)) == without_reports(bad.take(j as int), proxy@),
            decreases bad.len() - j,
        {
            assert(bad.take(j + 1).drop_last() == bad.take(j as int));
            assert(bad.take(j + 1).last() == bad[j as int]);
            if !same_text(self.bad_proxies[j].0.as_str(), proxy) {
                let entry = (self.bad_proxies[j].0.clone(), self.bad_proxies[j].1);
                kept.push(entry);
                assert(kept@.map_values(|e: (String, u64)| (e.0@, e.1)) =~= without_reports(bad.take(j as int), proxy@).push(bad[j as int]));
            }
            j = j + 1;
        }
        assert(bad.take(j as int) == bad);
        self.bad_proxies = kept;
    }

    /// Marks `proxy` as failing at `now`: it leaves the rotation until the
    /// cooldown has passed.
    pub fn report_bad_proxy(&mut self, proxy: String, now: u64)
        ensures
            final(self)@ == (PoolModel {
                bad_proxies: without_reports(old(self)@.bad_proxies, proxy@).push((proxy@, now)),
                ..old(self)@
            }),
    {
        self.forget_reports(proxy.as_str());
        let ghost mid = self@.bad_proxies;
        self.bad_proxies.push((proxy, now));
        assert(self@.bad_proxies =~= mid.push((proxy@, now)));
    }

    /// Chooses the next proxy at `now` (see `PoolModel::next_proxy_is`); `None`
    /// when there is none or all are in cooldown.
    pub fn get_next_proxy(&mut self, now: u64) -> (r: Option<String>)
        requires
            old(self)@.wf(),
        ensures
            final(self)@.wf(),
            old(self)@.next_proxy_is(final(self)@, now, opt_text(r)),
    {
        let n = self.proxy_list.len();
        if n == 0 {
            return None;
        }
        let ghost m = self@;
        let mut k: usize = 0;
        while k < n
            invariant
                m == self@,
                m == old(self)@,
                m.wf(),
                n == m.proxies.len(),
                n == self.proxy_list@.len(),
                m.proxy_index < n,
                k <= n,
                forall|j: int| 0 <= j < k ==> in_cooldown(m.bad_proxies, #[trigger] m.proxy_after(j), now),
            decreases n - k,
        {
            let start = self.proxy_index;
            let idx: usize = if k < n - start { start + k } else { k - (n - start) };
            proof {
                if k < n - start {
                    vstd::arithmetic::div_mod::lemma_fundamental_div_mod_converse((start + k) as int, n as int, 0, idx as int);
                } else {
                    vstd::arithmetic::div_mod::lemma_fundamental_div_mod_converse((start + k) as int, n as int, 1, idx as int);
                }
                assert(m.proxy_after(k as int) == self.proxy_list@[idx as int]@);
            }
            if !self.cooling(self.proxy_list[idx].as_str(), now) {
                let chosen = self.proxy_list[idx].clone();
                let next: usize = if idx + 1 < n { idx + 1 } else { 0 };
                proof {
                    if k < n - start {
                        if idx + 1 < n {
                            vstd::arithmetic::div_mod::lemma_fundamental_div_mod_converse((start + k + 1) as int, n as int, 0, next as int);
                        } else {
                            vstd::arithmetic::div_mod::lemma_fundamental_div_mod_converse((start + k + 1) as int, n as int, 1, next as int);
                        }
                    } else {
                        vstd::arithmetic::div_mod::lemma_fundamental_div_mod_converse((start + k + 1) as int, n as int, 1, next as int);
                    }
                }
                self.proxy_index = next;
                self.forget_reports(chosen.as_str());
                assert(chosen@ == m.proxy_after(k as int));
                return Some(chosen);
            }
            k = k + 1;
        }
        None
    }

    /// Registers a new instance at `now`, with a fresh random id and the next
    /// proxy of the rotation (see `register_instance`). Fails with
    /// `ResourceLimit`, changing nothing, exactly when the pool is full; a
    /// `BrowserError` can only come from the random id being taken, which needs
    /// an instance already in the pool.
    pub fn create_instance(&mut self, now: u64) -> (r: Result<PooledInstance, ScrapingError>)
        requires
            old(self)@.wf(),
        ensures
            final(self)@.wf(),
            old(self)@.instances.len() >= old(self)@.max_instances ==> (r matches Err(ScrapingError::ResourceLimit(_))),
            r matches Err(ScrapingError::ResourceLimit(_)) ==> old(self)@.instances.len() >= old(self)@.max_instances,
            r matches Err(ScrapingError::BrowserError(_)) ==> old(self)@.instances.len() > 0,
            old(self)@.instances.len() < old(self)@.max_instances && old(self)@.instances.len() == 0 ==> r is Ok,
            r matches Err(e) ==> e is ResourceLimit || e is BrowserError,
            r is Err ==> final(self)@ == old(self)@,
            r matches Ok(inst) ==> registered(old(self)@, final(self)@, inst, now),
    {
        self.register_instance(fresh_uuid(), now)
    }

    /// Registers an instance with id `id` at `now`, with the next proxy of the
    /// rotation (if any). Succeeds exactly when the pool has room and the id is
    /// not taken; otherwise changes nothing and fails with `ResourceLimit` (pool
    /// full) or `BrowserError` (id taken).
    pub fn register_instance(&mut self, id: InstanceId, now: u64) -> (r: Result<PooledInstance, ScrapingError>)
        requires
            old(self)@.wf(),
        ensures
            final(self)@.wf(),
            r is Ok <==> old(self)@.instances.len() < old(self)@.max_instances && !old(self)@.has_instance(id),
            old(self)@.instances.len() >= old(self)@.max_instances ==> (r matches Err(ScrapingError::ResourceLimit(_))),
            old(self)@.instances.len() < old(self)@.max_instances && old(self)@.has_instance(id)
                ==> (r matches Err(ScrapingError::BrowserError(_))),
            r is Err ==> final(self)@ == old(self)@,
            r matches Ok(inst) ==> inst.id == id && registered(old(self)@, final(self)@, inst, now),
    {
        if self.instances.len() >= self.max_instances {
            return Err(ScrapingError::ResourceLimit(String::from_str("Maximum browser instances reached")));
        }
        if self.find_instance(id).is_some() {
            return Err(ScrapingError::BrowserError(String::from_str("Instance id already in use")));
        }
        let ghost o = self@;
        let proxy = self.get_next_proxy(now);
        let ghost mid = self@;
        let instance = PooledInstance { id, proxy, created_at: now };
        self.instances.push(instance.duplicate());
        proof {
            assert(self@ == (PoolModel { instances: mid.instances.push(instance), ..mid }));
            assert forall|i: int, j: int| 0 <= i < j < self@.instances.len() implies self@.instances[i].id != self@.instances[j].id by {
                if j == self@.instances.len() - 1 {
                    assert(o.instances[i].id != id);
                }
            }
        }
        Ok(instance)
    }

    /// Position of the instance with this id.
    fn find_instance(&self, id: InstanceId) -> (r: Option<usize>)
        ensures
            match r {
                Some(i) => i < self@.instances.len() && self@.instances[i as int].id == id,
                None => !self@.has_instance(id),
            },
    {
        let mut i: usize = 0;
        while i < self.instances.len()
            invariant
                i <= self@.instances.len(),
                forall|j: int| 0 <= j < i ==> self@.instances[j].id != id,
            decreases self@.instances.len() - i,
        {
            if self.instances[i].id == id {
                return Some(i);
            }
            i = i + 1;
        }
        None
    }

    /// A copy of the record of the instance with this id, if any.
    pub fn get_instance(&self, id: InstanceId) -> (r: Option<PooledInstance>)
        ensures
            match r {
                Some(inst) => inst.id == id && self@.instances.contains(inst),
                None => !self@.has_instance(id),
            },
    {
        match self.find_instance(id) {
            Some(i) => Some(self.instances[i].duplicate()),
            None => None,
        }
    }

    /// Takes the instance with this id out of the pool and hands its record back
    /// so that the caller can close its page; an unknown id changes nothing.
    pub fn remove_instance(&mut self, id: InstanceId) -> (r: Option<PooledInstance>)
        requires
            old(self)@.wf(),
        ensures
            final(self)@.wf(),
            !old(self)@.has_instance(id) ==> r is None && final(self)@ == old(self)@,
            old(self)@.has_instance(id) ==> exists|i: int| {
                &&& 0 <= i < old(self)@.instances.len()
                &&& r == Some(old(self)@.instances[i])
                &&& old(self)@.instances[i].id == id
                &&& final(self)@ == (PoolModel { instances: old(self)@.instances.remove(i), ..old(self)@ })
            },
    {
        match self.find_instance(id) {
            None => None,
            Some(i) => {
                let ghost o = self@;
                let inst = self.instances.remove(i);
                proof {
                    assert forall|a: int, b: int| 0 <= a < b < self@.instances.len() implies self@.instances[a].id != self@.instances[b].id by {
                        let a1 = if a < i { a } else { a + 1 };
                        let b1 = if b < i { b } else { b + 1 };
                        assert(o.instances[a1].id != o.instances[b1].id);
                    }
                }
                Some(inst)
            },
        }
    }

    /// The number of instances in the pool.
    pub fn get_instance_count(&self) -> (r: usize)
        ensures
            r == self@.instances.len(),
    {
        self.instances.len()
    }

    /// Takes every instance out of the pool and hands the records back.
    pub fn close_all_instances(&mut self) -> (r: Vec<PooledInstance>)
        ensures
            r@ == old(self)@.instances,
            final(self)@ == (PoolModel { instances: Seq::empty(), ..old(self)@ }),
            final(self)@.wf() <== old(self)@.wf(),
    {
        let mut all: Vec<PooledInstance> = Vec::new();
        std::mem::swap(&mut all, &mut self.instances);
        all
    }

    /// Takes out the instances older than `max_age_ms` at `now` and hands them
    /// back, in pool order; the others stay, in order.
    pub fn cleanup_old_instances(&mut self, now: u64, max_age_ms: u64) -> (r: Vec<PooledInstance>)
        requires
            old(self)@.wf(),
        ensures
            final(self)@.wf(),
            r@ == instances_where(old(self)@.instances, |i: PooledInstance| is_stale(i, now, max_age_ms)),
            final(self)@ == (PoolModel {
                instances: instances_where(old(self)@.instances, |i: PooledInstance| !is_stale(i, now, max_age_ms)),
                ..old(self)@
            }),
    {
        let ghost o = self@;
        let mut stale: Vec<PooledInstance> = Vec::new();
        let mut fresh: Vec<PooledInstance> = Vec::new();
        let mut all: Vec<PooledInstance> = Vec::new();
        std::mem::swap(&mut all, &mut self.instances);
        let mut j: usize = 0;
        while j < all.len()
            invariant
                all@ == o.instances,
                j <= all@.len(),
                stale@ == instances_where(all@.take(j as int), |i: PooledInstance| is_stale(i, now, max_age_ms)),
                fresh@ == instances_where(all@.take(j as int), |i: PooledInstance| !is_stale(i, now, max_age_ms)),
            decreases all@.len() - j,
        {
            assert(all@.take(j + 1).drop_last() == all@.take(j as int));
            assert(all@.take(j + 1).last() == all@[j as int]);
            let inst = all[j].duplicate();
            if now.saturating_sub(inst.created_at) > max_age_ms {
                stale.push(inst);
            } else {
                fresh.push(inst);
            }
            j = j + 1;
        }
        assert(all@.take(j as int) == all@);
        self.instances = fresh;
        proof {
            lemma_instances_where_distinct(o.instances, |i: PooledInstance| !is_stale(i, now, max_age_ms));
            lemma_instances_where_len(o.instances, |i: PooledInstance| !is_stale(i, now, max_age_ms));
        }
        stale
    }
}

/// Filtering keeps the instance ids distinct.
pub proof fn lemma_instances_where_distinct(s: Seq<PooledInstance>, keep: spec_fn(PooledInstance) -> bool)
    requires
        forall|a: int, b: int| 0 <= a < b < s.len() ==> #[trigger] s[a].id != #[trigger] s[b].id,
    ensures
        forall|a: int, b: int| 0 <= a < b < instances_where(s, keep).len()
            ==> #[trigger] instances_where(s, keep)[a].id != #[trigger] instances_where(s, keep)[b].id,
    decreases s.len(),
{
    if s.len() > 0 {
        let init = s.drop_last();
        assert forall|a: int, b: int| 0 <= a < b < init.len() implies #[trigger] init[a].id != #[trigger] init[b].id by {
            assert(init[a] == s[a] && init[b] == s[b]);
        }
        lemma_instances_where_distinct(init, keep);
        let rest = instances_where(init, keep);
        let out = instances_where(s, keep);
        assert forall|a: int, b: int| 0 <= a < b < out.len() implies #[trigger] out[a].id != #[trigger] out[b].id by {
            if b < rest.len() {
                assert(out[a] == rest[a] && out[b] == rest[b]);
            } else {
                assert(out[b] == s.last());
                assert(out[a] == rest[a]);
                lemma_instances_where_member(init, keep, a);
                let a1 = choose|a1: int| 0 <= a1 < init.len() && init[a1] == rest[a];
                assert(s[a1] == init[a1]);
                assert(s[a1].id != s[s.len() - 1].id);
            }
        }
    }
}

/// Filtering keeps no more than the input.
pub proof fn lemma_instances_where_len(s: Seq<PooledInstance>, keep: spec_fn(PooledInstance) -> bool)
    ensures
        instances_where(s, keep).len() <= s.len(),
    decreases s.len(),
{
    if s.len() > 0 {
        lemma_instances_where_len(s.drop_last(), keep);
    }
}

/// Every kept item comes from the input.
pub proof fn lemma_instances_where_member(s: Seq<PooledInstance>, keep: spec_fn(PooledInstance) -> bool, a: int)
    requires
        0 <= a < instances_where(s, keep).len(),
    ensures
        exists|a1: int| 0 <= a1 < s.len() && s[a1] == instances_where(s, keep)[a],
    decreases s.len(),
{
    let init = s.drop_last();
    let rest = instances_where(init, keep);
    if a < rest.len() {
        lemma_instances_where_member(init, keep, a);
        let a1 = choose|a1: int| 0 <= a1 < init.len() && init[a1] == rest[a];
        assert(s[a1] == instances_where(s, keep)[a]);
    } else {
        assert(s[s.len() - 1] == instances_where(s, keep)[a]);
    }
}

} // verus!
