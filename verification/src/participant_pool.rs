//! What a pool of domain participants reports about discovered entities.
use vstd::prelude::*;
use crate::error::{DdsError, DdsResult};

verus! {

/// Information about a discovered topic.
#[derive(Debug, Clone)]
pub struct DiscoveredTopic {
    pub name: String,
    pub type_name_value: String,
}

/// Information about a discovered participant.
#[derive(Debug, Clone)]
pub struct DiscoveredParticipant {
    pub domain_id: u32,
    pub name: Option<String>,
}


// ---------------------------------------------------------------------------
// The pool's registry
// ---------------------------------------------------------------------------

/// The position of the entry for `domain`, or -1.
pub open spec fn domain_index<P>(es: Seq<(u32, P, u64)>, domain: u32) -> int
    decreases es.len(),
{
    if es.len() == 0 {
        -1
    } else {
        let k = domain_index(es.drop_last(), domain);
        if k >= 0 {
            k
        } else if es.last().0 == domain {
            es.len() - 1
        } else {
            -1
        }
    }
}

pub proof fn lemma_domain_index<P>(es: Seq<(u32, P, u64)>, domain: u32)
    ensures
        domain_index(es, domain) == -1 <==> forall|j: int| 0 <= j < es.len() ==> es[j].0 != domain,
        domain_index(es, domain) != -1 ==> 0 <= domain_index(es, domain) < es.len()
            && es[domain_index(es, domain)].0 == domain && forall|j: int|
            0 <= j < domain_index(es, domain) ==> es[j].0 != domain,
    decreases es.len(),
{
    if es.len() > 0 {
        lemma_domain_index(es.drop_last(), domain);
        assert(forall|j: int| 0 <= j < es.len() - 1 ==> es.drop_last()[j] == es[j]);
    }
}

/// No domain has two entries.
pub open spec fn domains_unique<P>(es: Seq<(u32, P, u64)>) -> bool {
    forall|i: int, j: int| 0 <= i < j < es.len() ==> es[i].0 != es[j].0
}

/// How long ago, at `now`, a heartbeat at `last` was (zero when `last` is
/// later, as `Instant::duration_since` saturates).
pub open spec fn elapsed(now: u64, last: u64) -> int {
    if now >= last {
        now - last
    } else {
        0
    }
}

/// An entry is stale when its last heartbeat is more than `threshold` ago.
pub open spec fn is_stale<P>(e: (u32, P, u64), now: u64, threshold: u64) -> bool {
    elapsed(now, e.2) > threshold
}

/// The entries that are not stale, in order.
pub open spec fn fresh_entries<P>(es: Seq<(u32, P, u64)>, now: u64, threshold: u64) -> Seq<(u32, P, u64)>
    decreases es.len(),
{
    if es.len() == 0 {
        es
    } else {
        let rest = fresh_entries(es.drop_last(), now, threshold);
        if is_stale(es.last(), now, threshold) {
            rest
        } else {
            rest.push(es.last())
        }
    }
}

/// The domains of the stale entries, in order.
pub open spec fn stale_domains<P>(es: Seq<(u32, P, u64)>, now: u64, threshold: u64) -> Seq<u32>
    decreases es.len(),
{
    if es.len() == 0 {
        Seq::empty()
    } else {
        let rest = stale_domains(es.drop_last(), now, threshold);
        if is_stale(es.last(), now, threshold) {
            rest.push(es.last().0)
        } else {
            rest
        }
    }
}

/// A purge removes exactly the stale entries: what is left was heard from
/// within the threshold and was there before, every such entry is left,
/// every stale entry's domain is reported, and nothing else is.
pub proof fn law_purge_keeps_exactly_the_fresh<P>(es: Seq<(u32, P, u64)>, now: u64, threshold: u64)
    ensures
        forall|i: int|
            0 <= i < fresh_entries(es, now, threshold).len() ==> !is_stale(
                #[trigger] fresh_entries(es, now, threshold)[i],
                now,
                threshold,
            ) && es.contains(fresh_entries(es, now, threshold)[i]),
        forall|i: int|
            0 <= i < es.len() && !is_stale(#[trigger] es[i], now, threshold) ==> fresh_entries(
                es,
                now,
                threshold,
            ).contains(es[i]),
        forall|i: int|
            0 <= i < es.len() && is_stale(#[trigger] es[i], now, threshold) ==> stale_domains(
                es,
                now,
                threshold,
            ).contains(es[i].0),
        fresh_entries(es, now, threshold).len() + stale_domains(es, now, threshold).len()
            == es.len(),
    decreases es.len(),
{
    if es.len() > 0 {
        let rest = es.drop_last();
        law_purge_keeps_exactly_the_fresh(rest, now, threshold);
        let f0 = fresh_entries(rest, now, threshold);
        let s0 = stale_domains(rest, now, threshold);
        let f = fresh_entries(es, now, threshold);
        let st = stale_domains(es, now, threshold);
        assert forall|i: int| 0 <= i < f.len() implies !is_stale(#[trigger] f[i], now, threshold)
            && es.contains(f[i]) by {
            if i < f0.len() {
                assert(f[i] == f0[i]);
                assert(rest.contains(f0[i]));
                let j = choose|j: int| 0 <= j < rest.len() && rest[j] == f0[i];
                assert(es[j] == rest[j]);
            } else {
                assert(f[i] == es.last());
                assert(es[es.len() - 1] == es.last());
            }
        }
        assert forall|i: int| 0 <= i < es.len() && !is_stale(#[trigger] es[i], now, threshold)
            implies f.contains(es[i]) by {
            if i < es.len() - 1 {
                assert(rest[i] == es[i]);
                assert(f0.contains(rest[i]));
                let j = choose|j: int| 0 <= j < f0.len() && f0[j] == rest[i];
                if is_stale(es.last(), now, threshold) {
                    assert(f == f0);
                } else {
                    assert(f[j] == f0[j]);
                }
            } else {
                assert(f[f.len() - 1] == es[i]);
            }
        }
        assert forall|i: int| 0 <= i < es.len() && is_stale(#[trigger] es[i], now, threshold)
            implies st.contains(es[i].0) by {
            if i < es.len() - 1 {
                assert(rest[i] == es[i]);
                assert(s0.contains(rest[i].0));
                let j = choose|j: int| 0 <= j < s0.len() && s0[j] == rest[i].0;
                if is_stale(es.last(), now, threshold) {
                    assert(st[j] == s0[j]);
                } else {
                    assert(st == s0);
                }
            } else {
                assert(st[st.len() - 1] == es[i].0);
            }
        }
    }
}

proof fn lemma_unique_update<P>(es: Seq<(u32, P, u64)>, i: int, e: (u32, P, u64))
    requires
        domains_unique(es),
        0 <= i < es.len(),
        e.0 == es[i].0,
    ensures
        domains_unique(es.update(i, e)),
{
    assert forall|a: int, b: int| 0 <= a < b < es.len() implies es.update(i, e)[a].0 != es.update(
        i,
        e,
    )[b].0 by {
        assert(es[a].0 != es[b].0);
    }
}

proof fn lemma_unique_push<P>(es: Seq<(u32, P, u64)>, e: (u32, P, u64))
    requires
        domains_unique(es),
        forall|j: int| 0 <= j < es.len() ==> es[j].0 != e.0,
    ensures
        domains_unique(es.push(e)),
{
    assert forall|a: int, b: int| 0 <= a < b < es.len() + 1 implies es.push(e)[a].0 != es.push(e)[b].0 by {
        if b < es.len() {
            assert(es[a].0 != es[b].0);
        }
    }
}

proof fn lemma_unique_remove<P>(es: Seq<(u32, P, u64)>, i: int)
    requires
        domains_unique(es),
        0 <= i < es.len(),
    ensures
        domains_unique(es.remove(i)),
{
    assert forall|a: int, b: int| 0 <= a < b < es.len() - 1 implies es.remove(i)[a].0 != es.remove(
        i,
    )[b].0 by {
        let a2 = if a < i { a } else { a + 1 };
        let b2 = if b < i { b } else { b + 1 };
        assert(es[a2].0 != es[b2].0);
    }
}

/// The fresh entries are a selection of the entries, in order.
proof fn lemma_fresh_unique<P>(es: Seq<(u32, P, u64)>, now: u64, threshold: u64)
    requires
        domains_unique(es),
    ensures
        domains_unique(fresh_entries(es, now, threshold)),
        forall|j: int|
            0 <= j < fresh_entries(es, now, threshold).len() ==> es.contains(
                #[trigger] fresh_entries(es, now, threshold)[j],
            ),
    decreases es.len(),
{
    if es.len() > 0 {
        let rest = es.drop_last();
        assert forall|a: int, b: int| 0 <= a < b < rest.len() implies rest[a].0 != rest[b].0 by {
            assert(es[a].0 != es[b].0);
        }
        lemma_fresh_unique(rest, now, threshold);
        let f0 = fresh_entries(rest, now, threshold);
        assert forall|j: int| 0 <= j < f0.len() implies es.contains(#[trigger] f0[j]) by {
            let k = choose|k: int| 0 <= k < rest.len() && rest[k] == f0[j];
            assert(es[k] == rest[k]);
        }
        if !is_stale(es.last(), now, threshold) {
            assert forall|j: int| 0 <= j < f0.len() implies f0[j].0 != es.last().0 by {
                let k = choose|k: int| 0 <= k < rest.len() && rest[k] == f0[j];
                assert(es[k] == rest[k]);
                assert(es[k].0 != es[es.len() - 1].0);
            }
            lemma_unique_push(f0, es.last());
            let f = fresh_entries(es, now, threshold);
            assert forall|j: int| 0 <= j < f.len() implies es.contains(#[trigger] f[j]) by {
                if j < f0.len() {
                    assert(f[j] == f0[j]);
                } else {
                    assert(es[es.len() - 1] == f[j]);
                }
            }
        }
    }
}

/// `d` is the domain of an entry that is stale.
pub open spec fn stale_domain_of<P>(es: Seq<(u32, P, u64)>, d: u32, now: u64, threshold: u64) -> bool {
    exists|m: int| 0 <= m < es.len() && es[m].0 == d && is_stale(es[m], now, threshold)
}

/// The stale domains of a registry with one entry per domain are each the
/// domain of a stale entry, and no domain is reported twice.
proof fn lemma_stale_distinct<P>(es: Seq<(u32, P, u64)>, now: u64, threshold: u64)
    requires
        domains_unique(es),
    ensures
        forall|k: int|
            0 <= k < stale_domains(es, now, threshold).len() ==> #[trigger] stale_domain_of(
                es,
                stale_domains(es, now, threshold)[k],
                now,
                threshold,
            ),
        forall|a: int, b: int|
            0 <= a < b < stale_domains(es, now, threshold).len() ==> stale_domains(es, now, threshold)[a]
                != stale_domains(es, now, threshold)[b],
    decreases es.len(),
{
    if es.len() > 0 {
        let rest = es.drop_last();
        assert forall|a: int, b: int| 0 <= a < b < rest.len() implies rest[a].0 != rest[b].0 by {
            assert(es[a].0 != es[b].0);
        }
        lemma_stale_distinct(rest, now, threshold);
        let s0 = stale_domains(rest, now, threshold);
        let s = stale_domains(es, now, threshold);
        assert forall|k: int| 0 <= k < s.len() implies #[trigger] stale_domain_of(es, s[k], now, threshold) by {
            if k < s0.len() {
                assert(s[k] == s0[k]);
                assert(stale_domain_of(rest, s0[k], now, threshold));
                let m = choose|m: int| 0 <= m < rest.len() && rest[m].0 == s0[k] && is_stale(rest[m], now, threshold);
                assert(es[m] == rest[m]);
                assert(0 <= m < es.len() && es[m].0 == s[k] && is_stale(es[m], now, threshold));
            } else {
                let m = es.len() - 1;
                assert(es[m] == es.last());
                assert(is_stale(es.last(), now, threshold));
                assert(0 <= m < es.len() && es[m].0 == s[k] && is_stale(es[m], now, threshold));
            }
        }
        if is_stale(es.last(), now, threshold) {
            assert forall|a: int, b: int| 0 <= a < b < s.len() implies s[a] != s[b] by {
                if b < s0.len() {
                    assert(s[a] == s0[a] && s[b] == s0[b]);
                } else {
                    assert(s[a] == s0[a]);
                    assert(stale_domain_of(rest, s0[a], now, threshold));
                    let m = choose|m: int| 0 <= m < rest.len() && rest[m].0 == s0[a] && is_stale(rest[m], now, threshold);
                    assert(es[m] == rest[m]);
                    assert(es[m].0 != es[es.len() - 1].0);
                }
            }
        }
    }
}

/// The participants of a pool, one per domain, each with the time of its
/// last heartbeat (in nanoseconds on a monotonic clock).
pub struct ParticipantRegistry<P> {
    entries: Vec<(u32, P, u64)>,
}

impl<P> View for ParticipantRegistry<P> {
    type V = Seq<(u32, P, u64)>;

    closed spec fn view(&self) -> Seq<(u32, P, u64)> {
        self.entries@
    }
}

impl<P> ParticipantRegistry<P> {
    /// No domain has two entries.
    #[verifier::type_invariant]
    closed spec fn inv(&self) -> bool {
        domains_unique(self.entries@)
    }

    /// An empty registry.
    pub fn new() -> (r: Self)
        ensures
            r@ == Seq::<(u32, P, u64)>::empty(),
            domains_unique(r@),
    {
        ParticipantRegistry { entries: Vec::new() }
    }

    fn position(&self, domain: u32) -> (r: Option<usize>)
        ensures
            match r {
                Some(i) => i as int == domain_index(self@, domain) && i < self@.len(),
                None => domain_index(self@, domain) == -1,
            },
    {
        proof {
            lemma_domain_index(self@, domain);
        }
        let mut i: usize = 0;
        while i < self.entries.len()
            invariant
                0 <= i <= self.entries@.len(),
                forall|j: int| 0 <= j < i ==> self.entries@[j].0 != domain,
            decreases self.entries@.len() - i,
        {
            if self.entries[i].0 == domain {
                proof {
                    lemma_domain_index(self@, domain);
                    let k = domain_index(self@, domain);
                    if k < i {
                        assert(self.entries@[k].0 != domain);
                    }
                    if k > i {
                        assert(self.entries@[i as int].0 != domain);
                    }
                }
                return Some(i);
            }
            i += 1;
        }
        None
    }

    /// Adds the participant for `domain`, replacing any earlier one, with
    /// its heartbeat at `now`.
    pub fn insert(&mut self, domain: u32, participant: P, now: u64)
        ensures
            final(self)@ == (if domain_index(old(self)@, domain) >= 0 {
                old(self)@.update(domain_index(old(self)@, domain), (domain, participant, now))
            } else {
                old(self)@.push((domain, participant, now))
            }),
            domains_unique(final(self)@),
    {
        proof {
            use_type_invariant(&*self);
            lemma_domain_index(self@, domain);
        }
        match self.position(domain) {
            Some(i) => {
                proof {
                    lemma_unique_update(self.entries@, i as int, (domain, participant, now));
                }
                let mut es: Vec<(u32, P, u64)> = Vec::new();
                std::mem::swap(&mut es, &mut self.entries);
                es.set(i, (domain, participant, now));
                self.entries = es;
            },
            None => {
                proof {
                    lemma_unique_push(self.entries@, (domain, participant, now));
                }
                let mut es: Vec<(u32, P, u64)> = Vec::new();
                std::mem::swap(&mut es, &mut self.entries);
                es.push((domain, participant, now));
                self.entries = es;
            },
        }
    }

    /// Removes the participant for `domain`, if there is one.
    pub fn remove(&mut self, domain: u32) -> (r: Option<P>)
        ensures
            domain_index(old(self)@, domain) >= 0 ==> (r matches Some(p) && p == old(self)@[domain_index(old(self)@, domain)].1
                && final(self)@ == old(self)@.remove(domain_index(old(self)@, domain))),
            domain_index(old(self)@, domain) < 0 ==> (r is None && final(self)@ == old(self)@),
            domains_unique(final(self)@),
    {
        proof {
            use_type_invariant(&*self);
        }
        match self.position(domain) {
            Some(i) => {
                proof {
                    lemma_unique_remove(self.entries@, i as int);
                }
                let mut es: Vec<(u32, P, u64)> = Vec::new();
                std::mem::swap(&mut es, &mut self.entries);
                let e = es.remove(i);
                self.entries = es;
                Some(e.1)
            },
            None => None,
        }
    }

    /// The participant for `domain`.
    pub fn get(&self, domain: u32) -> (r: Option<&P>)
        ensures
            domain_index(self@, domain) >= 0 ==> (r matches Some(p) && *p == self@[domain_index(self@, domain)].1),
            domain_index(self@, domain) < 0 ==> r is None,
    {
        match self.position(domain) {
            Some(i) => Some(&self.entries[i].1),
            None => None,
        }
    }

    /// Records a heartbeat for `domain` at `now`; refused with
    /// `BadParameter("domain not in pool")` for a domain that is not in the
    /// pool.
    pub fn heartbeat(&mut self, domain: u32, now: u64) -> (r: DdsResult<()>)
        ensures
            domain_index(old(self)@, domain) >= 0 ==> (r is Ok && final(self)@ == old(self)@.update(
                domain_index(old(self)@, domain),
                (domain, old(self)@[domain_index(old(self)@, domain)].1, now),
            )),
            domain_index(old(self)@, domain) < 0 ==> (r matches Err(DdsError::BadParameter(m))
                && m@ == "domain not in pool"@ && final(self)@ == old(self)@),
            domains_unique(final(self)@),
    {
        proof {
            use_type_invariant(&*self);
        }
        match self.position(domain) {
            Some(i) => {
                let ghost before = self.entries@;
                proof {
                    lemma_domain_index(before, domain);
                    lemma_unique_remove(before, i as int);
                    lemma_unique_update(before, i as int, (domain, before[i as int].1, now));
                    assert(before.remove(i as int).insert(i as int, (domain, before[i as int].1, now))
                        =~= before.update(i as int, (domain, before[i as int].1, now)));
                }
                let mut es: Vec<(u32, P, u64)> = Vec::new();
                std::mem::swap(&mut es, &mut self.entries);
                let (d, p, _) = es.remove(i);
                es.insert(i, (d, p, now));
                self.entries = es;
                Ok(())
            },
            None => Err(DdsError::BadParameter("domain not in pool".to_owned())),
        }
    }

    /// Removes the participants whose last heartbeat is more than
    /// `threshold` before `now`, and returns their domains.
    pub fn purge_stale(&mut self, now: u64, threshold: u64) -> (r: Vec<u32>)
        ensures
            r@ == stale_domains(old(self)@, now, threshold),
            final(self)@ == fresh_entries(old(self)@, now, threshold),
            domains_unique(old(self)@),
            domains_unique(final(self)@),
            forall|a: int, b: int| 0 <= a < b < r@.len() ==> r@[a] != r@[b],
            forall|a: int, b: int|
                0 <= a < r@.len() && 0 <= b < final(self)@.len() ==> #[trigger] r@[a] != #[trigger] final(self)@[b].0,
    {
        proof {
            use_type_invariant(&*self);
            lemma_fresh_unique(self@, now, threshold);
            lemma_stale_distinct(self@, now, threshold);
        }
        let ghost es = self@;
        assert(es.len() == self.entries.len());
        let mut kept: Vec<(u32, P, u64)> = Vec::new();
        let mut stale: Vec<u32> = Vec::new();
        let mut taken: Vec<(u32, P, u64)> = Vec::new();
        std::mem::swap(&mut taken, &mut self.entries);
        let mut rev: Vec<(u32, P, u64)> = Vec::new();
        while taken.len() > 0
            invariant
                es.len() <= usize::MAX,
                es.len() == taken@.len() + rev@.len(),
                forall|j: int| 0 <= j < taken@.len() ==> taken@[j] == es[j],
                forall|j: int| 0 <= j < rev@.len() ==> rev@[j] == es[es.len() - 1 - j],
            decreases taken@.len(),
        {
            let e = taken.pop().unwrap();
            rev.push(e);
        }
        let mut i: usize = 0;
        while rev.len() > 0
            invariant
                es.len() <= usize::MAX,
                i + rev@.len() == es.len(),
                forall|j: int| 0 <= j < rev@.len() ==> rev@[j] == es[es.len() - 1 - j],
                kept@ == fresh_entries(es.take(i as int), now, threshold),
                stale@ == stale_domains(es.take(i as int), now, threshold),
            decreases rev@.len(),
        {
            let e = rev.pop().unwrap();
            assert(e == es[i as int]);
            assert(es.take(i as int + 1).drop_last() =~= es.take(i as int));
            let old_enough = if now >= e.2 {
                now - e.2 > threshold
            } else {
                false
            };
            if old_enough {
                stale.push(e.0);
            } else {
                kept.push(e);
            }
            i += 1;
        }
        assert(es.take(es.len() as int) =~= es);
        proof {
            law_purge_keeps_exactly_the_fresh(es, now, threshold);
            let f = fresh_entries(es, now, threshold);
            let st = stale_domains(es, now, threshold);
            assert forall|a: int, b: int| 0 <= a < st.len() && 0 <= b < f.len() implies #[trigger] st[a] != #[trigger] f[b].0 by {
                assert(stale_domain_of(es, st[a], now, threshold));
                let m = choose|m: int| 0 <= m < es.len() && es[m].0 == st[a] && is_stale(es[m], now, threshold);
                assert(es.contains(f[b]));
                let m2 = choose|m2: int| 0 <= m2 < es.len() && es[m2] == f[b];
                assert(!is_stale(f[b], now, threshold));
                assert(m != m2);
                if m < m2 {
                    assert(es[m].0 != es[m2].0);
                } else {
                    assert(es[m2].0 != es[m].0);
                }
            }
        }
        self.entries = kept;
        stale
    }

    /// The domains in the pool, in the order they joined.
    pub fn domains(&self) -> (r: Vec<u32>)
        ensures
            r@.len() == self@.len(),
            forall|i: int| 0 <= i < self@.len() ==> #[trigger] r@[i] == self@[i].0,
            domains_unique(self@),
            forall|a: int, b: int| 0 <= a < b < r@.len() ==> r@[a] != r@[b],
    {
        proof {
            use_type_invariant(self);
        }
        let mut r: Vec<u32> = Vec::new();
        let mut i: usize = 0;
        while i < self.entries.len()
            invariant
                0 <= i <= self.entries@.len(),
                r@.len() == i,
                forall|j: int| 0 <= j < i ==> #[trigger] r@[j] == self.entries@[j].0,
            decreases self.entries@.len() - i,
        {
            r.push(self.entries[i].0);
            i += 1;
        }
        r
    }
}

} // verus!
