//! The directory of registered agents and their roles, and the routing
//! decision: which agents a message reaches.

use vstd::prelude::*;
use crate::orchestrator::message::{
    law_subscription_table, subscriptions, AgentId, AgentRole, MessageType,
};
use crate::text::{chars_eq, str_chars};

verus! {

broadcast use vstd::seq_lib::group_seq_properties;

/// A directory entry: an agent's id text and its role.
pub type Entry = (Seq<char>, AgentRole);

/// No two entries share an id.
pub open spec fn distinct_ids(es: Seq<Entry>) -> bool {
    forall|i: int, j: int| 0 <= i < es.len() && 0 <= j < es.len() && i != j ==> es[i].0 != es[j].0
}

/// The position of the entry with id `id`, or -1 when there is none.
pub open spec fn id_index(es: Seq<Entry>, id: Seq<char>) -> int
    decreases es.len(),
{
    if es.len() == 0 {
        -1
    } else if es.last().0 == id {
        es.len() - 1
    } else {
        id_index(es.drop_last(), id)
    }
}

/// The role registered under `id`, if any.
pub open spec fn role_of_id(es: Seq<Entry>, id: Seq<char>) -> Option<AgentRole> {
    let i = id_index(es, id);
    if i >= 0 {
        Some(es[i].1)
    } else {
        None
    }
}

/// The entries after registering `id` with `role`: an agent already
/// registered keeps its place and takes the new role; a new agent comes last.
pub open spec fn with_registered(es: Seq<Entry>, id: Seq<char>, role: AgentRole) -> Seq<Entry> {
    let i = id_index(es, id);
    if i >= 0 {
        es.update(i, (id, role))
    } else {
        es.push((id, role))
    }
}

/// The entries after unregistering `id`.
pub open spec fn without(es: Seq<Entry>, id: Seq<char>) -> Seq<Entry> {
    let i = id_index(es, id);
    if i >= 0 {
        es.remove(i)
    } else {
        es
    }
}

/// The ids, in directory order, of the agents whose role subscribes to `t`.
pub open spec fn broadcast_targets(es: Seq<Entry>, t: MessageType) -> Seq<Seq<char>> {
    es.filter(|e: Entry| subscriptions(e.1).contains(t)).map_values(|e: Entry| e.0)
}

/// The ids a message reaches: a message for one agent reaches it when it is
/// registered; a message for no one in particular reaches every agent whose
/// role subscribes to its type.
pub open spec fn route_targets(es: Seq<Entry>, to: Option<Seq<char>>, t: MessageType) -> Seq<Seq<char>> {
    match to {
        Some(id) => if id_index(es, id) >= 0 {
            seq![id]
        } else {
            Seq::empty()
        },
        None => broadcast_targets(es, t),
    }
}

/// Whether an entry has role `role`.
pub open spec fn has_role(e: Entry, role: AgentRole) -> bool {
    e.1 == role
}

/// The ids, in directory order, of the agents with role `role`.
pub open spec fn ids_with_role(es: Seq<Entry>, role: AgentRole) -> Seq<Seq<char>> {
    es.filter(|e: Entry| has_role(e, role)).map_values(|e: Entry| e.0)
}

/// `id_index` finds the entry with that id, the last one if several.
pub proof fn lemma_id_index(es: Seq<Entry>, id: Seq<char>)
    ensures
        -1 <= id_index(es, id) < es.len(),
        id_index(es, id) >= 0 ==> es[id_index(es, id)].0 == id,
        id_index(es, id) >= 0 ==> forall|k: int| id_index(es, id) < k < es.len() ==> es[k].0 != id,
        id_index(es, id) < 0 ==> forall|k: int| 0 <= k < es.len() ==> es[k].0 != id,
    decreases es.len(),
{
    if es.len() > 0 && es.last().0 != id {
        let d = es.drop_last();
        lemma_id_index(d, id);
        assert(forall|k: int| 0 <= k < d.len() ==> d[k] == es[k]);
    }
}

/// With distinct ids, the entry at `k` is the one `id_index` finds for its id.
pub proof fn lemma_id_index_at(es: Seq<Entry>, k: int)
    requires
        distinct_ids(es),
        0 <= k < es.len(),
    ensures
        id_index(es, es[k].0) == k,
{
    lemma_id_index(es, es[k].0);
}

/// A registered agent has the role it was last registered with.
pub proof fn law_register_then_lookup(es: Seq<Entry>, id: Seq<char>, role: AgentRole)
    requires
        distinct_ids(es),
    ensures
        role_of_id(with_registered(es, id, role), id) == Some(role),
        distinct_ids(with_registered(es, id, role)),
{
    lemma_id_index(es, id);
    let es2 = with_registered(es, id, role);
    let i = id_index(es, id);
    if i >= 0 {
        assert(es2[i].0 == id);
        assert(distinct_ids(es2));
        lemma_id_index_at(es2, i);
    } else {
        assert(distinct_ids(es2));
        lemma_id_index_at(es2, es.len() as int);
    }
}

/// Registering one agent leaves the role of every other agent as it was.
pub proof fn law_register_keeps_others(es: Seq<Entry>, id: Seq<char>, role: AgentRole, other: Seq<char>)
    requires
        distinct_ids(es),
        other != id,
    ensures
        role_of_id(with_registered(es, id, role), other) == role_of_id(es, other),
{
    lemma_id_index(es, id);
    lemma_id_index(es, other);
    law_register_then_lookup(es, id, role);
    let es2 = with_registered(es, id, role);
    lemma_id_index(es2, other);
    let j = id_index(es, other);
    if j >= 0 {
        assert(es2[j].0 == other);
        lemma_id_index_at(es2, j);
    } else {
        assert forall|k: int| 0 <= k < es2.len() implies es2[k].0 != other by {
            if k < es.len() {
                assert(es2[k].0 == es[k].0 || es2[k].0 == id);
            }
        }
    }
}

/// An unregistered agent has no role, and no other agent's role changes.
pub proof fn law_unregister(es: Seq<Entry>, id: Seq<char>, other: Seq<char>)
    requires
        distinct_ids(es),
    ensures
        role_of_id(without(es, id), id) is None,
        other != id ==> role_of_id(without(es, id), other) == role_of_id(es, other),
        distinct_ids(without(es, id)),
{
    lemma_id_index(es, id);
    lemma_id_index(es, other);
    let es2 = without(es, id);
    let i = id_index(es, id);
    if i >= 0 {
        assert(forall|k: int| 0 <= k < es2.len() ==> es2[k] == (if k < i { es[k] } else { es[k + 1] }));
        assert(distinct_ids(es2));
        lemma_id_index(es2, id);
        lemma_id_index(es2, other);
        let j = id_index(es, other);
        if other == id {
        } else if j >= 0 {
            let j2 = if j < i { j } else { j - 1 };
            assert(es2[j2].0 == other);
            lemma_id_index_at(es2, j2);
        } else {
            assert forall|k: int| 0 <= k < es2.len() implies es2[k].0 != other by {}
        }
    }
}

/// A message for no one in particular reaches a registered agent exactly
/// when the agent's role subscribes to the message's type.
pub proof fn law_broadcast_reaches_subscribers(es: Seq<Entry>, id: Seq<char>, t: MessageType)
    requires
        distinct_ids(es),
    ensures
        route_targets(es, None, t).contains(id) <==> (role_of_id(es, id) matches Some(r)
            && subscriptions(r).contains(t)),
{
    let p = |e: Entry| subscriptions(e.1).contains(t);
    let f = |e: Entry| e.0;
    let fl = es.filter(p);
    lemma_id_index(es, id);
    if route_targets(es, None, t).contains(id) {
        let k = choose|k: int| 0 <= k < fl.map_values(f).len() && fl.map_values(f)[k] == id;
        assert(fl.map_values(f)[k] == fl[k].0);
        es.lemma_filter_contains_rev(p, fl[k]);
        let m = choose|m: int| 0 <= m < es.len() && es[m] == fl[k];
        es.lemma_filter_pred(p, k);
        lemma_id_index_at(es, m);
    }
    if role_of_id(es, id) matches Some(r) && subscriptions(r).contains(t) {
        let i = id_index(es, id);
        es.lemma_filter_contains(p, i);
        let k = choose|k: int| 0 <= k < fl.len() && fl[k] == es[i];
        assert(fl.map_values(f)[k] == id);
    }
}

/// The registered agents and their roles.
pub struct AgentDirectory {
    list: Vec<(AgentId, AgentRole)>,
}

impl AgentDirectory {
    /// The entries, in registration order.
    pub closed spec fn entries(&self) -> Seq<Entry> {
        self.list@.map_values(|e: (AgentId, AgentRole)| (e.0.0@, e.1))
    }

    #[verifier::type_invariant]
    closed spec fn inv(&self) -> bool {
        distinct_ids(self.entries())
    }

    /// An empty directory.
    pub fn new() -> (r: Self)
        ensures
            r.entries() == Seq::<Entry>::empty(),
            distinct_ids(r.entries()),
    {
        let r = AgentDirectory { list: Vec::new() };
        assert(r.entries() =~= Seq::<Entry>::empty());
        r
    }

    /// The position of `id`, if registered.
    fn position(&self, id: &Vec<char>) -> (r: Option<usize>)
        ensures
            match r {
                Some(i) => id_index(self.entries(), id@) == i && i < self.list@.len(),
                None => id_index(self.entries(), id@) == -1,
            },
    {
        proof {
            use_type_invariant(self);
            lemma_id_index(self.entries(), id@);
        }
        let mut i: usize = 0;
        while i < self.list.len()
            invariant
                i <= self.list@.len(),
                distinct_ids(self.entries()),
                forall|k: int| 0 <= k < i ==> self.entries()[k].0 != id@,
            decreases self.list.len() - i,
        {
            let name = str_chars(self.list[i].0.0.as_str());
            if chars_eq(&name, id) {
                proof {
                    assert(self.entries()[i as int].0 == id@);
                    lemma_id_index_at(self.entries(), i as int);
                }
                return Some(i);
            }
            i = i + 1;
        }
        None
    }

    /// Registers an agent, or gives an already registered agent a new role.
    pub fn register(&mut self, id: AgentId, role: AgentRole)
        ensures
            final(self).entries() == with_registered(old(self).entries(), id.0@, role),
            distinct_ids(final(self).entries()),
    {
        proof {
            use_type_invariant(&*self);
        }
        let key = str_chars(id.0.as_str());
        let pos = self.position(&key);
        let mut list: Vec<(AgentId, AgentRole)> = Vec::new();
        std::mem::swap(&mut list, &mut self.list);
        let ghost before = list@;
        let ghost es = before.map_values(|e: (AgentId, AgentRole)| (e.0.0@, e.1));
        proof {
            law_register_then_lookup(es, id.0@, role);
        }
        match pos {
            Some(i) => {
                let _ = list.remove(i);
                list.insert(i, (id, role));
                proof {
                    assert(list@.map_values(|e: (AgentId, AgentRole)| (e.0.0@, e.1)) =~= es.update(
                        i as int,
                        (key@, role),
                    ));
                }
            },
            None => {
                list.push((id, role));
                proof {
                    assert(list@.map_values(|e: (AgentId, AgentRole)| (e.0.0@, e.1)) =~= es.push(
                        (key@, role),
                    ));
                }
            },
        }
        self.list = list;
    }

    /// Removes an agent, if registered.
    pub fn unregister(&mut self, id: &AgentId)
        ensures
            final(self).entries() == without(old(self).entries(), id.0@),
            distinct_ids(final(self).entries()),
    {
        proof {
            use_type_invariant(&*self);
        }
        let key = str_chars(id.0.as_str());
        let pos = self.position(&key);
        match pos {
            Some(i) => {
                let mut list: Vec<(AgentId, AgentRole)> = Vec::new();
                std::mem::swap(&mut list, &mut self.list);
                let ghost es = list@.map_values(|e: (AgentId, AgentRole)| (e.0.0@, e.1));
                proof {
                    law_unregister(es, id.0@, seq!['x']);
                }
                let _ = list.remove(i);
                proof {
                    assert(list@.map_values(|e: (AgentId, AgentRole)| (e.0.0@, e.1)) =~= es.remove(
                        i as int,
                    ));
                }
                self.list = list;
            },
            None => {},
        }
    }

    /// The role of an agent, if registered.
    pub fn role_of(&self, id: &AgentId) -> (r: Option<AgentRole>)
        ensures
            r == role_of_id(self.entries(), id.0@),
            distinct_ids(self.entries()),
    {
        proof {
            use_type_invariant(self);
        }
        let key = str_chars(id.0.as_str());
        match self.position(&key) {
            Some(i) => Some(self.list[i].1),
            None => None,
        }
    }

    /// How many agents are registered.
    pub fn agent_count(&self) -> (r: usize)
        ensures
            r == self.entries().len(),
            distinct_ids(self.entries()),
    {
        proof {
            use_type_invariant(self);
        }
        self.list.len()
    }

    /// Every agent with its role, in registration order.
    pub fn list_agents(&self) -> (r: Vec<(AgentId, AgentRole)>)
        ensures
            r@.map_values(|e: (AgentId, AgentRole)| (e.0.0@, e.1)) == self.entries(),
            distinct_ids(self.entries()),
    {
        proof {
            use_type_invariant(self);
        }
        let mut r: Vec<(AgentId, AgentRole)> = Vec::new();
        let mut i: usize = 0;
        while i < self.list.len()
            invariant
                i <= self.list@.len(),
                r@.map_values(|e: (AgentId, AgentRole)| (e.0.0@, e.1)) == self.entries().take(i as int),
            decreases self.list.len() - i,
        {
            let e = (self.list[i].0.clone(), self.list[i].1);
            let ghost before = r@;
            r.push(e);
            proof {
                assert(r@.map_values(|e: (AgentId, AgentRole)| (e.0.0@, e.1)) =~= before.map_values(
                    |e: (AgentId, AgentRole)| (e.0.0@, e.1),
                ).push(self.entries()[i as int]));
                assert(self.entries().take(i + 1) =~= self.entries().take(i as int).push(
                    self.entries()[i as int],
                ));
            }
            i = i + 1;
        }
        assert(self.entries().take(self.list@.len() as int) =~= self.entries());
        r
    }

    /// The agents with role `role`, in registration order.
    pub fn agents_by_role(&self, role: AgentRole) -> (r: Vec<AgentId>)
        ensures
            r@.map_values(|a: AgentId| a.0@) == ids_with_role(self.entries(), role),
            distinct_ids(self.entries()),
    {
        proof {
            use_type_invariant(self);
        }
        let ghost p = |e: Entry| has_role(e, role);
        let ghost f = |e: Entry| e.0;
        let mut r: Vec<AgentId> = Vec::new();
        let mut i: usize = 0;
        while i < self.list.len()
            invariant
                i <= self.list@.len(),
                p == (|e: Entry| has_role(e, role)),
                f == (|e: Entry| e.0),
                r@.map_values(|a: AgentId| a.0@) == self.entries().take(i as int).filter(p).map_values(f),
            decreases self.list.len() - i,
        {
            let ghost es = self.entries();
            proof {
                assert(es.take(i + 1) =~= es.take(i as int).push(es[i as int]));
                es.take(i as int).lemma_filter_push(es[i as int], p);
            }
            if self.list[i].1 == role {
                let ghost before = r@;
                r.push(self.list[i].0.clone());
                proof {
                    assert(r@.map_values(|a: AgentId| a.0@) =~= before.map_values(|a: AgentId| a.0@).push(
                        es[i as int].0,
                    ));
                }
            }
            i = i + 1;
        }
        assert(self.entries().take(self.list@.len() as int) =~= self.entries());
        r
    }

    /// The agents a message reaches: the named recipient when it is
    /// registered, or, for a message to no one in particular, every agent
    /// whose role subscribes to its type.
    pub fn recipients(&self, to: Option<&AgentId>, t: MessageType) -> (r: Vec<AgentId>)
        ensures
            r@.map_values(|a: AgentId| a.0@) == route_targets(
                self.entries(),
                match to {
                    Some(a) => Some(a.0@),
                    None => None,
                },
                t,
            ),
            distinct_ids(self.entries()),
    {
        proof {
            use_type_invariant(self);
        }
        match to {
            Some(a) => {
                let key = str_chars(a.0.as_str());
                let mut r: Vec<AgentId> = Vec::new();
                match self.position(&key) {
                    Some(_) => {
                        r.push(a.clone());
                        assert(r@.map_values(|a: AgentId| a.0@) =~= seq![a.0@]);
                    },
                    None => {
                        assert(r@.map_values(|a: AgentId| a.0@) =~= Seq::<Seq<char>>::empty());
                    },
                }
                r
            },
            None => {
                let ghost p = |e: Entry| subscriptions(e.1).contains(t);
                let ghost f = |e: Entry| e.0;
                let mut r: Vec<AgentId> = Vec::new();
                let mut i: usize = 0;
                while i < self.list.len()
                    invariant
                        i <= self.list@.len(),
                        p == (|e: Entry| subscriptions(e.1).contains(t)),
                        f == (|e: Entry| e.0),
                        r@.map_values(|a: AgentId| a.0@) == self.entries().take(i as int).filter(
                            p,
                        ).map_values(f),
                    decreases self.list.len() - i,
                {
                    let ghost es = self.entries();
                    proof {
                        assert(es.take(i + 1) =~= es.take(i as int).push(es[i as int]));
                        es.take(i as int).lemma_filter_push(es[i as int], p);
                    }
                    if self.list[i].1.is_subscribed(t) {
                        let ghost before = r@;
                        r.push(self.list[i].0.clone());
                        proof {
                            assert(r@.map_values(|a: AgentId| a.0@) =~= before.map_values(
                                |a: AgentId| a.0@,
                            ).push(es[i as int].0));
                        }
                    }
                    i = i + 1;
                }
                assert(self.entries().take(self.list@.len() as int) =~= self.entries());
                r
            },
        }
    }
}


/// A message for no one in particular reaches exactly the registered
/// agents whose role listens to its type: a market analysis reaches every
/// risk manager and portfolio manager and no one else, an alert every
/// analyst and researcher, and so on through the table of subscriptions.
pub proof fn law_broadcast_audience(es: Seq<Entry>, id: Seq<char>, t: MessageType)
    requires
        distinct_ids(es),
    ensures
        route_targets(es, None, t).contains(id) <==> (role_of_id(es, id) matches Some(r) && (
            (r == AgentRole::Analyst && (t == MessageType::ResearchResult || t == MessageType::Alert))
            || (r == AgentRole::RiskManager && (t == MessageType::TradeSignal || t
                == MessageType::PortfolioUpdate || t == MessageType::MarketAnalysis))
            || (r == AgentRole::Executor && (t == MessageType::TradeSignal || t
                == MessageType::RiskAssessment))
            || (r == AgentRole::PortfolioManager && (t == MessageType::ExecutionReport || t
                == MessageType::MarketAnalysis))
            || (r == AgentRole::Researcher && (t == MessageType::Command || t == MessageType::Alert)))),
{
    law_broadcast_reaches_subscribers(es, id, t);
    if let Some(r) = role_of_id(es, id) {
        law_subscription_table(r, t);
    }
}

} // verus!
