use vstd::prelude::*;
use crate::records::{ChallengeRecord, RecordModel};

verus! {

/// The first index in `s` whose record belongs to `host`, or `-1`.
pub open spec fn spec_find_host(s: Seq<RecordModel>, host: Seq<char>) -> int
    decreases s.len(),
{
    if s.len() == 0 {
        -1
    } else if s[0].host == host {
        0
    } else {
        let r = spec_find_host(s.drop_first(), host);
        if r == -1 {
            -1
        } else {
            r + 1
        }
    }
}

pub proof fn lemma_spec_find_host(s: Seq<RecordModel>, host: Seq<char>)
    ensures
        -1 <= spec_find_host(s, host) < s.len(),
        spec_find_host(s, host) >= 0 ==> s[spec_find_host(s, host)].host == host,
        spec_find_host(s, host) == -1 ==> forall|k: int| 0 <= k < s.len() ==> s[k].host != host,
        forall|k: int| 0 <= k < spec_find_host(s, host) ==> s[k].host != host,
    decreases s.len(),
{
    if s.len() > 0 && s[0].host != host {
        let t = s.drop_first();
        lemma_spec_find_host(t, host);
        let r = spec_find_host(t, host);
        if r == -1 {
            assert forall|k: int| 0 <= k < s.len() implies s[k].host != host by {
                if k > 0 {
                    assert(t[k - 1] == s[k]);
                }
            }
        } else {
            assert(spec_find_host(s, host) == r + 1);
            assert(s[r + 1].host == t[r].host);
            assert forall|k: int| 0 <= k < r + 1 implies s[k].host != host by {
                if k > 0 {
                    assert(t[k - 1] == s[k]);
                }
            }
        }
    }
}

/// In-memory store of the challenge records of the current order, keyed by
/// host. Insertion replaces the record of a host already present, as a map
/// would; lookup returns the first (and then only) record of a host.
pub struct Storage {
    orders: Vec<ChallengeRecord>,
}

impl Storage {
    /// The stored records, in insertion order.
    pub closed spec fn records(&self) -> Seq<RecordModel> {
        self.orders.deep_view()
    }

    /// An empty store.
    pub fn new() -> (s: Self)
        ensures
            s.records() =~= Seq::<RecordModel>::empty(),
    {
        Storage { orders: Vec::new() }
    }

    /// A store holding exactly the given records, in order. The records of
    /// one order belong to distinct hosts, as an order's identifiers are
    /// unique.
    pub fn from_records(records: Vec<ChallengeRecord>) -> (s: Self)
        ensures
            s.records() == records.deep_view(),
    {
        Storage { orders: records }
    }

    /// Inserts the challenge data of `identifier`, replacing any record that
    /// host already has.
    pub fn add_order(&mut self, identifier: String, token: String, url: String, key_auth: String)
        ensures
            ({
                let rec = RecordModel {
                    host: identifier@,
                    url: url@,
                    token: token@,
                    proof: key_auth@,
                };
                let at = spec_find_host(old(self).records(), identifier@);
                if at >= 0 {
                    final(self).records() =~= old(self).records().update(at, rec)
                } else {
                    final(self).records() =~= old(self).records().push(rec)
                }
            }),
    {
        let rec = ChallengeRecord { host: identifier, url, token, proof: key_auth };
        let ghost recm = rec@;
        let ghost pre = self.records();
        proof {
            lemma_spec_find_host(pre, recm.host);
        }
        let n = self.orders.len();
        let mut i: usize = 0;
        while i < n
            invariant
                i <= n,
                n == self.orders.len(),
                self.records() == pre,
                pre == old(self).records(),
                rec@ == recm,
                recm == (RecordModel {
                    host: identifier@,
                    url: url@,
                    token: token@,
                    proof: key_auth@,
                }),
                forall|k: int| 0 <= k < i ==> pre[k].host != recm.host,
            decreases n - i,
        {
            if self.orders[i].host.eq(&rec.host) {
                proof {
                    crate::store::lemma_find_host_at(pre, recm.host, i as int);
                }
                self.orders.set(i, rec);
                proof {
                    assert(self.records() =~= pre.update(i as int, recm));
                }
                return;
            }
            i = i + 1;
        }
        self.orders.push(rec);
        proof {
            assert(self.records() =~= pre.push(recm));
        }
    }

    /// The stored records.
    pub fn get_orders(&self) -> (r: &Vec<ChallengeRecord>)
        ensures
            r.deep_view() == self.records(),
    {
        &self.orders
    }

    /// Whether the store holds no record.
    pub fn is_empty(&self) -> (r: bool)
        ensures
            r == (self.records().len() == 0),
    {
        self.orders.len() == 0
    }

    /// The number of stored records.
    pub fn len(&self) -> (r: usize)
        ensures
            r == self.records().len(),
    {
        self.orders.len()
    }

    /// The record of `host`, if the store holds one.
    pub fn lookup(&self, host: &str) -> (r: Option<&ChallengeRecord>)
        ensures
            ({
                let at = spec_find_host(self.records(), host@);
                match r {
                    Some(rec) => at >= 0 && rec.deep_view() == self.records()[at],
                    None => at == -1,
                }
            }),
    {
        proof {
            lemma_spec_find_host(self.records(), host@);
        }
        let n = self.orders.len();
        let mut i: usize = 0;
        while i < n
            invariant
                i <= n,
                n == self.orders.len(),
                forall|k: int| 0 <= k < i ==> self.records()[k].host != host@,
            decreases n - i,
        {
            if crate::strutil::str_eq(self.orders[i].host.as_str(), host) {
                proof {
                    crate::store::lemma_find_host_at(self.records(), host@, i as int);
                }
                return Some(&self.orders[i]);
            }
            i = i + 1;
        }
        None
    }
}

/// If the records before `at` miss `host` and the record at `at` has it, the
/// first index for `host` is `at`.
pub proof fn lemma_find_host_at(s: Seq<RecordModel>, host: Seq<char>, at: int)
    requires
        0 <= at < s.len(),
        s[at].host == host,
        forall|k: int| 0 <= k < at ==> s[k].host != host,
    ensures
        spec_find_host(s, host) == at,
    decreases at,
{
    if at > 0 {
        let t = s.drop_first();
        assert forall|k: int| 0 <= k < at - 1 implies t[k].host != host by {
            assert(t[k] == s[k + 1]);
        }
        assert(t[at - 1] == s[at]);
        lemma_find_host_at(t, host, at - 1);
    }
}

} // verus!
