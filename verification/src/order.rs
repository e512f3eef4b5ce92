use vstd::prelude::*;

verus! {

/// The hosts flagged as already holding a challenge record, in
/// configuration order.
pub open spec fn spec_excluded(hosts: Seq<Seq<char>>, present: Seq<bool>) -> Seq<Seq<char>>
    decreases hosts.len() when hosts.len() == present.len()
{
    if hosts.len() == 0 {
        Seq::empty()
    } else {
        let rest = spec_excluded(hosts.drop_last(), present.drop_last());
        if present.last() {
            rest.push(hosts.last())
        } else {
            rest
        }
    }
}

/// The identifier set of an order: the hosts not named in `excluded`, in
/// configuration order.
pub open spec fn spec_identifiers(hosts: Seq<Seq<char>>, excluded: Seq<Seq<char>>) -> Seq<
    Seq<char>,
>
    decreases hosts.len(),
{
    if hosts.len() == 0 {
        Seq::empty()
    } else {
        let rest = spec_identifiers(hosts.drop_last(), excluded);
        if excluded.contains(hosts.last()) {
            rest
        } else {
            rest.push(hosts.last())
        }
    }
}

/// Membership in a pushed sequence.
pub proof fn lemma_seq_push_contains<A>(s: Seq<A>, x: A, y: A)
    ensures
        s.push(x).contains(y) <==> (s.contains(y) || y == x),
{
    if s.push(x).contains(y) {
        let i = choose|i: int| 0 <= i < s.push(x).len() && s.push(x)[i] == y;
        if i < s.len() {
            assert(s[i] == y);
        }
    }
    if s.contains(y) {
        let i = choose|i: int| 0 <= i < s.len() && s[i] == y;
        assert(s.push(x)[i] == y);
    }
    if y == x {
        assert(s.push(x)[s.len() as int] == y);
    }
}

/// Exclusion correctness: the submitted identifiers are exactly the
/// configured hosts that are not excluded.
pub proof fn lemma_exclusion_correctness(hosts: Seq<Seq<char>>, excluded: Seq<Seq<char>>)
    ensures
        forall|h: Seq<char>|
            #[trigger] spec_identifiers(hosts, excluded).contains(h) ==> hosts.contains(h)
                && !excluded.contains(h),
        forall|h: Seq<char>|
            hosts.contains(h) && !excluded.contains(h) ==> #[trigger] spec_identifiers(
                hosts,
                excluded,
            ).contains(h),
    decreases hosts.len(),
{
    if hosts.len() > 0 {
        let rest = hosts.drop_last();
        lemma_exclusion_correctness(rest, excluded);
        let last = hosts.last();
        let r = spec_identifiers(hosts, excluded);
        let rr = spec_identifiers(rest, excluded);
        assert forall|h: Seq<char>| #[trigger] r.contains(h) implies hosts.contains(h)
            && !excluded.contains(h) by {
            if !excluded.contains(last) {
                lemma_seq_push_contains(rr, last, h);
            }
            if h == last && !excluded.contains(last) {
                assert(hosts[hosts.len() - 1] == h);
            } else {
                assert(rr.contains(h));
                let i = choose|i: int| 0 <= i < rest.len() && rest[i] == h;
                assert(hosts[i] == h);
            }
        }
        assert forall|h: Seq<char>| hosts.contains(h) && !excluded.contains(h) implies #[trigger] r
            .contains(h) by {
            if !excluded.contains(last) {
                lemma_seq_push_contains(rr, last, h);
            }
            let i = choose|i: int| 0 <= i < hosts.len() && hosts[i] == h;
            if i == hosts.len() - 1 {
                assert(h == last);
                assert(!excluded.contains(last));
            } else {
                assert(rest[i] == h);
                assert(rest.contains(h));
            }
        }
    }
}

/// Whether `v` holds a string equal to `h`.
pub fn contains_host(v: &Vec<String>, h: &String) -> (r: bool)
    ensures
        r == v.deep_view().contains(h@),
{
    let n = v.len();
    let mut i: usize = 0;
    while i < n
        invariant
            i <= n,
            n == v.len(),
            forall|k: int| 0 <= k < i ==> v.deep_view()[k] != h@,
        decreases n - i,
    {
        if v[i].eq(h) {
            assert(v.deep_view()[i as int] == h@);
            return true;
        }
        i = i + 1;
    }
    assert forall|k: int| 0 <= k < v.deep_view().len() implies v.deep_view()[k] != h@ by {}
    false
}

/// The hosts whose challenge record probe came back positive. The two
/// vectors pair up index by index.
pub fn compute_excluded(hosts: &Vec<String>, present: &Vec<bool>) -> (r: Vec<String>)
    requires
        hosts@.len() == present@.len(),
    ensures
        r.deep_view() == spec_excluded(hosts.deep_view(), present@),
{
    let n = hosts.len();
    let mut out: Vec<String> = Vec::new();
    let ghost hd = hosts.deep_view();
    let mut i: usize = 0;
    assert(out.deep_view() =~= spec_excluded(hd.take(0), present@.take(0)));
    while i < n
        invariant
            i <= n,
            n == hosts@.len() == present@.len(),
            hd == hosts.deep_view(),
            out.deep_view() == spec_excluded(hd.take(i as int), present@.take(i as int)),
        decreases n - i,
    {
        proof {
            assert(hd.take(i + 1).drop_last() =~= hd.take(i as int));
            assert(present@.take(i + 1).drop_last() =~= present@.take(i as int));
            assert(hd.take(i + 1).last() == hd[i as int]);
        }
        if present[i] {
            out.push(hosts[i].clone());
            proof {
                assert(out.deep_view() =~= spec_excluded(hd.take(i + 1), present@.take(i + 1)));
            }
        } else {
            proof {
                assert(out.deep_view() =~= spec_excluded(hd.take(i + 1), present@.take(i + 1)));
            }
        }
        i = i + 1;
    }
    proof {
        assert(hd.take(n as int) =~= hd);
        assert(present@.take(n as int) =~= present@);
    }
    out
}

/// The identifiers an order submits: the set difference `hosts − excluded`,
/// in configuration order. An empty result means no hosts remain and no
/// order is created.
pub fn identifiers_for_order(hosts: &Vec<String>, excluded: &Vec<String>) -> (r: Vec<String>)
    ensures
        r.deep_view() == spec_identifiers(hosts.deep_view(), excluded.deep_view()),
{
    let n = hosts.len();
    let mut out: Vec<String> = Vec::new();
    let ghost hd = hosts.deep_view();
    let ghost ed = excluded.deep_view();
    let mut i: usize = 0;
    assert(out.deep_view() =~= spec_identifiers(hd.take(0), ed));
    while i < n
        invariant
            i <= n,
            n == hosts@.len(),
            hd == hosts.deep_view(),
            ed == excluded.deep_view(),
            out.deep_view() == spec_identifiers(hd.take(i as int), ed),
        decreases n - i,
    {
        proof {
            assert(hd.take(i + 1).drop_last() =~= hd.take(i as int));
            assert(hd.take(i + 1).last() == hd[i as int]);
        }
        if !contains_host(excluded, &hosts[i]) {
            out.push(hosts[i].clone());
        }
        proof {
            assert(out.deep_view() =~= spec_identifiers(hd.take(i + 1), ed));
        }
        i = i + 1;
    }
    proof {
        assert(hd.take(n as int) =~= hd);
    }
    out
}

} // verus!
