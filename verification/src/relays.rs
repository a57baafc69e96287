//! Deduplicated registry of relay endpoint addresses.
//!
//! Addresses are kept in their normalized serialized form; membership is
//! unique and the registry only ever grows during a crawl run.

use vstd::prelude::*;

verus! {

/// Normalized form that URL parsing gives to an input string: `None` when
/// the input is not a well-formed absolute URL, otherwise the serialization
/// of the parsed URL.
pub uninterp spec fn url_norm(s: Seq<char>) -> Option<Seq<char>>;

/// Relies on `url::Url::parse` and `url::Url::as_str`: parsing either fails
/// or yields a URL whose serialization is a function of the input string
/// alone, and URLs compare equal exactly when their serializations do.
#[verifier::external_body]
fn parse_normalize(s: &str) -> (r: Option<String>)
    ensures
        r is Some <==> url_norm(s@) is Some,
        r matches Some(n) ==> n@ == url_norm(s@).unwrap(),
{
    match url::Url::parse(s) {
        Ok(u) => Some(String::from(u.as_str())),
        Err(_) => None,
    }
}

/// No address occurs twice.
pub open spec fn no_dups(s: Seq<Seq<char>>) -> bool {
    forall|i: int, j: int| 0 <= i < j < s.len() ==> s[i] != s[j]
}

/// Effect of one insertion attempt on the registry contents.
pub open spec fn add_spec(s: Seq<Seq<char>>, a: Seq<char>) -> Seq<Seq<char>> {
    match url_norm(a) {
        Option::Some(n) => if s.contains(n) {
            s
        } else {
            s.push(n)
        },
        Option::None => s,
    }
}

/// Whether one insertion attempt adds a new member.
pub open spec fn add_inserted(s: Seq<Seq<char>>, a: Seq<char>) -> bool {
    match url_norm(a) {
        Option::Some(n) => !s.contains(n),
        Option::None => false,
    }
}

/// Effect of inserting a whole sequence of candidate addresses in order.
pub open spec fn add_all_spec(s: Seq<Seq<char>>, cands: Seq<Seq<char>>) -> Seq<Seq<char>>
    decreases cands.len(),
{
    if cands.len() == 0 {
        s
    } else {
        add_spec(add_all_spec(s, cands.drop_last()), cands.last())
    }
}

/// The final report as an ordered listing: every registry member, then the
/// always-included seed address.
pub open spec fn report_entries(addrs: Seq<Seq<char>>, seed: Seq<char>) -> Seq<Seq<char>> {
    addrs.push(seed)
}

/// The well-known seed address that every report includes.
pub open spec fn default_seed() -> Seq<char> {
    "wss://relay.gnostr.org"@
}

/// Maintains the set of all encountered relay addresses.
pub struct Relays {
    r: Vec<String>,
}

impl View for Relays {
    type V = Seq<Seq<char>>;

    closed spec fn view(&self) -> Seq<Seq<char>> {
        self.r.deep_view()
    }
}

/// Linear membership scan over a list of stored strings.
pub(crate) fn contains_addr(v: &Vec<String>, x: &String) -> (r: bool)
    ensures
        r == v.deep_view().contains(x@),
{
    let mut i: usize = 0;
    while i < v.len()
        invariant
            i <= v.len(),
            forall|j: int| 0 <= j < i ==> v.deep_view()[j] != x@,
        decreases v.len() - i,
    {
        if v[i].eq(x) {
            assert(v.deep_view()[i as int] == x@);
            return true;
        }
        i += 1;
    }
    assert(!v.deep_view().contains(x@));
    false
}

impl Relays {
    /// Registry well-formedness: no duplicate normalized addresses.
    pub open spec fn wf(&self) -> bool {
        no_dups(self@)
    }

    pub fn new() -> (r: Self)
        ensures
            r.wf(),
            r@ == Seq::<Seq<char>>::empty(),
    {
        let r = Relays { r: Vec::new() };
        proof {
            assert(r@ =~= Seq::<Seq<char>>::empty());
        }
        r
    }

    /// Parses `s1` as a network address; on failure leaves the registry
    /// unchanged and returns false, otherwise inserts the normalized form
    /// and reports whether it was a new member.
    pub fn add(&mut self, s1: &str) -> (res: bool)
        requires
            old(self).wf(),
        ensures
            final(self).wf(),
            final(self)@ == add_spec(old(self)@, s1@),
            res == add_inserted(old(self)@, s1@),
    {
        match parse_normalize(s1) {
            Option::None => false,
            Option::Some(n) => {
                if contains_addr(&self.r, &n) {
                    false
                } else {
                    proof {
                        assert forall|i: int| 0 <= i < self@.len() implies self@[i] != n@ by {
                            if self@[i] == n@ {
                                assert(self@.contains(n@));
                            }
                        }
                    }
                    let ghost before = self@;
                    self.r.push(n);
                    proof {
                        assert(self@ =~= before.push(url_norm(s1@).unwrap()));
                    }
                    true
                }
            },
        }
    }

    pub fn count(&self) -> (r: usize)
        ensures
            r == self@.len(),
    {
        self.r.len()
    }

    /// Returns up to `max_count` members, in insertion order.
    pub fn get_some(&self, max_count: usize) -> (res: Vec<String>)
        ensures
            res.deep_view() == self@.take(vstd::math::min(max_count as int, self@.len() as int)),
            res@.len() <= max_count,
            res@.len() <= self@.len(),
    {
        let mut res: Vec<String> = Vec::new();
        let mut i: usize = 0;
        while i < self.r.len() && res.len() < max_count
            invariant
                i <= self.r.len(),
                res@.len() == i || (res@.len() == max_count && res@.len() <= i),
                i <= max_count || res@.len() == max_count,
                res.deep_view() =~= self@.take(res@.len() as int),
            decreases self.r.len() - i,
    {
            let ghost before = res.deep_view();
            res.push(self.r[i].clone());
            proof {
                assert(res.deep_view() =~= before.push(self@[i as int]));
                assert(res.deep_view() =~= self@.take(res@.len() as int));
            }
            i += 1;
        }
        proof {
            assert(res.deep_view() =~= self@.take(
                vstd::math::min(max_count as int, self@.len() as int),
            ));
        }
        res
    }

    /// Hook for observational logging of newly found addresses; it affects
    /// no behaviour and is deliberately silent.
    pub fn print(&self) {
    }

    /// The final report as an ordered listing: every member in insertion
    /// order, then the given seed address.
    pub fn report_list(&self, seed: &str) -> (r: Vec<String>)
        ensures
            r.deep_view() == report_entries(self@, seed@),
    {
        let mut v: Vec<String> = Vec::new();
        let mut i: usize = 0;
        while i < self.r.len()
            invariant
                i <= self.r.len(),
                v.deep_view() =~= self@.take(i as int),
            decreases self.r.len() - i,
        {
            let ghost before = v.deep_view();
            v.push(self.r[i].clone());
            proof {
                assert(v.deep_view() =~= before.push(self@[i as int]));
                assert(v.deep_view() =~= self@.take(i + 1 as int));
            }
            i += 1;
        }
        let ghost before = v.deep_view();
        v.push(seed.to_owned());
        proof {
            assert(before =~= self@);
            assert(v.deep_view() =~= self@.push(seed@));
        }
        v
    }

    /// Renders the final report with the given seed address appended.
    pub fn dump_with_seed(&self, seed: &str) -> (r: String)
        ensures
            r@ == crate::report::report_spec(self@, seed@),
    {
        crate::report::render_report(&self.r, seed)
    }

    /// Renders the final report with the well-known seed address appended.
    pub fn dump(&self) -> (r: String)
        ensures
            r@ == crate::report::report_spec(self@, default_seed()),
    {
        self.dump_with_seed("wss://relay.gnostr.org")
    }
}

/// Number of occurrences of an address in a report listing.
pub open spec fn occurrences(entries: Seq<Seq<char>>, x: Seq<char>) -> nat
    decreases entries.len(),
{
    if entries.len() == 0 {
        0
    } else {
        occurrences(entries.drop_last(), x) + (if entries.last() == x {
            1nat
        } else {
            0nat
        })
    }
}

proof fn lemma_occurrences_none(s: Seq<Seq<char>>, x: Seq<char>)
    requires
        !s.contains(x),
    ensures
        occurrences(s, x) == 0,
    decreases s.len(),
{
    if s.len() > 0 {
        assert forall|k: int| 0 <= k < s.drop_last().len() implies s.drop_last()[k] != x by {
            if s.drop_last()[k] == x {
                assert(s[k] == x);
                assert(s.contains(x));
            }
        }
        lemma_occurrences_none(s.drop_last(), x);
        assert(s.last() != x) by {
            if s.last() == x {
                assert(s[s.len() - 1] == x);
                assert(s.contains(x));
            }
        }
    }
}

/// Seed-append invariant: the report listing always carries the seed
/// address, exactly once when the registry did not itself discover it.
pub proof fn lemma_seed_appended(addrs: Seq<Seq<char>>, seed: Seq<char>)
    requires
        !addrs.contains(seed),
    ensures
        report_entries(addrs, seed).contains(seed),
        occurrences(report_entries(addrs, seed), seed) == 1,
{
    let entries = report_entries(addrs, seed);
    assert(entries[addrs.len() as int] == seed);
    assert(entries.contains(seed));
    assert(entries.drop_last() =~= addrs);
    lemma_occurrences_none(addrs, seed);
    assert(occurrences(entries, seed) == occurrences(addrs, seed) + 1);
}

/// Idempotent insertion: a second insertion of the same address never
/// changes the registry and never counts as new, and a fresh well-formed
/// address grows the registry by exactly one member.
pub proof fn lemma_add_idempotent(s: Seq<Seq<char>>, a: Seq<char>)
    ensures
        add_spec(add_spec(s, a), a) == add_spec(s, a),
        !add_inserted(add_spec(s, a), a),
        add_inserted(s, a) ==> add_spec(add_spec(s, a), a).len() == s.len() + 1,
{
    match url_norm(a) {
        Option::Some(n) => {
            if !s.contains(n) {
                assert(s.push(n)[s.len() as int] == n);
                assert(s.push(n).contains(n));
            }
        },
        Option::None => {},
    }
}

} // verus!
