use vstd::prelude::*;

use crate::client::{
    CollatedBatchVulnerabilities, CollatedQueryBatchResponse, SlotModel,
};
use crate::schema::{BatchVulnerability, Package};

verus! {

/// What the collector reports: package URL to vulnerability identifiers.
pub type PurlsModel = Map<Seq<char>, Seq<Seq<char>>>;

/// One stored entry as a pair of mathematical values.
pub type EntryModel = (Seq<char>, Seq<Seq<char>>);

pub open spec fn strings_view(v: Vec<String>) -> Seq<Seq<char>> {
    v@.map_values(|s: String| s@)
}

pub open spec fn entry_view(e: (String, Vec<String>)) -> EntryModel {
    (e.0@, strings_view(e.1))
}

/// The map that a list of entries describes; a later entry for a key
/// replaces an earlier one.
pub open spec fn entries_map(s: Seq<EntryModel>) -> PurlsModel
    decreases s.len(),
{
    if s.len() == 0 {
        Map::empty()
    } else {
        entries_map(s.drop_last()).insert(s.last().0, s.last().1)
    }
}

/// No key occurs in two entries.
pub open spec fn keys_unique(s: Seq<EntryModel>) -> bool {
    forall|i: int, j: int| 0 <= i < j < s.len() ==> s[i].0 != s[j].0
}

/// The identifiers of a list of vulnerabilities, in list order.
pub open spec fn vuln_ids(v: Seq<BatchVulnerability>) -> Seq<Seq<char>> {
    v.map_values(|b: BatchVulnerability| b.id@)
}

/// The entry that a collated result contributes: only a package URL with a
/// non-empty list of vulnerabilities contributes one.
pub open spec fn reported(c: (Package, SlotModel)) -> Option<EntryModel> {
    match c.0 {
        Package::Purl { purl } => match c.1 {
            Some(v) => if v.len() > 0 {
                Some((purl@, vuln_ids(v)))
            } else {
                None
            },
            None => None,
        },
        Package::Named { .. } => None,
    }
}

/// The collector's view of collated results, taken in order, so that the
/// last result for a package URL decides its entry.
pub open spec fn collect_purls(s: Seq<(Package, SlotModel)>) -> PurlsModel
    decreases s.len(),
{
    if s.len() == 0 {
        Map::empty()
    } else {
        let m = collect_purls(s.drop_last());
        match reported(s.last()) {
            Some(e) => m.insert(e.0, e.1),
            None => m,
        }
    }
}

/// Package URLs with the identifiers of the vulnerabilities found for them;
/// each URL occurs in at most one entry.
#[derive(Debug, PartialEq, Eq)]
pub struct CollectPackagesResponse {
    pub purls: Vec<(String, Vec<String>)>,
}

impl View for CollectPackagesResponse {
    type V = PurlsModel;

    open spec fn view(&self) -> PurlsModel {
        entries_map(self.entries())
    }
}

proof fn lemma_entries_map_update(s: Seq<EntryModel>, j: int, v: Seq<Seq<char>>)
    requires
        keys_unique(s),
        0 <= j < s.len(),
    ensures
        entries_map(s.update(j, (s[j].0, v))) == entries_map(s).insert(s[j].0, v),
    decreases s.len(),
{
    let t = s.update(j, (s[j].0, v));
    let last = s.len() - 1;
    if j == last {
        assert(t.drop_last() =~= s.drop_last());
        assert(entries_map(t) =~= entries_map(s).insert(s[j].0, v));
    } else {
        assert(t.drop_last() =~= s.drop_last().update(j, (s[j].0, v)));
        lemma_entries_map_update(s.drop_last(), j, v);
        assert(s[j].0 != s[last].0);
        assert(entries_map(t) =~= entries_map(s).insert(s[j].0, v));
    }
}

proof fn lemma_entries_map_facts(s: Seq<EntryModel>)
    requires
        keys_unique(s),
    ensures
        entries_map(s).dom().finite(),
        entries_map(s).len() == s.len(),
        forall|i: int| 0 <= i < s.len() ==> #[trigger] entries_map(s).contains_key(s[i].0)
            && entries_map(s)[s[i].0] == s[i].1,
        forall|k: Seq<char>| #[trigger] entries_map(s).contains_key(k) ==> exists|i: int|
            0 <= i < s.len() && s[i].0 == k,
    decreases s.len(),
{
    if s.len() > 0 {
        let d = s.drop_last();
        let last = s.len() - 1;
        lemma_entries_map_facts(d);
        assert(!entries_map(d).contains_key(s[last].0)) by {
            if entries_map(d).contains_key(s[last].0) {
                let i = choose|i: int| 0 <= i < d.len() && d[i].0 == s[last].0;
                assert(s[i].0 == s[last].0);
            }
        }
        assert forall|i: int| 0 <= i < s.len() implies #[trigger] entries_map(s).contains_key(s[i].0)
            && entries_map(s)[s[i].0] == s[i].1 by {
            if i < last {
                assert(d[i] == s[i]);
                assert(s[i].0 != s[last].0);
            }
        }
        assert forall|k: Seq<char>| #[trigger] entries_map(s).contains_key(k) implies exists|i: int|
            0 <= i < s.len() && s[i].0 == k by {
            if k != s[last].0 {
                assert(entries_map(d).contains_key(k));
                let i = choose|i: int| 0 <= i < d.len() && d[i].0 == k;
                assert(s[i].0 == k);
            }
        }
    }
}

impl CollectPackagesResponse {
    /// The entries as mathematical values, in storage order.
    pub open spec fn entries(&self) -> Seq<EntryModel> {
        self.purls@.map_values(|e: (String, Vec<String>)| entry_view(e))
    }

    pub open spec fn wf(&self) -> bool {
        keys_unique(self.entries())
    }

    /// A response with no entries.
    pub fn new() -> (r: Self)
        ensures
            r.wf(),
            r@ == PurlsModel::empty(),
    {
        let r = CollectPackagesResponse { purls: Vec::new() };
        assert(r.entries().len() == 0);
        r
    }

    /// Position of the entry for `purl`, if there is one.
    fn position(&self, purl: &String) -> (r: Option<usize>)
        ensures
            match r {
                Some(j) => j < self.entries().len() && self.entries()[j as int].0 == purl@,
                None => forall|j: int| 0 <= j < self.entries().len() ==> self.entries()[j].0 != purl@,
            },
    {
        let mut j: usize = 0;
        while j < self.purls.len()
            invariant
                j <= self.purls@.len(),
                forall|k: int| 0 <= k < j ==> self.entries()[k].0 != purl@,
            decreases self.purls@.len() - j,
        {
            if self.purls[j].0 == *purl {
                return Some(j);
            }
            j = j + 1;
        }
        None
    }

    /// Sets the identifiers reported for `purl`, replacing any it had.
    pub fn insert(&mut self, purl: String, ids: Vec<String>)
        requires
            old(self).wf(),
        ensures
            final(self).wf(),
            final(self)@ == old(self)@.insert(purl@, strings_view(ids)),
    {
        let ghost e = (purl@, strings_view(ids));
        let ghost s = self.entries();
        match self.position(&purl) {
            Some(j) => {
                self.purls.set(j, (purl, ids));
                assert(self.entries() =~= s.update(j as int, (s[j as int].0, e.1)));
                proof {
                    lemma_entries_map_update(s, j as int, e.1);
                }
            },
            None => {
                self.purls.push((purl, ids));
                assert(self.entries() =~= s.push(e));
                assert(self.entries().drop_last() =~= s);
            },
        }
    }

    /// The number of package URLs reported.
    pub fn len(&self) -> (r: usize)
        requires
            self.wf(),
        ensures
            r == self@.len(),
    {
        proof {
            lemma_entries_map_facts(self.entries());
        }
        self.purls.len()
    }

    /// Whether no package URL is reported.
    pub fn is_empty(&self) -> (r: bool)
        requires
            self.wf(),
        ensures
            r == (self@.len() == 0),
    {
        proof {
            lemma_entries_map_facts(self.entries());
        }
        self.purls.len() == 0
    }

    /// The identifiers reported for `purl`.
    pub fn get(&self, purl: &str) -> (r: Option<&Vec<String>>)
        requires
            self.wf(),
        ensures
            match r {
                Some(ids) => self@.contains_key(purl@) && self@[purl@] == strings_view(*ids),
                None => !self@.contains_key(purl@),
            },
    {
        let key = purl.to_owned();
        proof {
            lemma_entries_map_facts(self.entries());
        }
        match self.position(&key) {
            Some(j) => {
                assert(self.entries()[j as int] == entry_view(self.purls@[j as int]));
                assert(self@.contains_key(self.entries()[j as int].0));
                let ids = &self.purls[j].1;
                assert(self@[purl@] == strings_view(*ids));
                Some(ids)
            },
            None => None,
        }
    }
}

proof fn lemma_nothing_reported(s: Seq<(Package, SlotModel)>)
    requires
        forall|i: int| 0 <= i < s.len() ==> reported(#[trigger] s[i]).is_none(),
    ensures
        collect_purls(s) == PurlsModel::empty(),
    decreases s.len(),
{
    if s.len() > 0 {
        assert(reported(s[s.len() - 1]).is_none());
        let d = s.drop_last();
        assert forall|i: int| 0 <= i < d.len() implies reported(#[trigger] d[i]).is_none() by {
            assert(d[i] == s[i]);
        }
        lemma_nothing_reported(d);
    }
}

/// Converting no results gives a response with no entries.
pub proof fn lemma_empty_results_report_nothing(c: CollatedQueryBatchResponse)
    requires
        c.results@.len() == 0,
    ensures
        collect_purls(c@) == PurlsModel::empty(),
{
    lemma_nothing_reported(c@);
}

/// Where no result has a list of vulnerabilities, nothing is reported.
pub proof fn lemma_absent_lists_report_nothing(c: CollatedQueryBatchResponse)
    requires
        forall|i: int| 0 <= i < c.results@.len() ==> (#[trigger] c.results@[i]).vulns.is_none(),
    ensures
        collect_purls(c@) == PurlsModel::empty(),
{
    assert forall|i: int| 0 <= i < c@.len() implies reported(#[trigger] c@[i]).is_none() by {
        assert(c.results@[i].vulns.is_none());
    }
    lemma_nothing_reported(c@);
}

/// Where every result has an empty list of vulnerabilities, nothing is reported.
pub proof fn lemma_empty_lists_report_nothing(c: CollatedQueryBatchResponse)
    requires
        forall|i: int|
            0 <= i < c.results@.len() ==> match (#[trigger] c.results@[i]).vulns {
                Some(v) => v@.len() == 0,
                None => false,
            },
    ensures
        collect_purls(c@) == PurlsModel::empty(),
{
    assert forall|i: int| 0 <= i < c@.len() implies reported(#[trigger] c@[i]).is_none() by {
        assert(c.results@[i].vulns.is_some());
    }
    lemma_nothing_reported(c@);
}

/// A single package URL with `k > 0` vulnerabilities is reported as exactly
/// one entry, keyed by that URL, holding the `k` identifiers in list order.
pub proof fn lemma_single_purl_reported(purl: String, v: Seq<BatchVulnerability>)
    requires
        v.len() > 0,
    ensures
        ({
            let m = collect_purls(seq![(Package::Purl { purl }, Some(v))]);
            &&& m.len() == 1
            &&& m.contains_key(purl@)
            &&& m[purl@].len() == v.len()
            &&& forall|i: int| 0 <= i < v.len() ==> m[purl@][i] == (#[trigger] v[i]).id@
        }),
{
    let s = seq![(Package::Purl { purl }, Some(v))];
    assert(s.drop_last() =~= Seq::<(Package, SlotModel)>::empty());
    assert(collect_purls(s.drop_last()) == PurlsModel::empty());
    assert(s.last() == (Package::Purl { purl }, Some(v)));
    assert(reported(s.last()) == Some((purl@, vuln_ids(v))));
    let m = collect_purls(s);
    assert(m =~= map![purl@ => vuln_ids(v)]);
    assert(m.dom() =~= set![purl@]);
    assert(m.len() == 1);
}

/// Conversion is a function of the results alone: two conversions of the
/// same results report the same entries.
pub proof fn lemma_conversion_repeatable(a: CollatedQueryBatchResponse, b: CollatedQueryBatchResponse)
    requires
        a@ == b@,
    ensures
        collect_purls(a@) == collect_purls(b@),
{
}

/// The identifiers of `v`, in order.
fn ids_of(v: &Vec<BatchVulnerability>) -> (r: Vec<String>)
    ensures
        strings_view(r) == vuln_ids(v@),
{
    let mut r: Vec<String> = Vec::new();
    let mut i: usize = 0;
    while i < v.len()
        invariant
            i <= v@.len(),
            strings_view(r) =~= vuln_ids(v@.take(i as int)),
        decreases v@.len() - i,
    {
        let id = v[i].id.clone();
        r.push(id);
        assert(v@.take(i + 1) =~= v@.take(i as int).push(v@[i as int]));
        assert(strings_view(r) =~= vuln_ids(v@.take(i as int)).push(v@[i as int].id@));
        assert(vuln_ids(v@.take(i + 1)) =~= vuln_ids(v@.take(i as int)).push(v@[i as int].id@));
        i = i + 1;
    }
    assert(v@.take(i as int) =~= v@);
    r
}

impl vstd::std_specs::convert::FromSpecImpl<CollatedQueryBatchResponse> for CollectPackagesResponse {
    /// The result is described by the `ensures` of `from` over its view,
    /// not by a single value.
    open spec fn obeys_from_spec() -> bool {
        false
    }

    open spec fn from_spec(v: CollatedQueryBatchResponse) -> Self {
        arbitrary()
    }
}

impl From<CollatedQueryBatchResponse> for CollectPackagesResponse {
    /// Reports each package URL whose list of vulnerabilities is present and
    /// not empty, with the identifiers in list order; other results are
    /// skipped, and a later result for the same URL replaces an earlier one.
    fn from(response: CollatedQueryBatchResponse) -> (r: Self)
        ensures
            r.wf(),
            r@ == collect_purls(response@),
    {
        let mut out = CollectPackagesResponse::new();
        let mut i: usize = 0;
        while i < response.results.len()
            invariant
                i <= response@.len(),
                response@.len() == response.results@.len(),
                out.wf(),
                out@ == collect_purls(response@.take(i as int)),
            decreases response@.len() - i,
        {
            let c: &CollatedBatchVulnerabilities = &response.results[i];
            assert(response@.take(i + 1).drop_last() =~= response@.take(i as int));
            assert(response@.take(i + 1).last() == c@);
            match (&c.package, &c.vulns) {
                (Package::Purl { purl }, Some(v)) => {
                    if v.len() > 0 {
                        let ids = ids_of(v);
                        out.insert(purl.clone(), ids);
                    }
                },
                _ => {},
            }
            i = i + 1;
        }
        assert(response@.take(i as int) =~= response@);
        out
    }
}

} // verus!
