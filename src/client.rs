use vstd::prelude::*;
use vstd::string::StringExecFns;

use crate::schema::{clone_vulns, BatchVulnerability, Package};

verus! {

/// Address of the batch query endpoint.
pub const QUERYBATCH_URL: &'static str = "https://api.osv.dev/v1/querybatch";

/// Address under which single vulnerabilities are looked up by identifier.
pub const VULNS_URL: &'static str = "https://api.osv.dev/v1/vulns";

/// Client for the vulnerability database; it holds no state.
pub struct OsvClient {}

/// One query of a batch: the package to look up.
#[derive(Debug, PartialEq, Eq)]
pub struct QueryPackageRequest {
    pub package: Package,
}

/// An ordered batch of queries; the service answers them by position.
#[derive(Debug, PartialEq, Eq)]
pub struct QueryBatchRequest {
    pub queries: Vec<QueryPackageRequest>,
}

/// The answer to one query: absent when the service returned no list.
#[derive(Debug, PartialEq, Eq)]
pub struct BatchVulnerabilities {
    pub vulns: Option<Vec<BatchVulnerability>>,
}

/// The service's answer to a batch, one slot per query, in query order.
#[derive(Debug, PartialEq, Eq)]
pub struct QueryBatchResponse {
    pub results: Vec<BatchVulnerabilities>,
}

/// A query's package joined with the answer the service gave for it.
#[derive(Debug, PartialEq, Eq)]
pub struct CollatedBatchVulnerabilities {
    pub package: Package,
    pub vulns: Option<Vec<BatchVulnerability>>,
}

/// The packages of a batch, each joined with its answer.
#[derive(Debug, PartialEq, Eq)]
pub struct CollatedQueryBatchResponse {
    pub results: Vec<CollatedBatchVulnerabilities>,
}

/// A result slot as a mathematical value.
pub type SlotModel = Option<Seq<BatchVulnerability>>;

pub open spec fn slot_view(v: Option<Vec<BatchVulnerability>>) -> SlotModel {
    match v {
        Some(l) => Some(l@),
        None => None,
    }
}

impl View for QueryBatchRequest {
    type V = Seq<Package>;

    open spec fn view(&self) -> Seq<Package> {
        self.queries@.map_values(|q: QueryPackageRequest| q.package)
    }
}

impl View for BatchVulnerabilities {
    type V = SlotModel;

    open spec fn view(&self) -> SlotModel {
        slot_view(self.vulns)
    }
}

impl View for QueryBatchResponse {
    type V = Seq<SlotModel>;

    open spec fn view(&self) -> Seq<SlotModel> {
        self.results@.map_values(|b: BatchVulnerabilities| b@)
    }
}

impl View for CollatedBatchVulnerabilities {
    type V = (Package, SlotModel);

    open spec fn view(&self) -> (Package, SlotModel) {
        (self.package, slot_view(self.vulns))
    }
}

impl View for CollatedQueryBatchResponse {
    type V = Seq<(Package, SlotModel)>;

    open spec fn view(&self) -> Seq<(Package, SlotModel)> {
        self.results@.map_values(|c: CollatedBatchVulnerabilities| c@)
    }
}

/// Query `i` paired with slot `i`, for as many positions as both sequences have.
pub open spec fn zip_slots(queries: Seq<Package>, slots: Seq<SlotModel>) -> Seq<(Package, SlotModel)> {
    let n = if queries.len() <= slots.len() { queries.len() } else { slots.len() };
    Seq::new(n, |i: int| (queries[i], slots[i]))
}

fn clone_slot(v: &Option<Vec<BatchVulnerability>>) -> (r: Option<Vec<BatchVulnerability>>)
    ensures
        slot_view(r) == slot_view(*v),
{
    match v {
        Some(l) => Some(clone_vulns(l)),
        None => None,
    }
}

impl Default for CollatedQueryBatchResponse {
    fn default() -> (r: Self)
        ensures
            r@.len() == 0,
    {
        CollatedQueryBatchResponse { results: Vec::new() }
    }
}

impl OsvClient {
    /// Joins each query of `request` with the slot at the same position of
    /// `response`; where the lengths differ the shorter one bounds the result.
    pub fn collate(request: &QueryBatchRequest, response: &QueryBatchResponse) -> (r: CollatedQueryBatchResponse)
        ensures
            r@ == zip_slots(request@, response@),
    {
        let mut results: Vec<CollatedBatchVulnerabilities> = Vec::new();
        let mut i: usize = 0;
        while i < request.queries.len() && i < response.results.len()
            invariant
                i <= request@.len(),
                i <= response@.len(),
                request@.len() == request.queries@.len(),
                response@.len() == response.results@.len(),
                results@.map_values(|c: CollatedBatchVulnerabilities| c@) =~= zip_slots(
                    request@.take(i as int),
                    response@.take(i as int),
                ),
            decreases request@.len() - i,
        {
            let c = CollatedBatchVulnerabilities {
                package: request.queries[i].package.clone(),
                vulns: clone_slot(&response.results[i].vulns),
            };
            assert(c@ == (request@[i as int], response@[i as int]));
            let ghost before = results@;
            results.push(c);
            assert(results@.map_values(|c: CollatedBatchVulnerabilities| c@) =~= before.map_values(
                |c: CollatedBatchVulnerabilities| c@,
            ).push(c@));
            i = i + 1;
        }
        let r = CollatedQueryBatchResponse { results };
        assert(request@.take(i as int) =~= request@.take(zip_slots(request@, response@).len() as int));
        assert(r@ =~= zip_slots(request@, response@));
        r
    }

    /// The address at which the vulnerability `id` is looked up: the base
    /// address, a slash, and `id` as given.
    pub fn vulns_url(id: &str) -> (r: String)
        ensures
            r@ == VULNS_URL@ + "/"@ + id@,
    {
        let mut url = String::from_str(VULNS_URL);
        url.append("/");
        url.append(id);
        url
    }
}

} // verus!
