use osv_client::{
    BatchVulnerabilities, BatchVulnerability, CollatedBatchVulnerabilities,
    CollatedQueryBatchResponse, CollectPackagesResponse, OsvClient, Package, QueryBatchRequest,
    QueryBatchResponse, QueryPackageRequest,
};

fn purl(s: &str) -> Package {
    Package::Purl { purl: s.to_string() }
}

fn vuln(id: &str) -> BatchVulnerability {
    BatchVulnerability { id: id.to_string(), modified: "2023-01-01T00:00:00Z".to_string() }
}

#[test]
fn empty_response() {
    let src = CollatedQueryBatchResponse::default();
    let tgt = CollectPackagesResponse::from(src);
    assert!(tgt.purls.is_empty());
}

#[test]
fn no_vulns() {
    let src = CollatedQueryBatchResponse {
        results: vec![CollatedBatchVulnerabilities {
            package: Package::Purl { purl: "pkg:foo".to_string() },
            vulns: None,
        }],
    };
    let tgt = CollectPackagesResponse::from(src);
    assert!(tgt.purls.is_empty());
}

#[test]
fn empty_vulns() {
    let src = CollatedQueryBatchResponse {
        results: vec![CollatedBatchVulnerabilities {
            package: Package::Purl { purl: "pkg:foo".to_string() },
            vulns: Some(vec![]),
        }],
    };
    let tgt = CollectPackagesResponse::from(src);
    assert!(tgt.purls.is_empty());
}

#[test]
fn some_vulns() {
    let src = CollatedQueryBatchResponse {
        results: vec![CollatedBatchVulnerabilities {
            package: Package::Purl { purl: "pkg:foo".to_string() },
            vulns: Some(vec![BatchVulnerability { id: "cve".to_string(), modified: Default::default() }]),
        }],
    };
    let tgt = CollectPackagesResponse::from(src);
    assert!(!tgt.purls.is_empty());
    assert_eq!(*tgt.get("pkg:foo").unwrap(), vec!["cve"]);
}

#[test]
fn all_absent_lists_give_nothing() {
    let src = CollatedQueryBatchResponse {
        results: vec![
            CollatedBatchVulnerabilities { package: purl("pkg:a"), vulns: None },
            CollatedBatchVulnerabilities { package: purl("pkg:b"), vulns: None },
        ],
    };
    let tgt = CollectPackagesResponse::from(src);
    assert!(tgt.is_empty());
    assert_eq!(tgt.len(), 0);
}

#[test]
fn all_empty_lists_give_nothing() {
    let src = CollatedQueryBatchResponse {
        results: vec![
            CollatedBatchVulnerabilities { package: purl("pkg:a"), vulns: Some(vec![]) },
            CollatedBatchVulnerabilities { package: purl("pkg:b"), vulns: Some(vec![]) },
        ],
    };
    let tgt = CollectPackagesResponse::from(src);
    assert!(tgt.is_empty());
}

#[test]
fn identifiers_keep_list_order() {
    let src = CollatedQueryBatchResponse {
        results: vec![CollatedBatchVulnerabilities {
            package: purl("pkg:foo"),
            vulns: Some(vec![vuln("c"), vuln("a"), vuln("b")]),
        }],
    };
    let tgt = CollectPackagesResponse::from(src);
    assert_eq!(tgt.len(), 1);
    assert_eq!(*tgt.get("pkg:foo").unwrap(), vec!["c", "a", "b"]);
    assert!(tgt.get("pkg:bar").is_none());
}

#[test]
fn named_packages_are_skipped() {
    let src = CollatedQueryBatchResponse {
        results: vec![
            CollatedBatchVulnerabilities {
                package: Package::Named {
                    ecosystem: "crates.io".to_string(),
                    name: "foo".to_string(),
                    version: Some("1.0.0".to_string()),
                },
                vulns: Some(vec![vuln("x")]),
            },
            CollatedBatchVulnerabilities { package: purl("pkg:bar"), vulns: Some(vec![vuln("y")]) },
        ],
    };
    let tgt = CollectPackagesResponse::from(src);
    assert_eq!(tgt.len(), 1);
    assert_eq!(*tgt.get("pkg:bar").unwrap(), vec!["y"]);
}

#[test]
fn later_result_for_same_purl_wins() {
    let src = CollatedQueryBatchResponse {
        results: vec![
            CollatedBatchVulnerabilities { package: purl("pkg:foo"), vulns: Some(vec![vuln("old")]) },
            CollatedBatchVulnerabilities { package: purl("pkg:bar"), vulns: Some(vec![vuln("b")]) },
            CollatedBatchVulnerabilities { package: purl("pkg:foo"), vulns: Some(vec![vuln("new1"), vuln("new2")]) },
            CollatedBatchVulnerabilities { package: purl("pkg:foo"), vulns: Some(vec![]) },
        ],
    };
    let tgt = CollectPackagesResponse::from(src);
    assert_eq!(tgt.len(), 2);
    assert_eq!(*tgt.get("pkg:foo").unwrap(), vec!["new1", "new2"]);
    assert_eq!(*tgt.get("pkg:bar").unwrap(), vec!["b"]);
}

#[test]
fn converting_twice_gives_the_same_entries() {
    let make = || CollatedQueryBatchResponse {
        results: vec![
            CollatedBatchVulnerabilities { package: purl("pkg:a"), vulns: Some(vec![vuln("1")]) },
            CollatedBatchVulnerabilities { package: purl("pkg:b"), vulns: None },
        ],
    };
    let first = CollectPackagesResponse::from(make());
    let second = CollectPackagesResponse::from(make());
    assert_eq!(first, second);
}

#[test]
fn insert_replaces_existing_entry() {
    let mut r = CollectPackagesResponse::new();
    r.insert("pkg:a".to_string(), vec!["1".to_string()]);
    r.insert("pkg:b".to_string(), vec!["2".to_string()]);
    r.insert("pkg:a".to_string(), vec!["3".to_string()]);
    assert_eq!(r.len(), 2);
    assert_eq!(*r.get("pkg:a").unwrap(), vec!["3"]);
}

fn request(purls: &[&str]) -> QueryBatchRequest {
    QueryBatchRequest {
        queries: purls.iter().map(|p| QueryPackageRequest { package: purl(p) }).collect(),
    }
}

#[test]
fn collate_truncates_to_shorter_response() {
    let req = request(&["pkg:a", "pkg:b"]);
    let resp = QueryBatchResponse {
        results: vec![BatchVulnerabilities { vulns: Some(vec![vuln("cve-a")]) }],
    };
    let out = OsvClient::collate(&req, &resp);
    assert_eq!(out.results.len(), 1);
    assert_eq!(out.results[0].package, purl("pkg:a"));
    assert_eq!(out.results[0].vulns, Some(vec![vuln("cve-a")]));
}

#[test]
fn collate_pairs_by_position() {
    let req = request(&["pkg:a", "pkg:b", "pkg:c"]);
    let resp = QueryBatchResponse {
        results: vec![
            BatchVulnerabilities { vulns: None },
            BatchVulnerabilities { vulns: Some(vec![vuln("b1"), vuln("b2")]) },
            BatchVulnerabilities { vulns: Some(vec![]) },
        ],
    };
    let out = OsvClient::collate(&req, &resp);
    assert_eq!(out.results.len(), 3);
    assert_eq!(out.results[0].package, purl("pkg:a"));
    assert_eq!(out.results[0].vulns, None);
    assert_eq!(out.results[1].package, purl("pkg:b"));
    assert_eq!(out.results[1].vulns, Some(vec![vuln("b1"), vuln("b2")]));
    assert_eq!(out.results[2].package, purl("pkg:c"));
    assert_eq!(out.results[2].vulns, Some(vec![]));
    let tgt = CollectPackagesResponse::from(out);
    assert_eq!(tgt.len(), 1);
    assert_eq!(*tgt.get("pkg:b").unwrap(), vec!["b1", "b2"]);
}

#[test]
fn collate_truncates_to_shorter_request() {
    let req = request(&["pkg:a"]);
    let resp = QueryBatchResponse {
        results: vec![BatchVulnerabilities { vulns: None }, BatchVulnerabilities { vulns: None }],
    };
    let out = OsvClient::collate(&req, &resp);
    assert_eq!(out.results.len(), 1);
}

#[test]
fn collate_empty_batch() {
    let out = OsvClient::collate(&request(&[]), &QueryBatchResponse { results: vec![] });
    assert!(out.results.is_empty());
}

#[test]
fn vulns_url_appends_identifier() {
    assert_eq!(
        OsvClient::vulns_url("GHSA-7rjr-3q55-vv33"),
        "https://api.osv.dev/v1/vulns/GHSA-7rjr-3q55-vv33"
    );
}

#[test]
fn package_clone_is_equal() {
    let p = Package::Named { ecosystem: "npm".to_string(), name: "left-pad".to_string(), version: None };
    assert_eq!(p.clone(), p);
    assert_eq!(vuln("x").clone(), vuln("x"));
}
