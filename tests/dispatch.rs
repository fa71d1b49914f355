use benchmark_proxy::dispatch::{
    combine_method_delays, eligible_backends, primary_index, reply_for_first, Backend, BackendRole, ClientReply,
    LegOutcome,
};

fn backend(name: &str, role: BackendRole) -> Backend {
    Backend { url: format!("http://{}.example:8545", name), name: name.to_string(), role }
}

fn three() -> Vec<Backend> {
    vec![
        backend("node-primary", BackendRole::Primary),
        backend("node-a", BackendRole::Secondary),
        backend("node-b", BackendRole::Secondary),
    ]
}

#[test]
fn healthy_backends_are_all_eligible() {
    let bs = three();
    let r = eligible_backends(&bs, false, &vec![false, false, false], &vec![true, true, true]);
    assert_eq!(r, vec![0, 1, 2]);
}

#[test]
fn stateful_requests_go_to_primary_only() {
    let bs = three();
    assert_eq!(eligible_backends(&bs, true, &vec![false, false, false], &vec![true, true, true]), vec![0]);
    assert_eq!(eligible_backends(&bs, true, &vec![true, true, true], &vec![false, false, false]), vec![0]);
}

#[test]
fn lagging_or_unavailable_secondaries_are_excluded() {
    let bs = three();
    assert_eq!(eligible_backends(&bs, false, &vec![false, true, false], &vec![true, true, true]), vec![0, 2]);
    assert_eq!(eligible_backends(&bs, false, &vec![false, false, false], &vec![true, true, false]), vec![0, 1]);
}

#[test]
fn primary_is_never_filtered() {
    let bs = three();
    assert_eq!(eligible_backends(&bs, false, &vec![true, true, true], &vec![false, false, false]), vec![0]);
}

#[test]
fn finds_the_primary() {
    assert_eq!(primary_index(&three()), Some(0));
    let secondaries = vec![backend("a", BackendRole::Secondary)];
    assert_eq!(primary_index(&secondaries), None);
}

#[test]
fn method_delays_combine_by_maximum() {
    assert_eq!(combine_method_delays(&vec![], 515), 25);
    assert_eq!(combine_method_delays(&vec![540, 600, 515], 515), 600);
    assert_eq!(combine_method_delays(&vec![0, 0], 515), 515);
}

#[test]
fn replies_follow_the_first_result() {
    assert_eq!(reply_for_first(0, None), ClientReply::NoBackend);
    assert_eq!(reply_for_first(0, None).status_code(), 503);
    assert_eq!(reply_for_first(2, None), ClientReply::NoResponse);
    assert_eq!(reply_for_first(2, None).status_code(), 504);
    let failed = reply_for_first(2, Some(LegOutcome::Failed { backend: 1 }));
    assert_eq!(failed, ClientReply::BadGateway { backend: 1 });
    assert_eq!(failed.status_code(), 502);
    let ok = reply_for_first(2, Some(LegOutcome::Responded { backend: 0, status: 404 }));
    assert_eq!(ok, ClientReply::Forward { backend: 0, status: 404 });
    assert_eq!(ok.status_code(), 404);
}
