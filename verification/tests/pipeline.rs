use spr::fetch::{collect_responses, TransportError};
use spr::present::present;
use spr::record::{pull_request_numbers, LocalChangeRecord};
use spr::request::{decimal_string, LookupReview};
use spr::response::{
    category_label, classify, decision_from_label, Category, PullRequestSummary, Resource,
    ResponseData, ResponseEnvelope, ReviewDecision,
};

fn pr_envelope(title: &str, url: &str, decision: Option<ReviewDecision>) -> ResponseEnvelope {
    ResponseEnvelope {
        data: Some(ResponseData {
            resource: Some(Resource::PullRequest(PullRequestSummary {
                title: title.to_string(),
                url: url.to_string(),
                review_decision: decision,
            })),
        }),
    }
}

fn no_payload_envelope() -> ResponseEnvelope {
    ResponseEnvelope { data: None }
}

fn no_resource_envelope() -> ResponseEnvelope {
    ResponseEnvelope {
        data: Some(ResponseData { resource: None }),
    }
}

fn other_resource_envelope() -> ResponseEnvelope {
    ResponseEnvelope {
        data: Some(ResponseData {
            resource: Some(Resource::Other),
        }),
    }
}

fn transport_error(message: &str) -> TransportError {
    TransportError {
        message: message.to_string(),
    }
}

#[test]
fn all_successes_collect_in_order() {
    let outcomes = vec![
        Ok(pr_envelope("first", "https://x/pull/1", None)),
        Ok(pr_envelope("second", "https://x/pull/2", None)),
        Ok(pr_envelope("third", "https://x/pull/3", None)),
    ];
    let collected = collect_responses(outcomes).unwrap();
    assert_eq!(collected.len(), 3);
    let titles: Vec<String> = collected
        .iter()
        .map(|envelope| match &envelope.data {
            Some(data) => match &data.resource {
                Some(Resource::PullRequest(pr)) => pr.title.clone(),
                _ => panic!("expected a pull request"),
            },
            None => panic!("expected a payload"),
        })
        .collect();
    assert_eq!(titles, vec!["first", "second", "third"]);
}

#[test]
fn one_failure_fails_the_whole_batch() {
    let outcomes = vec![
        Ok(pr_envelope("first", "https://x/pull/1", None)),
        Err(transport_error("connection reset")),
        Ok(pr_envelope("third", "https://x/pull/3", None)),
    ];
    let collected = collect_responses(outcomes);
    match collected {
        Ok(_) => panic!("a failed lookup must fail the batch"),
        Err(e) => assert_eq!(e.message, "connection reset"),
    }
}

#[test]
fn first_of_several_failures_is_reported() {
    let outcomes: Vec<Result<ResponseEnvelope, TransportError>> = vec![
        Err(transport_error("earlier")),
        Err(transport_error("later")),
    ];
    match collect_responses(outcomes) {
        Ok(_) => panic!("a failed lookup must fail the batch"),
        Err(e) => assert_eq!(e.message, "earlier"),
    }
}

#[test]
fn empty_result_list_produces_no_lines() {
    let lines = present(&Vec::new());
    assert!(lines.is_empty());
}

#[test]
fn classification_is_fixed_per_decision() {
    assert_eq!(classify(&Some(ReviewDecision::Approved)), Category::Accepted);
    assert_eq!(
        classify(&Some(ReviewDecision::ChangesRequested)),
        Category::ChangesNeeded
    );
    assert_eq!(classify(&Some(ReviewDecision::ReviewRequired)), Category::Pending);
    assert_eq!(
        classify(&Some(ReviewDecision::Unrecognized("MERGED_WITHOUT_REVIEW".to_string()))),
        Category::Pending
    );
    assert_eq!(classify(&None), Category::Pending);
}

#[test]
fn category_labels_are_exact() {
    assert_eq!(category_label(&Category::Accepted), "Accepted");
    assert_eq!(category_label(&Category::ChangesNeeded), "Changes Needed");
    assert_eq!(category_label(&Category::Pending), "Pending");
}

#[test]
fn unclassifiable_entries_are_skipped_without_harm() {
    let results = vec![
        no_payload_envelope(),
        pr_envelope("kept", "https://x/pull/7", Some(ReviewDecision::Approved)),
        no_resource_envelope(),
        other_resource_envelope(),
        pr_envelope("also kept", "https://x/pull/8", None),
    ];
    let lines = present(&results);
    assert_eq!(lines.len(), 2);
    assert_eq!(lines[0], "Accepted kept https://x/pull/7");
    assert_eq!(lines[1], "Pending also kept https://x/pull/8");
}

#[test]
fn round_trip_single_approved_pull_request() {
    let records = vec![LocalChangeRecord {
        local_id: 1,
        pull_request_number: Some(101),
    }];
    let numbers = pull_request_numbers(&records);
    assert_eq!(numbers, vec![101u64]);

    let remote = pr_envelope(
        "Fix bug",
        "https://x/pull/101",
        Some(ReviewDecision::Approved),
    );
    let envelopes = collect_responses(vec![Ok(remote)]).unwrap();
    let lines = present(&envelopes);
    assert_eq!(lines, vec!["Accepted Fix bug https://x/pull/101"]);
}

#[test]
fn missing_resource_contributes_nothing_beside_a_hit() {
    let records = vec![
        LocalChangeRecord {
            local_id: 1,
            pull_request_number: Some(101),
        },
        LocalChangeRecord {
            local_id: 2,
            pull_request_number: Some(102),
        },
    ];
    let numbers = pull_request_numbers(&records);
    assert_eq!(numbers, vec![101u64, 102]);

    let envelopes = collect_responses(vec![
        Ok(pr_envelope(
            "Tighten checks",
            "https://x/pull/101",
            Some(ReviewDecision::ChangesRequested),
        )),
        Ok(no_resource_envelope()),
    ])
    .unwrap();
    let lines = present(&envelopes);
    assert_eq!(lines, vec!["Changes Needed Tighten checks https://x/pull/101"]);
}

#[test]
fn transport_error_emits_no_lines_at_all() {
    let outcomes = vec![
        Ok(pr_envelope(
            "Would have worked",
            "https://x/pull/101",
            Some(ReviewDecision::Approved),
        )),
        Err(transport_error("boom")),
    ];
    match collect_responses(outcomes) {
        Ok(_) => panic!("the batch must fail"),
        Err(e) => assert_eq!(e.message, "boom"),
    }
}

#[test]
fn records_without_a_pull_request_are_filtered_out() {
    let records = vec![
        LocalChangeRecord {
            local_id: 10,
            pull_request_number: None,
        },
        LocalChangeRecord {
            local_id: 11,
            pull_request_number: Some(5),
        },
        LocalChangeRecord {
            local_id: 12,
            pull_request_number: None,
        },
        LocalChangeRecord {
            local_id: 13,
            pull_request_number: Some(6),
        },
    ];
    assert_eq!(pull_request_numbers(&records), vec![5u64, 6]);
    assert_eq!(pull_request_numbers(&Vec::new()), Vec::<u64>::new());
}

#[test]
fn decimal_rendering_is_exact() {
    assert_eq!(decimal_string(0), "0");
    assert_eq!(decimal_string(7), "7");
    assert_eq!(decimal_string(10), "10");
    assert_eq!(decimal_string(101), "101");
    assert_eq!(decimal_string(9_876_543_210), "9876543210");
    assert_eq!(decimal_string(u64::MAX), "18446744073709551615");
}

#[test]
fn request_urls_follow_the_canonical_form() {
    let query = LookupReview::new("octocat".to_string(), "hello-world".to_string());
    assert_eq!(
        query.request_url(1347),
        "https://github.com/octocat/hello-world/pull/1347"
    );
    let requests = query.requests(&vec![1, 22, 333]);
    assert_eq!(requests.len(), 3);
    assert_eq!(requests[0].url, "https://github.com/octocat/hello-world/pull/1");
    assert_eq!(requests[1].url, "https://github.com/octocat/hello-world/pull/22");
    assert_eq!(requests[2].url, "https://github.com/octocat/hello-world/pull/333");
}

#[test]
fn wire_labels_map_to_decisions() {
    assert_eq!(
        decision_from_label("APPROVED".to_string()),
        ReviewDecision::Approved
    );
    assert_eq!(
        decision_from_label("CHANGES_REQUESTED".to_string()),
        ReviewDecision::ChangesRequested
    );
    assert_eq!(
        decision_from_label("REVIEW_REQUIRED".to_string()),
        ReviewDecision::ReviewRequired
    );
    assert_eq!(
        decision_from_label("DISMISSED".to_string()),
        ReviewDecision::Unrecognized("DISMISSED".to_string())
    );
}
