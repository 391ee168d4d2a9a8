use gh_hook_watcher::{
    commit_record, commit_records, compute_signature, decode_push_event, handle_webhook, message,
    push_notice, reject, respond, root_status, route_event, short_id, CommitRecord, DecodeError,
    Disposition, GitHubPayloadBody, Header, Outcome, Response, SignatureError, WebhookConfig,
    WebhookError, DEFAULT_TARGET_REF, SHORT_ID_LEN,
};

const PUSH_EVENT: &str = r#"{
  "ref": "@REF@",
  "before": "before",
  "after": "after",
  "repository": {
    "id": 18446744073709551615,
    "node_id": "node_id",
    "name": "hooks",
    "full_name": "octo/hooks",
    "private": false,
    "owner": {
      "name": "name",
      "email": "email",
      "login": "login",
      "id": 7,
      "node_id": "node_id",
      "avatar_url": "avatar_url",
      "gravatar_id": "gravatar_id",
      "url": "url",
      "html_url": "html_url",
      "followers_url": "followers_url",
      "following_url": "following_url",
      "gists_url": "gists_url",
      "starred_url": "starred_url",
      "subscriptions_url": "subscriptions_url",
      "organizations_url": "organizations_url",
      "repos_url": "repos_url",
      "events_url": "events_url",
      "received_events_url": "received_events_url",
      "type": "type",
      "user_view_type": "user_view_type",
      "site_admin": false
    },
    "html_url": "html_url",
    "description": "A \"quoted\" description",
    "fork": false,
    "url": "url",
    "forks_url": "forks_url",
    "keys_url": "keys_url",
    "collaborators_url": "collaborators_url",
    "teams_url": "teams_url",
    "hooks_url": "hooks_url",
    "issue_events_url": "issue_events_url",
    "events_url": "events_url",
    "assignees_url": "assignees_url",
    "branches_url": "branches_url",
    "tags_url": "tags_url",
    "blobs_url": "blobs_url",
    "git_tags_url": "git_tags_url",
    "git_refs_url": "git_refs_url",
    "trees_url": "trees_url",
    "statuses_url": "statuses_url",
    "languages_url": "languages_url",
    "stargazers_url": "stargazers_url",
    "contributors_url": "contributors_url",
    "subscribers_url": "subscribers_url",
    "subscription_url": "subscription_url",
    "commits_url": "commits_url",
    "git_commits_url": "git_commits_url",
    "comments_url": "comments_url",
    "issue_comment_url": "issue_comment_url",
    "contents_url": "contents_url",
    "compare_url": "compare_url",
    "merges_url": "merges_url",
    "archive_url": "archive_url",
    "downloads_url": "downloads_url",
    "issues_url": "issues_url",
    "pulls_url": "pulls_url",
    "milestones_url": "milestones_url",
    "notifications_url": "notifications_url",
    "labels_url": "labels_url",
    "releases_url": "releases_url",
    "deployments_url": "deployments_url",
    "created_at": 7,
    "updated_at": "updated_at",
    "pushed_at": 7,
    "git_url": "git_url",
    "ssh_url": "ssh_url",
    "clone_url": "clone_url",
    "svn_url": "svn_url",
    "homepage": null,
    "size": 7,
    "stargazers_count": 3,
    "watchers_count": 3,
    "language": null,
    "has_issues": false,
    "has_projects": false,
    "has_downloads": false,
    "has_wiki": false,
    "has_pages": false,
    "has_discussions": false,
    "forks_count": 3,
    "mirror_url": null,
    "archived": false,
    "disabled": false,
    "open_issues_count": 3,
    "license": null,
    "allow_forking": false,
    "is_template": false,
    "web_commit_signoff_required": false,
    "topics": [
      "rust",
      "webhooks"
    ],
    "visibility": "visibility",
    "forks": 4294967295,
    "open_issues": 3,
    "watchers": 3,
    "default_branch": "default_branch",
    "stargazers": 3,
    "master_branch": "master_branch"
  },
  "pusher": {
    "name": "name",
    "email": "email"
  },
  "sender": {
    "login": "login",
    "id": 7,
    "node_id": "node_id",
    "avatar_url": "avatar_url",
    "gravatar_id": "gravatar_id",
    "url": "url",
    "html_url": "html_url",
    "followers_url": "followers_url",
    "following_url": "following_url",
    "gists_url": "gists_url",
    "starred_url": "starred_url",
    "subscriptions_url": "subscriptions_url",
    "organizations_url": "organizations_url",
    "repos_url": "repos_url",
    "events_url": "events_url",
    "received_events_url": "received_events_url",
    "type": "type",
    "user_view_type": "user_view_type",
    "site_admin": false
  },
  "created": false,
  "deleted": false,
  "forced": false,
  "base_ref": null,
  "compare": "compare",
  "commits": [@COMMITS@],
  "head_commit": {
    "id": "ffffffffffffffffffffffffffffffffffffffff",
    "tree_id": "tree_id",
    "distinct": false,
    "message": "head commit",
    "timestamp": "timestamp",
    "url": "url",
    "author": {
      "name": "Head",
      "email": "head@example.com",
      "username": "username"
    },
    "committer": {
      "name": "name",
      "email": "email",
      "username": "username"
    },
    "added": [
      "README.md"
    ],
    "removed": [],
    "modified": [
      "src/lib.rs",
      "src/main.rs"
    ]
  },
  "unknown_member": {
    "x": [
      1,
      2.5,
      -3
    ]
  }
}"#;

const COMMIT: &str = r#"{
  "id": "@ID@",
  "tree_id": "tree_id",
  "distinct": false,
  "message": "@MESSAGE@",
  "timestamp": "timestamp",
  "url": "url",
  "author": {
    "name": "@NAME@",
    "email": "@EMAIL@",
    "username": "username"
  },
  "committer": {
    "name": "name",
    "email": "email",
    "username": "username"
  },
  "added": [
    "README.md"
  ],
  "removed": [],
  "modified": [
    "src/lib.rs",
    "src/main.rs"
  ]
}"#;

fn commit_text(id: &str, name: &str, email: &str, message: &str) -> String {
    COMMIT
        .replace("@ID@", id)
        .replace("@NAME@", name)
        .replace("@EMAIL@", email)
        .replace("@MESSAGE@", message)
}

fn push_text(reference: &str, commits: &[String]) -> String {
    PUSH_EVENT.replace("@REF@", reference).replace("@COMMITS@", &commits.join(","))
}

const SECRET: &[u8] = b"It's a Secret to Everybody";

fn config() -> WebhookConfig {
    WebhookConfig::new(Some(SECRET.to_vec()), None)
}

fn header(name: &str, value: &str) -> Header {
    Header { name: name.as_bytes().to_vec(), value: value.as_bytes().to_vec() }
}

fn signature_of(secret: &[u8], body: &[u8]) -> String {
    format!("sha256={}", hex::encode(compute_signature(secret, body)))
}

fn signed(body: &[u8]) -> Vec<Header> {
    vec![
        header("content-type", "application/json"),
        header("x-github-event", "push"),
        header("x-hub-signature-256", &signature_of(SECRET, body)),
    ]
}

fn post(body: &str) -> Outcome {
    handle_webhook(&config(), &signed(body.as_bytes()), body.as_bytes())
}

fn three_commits() -> Vec<String> {
    vec![
        commit_text("1111111aaaaaaaaaaaaaaaaaaaaaaaaaaaaaaaaa", "Ada", "ada@example.com", "first"),
        commit_text("2222222bbbbbbbbbbbbbbbbbbbbbbbbbbbbbbbbb", "Brian", "brian@example.com", "second"),
        commit_text("3333333ccccccccccccccccccccccccccccccccc", "Cleo", "cleo@example.com", "third"),
    ]
}

fn event(reference: &str, commits: &[String]) -> GitHubPayloadBody {
    decode_push_event(push_text(reference, commits).as_bytes()).unwrap()
}

fn record(short_id: &str, name: &str, email: &str, message: &str) -> CommitRecord {
    CommitRecord {
        short_id: short_id.to_string(),
        author_name: name.to_string(),
        author_email: email.to_string(),
        message: message.to_string(),
    }
}

fn failed(outcome: &Outcome, error: WebhookError, body: &str) {
    assert_eq!(outcome.disposition, Disposition::Failed(error));
    assert_eq!(outcome.response, Response { status: 400, body: body.to_string() });
    assert!(outcome.commits.is_empty());
    assert_eq!(outcome.event, None);
}

#[test]
fn push_to_main_with_two_commits_succeeds() {
    let body = push_text("refs/heads/main", &three_commits()[..2]);
    let outcome = post(&body);
    assert_eq!(outcome.response.status, 200);
    assert_eq!(outcome.response.body, "{\"msg\":\"Success\"}");
    assert_eq!(outcome.disposition, Disposition::Processed);
    assert_eq!(
        outcome.commits,
        vec![
            record("1111111", "Ada", "ada@example.com", "first"),
            record("2222222", "Brian", "brian@example.com", "second"),
        ]
    );
    let event = outcome.event.unwrap();
    assert_eq!(event.reference, "refs/heads/main");
    assert_eq!(event.repository.full_name, "octo/hooks");
    assert_eq!(event, decode_push_event(body.as_bytes()).unwrap());
}

#[test]
fn push_to_develop_is_received_and_passed_over() {
    let body = push_text("refs/heads/develop", &three_commits());
    let outcome = post(&body);
    assert_eq!(outcome.response.status, 200);
    assert_eq!(outcome.response.body, "{\"msg\":\"Received push on non-main branch\"}");
    assert_eq!(outcome.disposition, Disposition::Ignored);
    assert!(outcome.commits.is_empty());
    assert_eq!(outcome.event.unwrap().reference, "refs/heads/develop");
}

#[test]
fn tampered_body_fails_verification() {
    let signed_body = push_text("refs/heads/develop", &three_commits());
    let sent_body = push_text("refs/heads/main", &three_commits());
    let outcome = handle_webhook(&config(), &signed(signed_body.as_bytes()), sent_body.as_bytes());
    assert_eq!(outcome.response.status, 400);
    assert_eq!(outcome.response.body, "{\"msg\":\"Signature verification failed\"}");
    failed(&outcome, WebhookError::VerificationFailed, "{\"msg\":\"Signature verification failed\"}");
}

#[test]
fn one_changed_bit_of_the_body_fails_verification() {
    let body = push_text("refs/heads/main", &[]);
    let mut sent = body.clone().into_bytes();
    let last = sent.len() - 1;
    sent[last] ^= 0x20;
    let outcome = handle_webhook(&config(), &signed(body.as_bytes()), &sent);
    failed(&outcome, WebhookError::VerificationFailed, "{\"msg\":\"Signature verification failed\"}");
}

#[test]
fn signature_under_another_secret_fails_verification() {
    let body = push_text("refs/heads/main", &[]);
    let headers = vec![header("X-Hub-Signature-256", &signature_of(b"another secret", body.as_bytes()))];
    let outcome = handle_webhook(&config(), &headers, body.as_bytes());
    failed(&outcome, WebhookError::VerificationFailed, "{\"msg\":\"Signature verification failed\"}");
}

#[test]
fn signature_is_over_the_raw_bytes() {
    // The same document with other spacing is another body.
    let body = push_text("refs/heads/main", &[]);
    let respaced = body.replace("\n", "\n ");
    assert_eq!(decode_push_event(body.as_bytes()), decode_push_event(respaced.as_bytes()));
    let outcome = handle_webhook(&config(), &signed(body.as_bytes()), respaced.as_bytes());
    assert_eq!(outcome.disposition, Disposition::Failed(WebhookError::VerificationFailed));
    assert_eq!(post(&respaced).disposition, Disposition::Processed);
}

#[test]
fn missing_secret_is_a_configuration_error() {
    let body = push_text("refs/heads/main", &[]);
    let config = WebhookConfig::new(None, None);
    let outcome = handle_webhook(&config, &signed(body.as_bytes()), body.as_bytes());
    failed(&outcome, WebhookError::Config, "{\"msg\":\"environment variable not found\"}");
    // The secret is looked at before the headers are.
    let outcome = handle_webhook(&config, &Vec::new(), b"");
    failed(&outcome, WebhookError::Config, "{\"msg\":\"environment variable not found\"}");
}

#[test]
fn empty_secret_is_a_secret() {
    let body = push_text("refs/heads/main", &[]);
    let config = WebhookConfig::new(Some(Vec::new()), None);
    let headers = vec![header("X-Hub-Signature-256", &signature_of(b"", body.as_bytes()))];
    assert_eq!(handle_webhook(&config, &headers, body.as_bytes()).disposition, Disposition::Processed);
}

#[test]
fn missing_header_is_turned_down() {
    let body = push_text("refs/heads/main", &[]);
    let outcome = handle_webhook(&config(), &vec![header("content-type", "application/json")], body.as_bytes());
    failed(
        &outcome,
        WebhookError::Signature(SignatureError::MissingHeader),
        "{\"msg\":\"Missing X-Hub-Signature-256 header\"}",
    );
}

#[test]
fn header_without_prefix_is_turned_down() {
    let body = push_text("refs/heads/main", &[]);
    let digest = hex::encode(compute_signature(SECRET, body.as_bytes()));
    let outcome = handle_webhook(&config(), &vec![header("X-Hub-Signature-256", &digest)], body.as_bytes());
    failed(
        &outcome,
        WebhookError::Signature(SignatureError::MalformedHeader),
        "{\"msg\":\"X-Hub-Signature-256 header missing prefix\"}",
    );
}

#[test]
fn header_with_bad_digits_is_turned_down() {
    let body = push_text("refs/heads/main", &[]);
    for value in ["sha256=xyz", "sha256=abc", "sha256=00 11"] {
        let outcome = handle_webhook(&config(), &vec![header("X-Hub-Signature-256", value)], body.as_bytes());
        failed(
            &outcome,
            WebhookError::Signature(SignatureError::InvalidEncoding),
            "{\"msg\":\"Invalid X-Hub-Signature-256 hex value\"}",
        );
    }
}

#[test]
fn authentic_body_that_is_no_json_is_a_bad_payload() {
    let outcome = post("ref=refs/heads/main");
    failed(&outcome, WebhookError::Decode(DecodeError::InvalidJson), "{\"msg\":\"failed to convert payload\"}");
    let outcome = post("");
    failed(&outcome, WebhookError::Decode(DecodeError::InvalidJson), "{\"msg\":\"failed to convert payload\"}");
}

#[test]
fn authentic_body_that_lacks_a_member_is_a_bad_payload() {
    let body = push_text("refs/heads/main", &[]).replace("\"compare\":", "\"compared\":");
    let outcome = post(&body);
    failed(&outcome, WebhookError::Decode(DecodeError::InvalidPayload), "{\"msg\":\"failed to convert payload\"}");
    let outcome = post("{\"ref\":\"refs/heads/main\"}");
    failed(&outcome, WebhookError::Decode(DecodeError::InvalidPayload), "{\"msg\":\"failed to convert payload\"}");
}

#[test]
fn body_is_not_read_before_it_is_verified() {
    let headers = vec![header("X-Hub-Signature-256", &signature_of(SECRET, b"something else"))];
    let outcome = handle_webhook(&config(), &headers, b"not json");
    failed(&outcome, WebhookError::VerificationFailed, "{\"msg\":\"Signature verification failed\"}");
}

#[test]
fn header_name_in_any_case_is_found() {
    let body = push_text("refs/heads/main", &[]);
    for name in ["X-Hub-Signature-256", "X-HUB-SIGNATURE-256", "x-hub-signature-256"] {
        let headers = vec![header(name, &signature_of(SECRET, body.as_bytes()))];
        assert_eq!(handle_webhook(&config(), &headers, body.as_bytes()).disposition, Disposition::Processed);
    }
}

#[test]
fn digest_in_capitals_is_accepted() {
    let body = push_text("refs/heads/main", &[]);
    let value = format!("sha256={}", hex::encode_upper(compute_signature(SECRET, body.as_bytes())));
    let outcome = handle_webhook(&config(), &vec![header("X-Hub-Signature-256", &value)], body.as_bytes());
    assert_eq!(outcome.disposition, Disposition::Processed);
}

#[test]
fn configured_target_takes_the_place_of_main() {
    let config = WebhookConfig::new(Some(SECRET.to_vec()), Some("refs/heads/develop".to_string()));
    let develop = push_text("refs/heads/develop", &three_commits());
    let outcome = handle_webhook(&config, &signed(develop.as_bytes()), develop.as_bytes());
    assert_eq!(outcome.disposition, Disposition::Processed);
    assert_eq!(outcome.response, Response { status: 200, body: "{\"msg\":\"Success\"}".to_string() });
    assert_eq!(outcome.commits.len(), 3);
    let main = push_text("refs/heads/main", &three_commits());
    let outcome = handle_webhook(&config, &signed(main.as_bytes()), main.as_bytes());
    assert_eq!(outcome.disposition, Disposition::Ignored);
    assert_eq!(outcome.response.status, 200);
    assert!(outcome.commits.is_empty());
}

#[test]
fn configuration_defaults_to_main() {
    assert_eq!(DEFAULT_TARGET_REF, "refs/heads/main");
    let config = WebhookConfig::new(None, None);
    assert_eq!(config.target_ref, "refs/heads/main");
    assert_eq!(config.secret, None);
    let config = WebhookConfig::new(Some(vec![1, 2]), Some("refs/tags/v1".to_string()));
    assert_eq!(config.target_ref, "refs/tags/v1");
    assert_eq!(config.secret, Some(vec![1, 2]));
}

#[test]
fn ref_must_match_whole_and_exactly() {
    for reference in ["refs/heads/main2", "refs/heads/mai", "refs/heads/Main", "main", "", "refs/heads/main "] {
        let outcome = route_event("refs/heads/main", event(reference, &three_commits()));
        assert_eq!(outcome.disposition, Disposition::Ignored, "{}", reference);
        assert_eq!(outcome.response.status, 200);
    }
}

#[test]
fn route_event_processes_a_push_to_the_target() {
    let pushed = event("refs/heads/main", &three_commits());
    let outcome = route_event("refs/heads/main", event("refs/heads/main", &three_commits()));
    assert_eq!(outcome.disposition, Disposition::Processed);
    assert_eq!(outcome.response, respond(Disposition::Processed));
    assert_eq!(outcome.commits, commit_records(&pushed.commits));
    assert_eq!(outcome.event, Some(pushed));
}

#[test]
fn route_event_passes_over_a_push_elsewhere() {
    let pushed = event("refs/heads/topic", &three_commits());
    let outcome = route_event("refs/heads/main", event("refs/heads/topic", &three_commits()));
    assert_eq!(outcome.disposition, Disposition::Ignored);
    assert_eq!(outcome.response, respond(Disposition::Ignored));
    assert!(outcome.commits.is_empty());
    assert_eq!(outcome.event, Some(pushed));
}

#[test]
fn commits_are_logged_in_push_order() {
    let outcome = post(&push_text("refs/heads/main", &three_commits()));
    let ids: Vec<&str> = outcome.commits.iter().map(|r| r.short_id.as_str()).collect();
    assert_eq!(ids, ["1111111", "2222222", "3333333"]);
    let names: Vec<&str> = outcome.commits.iter().map(|r| r.author_name.as_str()).collect();
    assert_eq!(names, ["Ada", "Brian", "Cleo"]);
    let mut reversed = three_commits();
    reversed.reverse();
    let outcome = post(&push_text("refs/heads/main", &reversed));
    let ids: Vec<&str> = outcome.commits.iter().map(|r| r.short_id.as_str()).collect();
    assert_eq!(ids, ["3333333", "2222222", "1111111"]);
}

#[test]
fn push_without_commits_is_processed_without_records() {
    let outcome = post(&push_text("refs/heads/main", &[]));
    assert_eq!(outcome.disposition, Disposition::Processed);
    assert_eq!(outcome.response.body, "{\"msg\":\"Success\"}");
    assert!(outcome.commits.is_empty());
    assert_eq!(outcome.event.unwrap().head_commit.message, "head commit");
}

#[test]
fn short_id_keeps_seven_characters() {
    assert_eq!(SHORT_ID_LEN, 7);
    assert_eq!(short_id("1111111aaaaaaaaaaaaaaaaaaaaaaaaaaaaaaaaa"), "1111111");
    assert_eq!(short_id("12345678"), "1234567");
    assert_eq!(short_id("1234567"), "1234567");
}

#[test]
fn short_id_of_a_short_id_is_the_id() {
    assert_eq!(short_id("123456"), "123456");
    assert_eq!(short_id("a"), "a");
    assert_eq!(short_id(""), "");
}

#[test]
fn short_id_counts_characters() {
    assert_eq!(short_id("\u{e9}\u{e9}\u{e9}\u{e9}\u{e9}\u{e9}\u{e9}\u{e9}\u{e9}"), "\u{e9}".repeat(7));
    assert_eq!(short_id("\u{4e2d}\u{6587}"), "\u{4e2d}\u{6587}");
}

#[test]
fn commit_with_a_short_id_is_logged_whole() {
    let outcome = post(&push_text("refs/heads/main", &[commit_text("abc", "n", "e", "m")]));
    assert_eq!(outcome.commits, vec![record("abc", "n", "e", "m")]);
}

#[test]
fn commit_record_takes_author_and_message() {
    let pushed = event("refs/heads/main", &three_commits());
    assert_eq!(commit_record(&pushed.commits[2]), record("3333333", "Cleo", "cleo@example.com", "third"));
    assert_eq!(commit_record(&pushed.head_commit), record("fffffff", "Head", "head@example.com", "head commit"));
    assert_eq!(commit_records(&Vec::new()), Vec::new());
}

#[test]
fn commit_line_is_spelled_out() {
    let line = record("1111111", "Ada", "ada@example.com", "first").line();
    assert_eq!(line, "Commit: 1111111 by Ada (ada@example.com)\nMessage: first");
    assert_eq!(record("", "", "", "").line(), "Commit:  by  ()\nMessage: ");
}

#[test]
fn push_notice_names_the_repository() {
    let pushed = event("refs/heads/main", &[]);
    assert_eq!(push_notice(&pushed), "Received push to main branch in repository: octo/hooks");
}

#[test]
fn each_disposition_has_its_answer() {
    let cases = [
        (Disposition::Processed, 200, "Success"),
        (Disposition::Ignored, 200, "Received push on non-main branch"),
        (Disposition::Failed(WebhookError::Config), 400, "environment variable not found"),
        (
            Disposition::Failed(WebhookError::Signature(SignatureError::MissingHeader)),
            400,
            "Missing X-Hub-Signature-256 header",
        ),
        (
            Disposition::Failed(WebhookError::Signature(SignatureError::MalformedHeader)),
            400,
            "X-Hub-Signature-256 header missing prefix",
        ),
        (
            Disposition::Failed(WebhookError::Signature(SignatureError::InvalidEncoding)),
            400,
            "Invalid X-Hub-Signature-256 hex value",
        ),
        (Disposition::Failed(WebhookError::VerificationFailed), 400, "Signature verification failed"),
        (Disposition::Failed(WebhookError::Decode(DecodeError::InvalidJson)), 400, "failed to convert payload"),
        (Disposition::Failed(WebhookError::Decode(DecodeError::InvalidPayload)), 400, "failed to convert payload"),
    ];
    for (disposition, status, msg) in cases {
        assert_eq!(message(disposition), msg);
        let response = respond(disposition);
        assert_eq!(response.status, status);
        assert_eq!(response.body, format!("{{\"msg\":\"{}\"}}", msg));
    }
}

#[test]
fn reject_holds_nothing_but_the_answer() {
    let outcome = reject(WebhookError::VerificationFailed);
    failed(&outcome, WebhookError::VerificationFailed, "{\"msg\":\"Signature verification failed\"}");
    let outcome = reject(WebhookError::Config);
    failed(&outcome, WebhookError::Config, "{\"msg\":\"environment variable not found\"}");
}

#[test]
fn status_endpoint_reports_no_error() {
    let report = root_status();
    assert_eq!(report.code, 200);
    assert_eq!(report.msg, "Github Hooks Watcher");
    assert!(!report.has_error);
    assert_eq!(report.error, None);
}

#[test]
fn handling_twice_gives_the_same() {
    let body = push_text("refs/heads/main", &three_commits());
    assert_eq!(post(&body), post(&body));
}
