use delivery_station::gitea::{
    Author, Commit, GiteaForm, InternalTracker, Permissions, Repository, TriggerError, User,
    parse_ref, signature, signature_matches, validate_content_type,
};

fn user(login: &str) -> User {
    User {
        id: 1,
        login: login.to_string(),
        full_name: login.to_string(),
        email: format!("{}@example.org", login),
        avatar_url: String::new(),
        language: "en-US".to_string(),
        is_admin: false,
        last_login: String::new(),
        created: String::new(),
        username: login.to_string(),
    }
}

fn push_payload(git_ref: &str, full_name: &str) -> GiteaForm {
    GiteaForm {
        secret: String::new(),
        _ref: git_ref.to_string(),
        before: "0000".to_string(),
        after: "1111".to_string(),
        compare_url: String::new(),
        commits: vec![Commit {
            id: "1111".to_string(),
            message: "update".to_string(),
            url: String::new(),
            author: Author {
                name: "dev".to_string(),
                email: "dev@example.org".to_string(),
                username: "dev".to_string(),
            },
            committer: Author {
                name: "dev".to_string(),
                email: "dev@example.org".to_string(),
                username: "dev".to_string(),
            },
            verification: None,
            timestamp: String::new(),
            added: None,
            removed: None,
            modified: None,
        }],
        head_commit: None,
        repository: Repository {
            id: 7,
            owner: user("owner"),
            name: full_name.rsplit('/').next().unwrap().to_string(),
            full_name: full_name.to_string(),
            description: String::new(),
            empty: false,
            private: false,
            fork: false,
            template: false,
            parent: None,
            mirror: false,
            size: 1,
            html_url: String::new(),
            ssh_url: String::new(),
            clone_url: String::new(),
            original_url: String::new(),
            website: String::new(),
            stars_count: 0,
            forks_count: 0,
            watchers_count: 0,
            open_issues_count: 0,
            open_pr_counter: 0,
            release_counter: 0,
            default_branch: "main".to_string(),
            archived: false,
            created_at: String::new(),
            updated_at: String::new(),
            permissions: Permissions { admin: true, push: true, pull: true },
            has_issues: true,
            internal_tracker: InternalTracker {
                enable_time_tracker: false,
                allow_only_contributors_to_track_time: false,
                enable_issue_dependencies: false,
            },
            has_wiki: false,
            has_pull_requests: true,
            ignore_whitespace_conflicts: false,
            allow_merge_commits: true,
            allow_rebase: true,
            allow_rebase_explicit: false,
            allow_squash_merge: true,
            avatar_url: String::new(),
        },
        pusher: user("dev"),
        sender: user("dev"),
    }
}

#[test]
fn head_ref_yields_branch_and_no_tag() {
    let (branch, tag) = parse_ref("refs/heads/main").unwrap();
    assert_eq!(branch.as_deref(), Some("main"));
    assert_eq!(tag, None);
}

#[test]
fn tag_ref_yields_tag_and_no_branch() {
    let (branch, tag) = parse_ref("refs/tags/v1.0").unwrap();
    assert_eq!(branch, None);
    assert_eq!(tag.as_deref(), Some("v1.0"));
}

#[test]
fn other_ref_shapes_are_rejected() {
    for bad in ["refs/pull/1", "refs/heads/a/b", "refs/heads", "heads/main", "", "refs"] {
        let err = parse_ref(bad).unwrap_err();
        assert_eq!(err.message(), "invalid field \"ref\"");
    }
}

#[test]
fn payload_converts_to_a_trigger_event() {
    let info = push_payload("refs/heads/main", "team/demo").triggered_info().unwrap();
    assert_eq!(info.repository, "team/demo");
    assert_eq!(info.branch.as_deref(), Some("main"));
    assert_eq!(info.tag, None);
    assert_eq!(info.steps_name, None);

    let info = push_payload("refs/tags/v2", "team/demo").triggered_info().unwrap();
    assert_eq!(info.branch, None);
    assert_eq!(info.tag.as_deref(), Some("v2"));

    assert!(push_payload("refs/pull/1", "team/demo").triggered_info().is_err());
}

#[test]
fn signature_matches_a_published_hmac_sha256_vector() {
    // RFC 4231 test case 2.
    let sig = signature("Jefe", b"what do ya want for nothing?").unwrap();
    assert_eq!(sig.len(), 64);
    assert_eq!(sig, "5bdcc146bf60754e6a042426089575c75a003f089d2739839dec58b964ec3843");
}

#[test]
fn signature_agrees_with_the_crypto_backend() {
    let key = openssl::pkey::PKey::hmac(b"trigger-secret").unwrap();
    let mut signer =
        openssl::sign::Signer::new(openssl::hash::MessageDigest::sha256(), &key).unwrap();
    signer.update(b"{\"ref\":\"refs/heads/main\"}").unwrap();
    let expected = hex::encode(signer.sign_to_vec().unwrap());

    let got = signature("trigger-secret", b"{\"ref\":\"refs/heads/main\"}").unwrap();
    assert_eq!(got, expected);
}

#[test]
fn correct_digest_is_accepted() {
    let body = b"{\"ref\":\"refs/heads/main\"}".to_vec();
    let sig = signature("secret", &body).unwrap();
    assert!(signature_matches("secret", &body, &sig).unwrap());
}

#[test]
fn mutated_body_is_rejected() {
    let body = b"{\"ref\":\"refs/heads/main\"}".to_vec();
    let sig = signature("secret", &body).unwrap();
    for i in 0..body.len() {
        let mut mutated = body.clone();
        mutated[i] ^= 1;
        assert!(!signature_matches("secret", &mutated, &sig).unwrap());
    }
}

#[test]
fn mutated_digest_is_rejected() {
    let body = b"{\"ref\":\"refs/heads/main\"}".to_vec();
    let sig = signature("secret", &body).unwrap();
    for i in 0..sig.len() {
        let mut tampered: Vec<char> = sig.chars().collect();
        tampered[i] = if tampered[i] == '0' { '1' } else { '0' };
        let tampered: String = tampered.into_iter().collect();
        assert!(!signature_matches("secret", &body, &tampered).unwrap());
    }
}

#[test]
fn wrong_secret_is_rejected() {
    let body = b"payload".to_vec();
    let sig = signature("secret", &body).unwrap();
    assert!(!signature_matches("other-secret", &body, &sig).unwrap());
}

#[test]
fn content_type_must_be_json() {
    assert!(validate_content_type(Some("application/json")).is_ok());
    let err = validate_content_type(Some("text/plain")).unwrap_err();
    assert_eq!(err.message(), "invalid content-type");
    let err = validate_content_type(None).unwrap_err();
    assert_eq!(err.message(), "missing content-type");
    assert!(matches!(
        validate_content_type(Some("application/json; charset=utf-8")),
        Err(TriggerError::InvalidContentType)
    ));
}
