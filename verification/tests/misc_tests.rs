use tasksync::api::TaskRouteError;
use tasksync::auth::{
    check_membership, github_token_response, identity_response, memberships_within_limit,
    resolve_primary_email, select_latest_token, update_github_identity, ClerkOrganizationMembership,
    ClerkServiceError, ClerkUser, IdentityError, IdentityResponse, OAuthAccessToken,
    UserEmailAddress, UserResponse,
};
use tasksync::config::{ClerkPublicConfig, ConfigError, RemoteServerConfig, Setting};
use tasksync::entity::{EntityDefinition, EntityExport, FieldDef, Scope};
use tasksync::errors::{
    clerk_token_error_response, identity_error_response, task_error_response,
    task_route_error_response,
};
use tasksync::monitor::{
    metadata_enrichment_plan, pr_check_plan, MetadataEnrichment, PrCheckPlan, PullRequestStatus,
};
use tasksync::task::SharedTaskError;
use tasksync::token::{
    github_token_status, should_invalidate_token, token_decision, CachedToken, GitHubAccessToken,
    GitHubTokenError, GitHubTokenSource, TokenStep,
};

fn address(id: &str, email: &str) -> UserEmailAddress {
    UserEmailAddress { id: id.to_string(), email_address: email.to_string() }
}

#[test]
fn primary_email_prefers_the_primary_id() {
    let addresses = vec![address("em_1", "a@x.test"), address("em_2", "b@x.test")];
    let r = resolve_primary_email(&Some("em_2".to_string()), &addresses);
    assert_eq!(r.as_deref(), Some("b@x.test"));
    // An unknown primary id falls back to the first address.
    let r = resolve_primary_email(&Some("em_9".to_string()), &addresses);
    assert_eq!(r.as_deref(), Some("a@x.test"));
    let r = resolve_primary_email(&None, &addresses);
    assert_eq!(r.as_deref(), Some("a@x.test"));
    let r = resolve_primary_email(&None, &Vec::new());
    assert_eq!(r, None);
}

#[test]
fn user_without_email_is_invalid() {
    let response = UserResponse {
        id: "user_a".to_string(),
        first_name: Some("Ada".to_string()),
        last_name: None,
        username: Some("ada".to_string()),
        primary_email_address_id: None,
        email_addresses: Vec::new(),
    };
    assert!(matches!(
        ClerkUser::from_response(response),
        Err(ClerkServiceError::InvalidResponse(_))
    ));
    let response = UserResponse {
        id: "user_a".to_string(),
        first_name: None,
        last_name: None,
        username: None,
        primary_email_address_id: Some("em_1".to_string()),
        email_addresses: vec![address("em_1", "a@x.test")],
    };
    let user = ClerkUser::from_response(response).unwrap();
    assert_eq!(user.email, "a@x.test");
    assert_eq!(user.id, "user_a");
}

#[test]
fn membership_checks() {
    let memberships = vec![
        ClerkOrganizationMembership { id: "org_1".to_string(), slug: None },
        ClerkOrganizationMembership { id: "org_2".to_string(), slug: Some("two".to_string()) },
    ];
    assert!(check_membership(&memberships, &"org_2".to_string()));
    assert!(!check_membership(&memberships, &"org_3".to_string()));
    // A listing that fills the whole page is treated as truncated.
    assert!(memberships_within_limit(memberships, &"user_a".to_string(), 2).is_err());
    let memberships = vec![ClerkOrganizationMembership { id: "org_1".to_string(), slug: None }];
    assert!(memberships_within_limit(memberships, &"user_a".to_string(), 100).is_ok());
}

fn oauth_token(token: &str, expires_at: Option<i64>) -> OAuthAccessToken {
    OAuthAccessToken { token: token.to_string(), expires_at, scopes: None }
}

#[test]
fn latest_oauth_token_wins() {
    let tokens = vec![
        oauth_token("early", Some(100)),
        oauth_token("late", Some(900)),
        oauth_token("none", None),
    ];
    let t = select_latest_token(tokens, &"oauth_github".to_string()).unwrap();
    assert_eq!(t.token, "late");
    // On a tie the later listing wins, as a maximum over listing order.
    let tokens = vec![oauth_token("first", Some(100)), oauth_token("second", Some(100))];
    let t = select_latest_token(tokens, &"oauth_github".to_string()).unwrap();
    assert_eq!(t.token, "second");
    match select_latest_token(Vec::new(), &"oauth_github".to_string()) {
        Err(ClerkServiceError::OAuthTokenUnavailable(p)) => assert_eq!(p, "oauth_github"),
        _ => panic!("expected unavailable"),
    }
}

#[test]
fn token_response_and_identity_response_copy_fields() {
    let t = OAuthAccessToken {
        token: "tok".to_string(),
        expires_at: Some(5),
        scopes: Some(vec!["repo".to_string()]),
    };
    let r = github_token_response(t);
    assert_eq!(r.access_token, "tok");
    assert_eq!(r.expires_at, Some(5));
    assert_eq!(r.scopes, vec!["repo".to_string()]);
    let r = github_token_response(oauth_token("tok2", None));
    assert!(r.scopes.is_empty());

    let user = tasksync::identity::User {
        id: "user_a".to_string(),
        email: "a@x.test".to_string(),
        first_name: None,
        last_name: None,
        username: Some("ada".to_string()),
        created_at: 1,
        updated_at: 2,
    };
    let r = identity_response(&user);
    assert_eq!(r.user_id, "user_a");
    assert_eq!(r.username.as_deref(), Some("ada"));
    assert_eq!(r.email, "a@x.test");
}

#[test]
fn identity_sync_detects_changes() {
    let identity = IdentityResponse {
        user_id: "user_a".to_string(),
        username: Some("ada".to_string()),
        email: "a@x.test".to_string(),
    };
    let (u, e, updated) =
        update_github_identity(Some("ada".to_string()), Some("a@x.test".to_string()), &identity);
    assert!(!updated);
    assert_eq!(u.as_deref(), Some("ada"));
    assert_eq!(e.as_deref(), Some("a@x.test"));
    let (_, _, updated) = update_github_identity(None, Some("a@x.test".to_string()), &identity);
    assert!(updated);
    let (_, _, updated) =
        update_github_identity(Some("ada".to_string()), Some("old@x.test".to_string()), &identity);
    assert!(updated);
}

#[test]
fn error_responses_carry_exact_codes() {
    assert_eq!(task_error_response(&SharedTaskError::NotFound), (404, "task not found".to_string()));
    assert_eq!(
        task_error_response(&SharedTaskError::Forbidden),
        (
            403,
            "only the assignee can modify this \
            task"
                .to_string()
        )
    );
    assert_eq!(
        task_error_response(&SharedTaskError::Conflict("task version mismatch".to_string())),
        (409, "task version mismatch".to_string())
    );
    assert_eq!(
        task_error_response(&SharedTaskError::PayloadTooLarge),
        (400, "title and description cannot exceed 50 KiB combined".to_string())
    );
    let msg = "assignee not found or inactive".to_string();
    assert_eq!(
        identity_error_response(
            &IdentityError::Clerk(ClerkServiceError::NotFound("x".to_string())),
            &msg
        ),
        (400, msg.clone())
    );
    assert_eq!(
        identity_error_response(&IdentityError::Database("down".to_string()), &msg),
        (500, "internal server error".to_string())
    );
    assert_eq!(
        task_route_error_response(&TaskRouteError::Task(SharedTaskError::Forbidden), &msg),
        (
            403,
            "only the assignee can modify this \
            task"
                .to_string()
        )
    );
    assert_eq!(
        clerk_token_error_response(&ClerkServiceError::NotFound("user".to_string())),
        (412, "github account not linked".to_string())
    );
    assert_eq!(
        clerk_token_error_response(&ClerkServiceError::OAuthTokenUnavailable("g".to_string())),
        (412, "github account not linked".to_string())
    );
    assert_eq!(
        clerk_token_error_response(&ClerkServiceError::Http("boom".to_string())),
        (502, "failed to retrieve GitHub token".to_string())
    );
}

#[test]
fn config_defaults_and_clamps() {
    let c = RemoteServerConfig::from_values(
        Some("postgres://db".to_string()),
        None,
        None,
        None,
        Setting::Parsed(0),
        Setting::Unset,
        Setting::Parsed(-5),
        Some("test-secret".to_string()),
        Setting::Parsed("https://issuer.test".to_string()),
        Setting::Unset,
    )
    .unwrap();
    assert_eq!(c.database_url, "postgres://db");
    assert_eq!(c.listen_addr, "0.0.0.0:8081");
    assert_eq!(c.activity_channel, "activity");
    assert_eq!(c.activity_default_limit, 200);
    assert_eq!(c.activity_max_limit, 500);
    assert_eq!(c.activity_broadcast_shards, 1);
    assert_eq!(c.activity_broadcast_capacity, 512);
    assert_eq!(c.activity_catchup_batch_size, 1);
    assert_eq!(c.clerk.get_issuer(), "https://issuer.test");
    assert_eq!(c.clerk.get_api_url(), "https://api.clerk.com/v1/");

    // The fallback database variable satisfies the requirement too.
    let c = RemoteServerConfig::from_values(
        None,
        Some("postgres://fallback".to_string()),
        Some("127.0.0.1:9000".to_string()),
        Some("events".to_string()),
        Setting::Unset,
        Setting::Parsed(64),
        Setting::Unset,
        Some("test-secret".to_string()),
        Setting::Parsed("https://issuer.test".to_string()),
        Setting::Parsed("https://api.test/v1/".to_string()),
    )
    .unwrap();
    assert_eq!(c.database_url, "postgres://fallback");
    assert_eq!(c.listen_addr, "127.0.0.1:9000");
    assert_eq!(c.activity_channel, "events");
    assert_eq!(c.activity_broadcast_shards, 16);
    assert_eq!(c.activity_broadcast_capacity, 64);
    assert_eq!(c.activity_catchup_batch_size, 100);
    assert_eq!(c.clerk.get_api_url(), "https://api.test/v1/");
}

#[test]
fn config_refuses_missing_or_invalid_settings() {
    let r = RemoteServerConfig::from_values(
        None,
        None,
        None,
        None,
        Setting::Unset,
        Setting::Unset,
        Setting::Unset,
        Some("test-secret".to_string()),
        Setting::Parsed("https://issuer.test".to_string()),
        Setting::Unset,
    );
    match r {
        Err(ConfigError::MissingVar(v)) => assert_eq!(v, "SERVER_DATABASE_URL"),
        _ => panic!("expected missing database url"),
    }
    let r = RemoteServerConfig::from_values(
        Some("postgres://db".to_string()),
        None,
        None,
        None,
        Setting::Invalid,
        Setting::Unset,
        Setting::Unset,
        Some("test-secret".to_string()),
        Setting::Parsed("https://issuer.test".to_string()),
        Setting::Unset,
    );
    match r {
        Err(ConfigError::InvalidVar(v)) => assert_eq!(v, "SERVER_ACTIVITY_BROADCAST_SHARDS"),
        _ => panic!("expected invalid shard count"),
    }
    let r = RemoteServerConfig::from_values(
        Some("postgres://db".to_string()),
        None,
        None,
        None,
        Setting::Unset,
        Setting::Unset,
        Setting::Invalid,
        Some("test-secret".to_string()),
        Setting::Parsed("https://issuer.test".to_string()),
        Setting::Unset,
    );
    match r {
        Err(ConfigError::InvalidVar(v)) => assert_eq!(v, "SERVER_ACTIVITY_CATCHUP_BATCH_SIZE"),
        _ => panic!("expected invalid batch size"),
    }
    let r = RemoteServerConfig::from_values(
        Some("postgres://db".to_string()),
        None,
        None,
        None,
        Setting::Unset,
        Setting::Unset,
        Setting::Unset,
        None,
        Setting::Parsed("https://issuer.test".to_string()),
        Setting::Unset,
    );
    match r {
        Err(ConfigError::MissingVar(v)) => assert_eq!(v, "CLERK_SECRET_KEY"),
        _ => panic!("expected missing secret key"),
    }
    let r = RemoteServerConfig::from_values(
        Some("postgres://db".to_string()),
        None,
        None,
        None,
        Setting::Unset,
        Setting::Unset,
        Setting::Unset,
        Some("test-secret".to_string()),
        Setting::Unset,
        Setting::Unset,
    );
    match r {
        Err(ConfigError::MissingVar(v)) => assert_eq!(v, "CLERK_ISSUER"),
        _ => panic!("expected missing issuer"),
    }
    let r = RemoteServerConfig::from_values(
        Some("postgres://db".to_string()),
        None,
        None,
        None,
        Setting::Unset,
        Setting::Unset,
        Setting::Unset,
        Some("test-secret".to_string()),
        Setting::Invalid,
        Setting::Unset,
    );
    match r {
        Err(ConfigError::InvalidVar(v)) => assert_eq!(v, "CLERK_ISSUER"),
        _ => panic!("expected invalid issuer"),
    }
    let r = RemoteServerConfig::from_values(
        Some("postgres://db".to_string()),
        None,
        None,
        None,
        Setting::Unset,
        Setting::Unset,
        Setting::Unset,
        Some("test-secret".to_string()),
        Setting::Parsed("https://issuer.test".to_string()),
        Setting::Invalid,
    );
    match r {
        Err(ConfigError::InvalidVar(v)) => assert_eq!(v, "CLERK_API_URL"),
        _ => panic!("expected invalid api url"),
    }

    assert!(ClerkPublicConfig::from_values(
        Setting::Parsed("https://issuer.test".to_string())
    )
    .is_ok());
    assert!(matches!(
        ClerkPublicConfig::from_values(Setting::Unset),
        Err(tasksync::config::ClerkPublicConfigError::MissingEnv("CLERK_ISSUER"))
    ));
    assert!(matches!(
        ClerkPublicConfig::from_values(Setting::Invalid),
        Err(tasksync::config::ClerkPublicConfigError::InvalidEnv("CLERK_ISSUER"))
    ));
}

#[test]
fn token_source_order_is_pat_cache_remote() {
    let pat = "ghp_local".to_string();
    match token_decision(Some(&pat), None, false, 0) {
        TokenStep::UsePersonalAccessToken(t) => {
            assert_eq!(t.token, "ghp_local");
            assert_eq!(t.source, GitHubTokenSource::PersonalAccessToken);
            assert_eq!(t.expires_at, None);
        }
        _ => panic!("expected personal access token"),
    }
    let cached = CachedToken {
        token: GitHubAccessToken {
            token: "cached".to_string(),
            expires_at: Some(1000),
            source: GitHubTokenSource::ClerkOAuth,
        },
    };
    match token_decision(None, Some(&cached), true, 100) {
        TokenStep::UseCached(t) => assert_eq!(t.token, "cached"),
        _ => panic!("expected cache hit"),
    }
    // Within the 30 s margin of expiry the cache is passed over.
    assert!(matches!(token_decision(None, Some(&cached), true, 970), TokenStep::FetchRemote));
    assert!(matches!(token_decision(None, Some(&cached), false, 970), TokenStep::NoSession));
    assert!(matches!(token_decision(None, None, true, 0), TokenStep::FetchRemote));
    assert!(matches!(token_decision(None, None, false, 0), TokenStep::NoSession));
}

#[test]
fn cached_token_expiry_margin() {
    let entry = CachedToken {
        token: GitHubAccessToken {
            token: "t".to_string(),
            expires_at: Some(1000),
            source: GitHubTokenSource::ClerkOAuth,
        },
    };
    assert!(!entry.is_expired(969));
    assert!(entry.is_expired(970));
    let no_expiry = CachedToken {
        token: GitHubAccessToken {
            token: "t".to_string(),
            expires_at: None,
            source: GitHubTokenSource::PersonalAccessToken,
        },
    };
    assert!(!no_expiry.is_expired(i64::MAX));
}

#[test]
fn github_token_statuses_map_to_errors() {
    assert!(github_token_status(200).is_ok());
    assert!(matches!(github_token_status(412), Err(GitHubTokenError::NotLinked)));
    assert!(matches!(github_token_status(401), Err(GitHubTokenError::MissingClerkSession)));
    assert!(matches!(github_token_status(403), Err(GitHubTokenError::MissingClerkSession)));
    assert!(matches!(
        github_token_status(500),
        Err(GitHubTokenError::UnexpectedStatus(500))
    ));
    assert!(GitHubTokenError::NotLinked.is_missing_token());
    assert!(GitHubTokenError::RemoteNotConfigured.is_missing_token());
    assert!(GitHubTokenError::MissingClerkSession.is_missing_token());
    assert!(!GitHubTokenError::Http("x".to_string()).is_missing_token());
    assert!(!GitHubTokenError::UnexpectedStatus(500).is_missing_token());
}

#[test]
fn pr_poll_decisions() {
    assert!(matches!(pr_check_plan(PullRequestStatus::Open), PrCheckPlan::NoChange));
    assert!(matches!(
        pr_check_plan(PullRequestStatus::Merged),
        PrCheckPlan::UpdateMergeStatus { mark_task_done: true }
    ));
    assert!(matches!(
        pr_check_plan(PullRequestStatus::Closed),
        PrCheckPlan::UpdateMergeStatus { mark_task_done: false }
    ));
    assert!(should_invalidate_token(true, &GitHubTokenSource::ClerkOAuth));
    assert!(!should_invalidate_token(true, &GitHubTokenSource::PersonalAccessToken));
    assert!(!should_invalidate_token(false, &GitHubTokenSource::ClerkOAuth));
}

#[test]
fn metadata_enrichment_decisions() {
    let owner = Some("acme".to_string());
    let name = Some("widgets".to_string());
    assert!(matches!(
        metadata_enrichment_plan(Some(5), &owner, &name, true),
        MetadataEnrichment::KeepExisting
    ));
    assert!(matches!(
        metadata_enrichment_plan(None, &None, &name, true),
        MetadataEnrichment::Skip
    ));
    assert!(matches!(
        metadata_enrichment_plan(None, &owner, &name, false),
        MetadataEnrichment::Skip
    ));
    match metadata_enrichment_plan(None, &owner, &name, true) {
        MetadataEnrichment::FetchRepoId { owner, name } => {
            assert_eq!(owner, "acme");
            assert_eq!(name, "widgets");
        }
        _ => panic!("expected fetch"),
    }
}

#[test]
fn health_answers_ok() {
    assert_eq!(tasksync::api::health(), "ok");
}

#[test]
fn entity_metadata_is_readable_through_the_export_trait() {
    let definition = EntityDefinition {
        name: "Tag".to_string(),
        table: "tags".to_string(),
        mutation_scope: Some(Scope::Project),
        fields: vec![
            FieldDef { name: "name".to_string(), field_type: "String".to_string(), is_optional: false },
            FieldDef { name: "color".to_string(), field_type: "String".to_string(), is_optional: false },
        ],
        ts_type_name: "Tag".to_string(),
    };
    assert_eq!(definition.name(), "Tag");
    assert_eq!(definition.table(), "tags");
    assert_eq!(definition.mutation_scope(), Some(Scope::Project));
    assert_eq!(definition.fields().len(), 2);
    assert_eq!(definition.fields()[1].name, "color");
    assert_eq!(definition.ts_type_name(), "Tag");
}

#[test]
fn organization_row_upsert_defaults_slug_to_id() {
    let mut store = tasksync::store::OrgStore::new("org_1".to_string(), "seed".to_string());
    store.ensure_organization(None);
    assert_eq!(store.slug, "org_1");
    let slug = "friendly-name".to_string();
    store.ensure_organization(Some(&slug));
    assert_eq!(store.slug, "friendly-name");
}

#[test]
fn default_broker_shape() {
    let broker = tasksync::broker::ActivityBroker::default();
    assert_eq!(broker.shards.len(), 16);
    assert_eq!(broker.capacity, 512);
}
