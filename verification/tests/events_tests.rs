use nosjob::filter::names_single_letter;
use nosjob::events::{
    employment_type_from_tag_value, is_job_listing, location_type_from_tag_value, tag_values,
};
use nosjob::types::{
    Decimal, EligibleWorkerType, EmploymentType, HiringOrganization, InterfaceType, JobLocation,
    JobLocationType, MonetaryAmountDistribution, MonetaryValue, PostalAddress,
};
use nosjob::{
    DecodeError, Event, Filter, JobListing, JobsFilter, TagPredicate, UnsignedEvent,
    ValidationError, KIND_JOB_APPLICATION, KIND_JOB_LISTING,
};

const PUBKEY: &str = "79be667ef9dcbbac55a06295ce870b07029bfcdb2dce28d959f2815b16f81798";

fn dec(x: f64) -> Decimal {
    Decimal { text: x.to_string() }
}

fn tag(items: &[&str]) -> Vec<String> {
    items.iter().map(|s| s.to_string()).collect()
}

fn sample_job() -> JobListing {
    JobListing::builder(
        "job-001".to_string(),
        "Rust Developer".to_string(),
        "Build awesome stuff".to_string(),
        "Test Corp".to_string(),
        "2025-01-15".to_string(),
        "https://test.example/apply".to_string(),
    )
    .employment_type(vec![EmploymentType::FullTime, EmploymentType::Contractor])
    .remote()
    .skills(vec!["Rust".to_string(), "Nostr".to_string()])
    .build()
    .unwrap()
}

fn signed(event: UnsignedEvent, created_at: u64) -> Event {
    Event {
        id: "00".repeat(32),
        pubkey: PUBKEY.to_string(),
        created_at,
        kind: event.kind,
        tags: event.tags,
        content: event.content,
    }
}

fn event_with_tags(tags: Vec<Vec<String>>, content: &str, created_at: u64) -> Event {
    signed(
        UnsignedEvent { kind: KIND_JOB_LISTING, tags, content: content.to_string() },
        created_at,
    )
}

#[test]
fn kind_constants() {
    assert_eq!(KIND_JOB_LISTING, 39993);
    assert_eq!(KIND_JOB_APPLICATION, 39994);
}

#[test]
fn event_has_kind_content_and_fixed_tags_in_order() {
    let job = sample_job();
    let event = job.to_nostr_event("{\"title\":\"Rust Developer\"}".to_string(), PUBKEY);
    assert_eq!(event.kind, 39993);
    assert_eq!(event.content, "{\"title\":\"Rust Developer\"}");
    assert_eq!(
        event.tags,
        vec![
            tag(&["d", "test-corp-job-001-79be667e"]),
            tag(&["t", "Jobs"]),
            tag(&["company", "Test Corp"]),
            tag(&["job-id", "job-001"]),
            tag(&["title", "Rust Developer"]),
            tag(&["location", "Telecommute"]),
            tag(&["employment-type", "FullTime"]),
            tag(&["employment-type", "Contractor"]),
            tag(&["skill", "Rust"]),
            tag(&["skill", "Nostr"]),
        ]
    );
}

#[test]
fn identifier_tag_lowers_the_company_and_hyphenates_it() {
    let job = JobListing::builder(
        "A 1".to_string(),
        "T".to_string(),
        "D".to_string(),
        "ACME Rocket  Labs".to_string(),
        "2025-01-15".to_string(),
        "u".to_string(),
    )
    .build()
    .unwrap();
    let tags = job.tags("ABCDEF0123456789");
    assert_eq!(tags[0], tag(&["d", "acme-rocket--labs-A 1-ABCDEF01"]));
    assert_eq!(tags[2], tag(&["company", "ACME Rocket  Labs"]));
    assert_eq!(tags[3], tag(&["job-id", "A 1"]));
}

#[test]
fn location_tag_falls_back_to_remote() {
    let none = JobListing::builder(
        "i".to_string(),
        "t".to_string(),
        "d".to_string(),
        "c".to_string(),
        "2025-01-15".to_string(),
        "u".to_string(),
    );
    let tags = none.build().unwrap().tags(PUBKEY);
    assert_eq!(tags[5], tag(&["location", "Remote"]));

    let mut job = sample_job();
    job.job_location_type = Some(vec![]);
    assert_eq!(job.tags(PUBKEY)[5], tag(&["location", "Remote"]));
    job.job_location_type = Some(vec![JobLocationType::OnSite, JobLocationType::Hybrid]);
    assert_eq!(job.tags(PUBKEY)[5], tag(&["location", "OnSite"]));
    job.job_location_type = Some(vec![JobLocationType::Hybrid]);
    assert_eq!(job.tags(PUBKEY)[5], tag(&["location", "Hybrid"]));
}

#[test]
fn every_employment_type_has_its_tag_name() {
    let all = vec![
        (EmploymentType::FullTime, "FullTime"),
        (EmploymentType::PartTime, "PartTime"),
        (EmploymentType::Contractor, "Contractor"),
        (EmploymentType::Temporary, "Temporary"),
        (EmploymentType::Intern, "Intern"),
        (EmploymentType::Volunteer, "Volunteer"),
        (EmploymentType::PerDiem, "PerDiem"),
        (EmploymentType::TaskBased, "TaskBased"),
        (EmploymentType::MicroTask, "MicroTask"),
        (EmploymentType::Other, "Other"),
    ];
    for (kind, name) in all {
        assert_eq!(kind.tag_name(), name);
        assert_eq!(format!("{:?}", kind), name);
    }
    assert_eq!(JobLocationType::Telecommute.tag_name(), "Telecommute");
    assert_eq!(JobLocationType::OnSite.tag_name(), "OnSite");
    assert_eq!(JobLocationType::Hybrid.tag_name(), "Hybrid");
}

#[test]
fn optional_tags_follow_in_their_order() {
    let mut job = JobListing::builder(
        "job-9".to_string(),
        "Title".to_string(),
        "Text".to_string(),
        "Org".to_string(),
        "2025-01-15".to_string(),
        "u".to_string(),
    )
    .salary(dec(120000.0), dec(180000.0), "USD".to_string(), "YEAR".to_string())
    .valid_through("2025-12-31".to_string())
    .nostr_pubkey("npub1employer".to_string())
    .lightning_address("pay@org.example".to_string())
    .build()
    .unwrap();
    job.hiring_organization = HiringOrganization {
        schema_type: "Organization".to_string(),
        name: "Org".to_string(),
        url: Some("https://org.example".to_string()),
        logo: None,
        same_as: None,
    };
    let address = |country: Option<&str>, region: Option<&str>| PostalAddress {
        schema_type: "PostalAddress".to_string(),
        street_address: None,
        address_locality: Some("Town".to_string()),
        address_region: region.map(|s| s.to_string()),
        postal_code: None,
        address_country: country.map(|s| s.to_string()),
    };
    job.job_location = vec![
        JobLocation { schema_type: "Place".to_string(), address: Some(address(Some("DE"), Some("BY"))) },
        JobLocation { schema_type: "Place".to_string(), address: None },
        JobLocation { schema_type: "Place".to_string(), address: Some(address(None, Some("CA"))) },
        JobLocation { schema_type: "Place".to_string(), address: Some(address(Some("FR"), None)) },
    ];
    let tags = job.tags(PUBKEY);
    assert_eq!(
        tags[6..].to_vec(),
        vec![
            tag(&["salary", "120000", "180000", "USD", "YEAR"]),
            tag(&["country", "DE"]),
            tag(&["region", "BY"]),
            tag(&["region", "CA"]),
            tag(&["country", "FR"]),
            tag(&["expires", "2025-12-31"]),
            tag(&["employer-pubkey", "npub1employer"]),
            tag(&["lightning", "pay@org.example"]),
            tag(&["company-url", "https://org.example"]),
        ]
    );
}

#[test]
fn salary_tag_needs_a_range_with_both_bounds() {
    let mut job = sample_job();
    let count = job.tags(PUBKEY).len();
    let mut with_range = JobListing::builder(
        "i".to_string(),
        "t".to_string(),
        "d".to_string(),
        "c".to_string(),
        "2025-01-15".to_string(),
        "u".to_string(),
    )
    .salary(dec(0.05), dec(0.1), "USD".to_string(), "TASK".to_string())
    .build()
    .unwrap();
    assert_eq!(with_range.tags(PUBKEY)[6], tag(&["salary", "0.05", "0.1", "USD", "TASK"]));

    let mut salary = with_range.base_salary.take().unwrap();
    if let MonetaryValue::Range(range) = &mut salary.value {
        range.max_value = None;
    }
    job.base_salary = Some(salary.clone());
    assert_eq!(job.tags(PUBKEY).len(), count);

    salary.value = MonetaryValue::Single(MonetaryAmountDistribution {
        schema_type: "MonetaryAmountDistribution".to_string(),
        duration: "P1Y".to_string(),
        median: Some(dec(1.0)),
        percentile10: None,
        percentile25: None,
        percentile75: None,
        percentile90: None,
    });
    job.base_salary = Some(salary);
    assert_eq!(job.tags(PUBKEY).len(), count);
}

#[test]
fn round_trip_through_parsed_content() {
    let job = sample_job();
    let event = signed(job.to_nostr_event("{}".to_string(), PUBKEY), 1_700_000_000);
    let decoded = JobListing::from_nostr_event(&event, Some(job.clone())).unwrap();
    assert_eq!(decoded, job);
    assert_eq!(decoded.validate(), Ok(()));
    assert_eq!(decoded.title, job.title);
    assert_eq!(decoded.identifier, job.identifier);
    assert_eq!(decoded.hiring_organization.name, job.hiring_organization.name);
}

#[test]
fn round_trip_keeps_ai_fields() {
    let job = JobListing::builder(
        "task-1".to_string(),
        "Label".to_string(),
        "Label images".to_string(),
        "Platform".to_string(),
        "2025-01-15".to_string(),
        "https://p.example".to_string(),
    )
    .for_ai_agents()
    .interface_type(InterfaceType::Webhook)
    .protocol("REST".to_string())
    .build()
    .unwrap();
    let event = signed(job.to_nostr_event("{}".to_string(), PUBKEY), 0);
    assert_eq!(JobListing::from_nostr_event(&event, Some(job.clone())), Ok(job));
}

#[test]
fn kind_mismatch_is_refused_whatever_else_holds() {
    let job = sample_job();
    let mut event = signed(job.to_nostr_event("{}".to_string(), PUBKEY), 0);
    event.kind = 1;
    assert!(!is_job_listing(&event));
    assert_eq!(
        JobListing::from_nostr_event(&event, Some(job)),
        Err(DecodeError::InvalidKind(1))
    );
    assert_eq!(JobListing::from_nostr_event(&event, None), Err(DecodeError::InvalidKind(1)));
    event.kind = KIND_JOB_APPLICATION;
    assert_eq!(
        JobListing::from_nostr_event(&event, None),
        Err(DecodeError::InvalidKind(39994))
    );
    event.kind = KIND_JOB_LISTING;
    assert!(is_job_listing(&event));
}

#[test]
fn invalid_parsed_content_does_not_fall_back_to_tags() {
    let job = sample_job();
    let event = signed(job.to_nostr_event("{}".to_string(), PUBKEY), 0);
    let mut broken = job.clone();
    broken.title = String::new();
    assert_eq!(
        JobListing::from_nostr_event(&event, Some(broken)),
        Err(DecodeError::Invalid(ValidationError::MissingField("title")))
    );
    let mut gated = job;
    gated.protocol = Some("REST".to_string());
    assert_eq!(
        JobListing::from_nostr_event(&event, Some(gated)),
        Err(DecodeError::Invalid(ValidationError::InvalidConfiguration(
            "AI agent fields require EligibleWorkerType::AIAgent"
        )))
    );
}

#[test]
fn lossy_fallback_from_tags() {
    let event = event_with_tags(
        vec![
            tag(&["title", "Test Job"]),
            tag(&["company", "Acme"]),
            tag(&["d", "acme-test-1"]),
            tag(&["employment-type", "FULLTIME"]),
            tag(&["skill", "Rust"]),
            tag(&["skill", "Nostr"]),
        ],
        "not json",
        1682060685,
    );
    let job = JobListing::from_nostr_event(&event, None).unwrap();
    assert_eq!(job.title, "Test Job");
    assert_eq!(job.hiring_organization.name, "Acme");
    assert_eq!(job.identifier, "acme-test-1");
    assert_eq!(job.employment_type, vec![EmploymentType::FullTime]);
    assert_eq!(job.skills, Some(vec!["Rust".to_string(), "Nostr".to_string()]));
    assert_eq!(job.eligible_worker_type, vec![EligibleWorkerType::Human]);
    assert_eq!(job.description, "not json");
    assert_eq!(job.date_posted, "2023-04-21T07:04:45Z");
    assert_eq!(job.apply_url, Some(String::new()));
    assert_eq!(job.job_location_type, Some(vec![]));
    assert_eq!(job.response_time_max, None);
    assert_eq!(job.accuracy_min, None);
    assert_eq!(job.throughput_min, None);
    assert_eq!(job.interface_type, None);
    assert_eq!(job.protocol, None);
    assert_eq!(job.context, "https://schema.org");
}

#[test]
fn fallback_drops_ai_fields_of_the_encoded_listing() {
    let job = JobListing::builder(
        "task-1".to_string(),
        "Label".to_string(),
        "Label images".to_string(),
        "Platform".to_string(),
        "2025-01-15".to_string(),
        "https://p.example".to_string(),
    )
    .for_ai_agents()
    .employment_type(vec![EmploymentType::Contractor, EmploymentType::TaskBased])
    .skills(vec!["Vision".to_string()])
    .protocol("REST".to_string())
    .valid_through("2026-01-01".to_string())
    .build()
    .unwrap();
    let event = signed(job.to_nostr_event("garbled".to_string(), PUBKEY), 86400);
    let back = JobListing::from_tags(&event).unwrap();
    assert_eq!(back.title, "Label");
    assert_eq!(back.hiring_organization.name, "Platform");
    assert_eq!(back.identifier, "platform-task-1-79be667e");
    assert_eq!(back.eligible_worker_type, vec![EligibleWorkerType::Human]);
    assert_eq!(back.protocol, None);
    assert_eq!(
        back.employment_type,
        vec![EmploymentType::Contractor, EmploymentType::TaskBased]
    );
    assert_eq!(back.skills, Some(vec!["Vision".to_string()]));
    assert_eq!(back.valid_through, Some("2026-01-01".to_string()));
    assert_eq!(back.date_posted, "1970-01-02T00:00:00Z");
    assert_eq!(back.description, "garbled");
}

#[test]
fn fallback_requires_identifier_title_and_company() {
    let all = vec![tag(&["d", "x"]), tag(&["title", "T"]), tag(&["company", "C"])];
    for (missing, name) in [(0usize, "d"), (1, "title"), (2, "company")] {
        let mut tags = all.clone();
        tags.remove(missing);
        let event = event_with_tags(tags, "", 0);
        assert_eq!(
            JobListing::from_tags(&event),
            Err(ValidationError::MissingField(name))
        );
        assert_eq!(
            JobListing::from_nostr_event(&event, None),
            Err(DecodeError::Invalid(ValidationError::MissingField(name)))
        );
    }
    let none = event_with_tags(vec![], "", 0);
    assert_eq!(JobListing::from_tags(&none), Err(ValidationError::MissingField("d")));
    let no_value = event_with_tags(
        vec![tag(&["d"]), tag(&["title", "T"]), tag(&["company", "C"]), vec![]],
        "",
        0,
    );
    assert_eq!(JobListing::from_tags(&no_value), Err(ValidationError::MissingField("d")));
}

#[test]
fn fallback_reads_optional_tags_and_skips_unknown_values() {
    let event = event_with_tags(
        vec![
            tag(&["d", "id-1", "ignored"]),
            tag(&["title", "First"]),
            tag(&["title", "Second"]),
            tag(&["company", "Org"]),
            tag(&["date-posted", "2024-06-01"]),
            tag(&["employment-type", "parttime"]),
            tag(&["employment-type", "Freelance"]),
            tag(&["employment-type", "Volunteer"]),
            tag(&["employment-type", "full-time"]),
            tag(&["employment-type", "Intern"]),
            tag(&["employment-type"]),
            tag(&["location-type", "REMOTE"]),
            tag(&["location-type", "moon"]),
            tag(&["location-type", "onsite"]),
            tag(&["location-type", "Hybrid"]),
            tag(&["location-type", "telecommute"]),
            tag(&["expires", "2024-12-31"]),
            tag(&["employer-pubkey", "npub1e"]),
            tag(&["lightning", "ln@org"]),
            tag(&["company-url", "https://org.example"]),
        ],
        "free text",
        1682060685,
    );
    let job = JobListing::from_tags(&event).unwrap();
    assert_eq!(job.identifier, "id-1");
    assert_eq!(job.title, "First");
    assert_eq!(job.date_posted, "2024-06-01");
    assert_eq!(
        job.employment_type,
        vec![EmploymentType::PartTime, EmploymentType::Volunteer, EmploymentType::Intern]
    );
    assert_eq!(JobListing::count_skipped_tags(&event), 3);
    assert_eq!(
        job.job_location_type,
        Some(vec![
            JobLocationType::Telecommute,
            JobLocationType::OnSite,
            JobLocationType::Hybrid,
            JobLocationType::Telecommute,
        ])
    );
    assert_eq!(job.skills, Some(vec![]));
    assert_eq!(job.valid_through, Some("2024-12-31".to_string()));
    assert_eq!(job.nostr_employer_pubkey, Some("npub1e".to_string()));
    assert_eq!(job.lightning_address, Some("ln@org".to_string()));
    assert_eq!(job.hiring_organization.url, Some("https://org.example".to_string()));
}

#[test]
fn fallback_with_given_date() {
    let event = event_with_tags(
        vec![tag(&["d", "x"]), tag(&["title", "T"]), tag(&["company", "C"])],
        "text",
        5,
    );
    let job = JobListing::from_tags_dated(&event, "2020-02-02".to_string()).unwrap();
    assert_eq!(job.date_posted, "2020-02-02");
    assert_eq!(job.validate(), Ok(()));
}

#[test]
fn tag_lookups() {
    let tags = vec![
        tag(&["skill", "Rust"]),
        tag(&["skill"]),
        tag(&["other", "x"]),
        tag(&["skill", "Nostr", "more"]),
    ];
    assert_eq!(tag_values(&tags, "skill"), vec!["Rust".to_string(), "Nostr".to_string()]);
    assert_eq!(JobListing::find_tag_value(&tags, "skill"), Some("Rust".to_string()));
    assert_eq!(JobListing::find_tag_value(&tags, "other"), Some("x".to_string()));
    assert_eq!(JobListing::find_tag_value(&tags, "none"), None);
    assert_eq!(JobListing::parse_custom_tag(&tags[3], "skill"), Some("Nostr".to_string()));
    assert_eq!(JobListing::parse_custom_tag(&tags[1], "skill"), None);
    assert_eq!(JobListing::parse_custom_tag(&tags[2], "skill"), None);
}

#[test]
fn upper_case_tag_values() {
    assert_eq!(employment_type_from_tag_value("FULLTIME"), Some(EmploymentType::FullTime));
    assert_eq!(employment_type_from_tag_value("PARTTIME"), Some(EmploymentType::PartTime));
    assert_eq!(employment_type_from_tag_value("CONTRACTOR"), Some(EmploymentType::Contractor));
    assert_eq!(employment_type_from_tag_value("INTERN"), Some(EmploymentType::Intern));
    assert_eq!(employment_type_from_tag_value("TEMPORARY"), Some(EmploymentType::Temporary));
    assert_eq!(employment_type_from_tag_value("VOLUNTEER"), Some(EmploymentType::Volunteer));
    assert_eq!(employment_type_from_tag_value("PERDIEM"), Some(EmploymentType::PerDiem));
    assert_eq!(employment_type_from_tag_value("TASKBASED"), Some(EmploymentType::TaskBased));
    assert_eq!(employment_type_from_tag_value("MICROTASK"), Some(EmploymentType::MicroTask));
    assert_eq!(employment_type_from_tag_value("OTHER"), Some(EmploymentType::Other));
    assert_eq!(employment_type_from_tag_value("FullTime"), None);
    assert_eq!(employment_type_from_tag_value("FREELANCE"), None);
    assert_eq!(employment_type_from_tag_value("FULL-TIME"), None);
    assert_eq!(employment_type_from_tag_value(""), None);
    assert_eq!(location_type_from_tag_value("TELECOMMUTE"), Some(JobLocationType::Telecommute));
    assert_eq!(location_type_from_tag_value("REMOTE"), Some(JobLocationType::Telecommute));
    assert_eq!(location_type_from_tag_value("ONSITE"), Some(JobLocationType::OnSite));
    assert_eq!(location_type_from_tag_value("HYBRID"), Some(JobLocationType::Hybrid));
    assert_eq!(location_type_from_tag_value(""), None);
}

#[test]
fn base_filter_asks_for_job_listings() {
    let filter = JobsFilter::new().build();
    assert_eq!(
        filter,
        Filter {
            kind: 39993,
            tags: vec![TagPredicate { name: "t".to_string(), values: vec!["Jobs".to_string()] }],
            limit: None,
        }
    );
    assert_eq!(JobsFilter::default().build(), filter);
    assert_eq!(JobsFilter::new().limit(10).build().limit, Some(10));
}

#[test]
fn filter_predicates_use_the_encoder_names() {
    let filter = JobsFilter::new()
        .company("Test Corp")
        .employment_type(EmploymentType::FullTime)
        .skill("Rust")
        .skill("Nostr")
        .skill("Rust")
        .limit(5)
        .build();
    assert_eq!(
        filter.tags,
        vec![
            TagPredicate { name: "t".to_string(), values: vec!["Jobs".to_string()] },
            TagPredicate { name: "company".to_string(), values: vec!["Test Corp".to_string()] },
            TagPredicate {
                name: "employment-type".to_string(),
                values: vec!["FullTime".to_string()]
            },
            TagPredicate {
                name: "skill".to_string(),
                values: vec!["Rust".to_string(), "Nostr".to_string()]
            },
        ]
    );
    assert_eq!(filter.limit, Some(5));
    assert_eq!(filter.kind, KIND_JOB_LISTING);
}

#[test]
fn filters_match_the_events_of_the_encoder() {
    let job = sample_job();
    let event = signed(job.to_nostr_event("{}".to_string(), PUBKEY), 0);
    assert!(JobsFilter::new().build().matches(&event));
    assert!(JobsFilter::new().company("Test Corp").build().matches(&event));
    assert!(JobsFilter::new().employment_type(EmploymentType::Contractor).build().matches(&event));
    assert!(JobsFilter::new().skill("Nostr").build().matches(&event));
    assert!(JobsFilter::new()
        .company("Test Corp")
        .employment_type(EmploymentType::FullTime)
        .skill("Rust")
        .limit(1)
        .build()
        .matches(&event));
    assert!(JobsFilter::new().skill("Go").skill("Rust").build().matches(&event));

    assert!(!JobsFilter::new().company("Other Corp").build().matches(&event));
    assert!(!JobsFilter::new().employment_type(EmploymentType::Intern).build().matches(&event));
    assert!(!JobsFilter::new().skill("Go").build().matches(&event));
    assert!(!JobsFilter::new().company("Test Corp").skill("Go").build().matches(&event));

    let mut other_kind = event.clone();
    other_kind.kind = 1;
    assert!(!JobsFilter::new().build().matches(&other_kind));
    let mut no_category = event;
    no_category.tags.remove(1);
    assert!(!JobsFilter::new().build().matches(&no_category));
}

#[test]
fn custom_tag_narrows_by_any_name() {
    let filter = Filter { kind: 1, tags: vec![], limit: None }
        .custom_tag("p", "alice".to_string())
        .custom_tag("p", "bob".to_string());
    let event = Event {
        id: String::new(),
        pubkey: String::new(),
        created_at: 0,
        kind: 1,
        tags: vec![tag(&["p"]), tag(&["p", "bob"])],
        content: String::new(),
    };
    assert!(filter.matches(&event));
    assert!(filter.tags[0].holds(&event.tags));
    let stricter = filter.custom_tag("e", "x".to_string());
    assert!(!stricter.matches(&event));
}

#[test]
fn skipped_tags_are_counted() {
    let event = event_with_tags(
        vec![
            tag(&["d", "x"]),
            tag(&["employment-type", "FullTime"]),
            tag(&["employment-type", "Volunteer"]),
            tag(&["employment-type", "Freelance"]),
            tag(&["employment-type", ""]),
            tag(&["employment-type"]),
            tag(&["location-type", "remote"]),
            tag(&["location-type", "moon"]),
            tag(&["location", "moon"]),
            tag(&["skill", "anything"]),
        ],
        "",
        0,
    );
    assert_eq!(JobListing::count_skipped_tags(&event), 3);
    assert_eq!(JobListing::count_skipped_tags(&event_with_tags(vec![], "", 0)), 0);
    let encoded = signed(sample_job().to_nostr_event("{}".to_string(), PUBKEY), 0);
    assert_eq!(JobListing::count_skipped_tags(&encoded), 0);
}

#[test]
fn test_round_trip_conversion() {
    let job = JobListing::builder(
        "job-001".to_string(),
        "Rust Developer".to_string(),
        "Build awesome stuff".to_string(),
        "Test Corp".to_string(),
        "2025-01-15".to_string(),
        "https://test.example/apply".to_string(),
    )
    .employment_type(vec![EmploymentType::FullTime])
    .remote()
    .skills(vec!["Rust".to_string(), "Nostr".to_string()])
    .build()
    .unwrap();

    let content = format!(
        "{{\n  \"@context\": \"{}\",\n  \"@type\": \"{}\",\n  \"title\": \"{}\"\n}}",
        job.context, job.schema_type, job.title
    );
    let event = signed(job.to_nostr_event(content, PUBKEY), 1_700_000_000);

    assert_eq!(event.kind, KIND_JOB_LISTING);
    assert!(event.content.contains("JobPosting"));
    assert!(event.content.contains("schema.org"));

    let parsed = JobListing::from_nostr_event(&event, Some(job.clone())).unwrap();

    assert_eq!(parsed.title, job.title);
    assert_eq!(parsed.identifier, job.identifier);
    assert_eq!(parsed.hiring_organization.name, job.hiring_organization.name);
}

#[test]
fn test_tags_created() {
    let job = JobListing::builder(
        "job-001".to_string(),
        "Test Job".to_string(),
        "Test".to_string(),
        "Test Corp".to_string(),
        "2025-01-15".to_string(),
        "https://test.example/apply".to_string(),
    )
    .skills(vec!["Rust".to_string()])
    .build()
    .unwrap();

    let event = job.to_nostr_event("{}".to_string(), PUBKEY);

    let has_category_tag = event.tags.iter().any(|t| t.as_slice() == ["t", "Jobs"]);
    assert!(has_category_tag);

    let has_skill_tag = event.tags.iter().any(|t| t.get(0) == Some(&"skill".to_string()));
    assert!(has_skill_tag);
}

#[test]
fn indexed_part_keeps_single_letter_conditions() {
    let filter = JobsFilter::new()
        .company("Test Corp")
        .skill("Rust")
        .limit(7)
        .build()
        .custom_tag("p", "alice".to_string())
        .custom_tag("", "x".to_string())
        .custom_tag("1", "x".to_string())
        .custom_tag("Z", "x".to_string());
    let indexed = filter.indexed_part();
    assert_eq!(indexed.kind, 39993);
    assert_eq!(indexed.limit, Some(7));
    assert_eq!(
        indexed.tags,
        vec![
            TagPredicate { name: "t".to_string(), values: vec!["Jobs".to_string()] },
            TagPredicate { name: "p".to_string(), values: vec!["alice".to_string()] },
            TagPredicate { name: "Z".to_string(), values: vec!["x".to_string()] },
        ]
    );
    assert!(names_single_letter("t"));
    assert!(names_single_letter("Q"));
    assert!(!names_single_letter("tt"));
    assert!(!names_single_letter(""));
    assert!(!names_single_letter("-"));
    assert!(!names_single_letter("é"));

    let job = sample_job();
    let event = signed(job.to_nostr_event("{}".to_string(), PUBKEY), 0);
    let narrowed = JobsFilter::new().company("Test Corp").build();
    assert!(narrowed.matches(&event));
    assert!(narrowed.indexed_part().matches(&event));
    let other = JobsFilter::new().company("Other").build();
    assert!(!other.matches(&event));
    assert!(other.indexed_part().matches(&event));
}

#[test]
fn every_employment_type_of_the_encoder_is_read_back() {
    let all = vec![
        EmploymentType::FullTime,
        EmploymentType::PartTime,
        EmploymentType::Contractor,
        EmploymentType::Temporary,
        EmploymentType::Intern,
        EmploymentType::Volunteer,
        EmploymentType::PerDiem,
        EmploymentType::TaskBased,
        EmploymentType::MicroTask,
        EmploymentType::Other,
    ];
    for kind in all.iter().copied() {
        let event = event_with_tags(
            vec![
                tag(&["d", "x"]),
                tag(&["title", "T"]),
                tag(&["company", "C"]),
                tag(&["employment-type", kind.tag_name()]),
            ],
            "not json",
            0,
        );
        let job = JobListing::from_tags(&event).unwrap();
        assert_eq!(job.employment_type, vec![kind]);
        assert_eq!(JobListing::count_skipped_tags(&event), 0);
        assert_eq!(
            employment_type_from_tag_value(&kind.tag_name().to_uppercase()),
            Some(kind)
        );
    }

    let mut job = sample_job();
    job.employment_type = all.clone();
    let event = signed(job.to_nostr_event("garbled".to_string(), PUBKEY), 0);
    let back = JobListing::from_nostr_event(&event, None).unwrap();
    assert_eq!(back.employment_type, all);
    assert_eq!(JobListing::count_skipped_tags(&event), 0);

    for name in ["Telecommute", "OnSite", "Hybrid"] {
        assert!(location_type_from_tag_value(&name.to_uppercase()).is_some());
    }
}
