use nosjob::json_parser::{
    basic_employment_type_from_lowercase, capability_level_from_lowercase,
    convert_enhanced_to_job_listing, convert_enhanced_with, convert_simple_with,
    convert_to_job_listing, employment_type_from_lowercase, generate_identifier,
    interface_type_from_uppercase, location_type_from_lowercase, oversight_from_lowercase,
    parse_capability_level, parse_employment_type, parse_location_type, parse_worker_types,
    worker_type_from_uppercase, CapabilityJson, EnhancedJobJson, InterfaceRequirementsJson,
    MetricJson, PerformanceRequirementsJson, SalaryJson, SimpleJobJson,
};
use nosjob::types::{
    CapabilityLevel, CapabilityRequirement, Decimal, EligibleWorkerType, EmploymentType,
    InterfaceType, JobLocationType, MonetaryValue, OversightRequirement,
};
use nosjob::ValidationError;

const UUID: &str = "67e55044-10b1-426f-9247-bb680e5fe0c8";

fn dec(x: f64) -> Decimal {
    Decimal { text: x.to_string() }
}

fn enhanced() -> EnhancedJobJson {
    EnhancedJobJson {
        job_type: "job".to_string(),
        version: 1,
        title: "Image Classification Task Runner".to_string(),
        company: "Task Platform".to_string(),
        location: "Remote".to_string(),
        employment_type: "Task-Based".to_string(),
        description: "Classify product images".to_string(),
        skills: vec!["Vision".to_string(), "Python".to_string()],
        salary: SalaryJson {
            currency: "USD".to_string(),
            min: dec(0.05),
            max: dec(0.1),
            unit: Some("TASK".to_string()),
        },
        eligible_worker_type: Some(vec![
            "human".to_string(),
            "robot".to_string(),
            "ai_agent".to_string(),
        ]),
        required_capabilities: Some(vec![
            CapabilityJson { name: "Image Classification".to_string(), level: "ADVANCED".to_string() },
            CapabilityJson { name: "Triage".to_string(), level: "unheard of".to_string() },
        ]),
        performance_requirements: Some(PerformanceRequirementsJson {
            response_time_max: Some(MetricJson { value: dec(5.0), unit: "SECOND".to_string() }),
            accuracy_min: Some(MetricJson { value: dec(95.0), unit: "RATIO".to_string() }),
            throughput_min: None,
        }),
        interface_requirements: Some(InterfaceRequirementsJson {
            interface_type: "web_portal".to_string(),
            protocol: "REST".to_string(),
            authentication: None,
            input_format: None,
            output_format: None,
        }),
        human_oversight: Some("None".to_string()),
        quality_assurance: None,
        compliance: None,
        identifier: None,
        valid_through: Some("2025-12-31".to_string()),
        lightning_address: Some("pay@task.example".to_string()),
        apply_url: Some("https://task.example/apply".to_string()),
    }
}

fn simple() -> SimpleJobJson {
    SimpleJobJson {
        job_type: "job".to_string(),
        version: 1,
        title: "Rust Developer".to_string(),
        company: "Acme Corp".to_string(),
        location: "Office".to_string(),
        employment_type: "Task-Based".to_string(),
        description: "Build things".to_string(),
        skills: vec!["Rust".to_string()],
        salary: SalaryJson {
            currency: "EUR".to_string(),
            min: dec(50000.0),
            max: dec(70000.0),
            unit: Some("MONTH".to_string()),
        },
        identifier: Some("given-id".to_string()),
        valid_through: None,
        lightning_address: None,
    }
}

#[test]
fn capability_levels() {
    assert_eq!(parse_capability_level("basic"), CapabilityLevel::Basic);
    assert_eq!(parse_capability_level("Intermediate"), CapabilityLevel::Intermediate);
    assert_eq!(parse_capability_level("ADVANCED"), CapabilityLevel::Advanced);
    assert_eq!(parse_capability_level("eXpert"), CapabilityLevel::Expert);
    assert_eq!(parse_capability_level("guru"), CapabilityLevel::Intermediate);
    assert_eq!(parse_capability_level(""), CapabilityLevel::Intermediate);
    assert_eq!(capability_level_from_lowercase("expert"), CapabilityLevel::Expert);
    assert_eq!(capability_level_from_lowercase("EXPERT"), CapabilityLevel::Intermediate);
}

#[test]
fn employment_types() {
    let cases = [
        ("full-time", EmploymentType::FullTime),
        ("FullTime", EmploymentType::FullTime),
        ("PART-TIME", EmploymentType::PartTime),
        ("parttime", EmploymentType::PartTime),
        ("Contractor", EmploymentType::Contractor),
        ("contract", EmploymentType::Contractor),
        ("intern", EmploymentType::Intern),
        ("Internship", EmploymentType::Intern),
        ("temporary", EmploymentType::Temporary),
        ("TEMP", EmploymentType::Temporary),
        ("volunteer", EmploymentType::Volunteer),
        ("task-based", EmploymentType::TaskBased),
        ("TaskBased", EmploymentType::TaskBased),
        ("micro-task", EmploymentType::MicroTask),
        ("MICROTASK", EmploymentType::MicroTask),
        ("per-diem", EmploymentType::Other),
        ("", EmploymentType::Other),
    ];
    for (word, expected) in cases {
        assert_eq!(parse_employment_type(word), expected, "{}", word);
    }
    assert_eq!(employment_type_from_lowercase("fulltime"), EmploymentType::FullTime);
    assert_eq!(employment_type_from_lowercase("FULLTIME"), EmploymentType::Other);
    assert_eq!(basic_employment_type_from_lowercase("fulltime"), EmploymentType::FullTime);
    assert_eq!(basic_employment_type_from_lowercase("temp"), EmploymentType::Temporary);
    assert_eq!(basic_employment_type_from_lowercase("task-based"), EmploymentType::Other);
    assert_eq!(basic_employment_type_from_lowercase("microtask"), EmploymentType::Other);
}

#[test]
fn location_types() {
    assert_eq!(parse_location_type("remote"), JobLocationType::Telecommute);
    assert_eq!(parse_location_type("Telecommute"), JobLocationType::Telecommute);
    assert_eq!(parse_location_type("ONSITE"), JobLocationType::OnSite);
    assert_eq!(parse_location_type("On-Site"), JobLocationType::OnSite);
    assert_eq!(parse_location_type("office"), JobLocationType::OnSite);
    assert_eq!(parse_location_type("Hybrid"), JobLocationType::Hybrid);
    assert_eq!(parse_location_type("anywhere"), JobLocationType::Telecommute);
    assert_eq!(location_type_from_lowercase("hybrid"), JobLocationType::Hybrid);
    assert_eq!(location_type_from_lowercase("Hybrid"), JobLocationType::Telecommute);
}

#[test]
fn worker_interface_and_oversight_words() {
    assert_eq!(worker_type_from_uppercase("HUMAN"), Some(EligibleWorkerType::Human));
    assert_eq!(worker_type_from_uppercase("AIAGENT"), Some(EligibleWorkerType::AIAgent));
    assert_eq!(worker_type_from_uppercase("AI_AGENT"), Some(EligibleWorkerType::AIAgent));
    assert_eq!(worker_type_from_uppercase("AI"), Some(EligibleWorkerType::AIAgent));
    assert_eq!(worker_type_from_uppercase("human"), None);
    assert_eq!(
        parse_worker_types(&vec![
            "ai".to_string(),
            "nobody".to_string(),
            "Human".to_string(),
            "AiAgent".to_string()
        ]),
        vec![EligibleWorkerType::AIAgent, EligibleWorkerType::Human, EligibleWorkerType::AIAgent]
    );
    assert_eq!(parse_worker_types(&vec![]), vec![]);

    assert_eq!(interface_type_from_uppercase("API"), InterfaceType::Api);
    assert_eq!(interface_type_from_uppercase("RPC"), InterfaceType::Rpc);
    assert_eq!(interface_type_from_uppercase("WEBHOOK"), InterfaceType::Webhook);
    assert_eq!(interface_type_from_uppercase("WEB_PORTAL"), InterfaceType::WebPortal);
    assert_eq!(interface_type_from_uppercase("WEBPORTAL"), InterfaceType::WebPortal);
    assert_eq!(interface_type_from_uppercase("PIGEON"), InterfaceType::Api);

    assert_eq!(oversight_from_lowercase("required"), OversightRequirement::Required);
    assert_eq!(oversight_from_lowercase("optional"), OversightRequirement::Optional);
    assert_eq!(oversight_from_lowercase("none"), OversightRequirement::NoOversight);
    assert_eq!(oversight_from_lowercase("sometimes"), OversightRequirement::Optional);
}

#[test]
fn generated_identifier_formula() {
    assert_eq!(
        generate_identifier("Task Platform", "Image Classification Task Runner", UUID),
        "task-platform-image-classification-67e55044"
    );
    assert_eq!(generate_identifier("A", "B C", "nohyphen"), "a-b-c-nohyphen");
    assert_eq!(generate_identifier("", "", "-x"), "--");
    assert_eq!(
        generate_identifier("X", "12345678901234567890", "u-v"),
        "x-12345678901234567890-u"
    );
    assert_eq!(
        generate_identifier("X", "123456789012345678901", "u-v"),
        "x-12345678901234567890-u"
    );
}

#[test]
fn enhanced_description_converts_field_by_field() {
    let job = convert_enhanced_with(&enhanced(), "npub1pub", UUID, "2025-03-01".to_string())
        .unwrap();
    assert_eq!(job.validate(), Ok(()));
    assert_eq!(job.identifier, "task-platform-image-classification-67e55044");
    assert_eq!(job.title, "Image Classification Task Runner");
    assert_eq!(job.description, "Classify product images");
    assert_eq!(job.hiring_organization.name, "Task Platform");
    assert_eq!(job.date_posted, "2025-03-01");
    assert_eq!(job.apply_url, Some("https://task.example/apply".to_string()));
    assert_eq!(
        job.eligible_worker_type,
        vec![EligibleWorkerType::Human, EligibleWorkerType::AIAgent]
    );
    assert_eq!(job.employment_type, vec![EmploymentType::TaskBased]);
    assert_eq!(job.job_location_type, Some(vec![JobLocationType::Telecommute]));
    assert_eq!(job.skills, Some(vec!["Vision".to_string(), "Python".to_string()]));
    assert_eq!(job.nostr_employer_pubkey, Some("npub1pub".to_string()));
    let salary = job.base_salary.unwrap();
    assert_eq!(salary.currency, "USD");
    match salary.value {
        MonetaryValue::Range(range) => {
            assert_eq!(range.min_value, Some(Decimal { text: "0.05".to_string() }));
            assert_eq!(range.max_value, Some(Decimal { text: "0.1".to_string() }));
            assert_eq!(range.unit_text, "TASK");
        }
        MonetaryValue::Single(_) => panic!("a range is expected"),
    }
    assert_eq!(
        job.required_capabilities,
        Some(vec![
            CapabilityRequirement {
                name: "Image Classification".to_string(),
                level: CapabilityLevel::Advanced
            },
            CapabilityRequirement {
                name: "Triage".to_string(),
                level: CapabilityLevel::Intermediate
            },
        ])
    );
    let response = job.response_time_max.unwrap();
    assert_eq!((response.value.text.as_str(), response.unit.as_str()), ("5", "SECOND"));
    let accuracy = job.accuracy_min.unwrap();
    assert_eq!((accuracy.value.text.as_str(), accuracy.unit.as_str()), ("95", "PERCENT"));
    assert_eq!(job.throughput_min, None);
    assert_eq!(job.interface_type, Some(InterfaceType::WebPortal));
    assert_eq!(job.protocol, Some("REST".to_string()));
    assert_eq!(job.human_oversight, Some(OversightRequirement::NoOversight));
    assert_eq!(job.valid_through, Some("2025-12-31".to_string()));
    assert_eq!(job.lightning_address, Some("pay@task.example".to_string()));
}

#[test]
fn enhanced_description_defaults() {
    let mut e = enhanced();
    e.identifier = Some("own-id".to_string());
    e.eligible_worker_type = None;
    e.salary.unit = None;
    e.required_capabilities = None;
    e.performance_requirements = None;
    e.interface_requirements = None;
    e.human_oversight = None;
    e.valid_through = None;
    e.lightning_address = None;
    e.apply_url = None;
    let job = convert_enhanced_with(&e, "pk", UUID, "2025-03-01".to_string()).unwrap();
    assert_eq!(job.identifier, "own-id");
    assert_eq!(job.eligible_worker_type, vec![EligibleWorkerType::AIAgent]);
    assert_eq!(job.apply_url, Some(String::new()));
    match job.base_salary.unwrap().value {
        MonetaryValue::Range(range) => assert_eq!(range.unit_text, "YEAR"),
        MonetaryValue::Single(_) => panic!("a range is expected"),
    }
    assert_eq!(job.required_capabilities, None);
    assert_eq!(job.interface_type, None);
    assert_eq!(job.human_oversight, None);
    assert_eq!(job.valid_through, None);
}

#[test]
fn enhanced_description_is_validated() {
    let mut humans_only = enhanced();
    humans_only.eligible_worker_type = Some(vec!["human".to_string()]);
    assert_eq!(
        convert_enhanced_with(&humans_only, "pk", UUID, "2025-03-01".to_string()),
        Err(ValidationError::InvalidConfiguration(
            "AI agent fields require EligibleWorkerType::AIAgent"
        ))
    );
    let mut nobody = enhanced();
    nobody.eligible_worker_type = Some(vec!["robot".to_string()]);
    assert_eq!(
        convert_enhanced_with(&nobody, "pk", UUID, "2025-03-01".to_string()),
        Err(ValidationError::MissingField("eligible_worker_type"))
    );
    let mut untitled = enhanced();
    untitled.title = String::new();
    assert_eq!(
        convert_enhanced_with(&untitled, "pk", UUID, "2025-03-01".to_string()),
        Err(ValidationError::MissingField("title"))
    );
    assert_eq!(
        convert_enhanced_with(&enhanced(), "pk", UUID, "today".to_string()),
        Err(ValidationError::InvalidDateFormat("date_posted"))
    );
}

#[test]
fn enhanced_description_posted_today() {
    let job = convert_enhanced_to_job_listing(&enhanced(), "pk").unwrap();
    let date: Vec<char> = job.date_posted.chars().collect();
    assert_eq!(date.len(), 10);
    assert_eq!((date[4], date[7]), ('-', '-'));
    assert!(date.iter().enumerate().all(|(i, c)| i == 4 || i == 7 || c.is_ascii_digit()));
    let prefix = "task-platform-image-classification-";
    assert!(job.identifier.starts_with(prefix));
    let group = &job.identifier[prefix.len()..];
    assert_eq!(group.len(), 8);
    assert!(group.chars().all(|c| c.is_ascii_hexdigit()));
    let again = convert_enhanced_to_job_listing(&enhanced(), "pk").unwrap();
    assert_ne!(again.identifier, job.identifier);
}

#[test]
fn plain_description_converts() {
    let job = convert_simple_with(&simple(), "pk", UUID, "2025-03-01".to_string()).unwrap();
    assert_eq!(job.identifier, "given-id");
    assert_eq!(job.eligible_worker_type, vec![EligibleWorkerType::Human]);
    assert_eq!(job.employment_type, vec![EmploymentType::Other]);
    assert_eq!(job.job_location_type, Some(vec![JobLocationType::OnSite]));
    assert_eq!(job.apply_url, Some(String::new()));
    assert_eq!(job.skills, Some(vec!["Rust".to_string()]));
    assert_eq!(job.nostr_employer_pubkey, Some("pk".to_string()));
    let salary = job.base_salary.unwrap();
    assert_eq!(salary.currency, "EUR");
    match salary.value {
        MonetaryValue::Range(range) => {
            assert_eq!(range.min_value, Some(Decimal { text: "50000".to_string() }));
            assert_eq!(range.max_value, Some(Decimal { text: "70000".to_string() }));
            assert_eq!(range.unit_text, "YEAR");
        }
        MonetaryValue::Single(_) => panic!("a range is expected"),
    }

    let mut unnamed = simple();
    unnamed.identifier = None;
    unnamed.valid_through = Some("2025-06-30".to_string());
    unnamed.lightning_address = Some("ln@acme".to_string());
    let job = convert_simple_with(&unnamed, "pk", UUID, "2025-03-01".to_string()).unwrap();
    assert_eq!(job.identifier, "acme-corp-rust-developer-67e55044");
    assert_eq!(job.valid_through, Some("2025-06-30".to_string()));
    assert_eq!(job.lightning_address, Some("ln@acme".to_string()));

    let today = convert_to_job_listing(&unnamed, "pk").unwrap();
    assert!(today.identifier.starts_with("acme-corp-rust-developer-"));
    assert!(today.date_posted.contains('-'));
}
