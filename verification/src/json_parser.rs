//! Job descriptions as they are read from a file, and their conversion to
//! job listings.

use vstd::prelude::*;
use chrono::Utc;
use uuid::Uuid;
use crate::builder::{JobListingBuilder, salary_range};
use crate::events::listing_outcome;
use crate::listing::{JobListing, JobListingView, ValidationError, new_listing, validation};
use crate::text::{
    before_first, copy_texts, dashed, hyphenated, join_hyphenated, lemma_first_index_of,
    lowercase, prefix, spaces_to_dashes, take_before_first, take_prefix, text_eq, to_lowercase,
    to_uppercase, uppercase,
};
use crate::types::{
    CapabilityLevel, CapabilityRequirement, CapabilityRequirementView, Decimal,
    EligibleWorkerType, EmploymentType, InterfaceType, JobLocationType, OversightRequirement,
    PerformanceRequirementView,
};

verus! {

/// A salary range as a file gives it.
#[derive(Clone, Debug, PartialEq, Eq)]
pub struct SalaryJson {
    pub currency: String,
    pub min: Decimal,
    pub max: Decimal,
    pub unit: Option<String>,
}

/// A capability as a file gives it; the level is free text.
#[derive(Clone, Debug, PartialEq, Eq)]
pub struct CapabilityJson {
    pub name: String,
    pub level: String,
}

/// A measured bound as a file gives it.
#[derive(Clone, Debug, PartialEq, Eq)]
pub struct MetricJson {
    pub value: Decimal,
    pub unit: String,
}

/// The performance bounds of a job for AI agents.
#[derive(Clone, Debug, PartialEq, Eq)]
pub struct PerformanceRequirementsJson {
    pub response_time_max: Option<MetricJson>,
    pub accuracy_min: Option<MetricJson>,
    pub throughput_min: Option<MetricJson>,
}

/// How an AI agent reaches the job; the interface type is free text.
#[derive(Clone, Debug, PartialEq, Eq)]
pub struct InterfaceRequirementsJson {
    pub interface_type: String,
    pub protocol: String,
    pub authentication: Option<String>,
    pub input_format: Option<String>,
    pub output_format: Option<String>,
}

/// How the work is reviewed.
#[derive(Clone, Debug, PartialEq, Eq)]
pub struct QualityAssuranceJson {
    pub sample_review_rate: Option<Decimal>,
    pub appeal_process: Option<bool>,
    pub feedback_loop: Option<bool>,
}

/// Which rules the work complies with.
#[derive(Clone, Debug, PartialEq, Eq)]
pub struct ComplianceJson {
    pub gdpr_compliant: Option<bool>,
    pub data_retention_days: Option<u32>,
    pub audit_logging: Option<bool>,
}

/// A job description with the fields for AI agents.
#[derive(Clone, Debug, PartialEq, Eq)]
pub struct EnhancedJobJson {
    pub job_type: String,
    pub version: u32,
    pub title: String,
    pub company: String,
    pub location: String,
    pub employment_type: String,
    pub description: String,
    pub skills: Vec<String>,
    pub salary: SalaryJson,
    pub eligible_worker_type: Option<Vec<String>>,
    pub required_capabilities: Option<Vec<CapabilityJson>>,
    pub performance_requirements: Option<PerformanceRequirementsJson>,
    pub interface_requirements: Option<InterfaceRequirementsJson>,
    pub human_oversight: Option<String>,
    pub quality_assurance: Option<QualityAssuranceJson>,
    pub compliance: Option<ComplianceJson>,
    pub identifier: Option<String>,
    pub valid_through: Option<String>,
    pub lightning_address: Option<String>,
    pub apply_url: Option<String>,
}

/// A job description in its plain form.
#[derive(Clone, Debug, PartialEq, Eq)]
pub struct SimpleJobJson {
    pub job_type: String,
    pub version: u32,
    pub title: String,
    pub company: String,
    pub location: String,
    pub employment_type: String,
    pub description: String,
    pub skills: Vec<String>,
    pub salary: SalaryJson,
    pub identifier: Option<String>,
    pub valid_through: Option<String>,
    pub lightning_address: Option<String>,
}

/// The value of a salary range of a file.
pub struct SalaryJsonView {
    pub currency: Seq<char>,
    pub min: Seq<char>,
    pub max: Seq<char>,
    pub unit: Option<Seq<char>>,
}

impl View for SalaryJson {
    type V = SalaryJsonView;

    open spec fn view(&self) -> SalaryJsonView {
        SalaryJsonView {
            currency: self.currency@,
            min: self.min@,
            max: self.max@,
            unit: self.unit.deep_view(),
        }
    }
}

/// The value of a capability of a file.
pub struct CapabilityJsonView {
    pub name: Seq<char>,
    pub level: Seq<char>,
}

impl View for CapabilityJson {
    type V = CapabilityJsonView;

    open spec fn view(&self) -> CapabilityJsonView {
        CapabilityJsonView { name: self.name@, level: self.level@ }
    }
}

impl DeepView for CapabilityJson {
    type V = CapabilityJsonView;

    open spec fn deep_view(&self) -> CapabilityJsonView {
        self@
    }
}

/// The value of a measured bound of a file.
pub struct MetricJsonView {
    pub value: Seq<char>,
    pub unit: Seq<char>,
}

impl View for MetricJson {
    type V = MetricJsonView;

    open spec fn view(&self) -> MetricJsonView {
        MetricJsonView { value: self.value@, unit: self.unit@ }
    }
}

impl DeepView for MetricJson {
    type V = MetricJsonView;

    open spec fn deep_view(&self) -> MetricJsonView {
        self@
    }
}

/// The value of the performance bounds of a file.
pub struct PerformanceRequirementsJsonView {
    pub response_time_max: Option<MetricJsonView>,
    pub accuracy_min: Option<MetricJsonView>,
    pub throughput_min: Option<MetricJsonView>,
}

impl View for PerformanceRequirementsJson {
    type V = PerformanceRequirementsJsonView;

    open spec fn view(&self) -> PerformanceRequirementsJsonView {
        PerformanceRequirementsJsonView {
            response_time_max: self.response_time_max.deep_view(),
            accuracy_min: self.accuracy_min.deep_view(),
            throughput_min: self.throughput_min.deep_view(),
        }
    }
}

impl DeepView for PerformanceRequirementsJson {
    type V = PerformanceRequirementsJsonView;

    open spec fn deep_view(&self) -> PerformanceRequirementsJsonView {
        self@
    }
}

/// The value of the interface requirements of a file.
pub struct InterfaceRequirementsJsonView {
    pub interface_type: Seq<char>,
    pub protocol: Seq<char>,
    pub authentication: Option<Seq<char>>,
    pub input_format: Option<Seq<char>>,
    pub output_format: Option<Seq<char>>,
}

impl View for InterfaceRequirementsJson {
    type V = InterfaceRequirementsJsonView;

    open spec fn view(&self) -> InterfaceRequirementsJsonView {
        InterfaceRequirementsJsonView {
            interface_type: self.interface_type@,
            protocol: self.protocol@,
            authentication: self.authentication.deep_view(),
            input_format: self.input_format.deep_view(),
            output_format: self.output_format.deep_view(),
        }
    }
}

impl DeepView for InterfaceRequirementsJson {
    type V = InterfaceRequirementsJsonView;

    open spec fn deep_view(&self) -> InterfaceRequirementsJsonView {
        self@
    }
}

/// The value of the review rules of a file.
pub struct QualityAssuranceJsonView {
    pub sample_review_rate: Option<Seq<char>>,
    pub appeal_process: Option<bool>,
    pub feedback_loop: Option<bool>,
}

impl View for QualityAssuranceJson {
    type V = QualityAssuranceJsonView;

    open spec fn view(&self) -> QualityAssuranceJsonView {
        QualityAssuranceJsonView {
            sample_review_rate: self.sample_review_rate.deep_view(),
            appeal_process: self.appeal_process,
            feedback_loop: self.feedback_loop,
        }
    }
}

impl DeepView for QualityAssuranceJson {
    type V = QualityAssuranceJsonView;

    open spec fn deep_view(&self) -> QualityAssuranceJsonView {
        self@
    }
}

/// The value of the compliance rules of a file.
pub struct ComplianceJsonView {
    pub gdpr_compliant: Option<bool>,
    pub data_retention_days: Option<u32>,
    pub audit_logging: Option<bool>,
}

impl View for ComplianceJson {
    type V = ComplianceJsonView;

    open spec fn view(&self) -> ComplianceJsonView {
        ComplianceJsonView {
            gdpr_compliant: self.gdpr_compliant,
            data_retention_days: self.data_retention_days,
            audit_logging: self.audit_logging,
        }
    }
}

impl DeepView for ComplianceJson {
    type V = ComplianceJsonView;

    open spec fn deep_view(&self) -> ComplianceJsonView {
        self@
    }
}

/// The value of a job description with the fields for AI agents.
pub struct EnhancedJobJsonView {
    pub job_type: Seq<char>,
    pub version: u32,
    pub title: Seq<char>,
    pub company: Seq<char>,
    pub location: Seq<char>,
    pub employment_type: Seq<char>,
    pub description: Seq<char>,
    pub skills: Seq<Seq<char>>,
    pub salary: SalaryJsonView,
    pub eligible_worker_type: Option<Seq<Seq<char>>>,
    pub required_capabilities: Option<Seq<CapabilityJsonView>>,
    pub performance_requirements: Option<PerformanceRequirementsJsonView>,
    pub interface_requirements: Option<InterfaceRequirementsJsonView>,
    pub human_oversight: Option<Seq<char>>,
    pub quality_assurance: Option<QualityAssuranceJsonView>,
    pub compliance: Option<ComplianceJsonView>,
    pub identifier: Option<Seq<char>>,
    pub valid_through: Option<Seq<char>>,
    pub lightning_address: Option<Seq<char>>,
    pub apply_url: Option<Seq<char>>,
}

impl View for EnhancedJobJson {
    type V = EnhancedJobJsonView;

    open spec fn view(&self) -> EnhancedJobJsonView {
        EnhancedJobJsonView {
            job_type: self.job_type@,
            version: self.version,
            title: self.title@,
            company: self.company@,
            location: self.location@,
            employment_type: self.employment_type@,
            description: self.description@,
            skills: self.skills.deep_view(),
            salary: self.salary@,
            eligible_worker_type: self.eligible_worker_type.deep_view(),
            required_capabilities: self.required_capabilities.deep_view(),
            performance_requirements: self.performance_requirements.deep_view(),
            interface_requirements: self.interface_requirements.deep_view(),
            human_oversight: self.human_oversight.deep_view(),
            quality_assurance: self.quality_assurance.deep_view(),
            compliance: self.compliance.deep_view(),
            identifier: self.identifier.deep_view(),
            valid_through: self.valid_through.deep_view(),
            lightning_address: self.lightning_address.deep_view(),
            apply_url: self.apply_url.deep_view(),
        }
    }
}

/// The value of a job description in its plain form.
pub struct SimpleJobJsonView {
    pub job_type: Seq<char>,
    pub version: u32,
    pub title: Seq<char>,
    pub company: Seq<char>,
    pub location: Seq<char>,
    pub employment_type: Seq<char>,
    pub description: Seq<char>,
    pub skills: Seq<Seq<char>>,
    pub salary: SalaryJsonView,
    pub identifier: Option<Seq<char>>,
    pub valid_through: Option<Seq<char>>,
    pub lightning_address: Option<Seq<char>>,
}

impl View for SimpleJobJson {
    type V = SimpleJobJsonView;

    open spec fn view(&self) -> SimpleJobJsonView {
        SimpleJobJsonView {
            job_type: self.job_type@,
            version: self.version,
            title: self.title@,
            company: self.company@,
            location: self.location@,
            employment_type: self.employment_type@,
            description: self.description@,
            skills: self.skills.deep_view(),
            salary: self.salary@,
            identifier: self.identifier.deep_view(),
            valid_through: self.valid_through.deep_view(),
            lightning_address: self.lightning_address.deep_view(),
        }
    }
}

/// The capability level that a lower-case word names; an unknown word
/// names the intermediate level.
pub open spec fn capability_level_from_lower(lower: Seq<char>) -> CapabilityLevel {
    if lower == "basic"@ {
        CapabilityLevel::Basic
    } else if lower == "intermediate"@ {
        CapabilityLevel::Intermediate
    } else if lower == "advanced"@ {
        CapabilityLevel::Advanced
    } else if lower == "expert"@ {
        CapabilityLevel::Expert
    } else {
        CapabilityLevel::Intermediate
    }
}

/// The employment type that a lower-case word names; an unknown word names
/// `Other`.
pub open spec fn employment_type_from_lower(lower: Seq<char>) -> EmploymentType {
    if lower == "full-time"@ || lower == "fulltime"@ {
        EmploymentType::FullTime
    } else if lower == "part-time"@ || lower == "parttime"@ {
        EmploymentType::PartTime
    } else if lower == "contractor"@ || lower == "contract"@ {
        EmploymentType::Contractor
    } else if lower == "intern"@ || lower == "internship"@ {
        EmploymentType::Intern
    } else if lower == "temporary"@ || lower == "temp"@ {
        EmploymentType::Temporary
    } else if lower == "volunteer"@ {
        EmploymentType::Volunteer
    } else if lower == "task-based"@ || lower == "taskbased"@ {
        EmploymentType::TaskBased
    } else if lower == "micro-task"@ || lower == "microtask"@ {
        EmploymentType::MicroTask
    } else {
        EmploymentType::Other
    }
}

/// The location type that a lower-case word names; an unknown word names
/// remote work.
pub open spec fn location_type_from_lower(lower: Seq<char>) -> JobLocationType {
    if lower == "remote"@ || lower == "telecommute"@ {
        JobLocationType::Telecommute
    } else if lower == "onsite"@ || lower == "on-site"@ || lower == "office"@ {
        JobLocationType::OnSite
    } else if lower == "hybrid"@ {
        JobLocationType::Hybrid
    } else {
        JobLocationType::Telecommute
    }
}

/// The capability level that the lower-case word `lower` names.
pub fn capability_level_from_lowercase(lower: &str) -> (r: CapabilityLevel)
    ensures
        r == capability_level_from_lower(lower@),
{
    if text_eq(lower, "basic") {
        CapabilityLevel::Basic
    } else if text_eq(lower, "intermediate") {
        CapabilityLevel::Intermediate
    } else if text_eq(lower, "advanced") {
        CapabilityLevel::Advanced
    } else if text_eq(lower, "expert") {
        CapabilityLevel::Expert
    } else {
        CapabilityLevel::Intermediate
    }
}

/// The employment type that the lower-case word `lower` names.
pub fn employment_type_from_lowercase(lower: &str) -> (r: EmploymentType)
    ensures
        r == employment_type_from_lower(lower@),
{
    if text_eq(lower, "full-time") || text_eq(lower, "fulltime") {
        EmploymentType::FullTime
    } else if text_eq(lower, "part-time") || text_eq(lower, "parttime") {
        EmploymentType::PartTime
    } else if text_eq(lower, "contractor") || text_eq(lower, "contract") {
        EmploymentType::Contractor
    } else if text_eq(lower, "intern") || text_eq(lower, "internship") {
        EmploymentType::Intern
    } else if text_eq(lower, "temporary") || text_eq(lower, "temp") {
        EmploymentType::Temporary
    } else if text_eq(lower, "volunteer") {
        EmploymentType::Volunteer
    } else if text_eq(lower, "task-based") || text_eq(lower, "taskbased") {
        EmploymentType::TaskBased
    } else if text_eq(lower, "micro-task") || text_eq(lower, "microtask") {
        EmploymentType::MicroTask
    } else {
        EmploymentType::Other
    }
}

/// The location type that the lower-case word `lower` names.
pub fn location_type_from_lowercase(lower: &str) -> (r: JobLocationType)
    ensures
        r == location_type_from_lower(lower@),
{
    if text_eq(lower, "remote") || text_eq(lower, "telecommute") {
        JobLocationType::Telecommute
    } else if text_eq(lower, "onsite") || text_eq(lower, "on-site") || text_eq(lower, "office") {
        JobLocationType::OnSite
    } else if text_eq(lower, "hybrid") {
        JobLocationType::Hybrid
    } else {
        JobLocationType::Telecommute
    }
}

/// The capability level that `s` names, in whatever case it is written.
pub fn parse_capability_level(s: &str) -> (r: CapabilityLevel)
    ensures
        r == capability_level_from_lower(lowercase(s@)),
{
    let lower = to_lowercase(s);
    capability_level_from_lowercase(lower.as_str())
}

/// The employment type that `s` names, in whatever case it is written.
pub fn parse_employment_type(s: &str) -> (r: EmploymentType)
    ensures
        r == employment_type_from_lower(lowercase(s@)),
{
    let lower = to_lowercase(s);
    employment_type_from_lowercase(lower.as_str())
}

/// The location type that `s` names, in whatever case it is written.
pub fn parse_location_type(s: &str) -> (r: JobLocationType)
    ensures
        r == location_type_from_lower(lowercase(s@)),
{
    let lower = to_lowercase(s);
    location_type_from_lowercase(lower.as_str())
}

/// The worker type that an upper-case word names, if it names one.
pub open spec fn worker_type_from_upper(upper: Seq<char>) -> Option<EligibleWorkerType> {
    if upper == "HUMAN"@ {
        Some(EligibleWorkerType::Human)
    } else if upper == "AIAGENT"@ || upper == "AI_AGENT"@ || upper == "AI"@ {
        Some(EligibleWorkerType::AIAgent)
    } else {
        None
    }
}

/// The worker types that `names` name, in their order. A word that names
/// none is passed over.
pub open spec fn decoded_worker_types(names: Seq<Seq<char>>) -> Seq<EligibleWorkerType>
    decreases names.len(),
{
    if names.len() == 0 {
        Seq::empty()
    } else {
        let rest = decoded_worker_types(names.drop_last());
        match worker_type_from_upper(uppercase(names.last())) {
            Some(t) => rest.push(t),
            None => rest,
        }
    }
}

/// The interface type that an upper-case word names; an unknown word names
/// an API.
pub open spec fn interface_type_from_upper(upper: Seq<char>) -> InterfaceType {
    if upper == "API"@ {
        InterfaceType::Api
    } else if upper == "RPC"@ {
        InterfaceType::Rpc
    } else if upper == "WEBHOOK"@ {
        InterfaceType::Webhook
    } else if upper == "WEB_PORTAL"@ || upper == "WEBPORTAL"@ {
        InterfaceType::WebPortal
    } else {
        InterfaceType::Api
    }
}

/// The oversight that a lower-case word names; an unknown word names
/// optional oversight.
pub open spec fn oversight_from_lower(lower: Seq<char>) -> OversightRequirement {
    if lower == "required"@ {
        OversightRequirement::Required
    } else if lower == "optional"@ {
        OversightRequirement::Optional
    } else if lower == "none"@ {
        OversightRequirement::NoOversight
    } else {
        OversightRequirement::Optional
    }
}

/// The worker type that the upper-case word `upper` names, if it names one.
pub fn worker_type_from_uppercase(upper: &str) -> (r: Option<EligibleWorkerType>)
    ensures
        r == worker_type_from_upper(upper@),
{
    if text_eq(upper, "HUMAN") {
        Some(EligibleWorkerType::Human)
    } else if text_eq(upper, "AIAGENT") || text_eq(upper, "AI_AGENT") || text_eq(upper, "AI") {
        Some(EligibleWorkerType::AIAgent)
    } else {
        None
    }
}

/// The interface type that the upper-case word `upper` names.
pub fn interface_type_from_uppercase(upper: &str) -> (r: InterfaceType)
    ensures
        r == interface_type_from_upper(upper@),
{
    if text_eq(upper, "API") {
        InterfaceType::Api
    } else if text_eq(upper, "RPC") {
        InterfaceType::Rpc
    } else if text_eq(upper, "WEBHOOK") {
        InterfaceType::Webhook
    } else if text_eq(upper, "WEB_PORTAL") || text_eq(upper, "WEBPORTAL") {
        InterfaceType::WebPortal
    } else {
        InterfaceType::Api
    }
}

/// The oversight that the lower-case word `lower` names.
pub fn oversight_from_lowercase(lower: &str) -> (r: OversightRequirement)
    ensures
        r == oversight_from_lower(lower@),
{
    if text_eq(lower, "required") {
        OversightRequirement::Required
    } else if text_eq(lower, "optional") {
        OversightRequirement::Optional
    } else if text_eq(lower, "none") {
        OversightRequirement::NoOversight
    } else {
        OversightRequirement::Optional
    }
}

/// The identifier made for a job that brings none: the company and the
/// first twenty characters of the title, both in lower case with hyphens
/// for spaces, and the first group of a UUID, joined by hyphens.
pub open spec fn generated_identifier(
    company: Seq<char>,
    title: Seq<char>,
    uuid_text: Seq<char>,
) -> Seq<char> {
    hyphenated(
        dashed(lowercase(company)),
        prefix(dashed(lowercase(title)), 20),
        before_first(uuid_text, '-'),
    )
}

/// Makes the identifier for a job that brings none.
pub fn generate_identifier(company: &str, title: &str, uuid_text: &str) -> (r: String)
    ensures
        r@ == generated_identifier(company@, title@, uuid_text@),
{
    let uuid_short = take_before_first(uuid_text, '-');
    let company_slug = spaces_to_dashes(to_lowercase(company).as_str());
    let title_slug = spaces_to_dashes(to_lowercase(title).as_str());
    let title_short = take_prefix(title_slug.as_str(), 20);
    join_hyphenated(company_slug.as_str(), title_short.as_str(), uuid_short.as_str())
}

/// The capabilities that `caps` ask for, each level read from its word.
pub open spec fn capability_views(caps: Seq<CapabilityJsonView>) -> Seq<
    CapabilityRequirementView,
> {
    Seq::new(
        caps.len(),
        |i: int|
            CapabilityRequirementView {
                name: caps[i].name,
                level: capability_level_from_lower(lowercase(caps[i].level)),
            },
    )
}

/// The bound that a metric gives.
pub open spec fn metric_view(m: MetricJsonView) -> PerformanceRequirementView {
    PerformanceRequirementView { value: m.value, unit: m.unit }
}

/// The identifier of the listing of `e`: its own, or a generated one.
pub open spec fn enhanced_identifier(e: EnhancedJobJsonView, uuid_text: Seq<char>) -> Seq<char> {
    match e.identifier {
        Some(i) => i,
        None => generated_identifier(e.company, e.title, uuid_text),
    }
}

/// The worker types of the listing of `e`; AI agents where it names none.
pub open spec fn enhanced_worker_types(e: EnhancedJobJsonView) -> Seq<EligibleWorkerType> {
    match e.eligible_worker_type {
        Some(names) => decoded_worker_types(names),
        None => seq![EligibleWorkerType::AIAgent],
    }
}

/// The salary unit of `e`; the year where it names none.
pub open spec fn enhanced_salary_unit(e: EnhancedJobJsonView) -> Seq<char> {
    match e.salary.unit {
        Some(u) => u,
        None => "YEAR"@,
    }
}

/// The capabilities that `caps` ask for, where there are any.
pub open spec fn optional_capabilities(caps: Option<Seq<CapabilityJsonView>>) -> Option<
    Seq<CapabilityRequirementView>,
> {
    match caps {
        Some(c) => Some(capability_views(c)),
        None => None,
    }
}

/// The longest response time that `perf` allows.
pub open spec fn response_time_of(perf: Option<PerformanceRequirementsJsonView>) -> Option<
    PerformanceRequirementView,
> {
    match perf {
        Some(p) => match p.response_time_max {
            Some(m) => Some(metric_view(m)),
            None => None,
        },
        None => None,
    }
}

/// The least accuracy that `perf` allows, in percent whatever unit it
/// names.
pub open spec fn accuracy_of(perf: Option<PerformanceRequirementsJsonView>) -> Option<
    PerformanceRequirementView,
> {
    match perf {
        Some(p) => match p.accuracy_min {
            Some(m) => Some(PerformanceRequirementView { value: m.value, unit: "PERCENT"@ }),
            None => None,
        },
        None => None,
    }
}

/// The least throughput that `perf` allows.
pub open spec fn throughput_of(perf: Option<PerformanceRequirementsJsonView>) -> Option<
    PerformanceRequirementView,
> {
    match perf {
        Some(p) => match p.throughput_min {
            Some(m) => Some(metric_view(m)),
            None => None,
        },
        None => None,
    }
}

/// The interface type that `interface` names.
pub open spec fn interface_type_of(interface: Option<InterfaceRequirementsJsonView>) -> Option<
    InterfaceType,
> {
    match interface {
        Some(i) => Some(interface_type_from_upper(uppercase(i.interface_type))),
        None => None,
    }
}

/// The protocol that `interface` names.
pub open spec fn protocol_of(interface: Option<InterfaceRequirementsJsonView>) -> Option<
    Seq<char>,
> {
    match interface {
        Some(i) => Some(i.protocol),
        None => None,
    }
}

/// The oversight that `word` names.
pub open spec fn oversight_of(word: Option<Seq<char>>) -> Option<OversightRequirement> {
    match word {
        Some(o) => Some(oversight_from_lower(lowercase(o))),
        None => None,
    }
}

/// The listing that an enhanced job description stands for, published by
/// `pubkey` and posted on `date`. `uuid_text` serves to make an identifier
/// where the description brings none. Where the description names no
/// worker types, the job is for AI agents.
pub open spec fn enhanced_listing(
    e: EnhancedJobJsonView,
    pubkey: Seq<char>,
    uuid_text: Seq<char>,
    date: Seq<char>,
) -> JobListingView {
    JobListingView {
        employment_type: seq![employment_type_from_lower(lowercase(e.employment_type))],
        job_location_type: Some(seq![location_type_from_lower(lowercase(e.location))]),
        skills: Some(e.skills),
        nostr_employer_pubkey: Some(pubkey),
        base_salary: Some(
            salary_range(e.salary.min, e.salary.max, e.salary.currency, enhanced_salary_unit(e)),
        ),
        required_capabilities: optional_capabilities(e.required_capabilities),
        response_time_max: response_time_of(e.performance_requirements),
        accuracy_min: accuracy_of(e.performance_requirements),
        throughput_min: throughput_of(e.performance_requirements),
        interface_type: interface_type_of(e.interface_requirements),
        protocol: protocol_of(e.interface_requirements),
        human_oversight: oversight_of(e.human_oversight),
        valid_through: e.valid_through,
        lightning_address: e.lightning_address,
        ..new_listing(
            enhanced_identifier(e, uuid_text),
            e.title,
            e.description,
            e.company,
            date,
            Some(
                match e.apply_url {
                    Some(u) => u,
                    None => Seq::empty(),
                },
            ),
            enhanced_worker_types(e),
        )
    }
}

/// A listing where it is valid, its first broken invariant where it is not.
pub open spec fn validated(j: JobListingView) -> Result<JobListingView, ValidationError> {
    match validation(j) {
        Ok(_) => Ok(j),
        Err(e) => Err(e),
    }
}

/// The worker types that `names` name, in their order.
pub fn parse_worker_types(names: &Vec<String>) -> (r: Vec<EligibleWorkerType>)
    ensures
        r@ == decoded_worker_types(names.deep_view()),
{
    let mut out: Vec<EligibleWorkerType> = Vec::new();
    assert(names.deep_view().subrange(0, 0) =~= Seq::empty());
    let mut i: usize = 0;
    while i < names.len()
        invariant
            i <= names.len(),
            out@ == decoded_worker_types(names.deep_view().subrange(0, i as int)),
        decreases names.len() - i,
    {
        proof {
            let all = names.deep_view();
            assert(all.subrange(0, i + 1).drop_last() =~= all.subrange(0, i as int));
            assert(all.subrange(0, i + 1).last() == names[i as int]@);
        }
        let upper = to_uppercase(names[i].as_str());
        if let Some(t) = worker_type_from_uppercase(upper.as_str()) {
            out.push(t);
        }
        i += 1;
    }
    assert(names.deep_view().subrange(0, i as int) =~= names.deep_view());
    out
}

/// The capabilities that `caps` ask for.
fn parse_capabilities(caps: &Vec<CapabilityJson>) -> (r: Vec<CapabilityRequirement>)
    ensures
        r.deep_view() == capability_views(caps.deep_view()),
{
    let mut out: Vec<CapabilityRequirement> = Vec::new();
    let mut i: usize = 0;
    while i < caps.len()
        invariant
            i <= caps.len(),
            out.deep_view() == capability_views(caps.deep_view().subrange(0, i as int)),
        decreases caps.len() - i,
    {
        let ghost before = out.deep_view();
        let requirement = CapabilityRequirement {
            name: caps[i].name.clone(),
            level: parse_capability_level(caps[i].level.as_str()),
        };
        out.push(requirement);
        assert(out.deep_view() =~= before.push(requirement@));
        assert(out.deep_view() =~= capability_views(caps.deep_view().subrange(0, i + 1)));
        i += 1;
    }
    assert(caps.deep_view().subrange(0, i as int) =~= caps.deep_view());
    out
}

/// Stages what the description says of performance.
fn stage_performance(builder: JobListingBuilder, perf: &Option<PerformanceRequirementsJson>) -> (b:
    JobListingBuilder)
    requires
        builder@.response_time_max is None,
        builder@.accuracy_min is None,
        builder@.throughput_min is None,
    ensures
        b@ == (JobListingView {
            response_time_max: response_time_of(perf.deep_view()),
            accuracy_min: accuracy_of(perf.deep_view()),
            throughput_min: throughput_of(perf.deep_view()),
            ..builder@
        }),
{
    let mut b = builder;
    if let Some(p) = perf {
        if let Some(response_time) = &p.response_time_max {
            b = b.response_time(response_time.value.clone(), response_time.unit.clone());
        }
        if let Some(accuracy) = &p.accuracy_min {
            b = b.accuracy(accuracy.value.clone());
        }
        if let Some(throughput) = &p.throughput_min {
            b = b.throughput(throughput.value.clone(), throughput.unit.clone());
        }
    }
    b
}

/// Stages what the description says of the interface and of oversight.
fn stage_interface(
    builder: JobListingBuilder,
    interface: &Option<InterfaceRequirementsJson>,
    oversight: &Option<String>,
) -> (b: JobListingBuilder)
    requires
        builder@.interface_type is None,
        builder@.protocol is None,
        builder@.human_oversight is None,
    ensures
        b@ == (JobListingView {
            interface_type: interface_type_of(interface.deep_view()),
            protocol: protocol_of(interface.deep_view()),
            human_oversight: oversight_of(oversight.deep_view()),
            ..builder@
        }),
{
    let mut b = builder;
    if let Some(i) = interface {
        let upper = to_uppercase(i.interface_type.as_str());
        b = b.interface_type(interface_type_from_uppercase(upper.as_str()));
        b = b.protocol(i.protocol.clone());
    }
    if let Some(o) = oversight {
        let lower = to_lowercase(o.as_str());
        b = b.human_oversight(oversight_from_lowercase(lower.as_str()));
    }
    b
}

/// Stages the expiry date and the payment address, each where present.
fn stage_optional_texts(
    builder: JobListingBuilder,
    valid_through: &Option<String>,
    lightning_address: &Option<String>,
) -> (b: JobListingBuilder)
    requires
        builder@.valid_through is None,
        builder@.lightning_address is None,
    ensures
        b@ == (JobListingView {
            valid_through: valid_through.deep_view(),
            lightning_address: lightning_address.deep_view(),
            ..builder@
        }),
{
    let mut b = builder;
    if let Some(date) = valid_through {
        b = b.valid_through(date.clone());
    }
    if let Some(address) = lightning_address {
        b = b.lightning_address(address.clone());
    }
    b
}

/// Stages the capabilities, where the description asks for any.
fn stage_capabilities(builder: JobListingBuilder, caps: &Option<Vec<CapabilityJson>>) -> (b:
    JobListingBuilder)
    requires
        builder@.required_capabilities is None,
    ensures
        b@ == (JobListingView {
            required_capabilities: optional_capabilities(caps.deep_view()),
            ..builder@
        }),
{
    match caps {
        Some(c) => builder.capabilities(parse_capabilities(c)),
        None => builder,
    }
}

/// Converts an enhanced job description to a listing published by
/// `pubkey` and posted on `date_posted`, and validates it. `uuid_text`
/// serves to make an identifier where the description brings none.
pub fn convert_enhanced_with(
    enhanced: &EnhancedJobJson,
    pubkey: &str,
    uuid_text: &str,
    date_posted: String,
) -> (r: Result<JobListing, ValidationError>)
    ensures
        listing_outcome(r) == validated(
            enhanced_listing(enhanced@, pubkey@, uuid_text@, date_posted@),
        ),
{
    let identifier = match &enhanced.identifier {
        Some(i) => i.clone(),
        None => generate_identifier(
            enhanced.company.as_str(),
            enhanced.title.as_str(),
            uuid_text,
        ),
    };
    let worker_types = match &enhanced.eligible_worker_type {
        Some(names) => parse_worker_types(names),
        None => {
            let mut agents: Vec<EligibleWorkerType> = Vec::new();
            agents.push(EligibleWorkerType::AIAgent);
            assert(agents@ =~= seq![EligibleWorkerType::AIAgent]);
            agents
        },
    };
    let apply_url = match &enhanced.apply_url {
        Some(u) => u.clone(),
        None => String::new(),
    };
    let mut employment: Vec<EmploymentType> = Vec::new();
    employment.push(parse_employment_type(enhanced.employment_type.as_str()));
    assert(employment@ =~= seq![employment_type_from_lower(lowercase(enhanced.employment_type@))]);
    let mut location: Vec<JobLocationType> = Vec::new();
    location.push(parse_location_type(enhanced.location.as_str()));
    assert(location@ =~= seq![location_type_from_lower(lowercase(enhanced.location@))]);
    let salary_unit = match &enhanced.salary.unit {
        Some(u) => u.clone(),
        None => "YEAR".to_owned(),
    };

    let builder = JobListing::builder(
        identifier,
        enhanced.title.clone(),
        enhanced.description.clone(),
        enhanced.company.clone(),
        date_posted,
        apply_url,
    ).eligible_worker_type(worker_types).employment_type(employment).location_type(location).skills(
        copy_texts(&enhanced.skills),
    ).nostr_pubkey(pubkey.to_owned()).salary(
        enhanced.salary.min.clone(),
        enhanced.salary.max.clone(),
        enhanced.salary.currency.clone(),
        salary_unit,
    );
    let builder = stage_capabilities(builder, &enhanced.required_capabilities);
    let builder = stage_performance(builder, &enhanced.performance_requirements);
    let builder = stage_interface(
        builder,
        &enhanced.interface_requirements,
        &enhanced.human_oversight,
    );
    let builder = stage_optional_texts(
        builder,
        &enhanced.valid_through,
        &enhanced.lightning_address,
    );
    builder.build()
}

/// Whether `c` is a hexadecimal digit in lower case.
pub open spec fn is_lower_hex(c: char) -> bool {
    ('0' <= c && c <= '9') || ('a' <= c && c <= 'f')
}

/// Whether `c` may stand at position `i` of a UUID in its hyphenated form:
/// a hyphen after the groups of eight, four, four and four digits, and a
/// digit elsewhere.
pub open spec fn fits_uuid_position(i: int, c: char) -> bool {
    if i == 8 || i == 13 || i == 18 || i == 23 {
        c == '-'
    } else {
        is_lower_hex(c)
    }
}

/// Whether `s` has the form of a UUID written in lower case with hyphens:
/// thirty-six characters, as in `67e55044-10b1-426f-9247-bb680e5fe0c8`.
pub open spec fn is_hyphenated_uuid(s: Seq<char>) -> bool {
    s.len() == 36 && forall|i: int| 0 <= i < 36 ==> fits_uuid_position(i, #[trigger] s[i])
}

/// The first group of a hyphenated UUID is its first eight characters, and
/// they are hexadecimal digits.
pub proof fn lemma_uuid_first_group(s: Seq<char>)
    requires
        is_hyphenated_uuid(s),
    ensures
        before_first(s, '-') == s.subrange(0, 8),
        forall|i: int| 0 <= i < 8 ==> is_lower_hex(#[trigger] s[i]),
{
    assert forall|i: int| 0 <= i < 8 implies is_lower_hex(#[trigger] s[i]) && s[i] != '-' by {
        assert(fits_uuid_position(i, s[i]));
    }
    assert(fits_uuid_position(8, s[8]));
    lemma_first_index_of(s, '-', 8);
}

/// Whether `id` ends in a hyphen followed by eight hexadecimal digits.
pub open spec fn ends_in_hex_group(id: Seq<char>) -> bool {
    &&& id.len() >= 9
    &&& id[id.len() - 9] == '-'
    &&& forall|k: int| id.len() - 8 <= k < id.len() ==> is_lower_hex(#[trigger] id[k])
}

/// An identifier generated from a hyphenated UUID ends in a hyphen and the
/// eight hexadecimal digits of the UUID's first group.
pub proof fn lemma_generated_identifier_ends_in_hex(
    company: Seq<char>,
    title: Seq<char>,
    uuid_text: Seq<char>,
)
    requires
        is_hyphenated_uuid(uuid_text),
    ensures
        ({
            let id = generated_identifier(company, title, uuid_text);
            &&& ends_in_hex_group(id)
            &&& id.subrange(id.len() - 8, id.len() as int) == uuid_text.subrange(0, 8)
        }),
{
    lemma_uuid_first_group(uuid_text);
    let id = generated_identifier(company, title, uuid_text);
    let head = dashed(lowercase(company)) + seq!['-'] + prefix(dashed(lowercase(title)), 20)
        + seq!['-'];
    let group = uuid_text.subrange(0, 8);
    assert(id =~= head + group);
    assert(id.subrange(id.len() - 8, id.len() as int) =~= group);
    assert forall|k: int| id.len() - 8 <= k < id.len() implies is_lower_hex(#[trigger] id[k]) by {
        assert(id[k] == uuid_text[k - head.len()]);
    }
}

/// Calls `Uuid::new_v4` and writes the identifier as text. Trusted: the
/// text has the hyphenated lower-case form. Which identifier it is depends
/// on chance. The call does not return where the machine gives no random
/// bytes.
#[verifier::external_body]
fn fresh_uuid_text() -> (text: String)
    ensures
        is_hyphenated_uuid(text@),
{
    Uuid::new_v4().to_string()
}

/// Calls `Utc::now` and formats the day as year, month and day with
/// hyphens between them. Trusted: the text holds a hyphen. Which day it
/// names depends on the clock. The call does not return where the clock
/// stands before 1970.
#[verifier::external_body]
fn today_utc() -> (text: String)
    ensures
        text@.contains('-'),
{
    Utc::now().format("%Y-%m-%d").to_string()
}

/// Converts an enhanced job description to a listing published by
/// `pubkey` and posted today, and validates it. The identifier of a
/// description that brings none is made from a fresh UUID, and so ends in
/// eight hexadecimal digits.
pub fn convert_enhanced_to_job_listing(enhanced: &EnhancedJobJson, pubkey: &str) -> (r: Result<
    JobListing,
    ValidationError,
>)
    ensures
        exists|uuid_text: Seq<char>, date: Seq<char>|
            is_hyphenated_uuid(uuid_text) && date.contains('-') && listing_outcome(r)
                == validated(#[trigger] enhanced_listing(enhanced@, pubkey@, uuid_text, date)),
        r matches Ok(job) ==> match enhanced.identifier {
            Some(given) => job.identifier@ == given@,
            None => ends_in_hex_group(job.identifier@),
        },
{
    let uuid_text = fresh_uuid_text();
    let date_posted = today_utc();
    proof {
        lemma_generated_identifier_ends_in_hex(enhanced.company@, enhanced.title@, uuid_text@);
    }
    convert_enhanced_with(enhanced, pubkey, uuid_text.as_str(), date_posted)
}

/// The employment type that a lower-case word of a plain job description
/// names; an unknown word names `Other`.
pub open spec fn basic_employment_type_from_lower(lower: Seq<char>) -> EmploymentType {
    if lower == "full-time"@ || lower == "fulltime"@ {
        EmploymentType::FullTime
    } else if lower == "part-time"@ || lower == "parttime"@ {
        EmploymentType::PartTime
    } else if lower == "contractor"@ || lower == "contract"@ {
        EmploymentType::Contractor
    } else if lower == "intern"@ || lower == "internship"@ {
        EmploymentType::Intern
    } else if lower == "temporary"@ || lower == "temp"@ {
        EmploymentType::Temporary
    } else if lower == "volunteer"@ {
        EmploymentType::Volunteer
    } else {
        EmploymentType::Other
    }
}

/// The employment type that the lower-case word `lower` of a plain job
/// description names.
pub fn basic_employment_type_from_lowercase(lower: &str) -> (r: EmploymentType)
    ensures
        r == basic_employment_type_from_lower(lower@),
{
    if text_eq(lower, "full-time") || text_eq(lower, "fulltime") {
        EmploymentType::FullTime
    } else if text_eq(lower, "part-time") || text_eq(lower, "parttime") {
        EmploymentType::PartTime
    } else if text_eq(lower, "contractor") || text_eq(lower, "contract") {
        EmploymentType::Contractor
    } else if text_eq(lower, "intern") || text_eq(lower, "internship") {
        EmploymentType::Intern
    } else if text_eq(lower, "temporary") || text_eq(lower, "temp") {
        EmploymentType::Temporary
    } else if text_eq(lower, "volunteer") {
        EmploymentType::Volunteer
    } else {
        EmploymentType::Other
    }
}

/// The identifier of the listing of `s`: its own, or a generated one.
pub open spec fn simple_identifier(s: SimpleJobJsonView, uuid_text: Seq<char>) -> Seq<char> {
    match s.identifier {
        Some(i) => i,
        None => generated_identifier(s.company, s.title, uuid_text),
    }
}

/// The listing that a plain job description stands for, published by
/// `pubkey` and posted on `date`: a job for humans, paid by the year, with
/// an empty URL to apply at.
pub open spec fn simple_listing(
    s: SimpleJobJsonView,
    pubkey: Seq<char>,
    uuid_text: Seq<char>,
    date: Seq<char>,
) -> JobListingView {
    JobListingView {
        employment_type: seq![basic_employment_type_from_lower(lowercase(s.employment_type))],
        job_location_type: Some(seq![location_type_from_lower(lowercase(s.location))]),
        base_salary: Some(salary_range(s.salary.min, s.salary.max, s.salary.currency, "YEAR"@)),
        skills: Some(s.skills),
        nostr_employer_pubkey: Some(pubkey),
        valid_through: s.valid_through,
        lightning_address: s.lightning_address,
        ..new_listing(
            simple_identifier(s, uuid_text),
            s.title,
            s.description,
            s.company,
            date,
            Some(Seq::empty()),
            seq![EligibleWorkerType::Human],
        )
    }
}

/// Converts a plain job description to a listing published by `pubkey`
/// and posted on `date_posted`, and validates it. `uuid_text` serves to
/// make an identifier where the description brings none.
pub fn convert_simple_with(
    simple: &SimpleJobJson,
    pubkey: &str,
    uuid_text: &str,
    date_posted: String,
) -> (r: Result<JobListing, ValidationError>)
    ensures
        listing_outcome(r) == validated(simple_listing(simple@, pubkey@, uuid_text@, date_posted@)),
{
    let identifier = match &simple.identifier {
        Some(i) => i.clone(),
        None => generate_identifier(simple.company.as_str(), simple.title.as_str(), uuid_text),
    };
    let lower = to_lowercase(simple.employment_type.as_str());
    let mut employment: Vec<EmploymentType> = Vec::new();
    employment.push(basic_employment_type_from_lowercase(lower.as_str()));
    assert(employment@ =~= seq![
        basic_employment_type_from_lower(lowercase(simple.employment_type@)),
    ]);
    let mut location: Vec<JobLocationType> = Vec::new();
    location.push(parse_location_type(simple.location.as_str()));
    assert(location@ =~= seq![location_type_from_lower(lowercase(simple.location@))]);

    let builder = JobListing::builder(
        identifier,
        simple.title.clone(),
        simple.description.clone(),
        simple.company.clone(),
        date_posted,
        String::new(),
    ).employment_type(employment).location_type(location).salary(
        simple.salary.min.clone(),
        simple.salary.max.clone(),
        simple.salary.currency.clone(),
        "YEAR".to_owned(),
    ).skills(copy_texts(&simple.skills)).nostr_pubkey(pubkey.to_owned());
    let builder = stage_optional_texts(builder, &simple.valid_through, &simple.lightning_address);
    builder.build()
}

/// Converts a plain job description to a listing published by `pubkey`
/// and posted today, and validates it. The identifier of a description
/// that brings none is made from a fresh UUID, and so ends in eight
/// hexadecimal digits.
pub fn convert_to_job_listing(simple: &SimpleJobJson, pubkey: &str) -> (r: Result<
    JobListing,
    ValidationError,
>)
    ensures
        exists|uuid_text: Seq<char>, date: Seq<char>|
            is_hyphenated_uuid(uuid_text) && date.contains('-') && listing_outcome(r)
                == validated(#[trigger] simple_listing(simple@, pubkey@, uuid_text, date)),
        r matches Ok(job) ==> match simple.identifier {
            Some(given) => job.identifier@ == given@,
            None => ends_in_hex_group(job.identifier@),
        },
{
    let uuid_text = fresh_uuid_text();
    let date_posted = today_utc();
    proof {
        lemma_generated_identifier_ends_in_hex(simple.company@, simple.title@, uuid_text@);
    }
    convert_simple_with(simple, pubkey, uuid_text.as_str(), date_posted)
}

} // verus!
