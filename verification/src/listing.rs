//! The job listing record, its construction and its validation.

use vstd::prelude::*;
use crate::string_map::StringMap;
use crate::text::contains_char;
use crate::types::{
    ApplicantLocationRequirement, ApplicantLocationRequirementView, BaseSalary, BaseSalaryView,
    CapabilityRequirement, CapabilityRequirementView, EligibleWorkerType, EmploymentType,
    ExperienceRequirement, ExperienceRequirementView, HiringOrganization,
    HiringOrganizationView, InterfaceType, JobLocation, JobLocationType, JobLocationView,
    JsonValue, OversightRequirement, PerformanceRequirement, PerformanceRequirementView,
    TranslatedJob, optional_seq,
};

verus! {

/// Why a record is not a valid job listing.
#[derive(Clone, Debug, PartialEq, Eq)]
pub enum ValidationError {
    /// A required field is absent or empty.
    MissingField(&'static str),
    /// A date field does not look like a date.
    InvalidDateFormat(&'static str),
    /// A field does not hold a URL. No rule produces this yet.
    InvalidUrl(&'static str),
    /// Fields contradict each other.
    InvalidConfiguration(&'static str),
}

/// What an error says to a reader.
pub open spec fn validation_message(e: ValidationError) -> Seq<char> {
    match e {
        ValidationError::MissingField(field) => "Missing required field: "@ + field@,
        ValidationError::InvalidDateFormat(field) => "Invalid date format in: "@ + field@,
        ValidationError::InvalidUrl(field) => "Invalid URL in: "@ + field@,
        ValidationError::InvalidConfiguration(reason) => "Invalid configuration: "@ + reason@,
    }
}

impl ValidationError {
    /// The error as a sentence for a reader.
    pub fn to_string(&self) -> (s: String)
        ensures
            s@ == validation_message(*self),
    {
        match self {
            ValidationError::MissingField(field) => {
                let mut s = "Missing required field: ".to_owned();
                s.append(field);
                s
            },
            ValidationError::InvalidDateFormat(field) => {
                let mut s = "Invalid date format in: ".to_owned();
                s.append(field);
                s
            },
            ValidationError::InvalidUrl(field) => {
                let mut s = "Invalid URL in: ".to_owned();
                s.append(field);
                s
            },
            ValidationError::InvalidConfiguration(reason) => {
                let mut s = "Invalid configuration: ".to_owned();
                s.append(reason);
                s
            },
        }
    }
}

/// A job posting.
#[derive(Clone, Debug, PartialEq, Eq)]
pub struct JobListing {
    pub context: String,
    pub schema_type: String,
    pub identifier: String,
    pub title: String,
    pub description: String,
    pub date_posted: String,
    pub valid_through: Option<String>,
    pub eligible_worker_type: Vec<EligibleWorkerType>,
    pub hiring_organization: HiringOrganization,
    pub job_location: Vec<JobLocation>,
    pub employment_type: Vec<EmploymentType>,
    pub apply_url: Option<String>,
    pub base_salary: Option<BaseSalary>,
    pub job_location_type: Option<Vec<JobLocationType>>,
    pub qualifications: Option<String>,
    pub responsibilities: Option<String>,
    pub skills: Option<Vec<String>>,
    pub work_hours: Option<String>,
    pub applicant_location_requirements: Option<Vec<ApplicantLocationRequirement>>,
    pub job_benefits: Option<Vec<String>>,
    pub experience_requirements: Option<ExperienceRequirement>,
    pub required_capabilities: Option<Vec<CapabilityRequirement>>,
    pub response_time_max: Option<PerformanceRequirement>,
    pub accuracy_min: Option<PerformanceRequirement>,
    pub throughput_min: Option<PerformanceRequirement>,
    pub interface_type: Option<InterfaceType>,
    pub protocol: Option<String>,
    pub human_oversight: Option<OversightRequirement>,
    pub nostr_employer_pubkey: Option<String>,
    pub apply_via_nostr: Option<bool>,
    pub lightning_address: Option<String>,
    pub nip05_verified: Option<String>,
    pub extra: StringMap<JsonValue>,
    pub translations: Option<StringMap<TranslatedJob>>,
}

/// The mathematical value of a job posting: texts as sequences of
/// characters, lists as sequences.
pub struct JobListingView {
    pub context: Seq<char>,
    pub schema_type: Seq<char>,
    pub identifier: Seq<char>,
    pub title: Seq<char>,
    pub description: Seq<char>,
    pub date_posted: Seq<char>,
    pub valid_through: Option<Seq<char>>,
    pub eligible_worker_type: Seq<EligibleWorkerType>,
    pub hiring_organization: HiringOrganizationView,
    pub job_location: Seq<JobLocationView>,
    pub employment_type: Seq<EmploymentType>,
    pub apply_url: Option<Seq<char>>,
    pub base_salary: Option<BaseSalaryView>,
    pub job_location_type: Option<Seq<JobLocationType>>,
    pub qualifications: Option<Seq<char>>,
    pub responsibilities: Option<Seq<char>>,
    pub skills: Option<Seq<Seq<char>>>,
    pub work_hours: Option<Seq<char>>,
    pub applicant_location_requirements: Option<Seq<ApplicantLocationRequirementView>>,
    pub job_benefits: Option<Seq<Seq<char>>>,
    pub experience_requirements: Option<ExperienceRequirementView>,
    pub required_capabilities: Option<Seq<CapabilityRequirementView>>,
    pub response_time_max: Option<PerformanceRequirementView>,
    pub accuracy_min: Option<PerformanceRequirementView>,
    pub throughput_min: Option<PerformanceRequirementView>,
    pub interface_type: Option<InterfaceType>,
    pub protocol: Option<Seq<char>>,
    pub human_oversight: Option<OversightRequirement>,
    pub nostr_employer_pubkey: Option<Seq<char>>,
    pub apply_via_nostr: Option<bool>,
    pub lightning_address: Option<Seq<char>>,
    pub nip05_verified: Option<Seq<char>>,
    pub extra: Seq<(Seq<char>, JsonValue)>,
    pub translations: Option<Seq<(Seq<char>, TranslatedJob)>>,
}

impl View for JobListing {
    type V = JobListingView;

    open spec fn view(&self) -> JobListingView {
        JobListingView {
            context: self.context@,
            schema_type: self.schema_type@,
            identifier: self.identifier@,
            title: self.title@,
            description: self.description@,
            date_posted: self.date_posted@,
            valid_through: self.valid_through.deep_view(),
            eligible_worker_type: self.eligible_worker_type@,
            hiring_organization: self.hiring_organization@,
            job_location: self.job_location.deep_view(),
            employment_type: self.employment_type@,
            apply_url: self.apply_url.deep_view(),
            base_salary: self.base_salary.deep_view(),
            job_location_type: optional_seq(self.job_location_type),
            qualifications: self.qualifications.deep_view(),
            responsibilities: self.responsibilities.deep_view(),
            skills: self.skills.deep_view(),
            work_hours: self.work_hours.deep_view(),
            applicant_location_requirements: self.applicant_location_requirements.deep_view(),
            job_benefits: self.job_benefits.deep_view(),
            experience_requirements: self.experience_requirements.deep_view(),
            required_capabilities: self.required_capabilities.deep_view(),
            response_time_max: self.response_time_max.deep_view(),
            accuracy_min: self.accuracy_min.deep_view(),
            throughput_min: self.throughput_min.deep_view(),
            interface_type: self.interface_type,
            protocol: self.protocol.deep_view(),
            human_oversight: self.human_oversight,
            nostr_employer_pubkey: self.nostr_employer_pubkey.deep_view(),
            apply_via_nostr: self.apply_via_nostr,
            lightning_address: self.lightning_address.deep_view(),
            nip05_verified: self.nip05_verified.deep_view(),
            extra: self.extra@,
            translations: match self.translations {
                Some(t) => Some(t@),
                None => None,
            },
        }
    }
}

/// The listing that holds the given required fields and nothing else.
pub open spec fn new_listing(
    identifier: Seq<char>,
    title: Seq<char>,
    description: Seq<char>,
    company_name: Seq<char>,
    date_posted: Seq<char>,
    apply_url: Option<Seq<char>>,
    eligible_worker_type: Seq<EligibleWorkerType>,
) -> JobListingView {
    JobListingView {
        context: "https://schema.org"@,
        schema_type: "JobPosting"@,
        identifier,
        title,
        description,
        date_posted,
        valid_through: None,
        eligible_worker_type,
        hiring_organization: HiringOrganizationView {
            schema_type: "Organization"@,
            name: company_name,
            url: None,
            logo: None,
            same_as: None,
        },
        job_location: Seq::empty(),
        employment_type: Seq::empty(),
        apply_url,
        base_salary: None,
        job_location_type: None,
        qualifications: None,
        responsibilities: None,
        skills: None,
        work_hours: None,
        applicant_location_requirements: None,
        job_benefits: None,
        experience_requirements: None,
        required_capabilities: None,
        response_time_max: None,
        accuracy_min: None,
        throughput_min: None,
        interface_type: None,
        protocol: None,
        human_oversight: None,
        nostr_employer_pubkey: None,
        apply_via_nostr: None,
        lightning_address: None,
        nip05_verified: None,
        extra: Seq::empty(),
        translations: None,
    }
}

impl JobListing {
    /// A listing with the given required fields; every other field is absent
    /// or empty. Nothing is validated here.
    pub fn new(
        identifier: String,
        title: String,
        description: String,
        company_name: String,
        date_posted: String,
        apply_url: Option<String>,
        eligible_worker_type: Vec<EligibleWorkerType>,
    ) -> (job: Self)
        ensures
            job@ == new_listing(
                identifier@,
                title@,
                description@,
                company_name@,
                date_posted@,
                apply_url.deep_view(),
                eligible_worker_type@,
            ),
            job.identifier == identifier,
            job.title == title,
            job.description == description,
            job.hiring_organization.name == company_name,
            job.date_posted == date_posted,
            job.apply_url == apply_url,
            job.eligible_worker_type == eligible_worker_type,
    {
        let job = JobListing {
            context: "https://schema.org".to_string(),
            schema_type: "JobPosting".to_string(),
            identifier,
            title,
            description,
            date_posted,
            valid_through: None,
            eligible_worker_type,
            hiring_organization: HiringOrganization {
                schema_type: "Organization".to_string(),
                name: company_name,
                url: None,
                logo: None,
                same_as: None,
            },
            job_location: Vec::new(),
            employment_type: Vec::new(),
            apply_url,
            base_salary: None,
            job_location_type: None,
            qualifications: None,
            responsibilities: None,
            skills: None,
            work_hours: None,
            applicant_location_requirements: None,
            job_benefits: None,
            experience_requirements: None,
            required_capabilities: None,
            response_time_max: None,
            accuracy_min: None,
            throughput_min: None,
            interface_type: None,
            protocol: None,
            human_oversight: None,
            nostr_employer_pubkey: None,
            apply_via_nostr: None,
            lightning_address: None,
            nip05_verified: None,
            extra: StringMap::new(),
            translations: None,
        };
        assert(job.job_location.deep_view() =~= Seq::empty());
        assert(job.extra@ =~= Seq::empty());
        job
    }
}

/// Whether a field is set that only makes sense for an AI agent.
pub open spec fn has_ai_fields(j: JobListingView) -> bool {
    ||| j.response_time_max is Some
    ||| j.accuracy_min is Some
    ||| j.throughput_min is Some
    ||| j.interface_type is Some
    ||| j.protocol is Some
}

/// Identifier, title, description and organization name are not empty.
pub open spec fn required_texts_present(j: JobListingView) -> bool {
    &&& j.identifier.len() > 0
    &&& j.title.len() > 0
    &&& j.description.len() > 0
    &&& j.hiring_organization.name.len() > 0
}

/// There is a URL to apply at.
pub open spec fn apply_url_present(j: JobListingView) -> bool {
    j.apply_url is Some
}

/// At least one kind of worker is eligible.
pub open spec fn worker_type_present(j: JobListingView) -> bool {
    j.eligible_worker_type.len() > 0
}

/// The posting date holds a date separator.
pub open spec fn date_has_separator(j: JobListingView) -> bool {
    j.date_posted.contains('-')
}

/// Fields for AI agents are set only where AI agents are eligible.
pub open spec fn ai_fields_gated(j: JobListingView) -> bool {
    has_ai_fields(j) ==> j.eligible_worker_type.contains(EligibleWorkerType::AIAgent)
}

/// All invariants of a job listing hold.
pub open spec fn is_valid(j: JobListingView) -> bool {
    &&& required_texts_present(j)
    &&& apply_url_present(j)
    &&& worker_type_present(j)
    &&& date_has_separator(j)
    &&& ai_fields_gated(j)
}

/// The outcome of validation: success, or the first rule that is broken, the
/// rules taken in their fixed order.
pub open spec fn validation(j: JobListingView) -> Result<(), ValidationError> {
    if j.identifier.len() == 0 {
        Err(ValidationError::MissingField("identifier"))
    } else if j.title.len() == 0 {
        Err(ValidationError::MissingField("title"))
    } else if j.description.len() == 0 {
        Err(ValidationError::MissingField("description"))
    } else if j.hiring_organization.name.len() == 0 {
        Err(ValidationError::MissingField("hiring_organization.name"))
    } else if j.apply_url is None {
        Err(ValidationError::MissingField("apply_url"))
    } else if j.eligible_worker_type.len() == 0 {
        Err(ValidationError::MissingField("eligible_worker_type"))
    } else if !j.date_posted.contains('-') {
        Err(ValidationError::InvalidDateFormat("date_posted"))
    } else if !j.eligible_worker_type.contains(EligibleWorkerType::AIAgent) && has_ai_fields(j) {
        Err(ValidationError::InvalidConfiguration("AI agent fields require EligibleWorkerType::AIAgent"))
    } else {
        Ok(())
    }
}

/// Whether `kind` occurs in `types`.
pub fn includes_worker_type(types: &Vec<EligibleWorkerType>, kind: EligibleWorkerType) -> (r: bool)
    ensures
        r == types@.contains(kind),
{
    let mut i: usize = 0;
    while i < types.len()
        invariant
            i <= types.len(),
            forall|j: int| 0 <= j < i ==> types@[j] != kind,
        decreases types.len() - i,
    {
        if types[i] == kind {
            return true;
        }
        i += 1;
    }
    false
}

impl JobListing {
    /// Checks the invariants of a job listing in their fixed order and
    /// reports the first that is broken.
    pub fn validate(&self) -> (r: Result<(), ValidationError>)
        ensures
            r == validation(self@),
            r is Ok <==> is_valid(self@),
    {
        if self.identifier.as_str().is_empty() {
            return Err(ValidationError::MissingField("identifier"));
        }
        if self.title.as_str().is_empty() {
            return Err(ValidationError::MissingField("title"));
        }
        if self.description.as_str().is_empty() {
            return Err(ValidationError::MissingField("description"));
        }
        if self.hiring_organization.name.as_str().is_empty() {
            return Err(ValidationError::MissingField("hiring_organization.name"));
        }
        if self.apply_url.is_none() {
            return Err(ValidationError::MissingField("apply_url"));
        }
        if self.eligible_worker_type.len() == 0 {
            return Err(ValidationError::MissingField("eligible_worker_type"));
        }
        if !contains_char(self.date_posted.as_str(), '-') {
            return Err(ValidationError::InvalidDateFormat("date_posted"));
        }
        if !includes_worker_type(&self.eligible_worker_type, EligibleWorkerType::AIAgent) {
            if self.response_time_max.is_some() || self.accuracy_min.is_some()
                || self.throughput_min.is_some() || self.interface_type.is_some()
                || self.protocol.is_some() {
                return Err(
                    ValidationError::InvalidConfiguration(
                        "AI agent fields require EligibleWorkerType::AIAgent",
                    ),
                );
            }
        }
        Ok(())
    }
}

/// Validation succeeds on exactly the records on which every invariant
/// holds.
pub proof fn lemma_validation_ok_iff_valid(j: JobListingView)
    ensures
        validation(j) is Ok <==> is_valid(j),
{
}

/// A record that breaks exactly one invariant fails validation with the
/// error of that invariant: a missing field for an empty required text, a
/// missing URL or an empty set of worker types, a bad date format for a date
/// without separator, and a bad configuration for AI fields without AI
/// eligibility.
pub proof fn lemma_validation_complete(j: JobListingView)
    ensures
        !required_texts_present(j) && apply_url_present(j) && worker_type_present(j)
            && date_has_separator(j) && ai_fields_gated(j) ==> validation(j) matches Err(
            ValidationError::MissingField(_),
        ),
        required_texts_present(j) && !apply_url_present(j) && worker_type_present(j)
            && date_has_separator(j) && ai_fields_gated(j) ==> validation(j) == Err::<
            (),
            ValidationError,
        >(ValidationError::MissingField("apply_url")),
        required_texts_present(j) && apply_url_present(j) && !worker_type_present(j)
            && date_has_separator(j) && ai_fields_gated(j) ==> validation(j) == Err::<
            (),
            ValidationError,
        >(ValidationError::MissingField("eligible_worker_type")),
        required_texts_present(j) && apply_url_present(j) && worker_type_present(j)
            && !date_has_separator(j) && ai_fields_gated(j) ==> validation(j) == Err::<
            (),
            ValidationError,
        >(ValidationError::InvalidDateFormat("date_posted")),
        required_texts_present(j) && apply_url_present(j) && worker_type_present(j)
            && date_has_separator(j) && !ai_fields_gated(j) ==> validation(j) matches Err(
            ValidationError::InvalidConfiguration(_),
        ),
{
}

/// With the other invariants in place, a record with a field for AI agents
/// is rejected as a bad configuration where no AI agent is eligible, and
/// accepted where one is.
pub proof fn lemma_ai_field_gating(j: JobListingView)
    requires
        required_texts_present(j),
        apply_url_present(j),
        worker_type_present(j),
        date_has_separator(j),
        has_ai_fields(j),
    ensures
        !j.eligible_worker_type.contains(EligibleWorkerType::AIAgent) ==> validation(j)
            matches Err(ValidationError::InvalidConfiguration(_)),
        j.eligible_worker_type.contains(EligibleWorkerType::AIAgent) ==> validation(j) is Ok,
{
}

} // verus!
