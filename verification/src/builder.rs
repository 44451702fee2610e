//! Staged construction of a job listing, validated once at the end.

use vstd::prelude::*;
use crate::listing::{JobListing, JobListingView, ValidationError, new_listing, validation};
use crate::string_map::StringMap;
use crate::types::{
    BaseSalary, BaseSalaryView, CapabilityRequirement, Decimal, EligibleWorkerType,
    EmploymentType, InterfaceType, JobLocationType, MonetaryValue, MonetaryValueView,
    OversightRequirement, PerformanceRequirement, PerformanceRequirementView, QuantitativeValue,
    QuantitativeValueView, TranslatedJob,
};

verus! {

/// A job listing under construction. Staging a field checks nothing;
/// `build` validates the whole.
pub struct JobListingBuilder {
    job: JobListing,
}

/// A salary range in `currency`, from `min` to `max` per `period`.
pub open spec fn salary_range(
    min: Seq<char>,
    max: Seq<char>,
    currency: Seq<char>,
    period: Seq<char>,
) -> BaseSalaryView {
    BaseSalaryView {
        schema_type: "MonetaryAmount"@,
        currency,
        value: MonetaryValueView::Range(
            QuantitativeValueView {
                schema_type: "QuantitativeValue"@,
                min_value: Some(min),
                max_value: Some(max),
                unit_text: period,
            },
        ),
    }
}

impl View for JobListingBuilder {
    type V = JobListingView;

    /// The listing as staged so far.
    closed spec fn view(&self) -> JobListingView {
        self.job@
    }
}

impl JobListing {
    /// Starts a listing from its required fields, open to humans.
    pub fn builder(
        identifier: String,
        title: String,
        description: String,
        company: String,
        date: String,
        apply_url: String,
    ) -> (b: JobListingBuilder)
        ensures
            b@ == new_listing(
                identifier@,
                title@,
                description@,
                company@,
                date@,
                Some(apply_url@),
                seq![EligibleWorkerType::Human],
            ),
    {
        JobListingBuilder::new(identifier, title, description, company, date, apply_url)
    }
}

impl JobListingBuilder {
    /// Starts a listing from its required fields, open to humans.
    pub fn new(
        identifier: String,
        title: String,
        description: String,
        company: String,
        date: String,
        apply_url: String,
    ) -> (b: Self)
        ensures
            b@ == new_listing(
                identifier@,
                title@,
                description@,
                company@,
                date@,
                Some(apply_url@),
                seq![EligibleWorkerType::Human],
            ),
    {
        let mut types: Vec<EligibleWorkerType> = Vec::new();
        types.push(EligibleWorkerType::Human);
        assert(types@ =~= seq![EligibleWorkerType::Human]);
        JobListingBuilder {
            job: JobListing::new(
                identifier,
                title,
                description,
                company,
                date,
                Some(apply_url),
                types,
            ),
        }
    }

    /// Sets the date on which the listing expires.
    pub fn valid_through(self, date: String) -> (b: Self)
        ensures
            b@ == (JobListingView { valid_through: Some(date@), ..self@ }),
    {
        let mut b = self;
        b.job.valid_through = Some(date);
        b
    }

    /// Sets who may take the job.
    pub fn eligible_worker_type(self, types: Vec<EligibleWorkerType>) -> (b: Self)
        ensures
            b@ == (JobListingView { eligible_worker_type: types@, ..self@ }),
    {
        let mut b = self;
        b.job.eligible_worker_type = types;
        b
    }

    /// Opens the job to humans only.
    pub fn for_humans(self) -> (b: Self)
        ensures
            b@ == (JobListingView {
                eligible_worker_type: seq![EligibleWorkerType::Human],
                ..self@
            }),
    {
        let mut types: Vec<EligibleWorkerType> = Vec::new();
        types.push(EligibleWorkerType::Human);
        assert(types@ =~= seq![EligibleWorkerType::Human]);
        let mut b = self;
        b.job.eligible_worker_type = types;
        b
    }

    /// Opens the job to AI agents only.
    pub fn for_ai_agents(self) -> (b: Self)
        ensures
            b@ == (JobListingView {
                eligible_worker_type: seq![EligibleWorkerType::AIAgent],
                ..self@
            }),
    {
        let mut types: Vec<EligibleWorkerType> = Vec::new();
        types.push(EligibleWorkerType::AIAgent);
        assert(types@ =~= seq![EligibleWorkerType::AIAgent]);
        let mut b = self;
        b.job.eligible_worker_type = types;
        b
    }

    /// Opens the job to humans and AI agents.
    pub fn for_hybrid(self) -> (b: Self)
        ensures
            b@ == (JobListingView {
                eligible_worker_type: seq![EligibleWorkerType::Human, EligibleWorkerType::AIAgent],
                ..self@
            }),
    {
        let mut types: Vec<EligibleWorkerType> = Vec::new();
        types.push(EligibleWorkerType::Human);
        types.push(EligibleWorkerType::AIAgent);
        assert(types@ =~= seq![EligibleWorkerType::Human, EligibleWorkerType::AIAgent]);
        let mut b = self;
        b.job.eligible_worker_type = types;
        b
    }

    /// Sets the terms of employment.
    pub fn employment_type(self, types: Vec<EmploymentType>) -> (b: Self)
        ensures
            b@ == (JobListingView { employment_type: types@, ..self@ }),
    {
        let mut b = self;
        b.job.employment_type = types;
        b
    }

    /// Sets where the work is done.
    pub fn location_type(self, types: Vec<JobLocationType>) -> (b: Self)
        ensures
            b@ == (JobListingView { job_location_type: Some(types@), ..self@ }),
    {
        let mut b = self;
        b.job.job_location_type = Some(types);
        b
    }

    /// Sets the salary to a range from `min` to `max` in `currency` per
    /// `period`.
    pub fn salary(self, min: Decimal, max: Decimal, currency: String, period: String) -> (b: Self)
        ensures
            b@ == (JobListingView {
                base_salary: Some(salary_range(min@, max@, currency@, period@)),
                ..self@
            }),
    {
        let mut b = self;
        b.job.base_salary = Some(
            BaseSalary {
                schema_type: "MonetaryAmount".to_string(),
                currency,
                value: MonetaryValue::Range(
                    QuantitativeValue {
                        schema_type: "QuantitativeValue".to_string(),
                        min_value: Some(min),
                        max_value: Some(max),
                        unit_text: period,
                    },
                ),
            },
        );
        b
    }

    /// Sets the skills asked for.
    pub fn skills(self, skills: Vec<String>) -> (b: Self)
        ensures
            b@ == (JobListingView { skills: Some(skills.deep_view()), ..self@ }),
    {
        let mut b = self;
        b.job.skills = Some(skills);
        b
    }

    /// Sets the capabilities asked for.
    pub fn capabilities(self, capabilities: Vec<CapabilityRequirement>) -> (b: Self)
        ensures
            b@ == (JobListingView {
                required_capabilities: Some(capabilities.deep_view()),
                ..self@
            }),
    {
        let mut b = self;
        b.job.required_capabilities = Some(capabilities);
        b
    }

    /// Makes the job a remote one.
    pub fn remote(self) -> (b: Self)
        ensures
            b@ == (JobListingView {
                job_location_type: Some(seq![JobLocationType::Telecommute]),
                ..self@
            }),
    {
        let mut types: Vec<JobLocationType> = Vec::new();
        types.push(JobLocationType::Telecommute);
        assert(types@ =~= seq![JobLocationType::Telecommute]);
        let mut b = self;
        b.job.job_location_type = Some(types);
        b
    }

    /// Sets the longest response time allowed.
    pub fn response_time(self, value: Decimal, unit: String) -> (b: Self)
        ensures
            b@ == (JobListingView {
                response_time_max: Some(PerformanceRequirementView { value: value@, unit: unit@ }),
                ..self@
            }),
    {
        let mut b = self;
        b.job.response_time_max = Some(PerformanceRequirement { value, unit });
        b
    }

    /// Sets the least accuracy allowed, in percent.
    pub fn accuracy(self, value: Decimal) -> (b: Self)
        ensures
            b@ == (JobListingView {
                accuracy_min: Some(
                    PerformanceRequirementView { value: value@, unit: "PERCENT"@ },
                ),
                ..self@
            }),
    {
        let mut b = self;
        b.job.accuracy_min = Some(PerformanceRequirement { value, unit: "PERCENT".to_string() });
        b
    }

    /// Sets the least throughput allowed.
    pub fn throughput(self, value: Decimal, unit: String) -> (b: Self)
        ensures
            b@ == (JobListingView {
                throughput_min: Some(PerformanceRequirementView { value: value@, unit: unit@ }),
                ..self@
            }),
    {
        let mut b = self;
        b.job.throughput_min = Some(PerformanceRequirement { value, unit });
        b
    }

    /// Sets the channel through which an agent works.
    pub fn interface_type(self, interface: InterfaceType) -> (b: Self)
        ensures
            b@ == (JobListingView { interface_type: Some(interface), ..self@ }),
    {
        let mut b = self;
        b.job.interface_type = Some(interface);
        b
    }

    /// Sets the protocol that an agent speaks.
    pub fn protocol(self, protocol: String) -> (b: Self)
        ensures
            b@ == (JobListingView { protocol: Some(protocol@), ..self@ }),
    {
        let mut b = self;
        b.job.protocol = Some(protocol);
        b
    }

    /// Sets whether a human supervises an agent's work.
    pub fn human_oversight(self, oversight: OversightRequirement) -> (b: Self)
        ensures
            b@ == (JobListingView { human_oversight: Some(oversight), ..self@ }),
    {
        let mut b = self;
        b.job.human_oversight = Some(oversight);
        b
    }

    /// Sets the employer's public key.
    pub fn nostr_pubkey(self, pubkey: String) -> (b: Self)
        ensures
            b@ == (JobListingView { nostr_employer_pubkey: Some(pubkey@), ..self@ }),
    {
        let mut b = self;
        b.job.nostr_employer_pubkey = Some(pubkey);
        b
    }

    /// Sets the address for Lightning payments.
    pub fn lightning_address(self, address: String) -> (b: Self)
        ensures
            b@ == (JobListingView { lightning_address: Some(address@), ..self@ }),
    {
        let mut b = self;
        b.job.lightning_address = Some(address);
        b
    }

    /// Sets the translations, keyed by language code.
    pub fn translations(self, translations: StringMap<TranslatedJob>) -> (b: Self)
        ensures
            b@ == (JobListingView { translations: Some(translations@), ..self@ }),
    {
        let mut b = self;
        b.job.translations = Some(translations);
        b
    }

    /// Validates the staged listing and hands it out, or reports the first
    /// broken invariant. Nothing is handed out that is not valid.
    pub fn build(self) -> (r: Result<JobListing, ValidationError>)
        ensures
            match r {
                Ok(job) => job@ == self@ && validation(self@) is Ok,
                Err(e) => validation(self@) == Err::<(), ValidationError>(e),
            },
    {
        match self.job.validate() {
            Ok(()) => Ok(self.job),
            Err(e) => Err(e),
        }
    }
}

} // verus!
