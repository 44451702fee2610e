//! Job listings as records, and their encoding as tagged events.
//!
//! A listing is built in stages and validated once. It is published as an
//! event whose tags index it for queries, and read back from an event's
//! content or, where that does not parse, from the tags alone.

pub mod builder;
pub mod events;
pub mod filter;
pub mod json_parser;
pub mod laws;
pub mod listing;
pub mod string_map;
pub mod text;
pub mod types;

pub use builder::JobListingBuilder;
pub use events::{DecodeError, Event, UnsignedEvent, KIND_JOB_APPLICATION, KIND_JOB_LISTING};
pub use filter::{Filter, JobsFilter, TagPredicate};
pub use listing::{JobListing, ValidationError};
pub use string_map::StringMap;
pub use types::{
    ApplicantLocationRequirement, BaseSalary, CapabilityLevel, CapabilityRequirement, Decimal,
    EligibleWorkerType, EmploymentType, ExperienceRequirement, HiringOrganization, InterfaceType,
    JobLocation, JobLocationType, JsonMember, JsonValue, MonetaryAmountDistribution,
    MonetaryValue, OversightRequirement, PerformanceRequirement, PostalAddress,
    QuantitativeValue, TranslatedJob,
};
