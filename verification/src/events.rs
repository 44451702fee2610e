//! Job listings as events: the tags that index a listing, the event that
//! carries it, and the way back from an event to a listing.

use vstd::prelude::*;
use nostr_sdk::prelude::{Tag, TagKind, Timestamp};
use crate::listing::{
    JobListing, JobListingView, ValidationError, has_ai_fields, new_listing, validation,
};
use crate::text::{
    dashed, hyphenated, join_hyphenated, lowercase, spaces_to_dashes, text_eq, to_lowercase,
    to_uppercase, uppercase,
};
use crate::types::{
    BaseSalary, BaseSalaryView, EligibleWorkerType, EmploymentType, HiringOrganizationView,
    JobLocation, JobLocationType, JobLocationView, MonetaryValue, MonetaryValueView,
};

verus! {

/// Event kind under which job listings are published.
pub const KIND_JOB_LISTING: u16 = 39993;

/// Event kind set aside for applications to a listing.
pub const KIND_JOB_APPLICATION: u16 = 39994;

/// Name of the tag that holds the event's replaceable identifier.
pub const TAG_IDENTIFIER: &'static str = "d";

/// Name of the tag that marks the event's category.
pub const TAG_CATEGORY: &'static str = "t";

/// The category under which job listings are found.
pub const CATEGORY_JOBS: &'static str = "Jobs";

/// Name of the tag that holds the organization's name.
pub const TAG_COMPANY: &'static str = "company";

/// Name of the tag that holds the listing's own identifier.
pub const TAG_JOB_ID: &'static str = "job-id";

/// Name of the tag that holds the title.
pub const TAG_TITLE: &'static str = "title";

/// Name of the tag that holds the first location type of a listing.
pub const TAG_LOCATION: &'static str = "location";

/// Name of the tags from which location types are read.
pub const TAG_LOCATION_TYPE: &'static str = "location-type";

/// Name of the tags that hold the employment types, one each.
pub const TAG_EMPLOYMENT_TYPE: &'static str = "employment-type";

/// Name of the tags that hold the skills, one each.
pub const TAG_SKILL: &'static str = "skill";

/// Name of the tag that holds the salary range.
pub const TAG_SALARY: &'static str = "salary";

/// Name of the tags that hold the countries of the places of work.
pub const TAG_COUNTRY: &'static str = "country";

/// Name of the tags that hold the regions of the places of work.
pub const TAG_REGION: &'static str = "region";

/// Name of the tag that holds the expiry date.
pub const TAG_EXPIRES: &'static str = "expires";

/// Name of the tag that holds the employer's public key.
pub const TAG_EMPLOYER_PUBKEY: &'static str = "employer-pubkey";

/// Name of the tag that holds the address for Lightning payments.
pub const TAG_LIGHTNING: &'static str = "lightning";

/// Name of the tag that holds the organization's URL.
pub const TAG_COMPANY_URL: &'static str = "company-url";

/// Name of the tag from which the posting date is read.
pub const TAG_DATE_POSTED: &'static str = "date-posted";

/// The location written where a listing names no location type.
pub const LOCATION_FALLBACK: &'static str = "Remote";

/// Tags as contracts see them: each tag a sequence of texts, the name first.
pub type Tags = Seq<Seq<Seq<char>>>;

/// An event as it comes from a relay.
#[derive(Clone, Debug, PartialEq, Eq)]
pub struct Event {
    pub id: String,
    pub pubkey: String,
    pub created_at: u64,
    pub kind: u16,
    pub tags: Vec<Vec<String>>,
    pub content: String,
}

/// The value of an event: texts as sequences of characters.
pub struct EventView {
    pub id: Seq<char>,
    pub pubkey: Seq<char>,
    pub created_at: u64,
    pub kind: u16,
    pub tags: Tags,
    pub content: Seq<char>,
}

impl View for Event {
    type V = EventView;

    open spec fn view(&self) -> EventView {
        EventView {
            id: self.id@,
            pubkey: self.pubkey@,
            created_at: self.created_at,
            kind: self.kind,
            tags: self.tags.deep_view(),
            content: self.content@,
        }
    }
}

/// What is handed to a signer: kind, content and tags.
#[derive(Clone, Debug, PartialEq, Eq)]
pub struct UnsignedEvent {
    pub kind: u16,
    pub tags: Vec<Vec<String>>,
    pub content: String,
}

/// The value of an event that is not signed yet.
pub struct UnsignedEventView {
    pub kind: u16,
    pub tags: Tags,
    pub content: Seq<char>,
}

impl View for UnsignedEvent {
    type V = UnsignedEventView;

    open spec fn view(&self) -> UnsignedEventView {
        UnsignedEventView {
            kind: self.kind,
            tags: self.tags.deep_view(),
            content: self.content@,
        }
    }
}

/// Calls `Tag::custom` with a custom tag kind and takes the tag's strings.
/// Trusted: the tag holds the name, then the values in their order.
#[verifier::external_body]
fn custom_tag(name: &str, values: Vec<String>) -> (tag: Vec<String>)
    ensures
        tag.deep_view() == seq![name@] + values.deep_view(),
{
    Tag::custom(TagKind::Custom(name.into()), values).to_vec()
}

/// Calls `Tag::identifier` and takes the tag's strings. Trusted: the tag
/// holds the name `d`, then the identifier.
#[verifier::external_body]
fn identifier_tag(identifier: String) -> (tag: Vec<String>)
    ensures
        tag.deep_view() == seq![TAG_IDENTIFIER@, identifier@],
{
    Tag::identifier(identifier).to_vec()
}

/// The name under which an employment type is written in a tag.
pub open spec fn employment_type_name(e: EmploymentType) -> Seq<char> {
    match e {
        EmploymentType::FullTime => "FullTime"@,
        EmploymentType::PartTime => "PartTime"@,
        EmploymentType::Contractor => "Contractor"@,
        EmploymentType::Temporary => "Temporary"@,
        EmploymentType::Intern => "Intern"@,
        EmploymentType::Volunteer => "Volunteer"@,
        EmploymentType::PerDiem => "PerDiem"@,
        EmploymentType::TaskBased => "TaskBased"@,
        EmploymentType::MicroTask => "MicroTask"@,
        EmploymentType::Other => "Other"@,
    }
}

/// The name under which a location type is written in a tag.
pub open spec fn location_type_name(t: JobLocationType) -> Seq<char> {
    match t {
        JobLocationType::Telecommute => "Telecommute"@,
        JobLocationType::OnSite => "OnSite"@,
        JobLocationType::Hybrid => "Hybrid"@,
    }
}

impl EmploymentType {
    /// The name under which this employment type is written in a tag.
    pub fn tag_name(&self) -> (name: &'static str)
        ensures
            name@ == employment_type_name(*self),
    {
        match self {
            EmploymentType::FullTime => "FullTime",
            EmploymentType::PartTime => "PartTime",
            EmploymentType::Contractor => "Contractor",
            EmploymentType::Temporary => "Temporary",
            EmploymentType::Intern => "Intern",
            EmploymentType::Volunteer => "Volunteer",
            EmploymentType::PerDiem => "PerDiem",
            EmploymentType::TaskBased => "TaskBased",
            EmploymentType::MicroTask => "MicroTask",
            EmploymentType::Other => "Other",
        }
    }
}

impl JobLocationType {
    /// The name under which this location type is written in a tag.
    pub fn tag_name(&self) -> (name: &'static str)
        ensures
            name@ == location_type_name(*self),
    {
        match self {
            JobLocationType::Telecommute => "Telecommute",
            JobLocationType::OnSite => "OnSite",
            JobLocationType::Hybrid => "Hybrid",
        }
    }
}

/// The tag made of a name and one value.
pub open spec fn pair_tag(name: Seq<char>, value: Seq<char>) -> Seq<Seq<char>> {
    seq![name, value]
}

/// One tag where the value is present, none where it is absent.
pub open spec fn optional_tag(name: Seq<char>, value: Option<Seq<char>>) -> Tags {
    match value {
        Some(v) => seq![pair_tag(name, v)],
        None => Seq::empty(),
    }
}

/// The identifier of the event of a listing: the organization's name in
/// lower case with hyphens for spaces, the listing's own identifier, and the
/// first eight characters of the publisher's key, joined by hyphens.
pub open spec fn event_identifier(j: JobListingView, pubkey_hex: Seq<char>) -> Seq<char>
    recommends
        pubkey_hex.len() >= 8,
{
    hyphenated(
        dashed(lowercase(j.hiring_organization.name)),
        j.identifier,
        pubkey_hex.subrange(0, 8),
    )
}

/// The value of the location tag: the first location type, if there is one.
pub open spec fn location_value(j: JobListingView) -> Seq<char> {
    match j.job_location_type {
        Some(types) => if types.len() > 0 {
            location_type_name(types[0])
        } else {
            LOCATION_FALLBACK@
        },
        None => LOCATION_FALLBACK@,
    }
}

/// The tags that every listing has, in their order.
pub open spec fn fixed_tags(j: JobListingView, pubkey_hex: Seq<char>) -> Tags {
    seq![
        pair_tag(TAG_IDENTIFIER@, event_identifier(j, pubkey_hex)),
        pair_tag(TAG_CATEGORY@, CATEGORY_JOBS@),
        pair_tag(TAG_COMPANY@, j.hiring_organization.name),
        pair_tag(TAG_JOB_ID@, j.identifier),
        pair_tag(TAG_TITLE@, j.title),
        pair_tag(TAG_LOCATION@, location_value(j)),
    ]
}

/// One tag per employment type, in the list's order.
pub open spec fn employment_tags(types: Seq<EmploymentType>) -> Tags {
    Seq::new(types.len(), |i: int| pair_tag(TAG_EMPLOYMENT_TYPE@, employment_type_name(types[i])))
}

/// One tag per skill, in the list's order.
pub open spec fn skill_tags(skills: Option<Seq<Seq<char>>>) -> Tags {
    match skills {
        Some(s) => Seq::new(s.len(), |i: int| pair_tag(TAG_SKILL@, s[i])),
        None => Seq::empty(),
    }
}

/// The salary tag: present for a range with both bounds, and then made of
/// the lower bound, the upper bound, the currency and the unit.
pub open spec fn salary_tags(salary: Option<BaseSalaryView>) -> Tags {
    match salary {
        Some(s) => match s.value {
            MonetaryValueView::Range(range) => match (range.min_value, range.max_value) {
                (Some(min), Some(max)) => seq![
                    seq![TAG_SALARY@, min, max, s.currency, range.unit_text],
                ],
                _ => Seq::empty(),
            },
            MonetaryValueView::Single(_) => Seq::empty(),
        },
        None => Seq::empty(),
    }
}

/// The tags of one place: its country, then its region, each where the
/// place has an address that names it.
pub open spec fn place_tags(place: JobLocationView) -> Tags {
    match place.address {
        Some(address) => optional_tag(TAG_COUNTRY@, address.address_country) + optional_tag(
            TAG_REGION@,
            address.address_region,
        ),
        None => Seq::empty(),
    }
}

/// The tags of all places, in the list's order.
pub open spec fn places_tags(places: Seq<JobLocationView>) -> Tags
    decreases places.len(),
{
    if places.len() == 0 {
        Seq::empty()
    } else {
        places_tags(places.drop_last()) + place_tags(places.last())
    }
}

/// The tags that index a listing, in the order in which they are written.
pub open spec fn job_tags(j: JobListingView, pubkey_hex: Seq<char>) -> Tags
    recommends
        pubkey_hex.len() >= 8,
{
    fixed_tags(j, pubkey_hex) + employment_tags(j.employment_type) + skill_tags(j.skills)
        + salary_tags(j.base_salary) + places_tags(j.job_location) + optional_tag(
        TAG_EXPIRES@,
        j.valid_through,
    ) + optional_tag(TAG_EMPLOYER_PUBKEY@, j.nostr_employer_pubkey) + optional_tag(
        TAG_LIGHTNING@,
        j.lightning_address,
    ) + optional_tag(TAG_COMPANY_URL@, j.hiring_organization.url)
}

/// The tag made of `name` and `value`.
fn pair(name: &str, value: String) -> (tag: Vec<String>)
    ensures
        tag.deep_view() == pair_tag(name@, value@),
{
    let mut values: Vec<String> = Vec::new();
    values.push(value);
    assert(values.deep_view() =~= seq![value@]);
    let tag = custom_tag(name, values);
    assert(tag.deep_view() =~= pair_tag(name@, value@));
    tag
}

/// Appends `tag` to `tags`.
fn push_tag(tags: &mut Vec<Vec<String>>, tag: Vec<String>)
    ensures
        final(tags).deep_view() == old(tags).deep_view().push(tag.deep_view()),
{
    tags.push(tag);
    assert(tags.deep_view() =~= old(tags).deep_view().push(tag.deep_view()));
}

/// Appends the tag of `name` and `value` where the value is present.
fn push_optional(tags: &mut Vec<Vec<String>>, name: &str, value: &Option<String>)
    ensures
        final(tags).deep_view() == old(tags).deep_view() + optional_tag(name@, value.deep_view()),
{
    match value {
        Some(v) => {
            push_tag(tags, pair(name, v.clone()));
            assert(tags.deep_view() =~= old(tags).deep_view() + optional_tag(
                name@,
                value.deep_view(),
            ));
        },
        None => {
            assert(tags.deep_view() =~= old(tags).deep_view() + optional_tag(
                name@,
                value.deep_view(),
            ));
        },
    }
}

/// The salary tag of `salary`, where it has one.
fn push_salary(tags: &mut Vec<Vec<String>>, salary: &Option<BaseSalary>)
    ensures
        final(tags).deep_view() == old(tags).deep_view() + salary_tags(salary.deep_view()),
{
    let ghost before = tags.deep_view();
    if let Some(s) = salary {
        if let MonetaryValue::Range(range) = &s.value {
            if let (Some(min), Some(max)) = (&range.min_value, &range.max_value) {
                let mut values: Vec<String> = Vec::new();
                values.push(min.text.clone());
                values.push(max.text.clone());
                values.push(s.currency.clone());
                values.push(range.unit_text.clone());
                assert(values.deep_view() =~= seq![min@, max@, s.currency@, range.unit_text@]);
                let tag = custom_tag(TAG_SALARY, values);
                assert(tag.deep_view() =~= seq![
                    TAG_SALARY@,
                    min@,
                    max@,
                    s.currency@,
                    range.unit_text@,
                ]);
                push_tag(tags, tag);
            }
        }
    }
    assert(tags.deep_view() =~= before + salary_tags(salary.deep_view()));
}

/// The country and region tags of `place`.
fn push_place(tags: &mut Vec<Vec<String>>, place: &JobLocation)
    ensures
        final(tags).deep_view() == old(tags).deep_view() + place_tags(place@),
{
    let ghost before = tags.deep_view();
    if let Some(address) = &place.address {
        push_optional(tags, TAG_COUNTRY, &address.address_country);
        push_optional(tags, TAG_REGION, &address.address_region);
    }
    assert(tags.deep_view() =~= before + place_tags(place@));
}

impl JobListing {
    /// The tags that index this listing when `pubkey_hex` publishes it.
    pub fn tags(&self, pubkey_hex: &str) -> (tags: Vec<Vec<String>>)
        requires
            pubkey_hex@.len() >= 8,
        ensures
            tags.deep_view() == job_tags(self@, pubkey_hex@),
    {
        let lowered = to_lowercase(self.hiring_organization.name.as_str());
        let slug = spaces_to_dashes(lowered.as_str());
        let identifier = join_hyphenated(
            slug.as_str(),
            self.identifier.as_str(),
            pubkey_hex.substring_char(0, 8),
        );
        let location = match &self.job_location_type {
            Some(types) => {
                if types.len() > 0 {
                    types[0].tag_name().to_owned()
                } else {
                    LOCATION_FALLBACK.to_owned()
                }
            },
            None => LOCATION_FALLBACK.to_owned(),
        };
        assert(location@ == location_value(self@));

        let mut tags: Vec<Vec<String>> = Vec::new();
        assert(tags.deep_view() =~= Seq::empty());
        push_tag(&mut tags, identifier_tag(identifier));
        push_tag(&mut tags, pair(TAG_CATEGORY, CATEGORY_JOBS.to_owned()));
        push_tag(&mut tags, pair(TAG_COMPANY, self.hiring_organization.name.clone()));
        push_tag(&mut tags, pair(TAG_JOB_ID, self.identifier.clone()));
        push_tag(&mut tags, pair(TAG_TITLE, self.title.clone()));
        push_tag(&mut tags, pair(TAG_LOCATION, location));
        assert(tags.deep_view() =~= fixed_tags(self@, pubkey_hex@));

        let ghost fixed = tags.deep_view();
        let mut i: usize = 0;
        while i < self.employment_type.len()
            invariant
                i <= self.employment_type.len(),
                tags.deep_view() == fixed + employment_tags(
                    self.employment_type@.subrange(0, i as int),
                ),
            decreases self.employment_type.len() - i,
        {
            let ghost before = tags.deep_view();
            push_tag(
                &mut tags,
                pair(TAG_EMPLOYMENT_TYPE, self.employment_type[i].tag_name().to_owned()),
            );
            assert(tags.deep_view() =~= fixed + employment_tags(
                self.employment_type@.subrange(0, i + 1),
            ));
            i += 1;
        }
        assert(self.employment_type@.subrange(0, i as int) =~= self.employment_type@);

        let ghost with_types = tags.deep_view();
        if let Some(skills) = &self.skills {
            let mut k: usize = 0;
            while k < skills.len()
                invariant
                    k <= skills.len(),
                    tags.deep_view() == with_types + skill_tags(
                        Some(skills.deep_view().subrange(0, k as int)),
                    ),
                decreases skills.len() - k,
            {
                push_tag(&mut tags, pair(TAG_SKILL, skills[k].clone()));
                assert(tags.deep_view() =~= with_types + skill_tags(
                    Some(skills.deep_view().subrange(0, k + 1)),
                ));
                k += 1;
            }
            assert(skills.deep_view().subrange(0, k as int) =~= skills.deep_view());
        }
        assert(tags.deep_view() =~= with_types + skill_tags(self@.skills));

        push_salary(&mut tags, &self.base_salary);

        let ghost with_salary = tags.deep_view();
        let mut n: usize = 0;
        while n < self.job_location.len()
            invariant
                n <= self.job_location.len(),
                tags.deep_view() == with_salary + places_tags(
                    self.job_location.deep_view().subrange(0, n as int),
                ),
            decreases self.job_location.len() - n,
        {
            push_place(&mut tags, &self.job_location[n]);
            proof {
                let places = self.job_location.deep_view();
                assert(places.subrange(0, n + 1).drop_last() =~= places.subrange(0, n as int));
                assert(places.subrange(0, n + 1).last() == self.job_location[n as int]@);
                assert(tags.deep_view() =~= with_salary + places_tags(places.subrange(0, n + 1)));
            }
            n += 1;
        }
        assert(self.job_location.deep_view().subrange(0, n as int)
            =~= self.job_location.deep_view());

        push_optional(&mut tags, TAG_EXPIRES, &self.valid_through);
        push_optional(&mut tags, TAG_EMPLOYER_PUBKEY, &self.nostr_employer_pubkey);
        push_optional(&mut tags, TAG_LIGHTNING, &self.lightning_address);
        push_optional(&mut tags, TAG_COMPANY_URL, &self.hiring_organization.url);
        tags
    }

    /// The event that publishes this listing: the job listing kind, the
    /// given content, and the listing's tags. The content is the listing in
    /// its serialized form; it is carried as it is.
    pub fn to_nostr_event(&self, content: String, pubkey_hex: &str) -> (event: UnsignedEvent)
        requires
            pubkey_hex@.len() >= 8,
        ensures
            event.kind == KIND_JOB_LISTING,
            event.content == content,
            event.tags.deep_view() == job_tags(self@, pubkey_hex@),
    {
        UnsignedEvent { kind: KIND_JOB_LISTING, tags: self.tags(pubkey_hex), content }
    }
}

/// The timestamp `secs`, in seconds since the epoch, as a date and time of
/// day in UTC. The calendar arithmetic is not modelled.
pub uninterp spec fn human_datetime_text(secs: u64) -> Seq<char>;

/// Calls `Timestamp::to_human_datetime`. Trusted: the result is a function
/// of the seconds alone.
#[verifier::external_body]
fn human_datetime(secs: u64) -> (text: String)
    ensures
        text@ == human_datetime_text(secs),
{
    Timestamp::from(secs).to_human_datetime()
}

/// Why an event does not decode to a job listing.
#[derive(Clone, Debug, PartialEq, Eq)]
pub enum DecodeError {
    /// The event is of another kind; the kind it has is given.
    InvalidKind(u16),
    /// The record in the event, or the tags that stand for it, is not a
    /// valid listing.
    Invalid(ValidationError),
}

/// The value of `tag` where it is a tag of `name` with a value.
pub open spec fn tag_value(tag: Seq<Seq<char>>, name: Seq<char>) -> Option<Seq<char>> {
    if tag.len() >= 2 && tag[0] == name {
        Some(tag[1])
    } else {
        None
    }
}

/// The value of the first tag of `name` at or after position `start`.
pub open spec fn first_value_from(tags: Tags, name: Seq<char>, start: int) -> Option<Seq<char>>
    decreases tags.len() - start,
{
    if start < 0 || start >= tags.len() {
        None
    } else {
        match tag_value(tags[start], name) {
            Some(v) => Some(v),
            None => first_value_from(tags, name, start + 1),
        }
    }
}

/// The value of the first tag of `name`.
pub open spec fn first_value(tags: Tags, name: Seq<char>) -> Option<Seq<char>> {
    first_value_from(tags, name, 0)
}

/// The values of all tags of `name`, in the tags' order.
pub open spec fn values_of(tags: Tags, name: Seq<char>) -> Seq<Seq<char>>
    decreases tags.len(),
{
    if tags.len() == 0 {
        Seq::empty()
    } else {
        let rest = values_of(tags.drop_last(), name);
        match tag_value(tags.last(), name) {
            Some(v) => rest.push(v),
            None => rest,
        }
    }
}

/// The upper-case form of the name under which an employment type is
/// written in a tag.
pub open spec fn employment_type_upper_name(e: EmploymentType) -> Seq<char> {
    match e {
        EmploymentType::FullTime => "FULLTIME"@,
        EmploymentType::PartTime => "PARTTIME"@,
        EmploymentType::Contractor => "CONTRACTOR"@,
        EmploymentType::Temporary => "TEMPORARY"@,
        EmploymentType::Intern => "INTERN"@,
        EmploymentType::Volunteer => "VOLUNTEER"@,
        EmploymentType::PerDiem => "PERDIEM"@,
        EmploymentType::TaskBased => "TASKBASED"@,
        EmploymentType::MicroTask => "MICROTASK"@,
        EmploymentType::Other => "OTHER"@,
    }
}

/// The employment type that an upper-case tag value stands for: the type
/// whose name, in upper case, the value is. A value that is the name of no
/// type stands for none.
pub open spec fn employment_type_from_upper(upper: Seq<char>) -> Option<EmploymentType> {
    if upper == "FULLTIME"@ {
        Some(EmploymentType::FullTime)
    } else if upper == "PARTTIME"@ {
        Some(EmploymentType::PartTime)
    } else if upper == "CONTRACTOR"@ {
        Some(EmploymentType::Contractor)
    } else if upper == "TEMPORARY"@ {
        Some(EmploymentType::Temporary)
    } else if upper == "INTERN"@ {
        Some(EmploymentType::Intern)
    } else if upper == "VOLUNTEER"@ {
        Some(EmploymentType::Volunteer)
    } else if upper == "PERDIEM"@ {
        Some(EmploymentType::PerDiem)
    } else if upper == "TASKBASED"@ {
        Some(EmploymentType::TaskBased)
    } else if upper == "MICROTASK"@ {
        Some(EmploymentType::MicroTask)
    } else if upper == "OTHER"@ {
        Some(EmploymentType::Other)
    } else {
        None
    }
}

/// The upper-case form of the name under which a location type is written
/// in a tag.
pub open spec fn location_type_upper_name(t: JobLocationType) -> Seq<char> {
    match t {
        JobLocationType::Telecommute => "TELECOMMUTE"@,
        JobLocationType::OnSite => "ONSITE"@,
        JobLocationType::Hybrid => "HYBRID"@,
    }
}

/// The location type that an upper-case tag value stands for.
pub open spec fn location_type_from_upper(upper: Seq<char>) -> Option<JobLocationType> {
    if upper == "TELECOMMUTE"@ || upper == "REMOTE"@ {
        Some(JobLocationType::Telecommute)
    } else if upper == "ONSITE"@ {
        Some(JobLocationType::OnSite)
    } else if upper == "HYBRID"@ {
        Some(JobLocationType::Hybrid)
    } else {
        None
    }
}

/// The employment types that the tags name, in the tags' order. A value
/// that names none is passed over.
pub open spec fn decoded_employment_types(tags: Tags) -> Seq<EmploymentType>
    decreases tags.len(),
{
    if tags.len() == 0 {
        Seq::empty()
    } else {
        let rest = decoded_employment_types(tags.drop_last());
        match tag_value(tags.last(), TAG_EMPLOYMENT_TYPE@) {
            Some(v) => match employment_type_from_upper(uppercase(v)) {
                Some(e) => rest.push(e),
                None => rest,
            },
            None => rest,
        }
    }
}

/// The location types that the tags name, in the tags' order. A value that
/// names none is passed over.
pub open spec fn decoded_location_types(tags: Tags) -> Seq<JobLocationType>
    decreases tags.len(),
{
    if tags.len() == 0 {
        Seq::empty()
    } else {
        let rest = decoded_location_types(tags.drop_last());
        match tag_value(tags.last(), TAG_LOCATION_TYPE@) {
            Some(v) => match location_type_from_upper(uppercase(v)) {
                Some(t) => rest.push(t),
                None => rest,
            },
            None => rest,
        }
    }
}

/// The listing that the tags of an event stand for, with `fallback_date`
/// as the posting date where no tag gives one. The identifier, title and
/// company tags are required; the listing is open to humans and holds no
/// field for AI agents.
pub open spec fn tags_listing(e: EventView, fallback_date: Seq<char>) -> Result<
    JobListingView,
    ValidationError,
> {
    let identifier = first_value(e.tags, TAG_IDENTIFIER@);
    let title = first_value(e.tags, TAG_TITLE@);
    let company = first_value(e.tags, TAG_COMPANY@);
    if identifier is None {
        Err(ValidationError::MissingField(TAG_IDENTIFIER))
    } else if title is None {
        Err(ValidationError::MissingField(TAG_TITLE))
    } else if company is None {
        Err(ValidationError::MissingField(TAG_COMPANY))
    } else {
        let date = match first_value(e.tags, TAG_DATE_POSTED@) {
            Some(d) => d,
            None => fallback_date,
        };
        let base = new_listing(
            identifier->0,
            title->0,
            e.content,
            company->0,
            date,
            Some(Seq::empty()),
            seq![EligibleWorkerType::Human],
        );
        Ok(
            JobListingView {
                employment_type: decoded_employment_types(e.tags),
                job_location_type: Some(decoded_location_types(e.tags)),
                skills: Some(values_of(e.tags, TAG_SKILL@)),
                valid_through: first_value(e.tags, TAG_EXPIRES@),
                nostr_employer_pubkey: first_value(e.tags, TAG_EMPLOYER_PUBKEY@),
                lightning_address: first_value(e.tags, TAG_LIGHTNING@),
                hiring_organization: HiringOrganizationView {
                    url: first_value(e.tags, TAG_COMPANY_URL@),
                    ..base.hiring_organization
                },
                ..base
            },
        )
    }
}

/// What decoding an event gives. An event of another kind is refused.
/// Where the content parsed as a record, that record is validated and is
/// the result, or its first broken invariant is the error. Where it did
/// not parse, the tags stand for the listing.
pub open spec fn decoded_listing(
    e: EventView,
    parsed: Option<JobListingView>,
    fallback_date: Seq<char>,
) -> Result<JobListingView, DecodeError> {
    if e.kind != KIND_JOB_LISTING {
        Err(DecodeError::InvalidKind(e.kind))
    } else {
        match parsed {
            Some(j) => match validation(j) {
                Ok(_) => Ok(j),
                Err(v) => Err(DecodeError::Invalid(v)),
            },
            None => match tags_listing(e, fallback_date) {
                Ok(j) => Ok(j),
                Err(v) => Err(DecodeError::Invalid(v)),
            },
        }
    }
}

/// The value of an optional listing.
pub open spec fn optional_listing(o: Option<JobListing>) -> Option<JobListingView> {
    match o {
        Some(j) => Some(j@),
        None => None,
    }
}

/// The value of a listing or an error.
pub open spec fn listing_outcome<E>(r: Result<JobListing, E>) -> Result<JobListingView, E> {
    match r {
        Ok(j) => Ok(j@),
        Err(e) => Err(e),
    }
}

/// Whether an event is of the job listing kind. Only such an event's
/// content is worth parsing.
pub fn is_job_listing(event: &Event) -> (r: bool)
    ensures
        r == (event.kind == KIND_JOB_LISTING),
{
    event.kind == KIND_JOB_LISTING
}

/// The employment type that an upper-case tag value stands for.
pub fn employment_type_from_tag_value(upper: &str) -> (r: Option<EmploymentType>)
    ensures
        r == employment_type_from_upper(upper@),
{
    if text_eq(upper, "FULLTIME") {
        Some(EmploymentType::FullTime)
    } else if text_eq(upper, "PARTTIME") {
        Some(EmploymentType::PartTime)
    } else if text_eq(upper, "CONTRACTOR") {
        Some(EmploymentType::Contractor)
    } else if text_eq(upper, "TEMPORARY") {
        Some(EmploymentType::Temporary)
    } else if text_eq(upper, "INTERN") {
        Some(EmploymentType::Intern)
    } else if text_eq(upper, "VOLUNTEER") {
        Some(EmploymentType::Volunteer)
    } else if text_eq(upper, "PERDIEM") {
        Some(EmploymentType::PerDiem)
    } else if text_eq(upper, "TASKBASED") {
        Some(EmploymentType::TaskBased)
    } else if text_eq(upper, "MICROTASK") {
        Some(EmploymentType::MicroTask)
    } else if text_eq(upper, "OTHER") {
        Some(EmploymentType::Other)
    } else {
        None
    }
}

/// The location type that an upper-case tag value stands for.
pub fn location_type_from_tag_value(upper: &str) -> (r: Option<JobLocationType>)
    ensures
        r == location_type_from_upper(upper@),
{
    if text_eq(upper, "TELECOMMUTE") || text_eq(upper, "REMOTE") {
        Some(JobLocationType::Telecommute)
    } else if text_eq(upper, "ONSITE") {
        Some(JobLocationType::OnSite)
    } else if text_eq(upper, "HYBRID") {
        Some(JobLocationType::Hybrid)
    } else {
        None
    }
}

/// The values of all tags of `name`, in the tags' order.
pub fn tag_values(tags: &Vec<Vec<String>>, name: &str) -> (values: Vec<String>)
    ensures
        values.deep_view() == values_of(tags.deep_view(), name@),
{
    let mut values: Vec<String> = Vec::new();
    assert(values.deep_view() =~= Seq::empty());
    assert(tags.deep_view().subrange(0, 0) =~= Seq::empty());
    let mut i: usize = 0;
    while i < tags.len()
        invariant
            i <= tags.len(),
            values.deep_view() == values_of(tags.deep_view().subrange(0, i as int), name@),
        decreases tags.len() - i,
    {
        let ghost before = values.deep_view();
        proof {
            let all = tags.deep_view();
            assert(all.subrange(0, i + 1).drop_last() =~= all.subrange(0, i as int));
            assert(all.subrange(0, i + 1).last() == tags[i as int].deep_view());
        }
        if let Some(v) = JobListing::parse_custom_tag(&tags[i], name) {
            values.push(v);
            assert(values.deep_view() =~= before.push(v@));
        }
        i += 1;
    }
    assert(tags.deep_view().subrange(0, i as int) =~= tags.deep_view());
    values
}

impl JobListing {
    /// The value of `tag` where it is a tag of `name` with a value.
    pub fn parse_custom_tag(tag: &Vec<String>, name: &str) -> (r: Option<String>)
        ensures
            r.deep_view() == tag_value(tag.deep_view(), name@),
    {
        if tag.len() >= 2 && text_eq(tag[0].as_str(), name) {
            Some(tag[1].clone())
        } else {
            None
        }
    }

    /// The value of the first tag of `name`.
    pub fn find_tag_value(tags: &Vec<Vec<String>>, name: &str) -> (r: Option<String>)
        ensures
            r.deep_view() == first_value(tags.deep_view(), name@),
    {
        let mut i: usize = 0;
        while i < tags.len()
            invariant
                i <= tags.len(),
                first_value_from(tags.deep_view(), name@, i as int) == first_value(
                    tags.deep_view(),
                    name@,
                ),
            decreases tags.len() - i,
        {
            assert(tags.deep_view()[i as int] == tags[i as int].deep_view());
            let found = Self::parse_custom_tag(&tags[i], name);
            if found.is_some() {
                return found;
            }
            i += 1;
        }
        None
    }

    /// The listing that the tags of `event` stand for, with `fallback_date`
    /// as the posting date where no tag gives one. The event's content
    /// becomes the description.
    pub fn from_tags_dated(event: &Event, fallback_date: String) -> (r: Result<
        JobListing,
        ValidationError,
    >)
        ensures
            listing_outcome(r) == tags_listing(event@, fallback_date@),
    {
        let identifier = match Self::find_tag_value(&event.tags, TAG_IDENTIFIER) {
            Some(v) => v,
            None => {
                return Err(ValidationError::MissingField(TAG_IDENTIFIER));
            },
        };
        let title = match Self::find_tag_value(&event.tags, TAG_TITLE) {
            Some(v) => v,
            None => {
                return Err(ValidationError::MissingField(TAG_TITLE));
            },
        };
        let company = match Self::find_tag_value(&event.tags, TAG_COMPANY) {
            Some(v) => v,
            None => {
                return Err(ValidationError::MissingField(TAG_COMPANY));
            },
        };
        let date_posted = match Self::find_tag_value(&event.tags, TAG_DATE_POSTED) {
            Some(v) => v,
            None => fallback_date,
        };
        let mut humans: Vec<EligibleWorkerType> = Vec::new();
        humans.push(EligibleWorkerType::Human);
        assert(humans@ =~= seq![EligibleWorkerType::Human]);
        let mut job = JobListing::new(
            identifier,
            title,
            event.content.clone(),
            company,
            date_posted,
            Some(String::new()),
            humans,
        );
        let ghost base = job@;

        let mut employment: Vec<EmploymentType> = Vec::new();
        let mut locations: Vec<JobLocationType> = Vec::new();
        assert(event.tags.deep_view().subrange(0, 0) =~= Seq::empty());
        let mut i: usize = 0;
        while i < event.tags.len()
            invariant
                i <= event.tags.len(),
                employment@ == decoded_employment_types(
                    event.tags.deep_view().subrange(0, i as int),
                ),
                locations@ == decoded_location_types(event.tags.deep_view().subrange(0, i as int)),
            decreases event.tags.len() - i,
        {
            proof {
                let all = event.tags.deep_view();
                assert(all.subrange(0, i + 1).drop_last() =~= all.subrange(0, i as int));
                assert(all.subrange(0, i + 1).last() == event.tags[i as int].deep_view());
            }
            if let Some(v) = Self::parse_custom_tag(&event.tags[i], TAG_EMPLOYMENT_TYPE) {
                let upper = to_uppercase(v.as_str());
                if let Some(e) = employment_type_from_tag_value(upper.as_str()) {
                    employment.push(e);
                }
            }
            if let Some(v) = Self::parse_custom_tag(&event.tags[i], TAG_LOCATION_TYPE) {
                let upper = to_uppercase(v.as_str());
                if let Some(t) = location_type_from_tag_value(upper.as_str()) {
                    locations.push(t);
                }
            }
            i += 1;
        }
        assert(event.tags.deep_view().subrange(0, i as int) =~= event.tags.deep_view());

        job.employment_type = employment;
        job.job_location_type = Some(locations);
        job.skills = Some(tag_values(&event.tags, TAG_SKILL));
        job.valid_through = Self::find_tag_value(&event.tags, TAG_EXPIRES);
        job.nostr_employer_pubkey = Self::find_tag_value(&event.tags, TAG_EMPLOYER_PUBKEY);
        job.lightning_address = Self::find_tag_value(&event.tags, TAG_LIGHTNING);
        if let Some(url) = Self::find_tag_value(&event.tags, TAG_COMPANY_URL) {
            job.hiring_organization.url = Some(url);
        }
        Ok(job)
    }

    /// The listing that the tags of `event` stand for. Where no tag gives
    /// the posting date, the event's timestamp stands in, as a date and time
    /// of day.
    pub fn from_tags(event: &Event) -> (r: Result<JobListing, ValidationError>)
        ensures
            listing_outcome(r) == tags_listing(event@, human_datetime_text(event.created_at)),
    {
        Self::from_tags_dated(event, human_datetime(event.created_at))
    }

    /// Decodes an event to a listing. `parsed` is the record that the
    /// event's content parsed to, if it parsed. An event of another kind
    /// is refused whatever else it holds. A parsed record is validated and
    /// handed back as it is; an invalid one is an error, and the tags are
    /// not consulted. Only where nothing parsed do the tags stand for the
    /// listing.
    pub fn from_nostr_event(event: &Event, parsed: Option<JobListing>) -> (r: Result<
        JobListing,
        DecodeError,
    >)
        ensures
            listing_outcome(r) == decoded_listing(
                event@,
                optional_listing(parsed),
                human_datetime_text(event.created_at),
            ),
            parsed is Some && r is Ok ==> r->Ok_0 == parsed->0,
    {
        if event.kind != KIND_JOB_LISTING {
            return Err(DecodeError::InvalidKind(event.kind));
        }
        match parsed {
            Some(job) => match job.validate() {
                Ok(()) => Ok(job),
                Err(e) => Err(DecodeError::Invalid(e)),
            },
            None => match Self::from_tags(event) {
                Ok(job) => Ok(job),
                Err(e) => Err(DecodeError::Invalid(e)),
            },
        }
    }
}

/// The event that publishes the listing `j` with the content `content`
/// under the key `pubkey_hex`.
pub open spec fn event_of(j: JobListingView, content: Seq<char>, pubkey_hex: Seq<char>) -> UnsignedEventView
    recommends
        pubkey_hex.len() >= 8,
{
    UnsignedEventView { kind: KIND_JOB_LISTING, tags: job_tags(j, pubkey_hex), content }
}

/// Whether `e` carries what `u` holds: signing adds to an event and
/// changes nothing in it.
pub open spec fn carries(e: EventView, u: UnsignedEventView) -> bool {
    e.kind == u.kind && e.tags == u.tags && e.content == u.content
}

/// Decoding the event of a valid listing, whose content parsed back to
/// that listing, gives that listing.
pub proof fn lemma_content_round_trip(
    j: JobListingView,
    content: Seq<char>,
    pubkey_hex: Seq<char>,
    e: EventView,
    fallback_date: Seq<char>,
)
    requires
        validation(j) is Ok,
        carries(e, event_of(j, content, pubkey_hex)),
    ensures
        decoded_listing(e, Some(j), fallback_date) == Ok::<JobListingView, DecodeError>(j),
{
}

/// What decoding gives from an event whose content parsed is valid: a
/// listing that was valid before it was encoded is valid after it was
/// decoded.
pub proof fn lemma_decoded_listing_is_valid(
    e: EventView,
    parsed: JobListingView,
    fallback_date: Seq<char>,
)
    ensures
        decoded_listing(e, Some(parsed), fallback_date) matches Ok(j) ==> validation(j) is Ok,
        e.kind == KIND_JOB_LISTING && validation(parsed) is Ok ==> decoded_listing(
            e,
            Some(parsed),
            fallback_date,
        ) is Ok,
{
}

/// An event of another kind is refused as such, whatever its content and
/// its tags hold.
pub proof fn lemma_kind_mismatch(
    e: EventView,
    parsed: Option<JobListingView>,
    fallback_date: Seq<char>,
)
    requires
        e.kind != KIND_JOB_LISTING,
    ensures
        decoded_listing(e, parsed, fallback_date) == Err::<JobListingView, DecodeError>(
            DecodeError::InvalidKind(e.kind),
        ),
{
}

/// A record whose content parsed but which is not valid is an error: the
/// tags do not stand in for it.
pub proof fn lemma_invalid_content_is_surfaced(
    e: EventView,
    parsed: JobListingView,
    fallback_date: Seq<char>,
)
    requires
        e.kind == KIND_JOB_LISTING,
        validation(parsed) is Err,
    ensures
        decoded_listing(e, Some(parsed), fallback_date) == Err::<JobListingView, DecodeError>(
            DecodeError::Invalid(validation(parsed)->Err_0),
        ),
{
}

/// A listing that the tags stand for is open to humans only and holds no
/// field for AI agents, whatever the listing was that the tags were made
/// from.
pub proof fn lemma_fallback_is_for_humans(e: EventView, fallback_date: Seq<char>)
    ensures
        tags_listing(e, fallback_date) matches Ok(j) ==> j.eligible_worker_type
            == seq![EligibleWorkerType::Human] && !has_ai_fields(j) && j.required_capabilities
            is None && j.human_oversight is None,
{
}

/// Every employment type is read back from the upper-case form of its
/// name: no type of the data model is passed over as unknown.
pub proof fn lemma_every_employment_type_is_read(e: EmploymentType)
    ensures
        employment_type_from_upper(employment_type_upper_name(e)) == Some(e),
{
    reveal_strlit("FULLTIME");
    reveal_strlit("PARTTIME");
    reveal_strlit("CONTRACTOR");
    reveal_strlit("TEMPORARY");
    reveal_strlit("INTERN");
    reveal_strlit("VOLUNTEER");
    reveal_strlit("PERDIEM");
    reveal_strlit("TASKBASED");
    reveal_strlit("MICROTASK");
    reveal_strlit("OTHER");
    assert("FULLTIME"@.len() == 8 && "FULLTIME"@[0] == 'F');
    assert("PARTTIME"@.len() == 8 && "PARTTIME"@[0] == 'P');
    assert("CONTRACTOR"@.len() == 10);
    assert("TEMPORARY"@.len() == 9 && "TEMPORARY"@[0] == 'T' && "TEMPORARY"@[1] == 'E');
    assert("INTERN"@.len() == 6);
    assert("VOLUNTEER"@.len() == 9 && "VOLUNTEER"@[0] == 'V');
    assert("PERDIEM"@.len() == 7);
    assert("TASKBASED"@.len() == 9 && "TASKBASED"@[0] == 'T' && "TASKBASED"@[1] == 'A');
    assert("MICROTASK"@.len() == 9 && "MICROTASK"@[0] == 'M');
    assert("OTHER"@.len() == 5);
}

/// Every location type is read back from the upper-case form of its name.
pub proof fn lemma_every_location_type_is_read(t: JobLocationType)
    ensures
        location_type_from_upper(location_type_upper_name(t)) == Some(t),
{
    reveal_strlit("TELECOMMUTE");
    reveal_strlit("REMOTE");
    reveal_strlit("ONSITE");
    reveal_strlit("HYBRID");
    assert("TELECOMMUTE"@.len() == 11);
    assert("REMOTE"@.len() == 6 && "REMOTE"@[0] == 'R');
    assert("ONSITE"@.len() == 6 && "ONSITE"@[0] == 'O');
    assert("HYBRID"@.len() == 6 && "HYBRID"@[0] == 'H');
}

/// Whether `tag` is an employment type or location type tag whose value
/// names no type, so that decoding passes it over.
pub open spec fn is_skipped(tag: Seq<Seq<char>>) -> bool {
    ||| tag_value(tag, TAG_EMPLOYMENT_TYPE@) matches Some(v) && employment_type_from_upper(
        uppercase(v),
    ) is None
    ||| tag_value(tag, TAG_LOCATION_TYPE@) matches Some(v) && location_type_from_upper(
        uppercase(v),
    ) is None
}

/// The number of tags that decoding passes over.
pub open spec fn skipped_count(tags: Tags) -> nat
    decreases tags.len(),
{
    if tags.len() == 0 {
        0
    } else {
        skipped_count(tags.drop_last()) + if is_skipped(tags.last()) {
            1nat
        } else {
            0nat
        }
    }
}

/// No more tags are passed over than there are.
pub proof fn lemma_skipped_count_bound(tags: Tags)
    ensures
        skipped_count(tags) <= tags.len(),
    decreases tags.len(),
{
    if tags.len() > 0 {
        lemma_skipped_count_bound(tags.drop_last());
    }
}

impl JobListing {
    /// The number of employment type and location type tags of `event`
    /// that `from_tags` passes over because their value names no type.
    pub fn count_skipped_tags(event: &Event) -> (n: usize)
        ensures
            n == skipped_count(event.tags.deep_view()),
    {
        let mut n: usize = 0;
        assert(event.tags.deep_view().subrange(0, 0) =~= Seq::empty());
        let mut i: usize = 0;
        while i < event.tags.len()
            invariant
                i <= event.tags.len(),
                n == skipped_count(event.tags.deep_view().subrange(0, i as int)),
                n <= i,
            decreases event.tags.len() - i,
        {
            proof {
                let all = event.tags.deep_view();
                assert(all.subrange(0, i + 1).drop_last() =~= all.subrange(0, i as int));
                assert(all.subrange(0, i + 1).last() == event.tags[i as int].deep_view());
                lemma_skipped_count_bound(all.subrange(0, i as int));
            }
            let mut skipped = false;
            if let Some(v) = Self::parse_custom_tag(&event.tags[i], TAG_EMPLOYMENT_TYPE) {
                let upper = to_uppercase(v.as_str());
                if employment_type_from_tag_value(upper.as_str()).is_none() {
                    skipped = true;
                }
            }
            if let Some(v) = Self::parse_custom_tag(&event.tags[i], TAG_LOCATION_TYPE) {
                let upper = to_uppercase(v.as_str());
                if location_type_from_tag_value(upper.as_str()).is_none() {
                    skipped = true;
                }
            }
            if skipped {
                n += 1;
            }
            i += 1;
        }
        assert(event.tags.deep_view().subrange(0, i as int) =~= event.tags.deep_view());
        n
    }
}

} // verus!
