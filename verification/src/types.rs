//! The job listing record and the value types nested in it, each with the
//! mathematical value that contracts speak of.

use vstd::prelude::*;

verus! {

/// Who may take a job.
#[derive(Clone, Copy, Debug, PartialEq, Eq, Hash, Structural)]
pub enum EligibleWorkerType {
    Human,
    AIAgent,
}

/// How well a capability must be mastered.
#[derive(Clone, Copy, Debug, PartialEq, Eq, Hash, Structural)]
pub enum CapabilityLevel {
    Basic,
    Intermediate,
    Advanced,
    Expert,
}

/// The channel through which an agent does its work.
#[derive(Clone, Copy, Debug, PartialEq, Eq, Hash, Structural)]
pub enum InterfaceType {
    Api,
    Rpc,
    Webhook,
    WebPortal,
}

/// Whether a human supervises an agent's work.
#[derive(Clone, Copy, Debug, PartialEq, Eq, Hash, Structural)]
pub enum OversightRequirement {
    Required,
    Optional,
    NoOversight,
}

/// The terms of employment.
#[derive(Clone, Copy, Debug, PartialEq, Eq, Hash, Structural)]
pub enum EmploymentType {
    FullTime,
    PartTime,
    Contractor,
    Temporary,
    Intern,
    Volunteer,
    PerDiem,
    TaskBased,
    MicroTask,
    Other,
}

/// Where the work is done.
#[derive(Clone, Copy, Debug, PartialEq, Eq, Hash, Structural)]
pub enum JobLocationType {
    Telecommute,
    OnSite,
    Hybrid,
}

/// A number carried as its decimal text, such as `120000` or `0.05`.
#[derive(Debug, PartialEq, Eq)]
pub struct Decimal {
    pub text: String,
}

impl Clone for Decimal {
    fn clone(&self) -> (r: Self)
        ensures
            r@ == self@,
    {
        Decimal { text: self.text.clone() }
    }
}

impl View for Decimal {
    type V = Seq<char>;

    open spec fn view(&self) -> Seq<char> {
        self.text@
    }
}

impl DeepView for Decimal {
    type V = Seq<char>;

    open spec fn deep_view(&self) -> Seq<char> {
        self@
    }
}

/// A capability that a worker must have, and at which level.
#[derive(Clone, Debug, PartialEq, Eq)]
pub struct CapabilityRequirement {
    pub name: String,
    pub level: CapabilityLevel,
}

/// The value of a capability requirement.
pub struct CapabilityRequirementView {
    pub name: Seq<char>,
    pub level: CapabilityLevel,
}

impl View for CapabilityRequirement {
    type V = CapabilityRequirementView;

    open spec fn view(&self) -> CapabilityRequirementView {
        CapabilityRequirementView { name: self.name@, level: self.level }
    }
}

impl DeepView for CapabilityRequirement {
    type V = CapabilityRequirementView;

    open spec fn deep_view(&self) -> CapabilityRequirementView {
        self@
    }
}

/// A bound on an agent's performance: a number and its unit.
#[derive(Clone, Debug, PartialEq, Eq)]
pub struct PerformanceRequirement {
    pub value: Decimal,
    pub unit: String,
}

/// The value of a performance bound.
pub struct PerformanceRequirementView {
    pub value: Seq<char>,
    pub unit: Seq<char>,
}

impl View for PerformanceRequirement {
    type V = PerformanceRequirementView;

    open spec fn view(&self) -> PerformanceRequirementView {
        PerformanceRequirementView { value: self.value@, unit: self.unit@ }
    }
}

impl DeepView for PerformanceRequirement {
    type V = PerformanceRequirementView;

    open spec fn deep_view(&self) -> PerformanceRequirementView {
        self@
    }
}

/// Title and description of a listing in another language.
#[derive(Clone, Debug, PartialEq, Eq)]
pub struct TranslatedJob {
    pub title: String,
    pub description: String,
}

/// The value of a translated title and description.
pub struct TranslatedJobView {
    pub title: Seq<char>,
    pub description: Seq<char>,
}

impl View for TranslatedJob {
    type V = TranslatedJobView;

    open spec fn view(&self) -> TranslatedJobView {
        TranslatedJobView { title: self.title@, description: self.description@ }
    }
}

/// The organization that hires.
#[derive(Clone, Debug, PartialEq, Eq)]
pub struct HiringOrganization {
    pub schema_type: String,
    pub name: String,
    pub url: Option<String>,
    pub logo: Option<String>,
    pub same_as: Option<Vec<String>>,
}

/// The value of a hiring organization.
pub struct HiringOrganizationView {
    pub schema_type: Seq<char>,
    pub name: Seq<char>,
    pub url: Option<Seq<char>>,
    pub logo: Option<Seq<char>>,
    pub same_as: Option<Seq<Seq<char>>>,
}

impl View for HiringOrganization {
    type V = HiringOrganizationView;

    open spec fn view(&self) -> HiringOrganizationView {
        HiringOrganizationView {
            schema_type: self.schema_type@,
            name: self.name@,
            url: self.url.deep_view(),
            logo: self.logo.deep_view(),
            same_as: self.same_as.deep_view(),
        }
    }
}

/// A postal address; every part of it is optional.
#[derive(Clone, Debug, PartialEq, Eq)]
pub struct PostalAddress {
    pub schema_type: String,
    pub street_address: Option<String>,
    pub address_locality: Option<String>,
    pub address_region: Option<String>,
    pub postal_code: Option<String>,
    pub address_country: Option<String>,
}

/// The value of a postal address.
pub struct PostalAddressView {
    pub schema_type: Seq<char>,
    pub street_address: Option<Seq<char>>,
    pub address_locality: Option<Seq<char>>,
    pub address_region: Option<Seq<char>>,
    pub postal_code: Option<Seq<char>>,
    pub address_country: Option<Seq<char>>,
}

impl View for PostalAddress {
    type V = PostalAddressView;

    open spec fn view(&self) -> PostalAddressView {
        PostalAddressView {
            schema_type: self.schema_type@,
            street_address: self.street_address.deep_view(),
            address_locality: self.address_locality.deep_view(),
            address_region: self.address_region.deep_view(),
            postal_code: self.postal_code.deep_view(),
            address_country: self.address_country.deep_view(),
        }
    }
}

impl DeepView for PostalAddress {
    type V = PostalAddressView;

    open spec fn deep_view(&self) -> PostalAddressView {
        self@
    }
}

/// A place of work.
#[derive(Clone, Debug, PartialEq, Eq)]
pub struct JobLocation {
    pub schema_type: String,
    pub address: Option<PostalAddress>,
}

/// The value of a place of work.
pub struct JobLocationView {
    pub schema_type: Seq<char>,
    pub address: Option<PostalAddressView>,
}

impl View for JobLocation {
    type V = JobLocationView;

    open spec fn view(&self) -> JobLocationView {
        JobLocationView { schema_type: self.schema_type@, address: self.address.deep_view() }
    }
}

impl DeepView for JobLocation {
    type V = JobLocationView;

    open spec fn deep_view(&self) -> JobLocationView {
        self@
    }
}

/// A pay distribution over a period, by its median and percentiles.
#[derive(Clone, Debug, PartialEq, Eq)]
pub struct MonetaryAmountDistribution {
    pub schema_type: String,
    pub duration: String,
    pub median: Option<Decimal>,
    pub percentile10: Option<Decimal>,
    pub percentile25: Option<Decimal>,
    pub percentile75: Option<Decimal>,
    pub percentile90: Option<Decimal>,
}

/// The value of a pay distribution.
pub struct MonetaryAmountDistributionView {
    pub schema_type: Seq<char>,
    pub duration: Seq<char>,
    pub median: Option<Seq<char>>,
    pub percentile10: Option<Seq<char>>,
    pub percentile25: Option<Seq<char>>,
    pub percentile75: Option<Seq<char>>,
    pub percentile90: Option<Seq<char>>,
}

impl View for MonetaryAmountDistribution {
    type V = MonetaryAmountDistributionView;

    open spec fn view(&self) -> MonetaryAmountDistributionView {
        MonetaryAmountDistributionView {
            schema_type: self.schema_type@,
            duration: self.duration@,
            median: self.median.deep_view(),
            percentile10: self.percentile10.deep_view(),
            percentile25: self.percentile25.deep_view(),
            percentile75: self.percentile75.deep_view(),
            percentile90: self.percentile90.deep_view(),
        }
    }
}

/// A pay range with the unit it is counted in.
#[derive(Clone, Debug, PartialEq, Eq)]
pub struct QuantitativeValue {
    pub schema_type: String,
    pub min_value: Option<Decimal>,
    pub max_value: Option<Decimal>,
    pub unit_text: String,
}

/// The value of a pay range.
pub struct QuantitativeValueView {
    pub schema_type: Seq<char>,
    pub min_value: Option<Seq<char>>,
    pub max_value: Option<Seq<char>>,
    pub unit_text: Seq<char>,
}

impl View for QuantitativeValue {
    type V = QuantitativeValueView;

    open spec fn view(&self) -> QuantitativeValueView {
        QuantitativeValueView {
            schema_type: self.schema_type@,
            min_value: self.min_value.deep_view(),
            max_value: self.max_value.deep_view(),
            unit_text: self.unit_text@,
        }
    }
}

/// The amount of a salary: one distribution, or a range.
#[derive(Clone, Debug, PartialEq, Eq)]
pub enum MonetaryValue {
    Single(MonetaryAmountDistribution),
    Range(QuantitativeValue),
}

/// The value of the amount of a salary.
pub enum MonetaryValueView {
    Single(MonetaryAmountDistributionView),
    Range(QuantitativeValueView),
}

impl View for MonetaryValue {
    type V = MonetaryValueView;

    open spec fn view(&self) -> MonetaryValueView {
        match *self {
            MonetaryValue::Single(d) => MonetaryValueView::Single(d@),
            MonetaryValue::Range(q) => MonetaryValueView::Range(q@),
        }
    }
}

/// The base salary: a currency and an amount.
#[derive(Clone, Debug, PartialEq, Eq)]
pub struct BaseSalary {
    pub schema_type: String,
    pub currency: String,
    pub value: MonetaryValue,
}

/// The value of a base salary.
pub struct BaseSalaryView {
    pub schema_type: Seq<char>,
    pub currency: Seq<char>,
    pub value: MonetaryValueView,
}

impl View for BaseSalary {
    type V = BaseSalaryView;

    open spec fn view(&self) -> BaseSalaryView {
        BaseSalaryView {
            schema_type: self.schema_type@,
            currency: self.currency@,
            value: self.value@,
        }
    }
}

impl DeepView for BaseSalary {
    type V = BaseSalaryView;

    open spec fn deep_view(&self) -> BaseSalaryView {
        self@
    }
}

/// A place in which an applicant must live.
#[derive(Clone, Debug, PartialEq, Eq)]
pub struct ApplicantLocationRequirement {
    pub schema_type: String,
    pub name: String,
}

/// The value of a requirement on where an applicant lives.
pub struct ApplicantLocationRequirementView {
    pub schema_type: Seq<char>,
    pub name: Seq<char>,
}

impl View for ApplicantLocationRequirement {
    type V = ApplicantLocationRequirementView;

    open spec fn view(&self) -> ApplicantLocationRequirementView {
        ApplicantLocationRequirementView { schema_type: self.schema_type@, name: self.name@ }
    }
}

impl DeepView for ApplicantLocationRequirement {
    type V = ApplicantLocationRequirementView;

    open spec fn deep_view(&self) -> ApplicantLocationRequirementView {
        self@
    }
}

/// The experience asked for, in months.
#[derive(Clone, Debug, PartialEq, Eq)]
pub struct ExperienceRequirement {
    pub schema_type: String,
    pub months_of_experience: Option<u32>,
}

/// The value of an experience requirement.
pub struct ExperienceRequirementView {
    pub schema_type: Seq<char>,
    pub months_of_experience: Option<u32>,
}

impl View for ExperienceRequirement {
    type V = ExperienceRequirementView;

    open spec fn view(&self) -> ExperienceRequirementView {
        ExperienceRequirementView {
            schema_type: self.schema_type@,
            months_of_experience: self.months_of_experience,
        }
    }
}

impl DeepView for ExperienceRequirement {
    type V = ExperienceRequirementView;

    open spec fn deep_view(&self) -> ExperienceRequirementView {
        self@
    }
}

/// A value of a field that the record's fixed fields do not name.
#[derive(Debug, PartialEq, Eq)]
pub enum JsonValue {
    Null,
    Bool(bool),
    Number(Decimal),
    Text(String),
    List(Vec<JsonValue>),
    Object(Vec<JsonMember>),
}

/// A named member of an object value.
#[derive(Debug, PartialEq, Eq)]
pub struct JsonMember {
    pub name: String,
    pub value: JsonValue,
}

impl JsonValue {
    /// A copy of this value.
    fn copy(&self) -> (r: Self)
        ensures
            r@ == self@,
        decreases self,
    {
        match self {
            JsonValue::Null => JsonValue::Null,
            JsonValue::Bool(b) => JsonValue::Bool(*b),
            JsonValue::Number(d) => JsonValue::Number(d.clone()),
            JsonValue::Text(t) => JsonValue::Text(t.clone()),
            JsonValue::List(items) => {
                assert(decreases_to!(self => items));
                let mut out: Vec<JsonValue> = Vec::new();
                let mut i: usize = 0;
                while i < items.len()
                    invariant
                        i <= items.len(),
                        decreases_to!(self => items),
                        json_values_view(out@) == json_values_view(items@.subrange(0, i as int)),
                    decreases items.len() - i,
                {
                    proof {
                        vstd::std_specs::vec::axiom_vec_index_decreases(*items, i as int);
                    }
                    let ghost before = out@;
                    let item = items[i].copy();
                    out.push(item);
                    proof {
                        assert(out@.drop_last() =~= before);
                        assert(items@.subrange(0, i + 1).drop_last() =~= items@.subrange(
                            0,
                            i as int,
                        ));
                    }
                    i += 1;
                }
                assert(items@.subrange(0, i as int) =~= items@);
                JsonValue::List(out)
            },
            JsonValue::Object(members) => {
                assert(decreases_to!(self => members));
                let mut out: Vec<JsonMember> = Vec::new();
                let mut i: usize = 0;
                while i < members.len()
                    invariant
                        i <= members.len(),
                        decreases_to!(self => members),
                        json_members_view(out@) == json_members_view(
                            members@.subrange(0, i as int),
                        ),
                    decreases members.len() - i,
                {
                    proof {
                        vstd::std_specs::vec::axiom_vec_index_decreases(*members, i as int);
                    }
                    let ghost before = out@;
                    let member = JsonMember {
                        name: members[i].name.clone(),
                        value: members[i].value.copy(),
                    };
                    out.push(member);
                    proof {
                        assert(out@.drop_last() =~= before);
                        assert(members@.subrange(0, i + 1).drop_last() =~= members@.subrange(
                            0,
                            i as int,
                        ));
                    }
                    i += 1;
                }
                assert(members@.subrange(0, i as int) =~= members@);
                JsonValue::Object(out)
            },
        }
    }
}

impl Clone for JsonValue {
    fn clone(&self) -> (r: Self)
        ensures
            r@ == self@,
    {
        self.copy()
    }
}

impl Clone for JsonMember {
    fn clone(&self) -> (r: Self)
        ensures
            r.name@ == self.name@,
            r.value@ == self.value@,
    {
        JsonMember { name: self.name.clone(), value: self.value.copy() }
    }
}

/// The value of a field outside the fixed fields: texts and numbers as
/// sequences of characters, lists and objects as sequences.
pub enum JsonValueView {
    Null,
    Bool(bool),
    Number(Seq<char>),
    Text(Seq<char>),
    List(Seq<JsonValueView>),
    Object(Seq<(Seq<char>, JsonValueView)>),
}

/// The value of `v`: the same shape, with each text as its characters.
pub open spec fn json_value_view(v: JsonValue) -> JsonValueView
    decreases v,
{
    match v {
        JsonValue::Null => JsonValueView::Null,
        JsonValue::Bool(b) => JsonValueView::Bool(b),
        JsonValue::Number(d) => JsonValueView::Number(d@),
        JsonValue::Text(t) => JsonValueView::Text(t@),
        JsonValue::List(items) => JsonValueView::List(json_values_view(items@)),
        JsonValue::Object(members) => JsonValueView::Object(json_members_view(members@)),
    }
}

/// The values of `items`, in their order.
pub open spec fn json_values_view(items: Seq<JsonValue>) -> Seq<JsonValueView>
    decreases items,
{
    if items.len() == 0 {
        Seq::empty()
    } else {
        json_values_view(items.drop_last()).push(json_value_view(items.last()))
    }
}

/// The names and values of `members`, in their order.
pub open spec fn json_members_view(members: Seq<JsonMember>) -> Seq<(Seq<char>, JsonValueView)>
    decreases members,
{
    if members.len() == 0 {
        Seq::empty()
    } else {
        json_members_view(members.drop_last()).push(
            (members.last().name@, json_value_view(members.last().value)),
        )
    }
}

impl View for JsonValue {
    type V = JsonValueView;

    open spec fn view(&self) -> JsonValueView {
        json_value_view(*self)
    }
}

/// The value of an optional list.
pub open spec fn optional_seq<T>(o: Option<Vec<T>>) -> Option<Seq<T>> {
    match o {
        Some(v) => Some(v@),
        None => None,
    }
}

} // verus!
