//! Queries for job listing events, over the tag names that the encoder of
//! listings writes.

use vstd::prelude::*;
use crate::events::{
    employment_tags, employment_type_name, fixed_tags, job_tags, skill_tags, Event, Tags,
    CATEGORY_JOBS, KIND_JOB_LISTING, TAG_CATEGORY, TAG_COMPANY, TAG_EMPLOYMENT_TYPE, TAG_SKILL,
};
use crate::listing::JobListingView;
use crate::text::{copy_texts, text_eq};
use crate::types::EmploymentType;

verus! {

/// A condition on one tag name: an event meets it with a tag of that name
/// whose value is one of the given values. `Filter::custom_tag` adds each
/// value once and keeps the order in which they came; the order plays no
/// part in what the condition holds of.
#[derive(Clone, Debug, PartialEq, Eq)]
pub struct TagPredicate {
    pub name: String,
    pub values: Vec<String>,
}

/// The value of a condition on tags.
pub struct TagPredicateView {
    pub name: Seq<char>,
    pub values: Seq<Seq<char>>,
}

impl View for TagPredicate {
    type V = TagPredicateView;

    open spec fn view(&self) -> TagPredicateView {
        TagPredicateView { name: self.name@, values: self.values.deep_view() }
    }
}

impl DeepView for TagPredicate {
    type V = TagPredicateView;

    open spec fn deep_view(&self) -> TagPredicateView {
        self@
    }
}

/// A query: the kind of the events asked for, conditions on their tags, all
/// of which must hold, and a bound on how many events to return.
#[derive(Clone, Debug, PartialEq, Eq)]
pub struct Filter {
    pub kind: u16,
    pub tags: Vec<TagPredicate>,
    pub limit: Option<usize>,
}

/// The value of a query.
pub struct FilterView {
    pub kind: u16,
    pub tags: Seq<TagPredicateView>,
    pub limit: Option<usize>,
}

impl View for Filter {
    type V = FilterView;

    open spec fn view(&self) -> FilterView {
        FilterView { kind: self.kind, tags: self.tags.deep_view(), limit: self.limit }
    }
}

/// Whether `tag` meets the condition `p`.
pub open spec fn tag_satisfies(tag: Seq<Seq<char>>, p: TagPredicateView) -> bool {
    tag.len() >= 2 && tag[0] == p.name && p.values.contains(tag[1])
}

/// Whether one of `tags` meets the condition `p`.
pub open spec fn predicate_holds(tags: Tags, p: TagPredicateView) -> bool {
    exists|i: int| 0 <= i < tags.len() && tag_satisfies(#[trigger] tags[i], p)
}

/// Whether an event of `kind` with `tags` is among those that `f` asks for.
pub open spec fn filter_matches(f: FilterView, kind: u16, tags: Tags) -> bool {
    kind == f.kind && forall|k: int| 0 <= k < f.tags.len() ==> predicate_holds(tags, #[trigger] f.tags[k])
}

/// The first position at or after `start` of a condition on `name`; the
/// number of conditions where there is none.
pub open spec fn predicate_index(tags: Seq<TagPredicateView>, name: Seq<char>, start: int) -> int
    decreases tags.len() - start,
{
    if start < 0 || start >= tags.len() {
        tags.len() as int
    } else if tags[start].name == name {
        start
    } else {
        predicate_index(tags, name, start + 1)
    }
}

/// The condition `p`, met by `value` too.
pub open spec fn with_value(p: TagPredicateView, value: Seq<char>) -> TagPredicateView {
    if p.values.contains(value) {
        p
    } else {
        TagPredicateView { values: p.values.push(value), ..p }
    }
}

/// The query `f`, narrowed to events with a tag of `name`, where `value` is
/// one more value that such a tag may have.
pub open spec fn with_tag(f: FilterView, name: Seq<char>, value: Seq<char>) -> FilterView {
    let i = predicate_index(f.tags, name, 0);
    if i < f.tags.len() {
        FilterView { tags: f.tags.update(i, with_value(f.tags[i], value)), ..f }
    } else {
        FilterView { tags: f.tags.push(TagPredicateView { name, values: seq![value] }), ..f }
    }
}

/// The query for all job listings: the job listing kind and the jobs
/// category.
pub open spec fn base_filter() -> FilterView {
    FilterView {
        kind: KIND_JOB_LISTING,
        tags: seq![TagPredicateView { name: TAG_CATEGORY@, values: seq![CATEGORY_JOBS@] }],
        limit: None,
    }
}

/// Where `predicate_index` points inside the conditions, the condition
/// there is on `name`, and none before it is.
pub proof fn lemma_predicate_index(tags: Seq<TagPredicateView>, name: Seq<char>, start: int)
    requires
        0 <= start <= tags.len(),
    ensures
        start <= predicate_index(tags, name, start) <= tags.len(),
        predicate_index(tags, name, start) < tags.len() ==> tags[predicate_index(
            tags,
            name,
            start,
        )].name == name,
        forall|k: int| start <= k < predicate_index(tags, name, start) ==> tags[k].name != name,
    decreases tags.len() - start,
{
    if start < tags.len() && tags[start].name != name {
        lemma_predicate_index(tags, name, start + 1);
    }
}

/// Whether `text` is one of `values`.
fn contains_text(values: &Vec<String>, text: &str) -> (r: bool)
    ensures
        r == values.deep_view().contains(text@),
{
    let mut i: usize = 0;
    while i < values.len()
        invariant
            i <= values.len(),
            forall|k: int| 0 <= k < i ==> values.deep_view()[k] != text@,
        decreases values.len() - i,
    {
        if text_eq(values[i].as_str(), text) {
            assert(values.deep_view()[i as int] == text@);
            return true;
        }
        i += 1;
    }
    false
}

impl TagPredicate {
    /// Whether one of `tags` meets this condition.
    pub fn holds(&self, tags: &Vec<Vec<String>>) -> (r: bool)
        ensures
            r == predicate_holds(tags.deep_view(), self@),
    {
        let mut i: usize = 0;
        while i < tags.len()
            invariant
                i <= tags.len(),
                forall|k: int| 0 <= k < i ==> !tag_satisfies(#[trigger] tags.deep_view()[k], self@),
            decreases tags.len() - i,
        {
            let tag = &tags[i];
            assert(tags.deep_view()[i as int] == tag.deep_view());
            if tag.len() >= 2 && text_eq(tag[0].as_str(), self.name.as_str()) && contains_text(
                &self.values,
                tag[1].as_str(),
            ) {
                assert(tag_satisfies(tags.deep_view()[i as int], self@));
                return true;
            }
            i += 1;
        }
        false
    }
}

impl Filter {
    /// Whether `event` is among the events that this query asks for. The
    /// limit plays no part in that.
    pub fn matches(&self, event: &Event) -> (r: bool)
        ensures
            r == filter_matches(self@, event.kind, event.tags.deep_view()),
    {
        if event.kind != self.kind {
            return false;
        }
        let mut k: usize = 0;
        while k < self.tags.len()
            invariant
                k <= self.tags.len(),
                event.kind == self.kind,
                forall|n: int|
                    0 <= n < k ==> predicate_holds(event.tags.deep_view(), #[trigger] self@.tags[n]),
            decreases self.tags.len() - k,
        {
            assert(self@.tags[k as int] == self.tags[k as int]@);
            if !self.tags[k].holds(&event.tags) {
                return false;
            }
            k += 1;
        }
        true
    }

    /// Narrows the query to events with a tag of `name`, and lets `value`
    /// be one more value that such a tag may have.
    pub fn custom_tag(self, name: &str, value: String) -> (f: Self)
        ensures
            f@ == with_tag(self@, name@, value@),
    {
        let mut filter = self;
        let ghost before = filter@;
        let mut i: usize = 0;
        while i < filter.tags.len()
            invariant
                i <= filter.tags.len(),
                filter == self,
                predicate_index(before.tags, name@, i as int) == predicate_index(
                    before.tags,
                    name@,
                    0,
                ),
                before == self@,
            decreases filter.tags.len() - i,
        {
            assert(before.tags[i as int] == filter.tags[i as int]@);
            if text_eq(filter.tags[i].name.as_str(), name) {
                if !contains_text(&filter.tags[i].values, value.as_str()) {
                    let ghost old_values = filter.tags[i as int].values.deep_view();
                    filter.tags[i].values.push(value);
                    assert(filter.tags[i as int].values.deep_view() =~= old_values.push(value@));
                }
                assert(filter@.tags =~= before.tags.update(
                    i as int,
                    with_value(before.tags[i as int], value@),
                ));
                return filter;
            }
            i += 1;
        }
        let mut values: Vec<String> = Vec::new();
        values.push(value);
        assert(values.deep_view() =~= seq![value@]);
        filter.tags.push(TagPredicate { name: name.to_owned(), values });
        assert(filter@.tags =~= before.tags.push(
            TagPredicateView { name: name@, values: seq![value@] },
        ));
        filter
    }
}

/// Whether `c` is a letter of the basic Latin alphabet.
pub open spec fn is_letter(c: char) -> bool {
    ('a' <= c && c <= 'z') || ('A' <= c && c <= 'Z')
}

/// Whether `name` is a single letter. Relays index the tags with such a
/// name, and no others.
pub open spec fn is_single_letter(name: Seq<char>) -> bool {
    name.len() == 1 && is_letter(name[0])
}

/// The conditions among `tags` that are on a tag with a single letter for
/// a name, in their order.
pub open spec fn indexed_predicates(tags: Seq<TagPredicateView>) -> Seq<TagPredicateView>
    decreases tags.len(),
{
    if tags.len() == 0 {
        Seq::empty()
    } else {
        let rest = indexed_predicates(tags.drop_last());
        if is_single_letter(tags.last().name) {
            rest.push(tags.last())
        } else {
            rest
        }
    }
}

/// The part of the query `f` that a relay can answer.
pub open spec fn indexed_part(f: FilterView) -> FilterView {
    FilterView { tags: indexed_predicates(f.tags), ..f }
}

/// Every condition among the indexed ones is among the conditions.
pub proof fn lemma_indexed_predicates_are_among(tags: Seq<TagPredicateView>)
    ensures
        forall|k: int|
            0 <= k < indexed_predicates(tags).len() ==> tags.contains(
                #[trigger] indexed_predicates(tags)[k],
            ),
    decreases tags.len(),
{
    if tags.len() > 0 {
        let head = tags.drop_last();
        lemma_indexed_predicates_are_among(head);
        assert forall|k: int| 0 <= k < indexed_predicates(tags).len() implies tags.contains(
            #[trigger] indexed_predicates(tags)[k],
        ) by {
            let p = indexed_predicates(tags)[k];
            if k < indexed_predicates(head).len() {
                assert(p == indexed_predicates(head)[k]);
                let at = choose|i: int| 0 <= i < head.len() && head[i] == p;
                assert(tags[at] == p);
            } else {
                assert(tags[tags.len() - 1] == p);
            }
        }
    }
}

/// What a relay can answer of a query holds every event that the query
/// asks for: narrowing the answer by the whole query loses nothing.
pub proof fn lemma_indexed_part_is_weaker(f: FilterView, kind: u16, tags: Tags)
    requires
        filter_matches(f, kind, tags),
    ensures
        filter_matches(indexed_part(f), kind, tags),
{
    lemma_indexed_predicates_are_among(f.tags);
    let g = indexed_part(f);
    assert forall|k: int| 0 <= k < g.tags.len() implies predicate_holds(
        tags,
        #[trigger] g.tags[k],
    ) by {
        let at = choose|i: int| 0 <= i < f.tags.len() && f.tags[i] == g.tags[k];
        assert(predicate_holds(tags, f.tags[at]));
    }
}

/// Whether `name` is a single letter.
pub fn names_single_letter(name: &str) -> (r: bool)
    ensures
        r == is_single_letter(name@),
{
    if name.unicode_len() != 1 {
        return false;
    }
    let c = name.get_char(0);
    ('a' <= c && c <= 'z') || ('A' <= c && c <= 'Z')
}

impl Filter {
    /// The part of this query that a relay can answer: the kind, the limit,
    /// and the conditions on tags with a single letter for a name.
    pub fn indexed_part(&self) -> (f: Filter)
        ensures
            f@ == indexed_part(self@),
    {
        let mut tags: Vec<TagPredicate> = Vec::new();
        assert(self.tags.deep_view().subrange(0, 0) =~= Seq::empty());
        let mut i: usize = 0;
        while i < self.tags.len()
            invariant
                i <= self.tags.len(),
                tags.deep_view() == indexed_predicates(
                    self.tags.deep_view().subrange(0, i as int),
                ),
            decreases self.tags.len() - i,
        {
            let ghost before = tags.deep_view();
            proof {
                let all = self.tags.deep_view();
                assert(all.subrange(0, i + 1).drop_last() =~= all.subrange(0, i as int));
                assert(all.subrange(0, i + 1).last() == self.tags[i as int]@);
            }
            if names_single_letter(self.tags[i].name.as_str()) {
                let p = TagPredicate {
                    name: self.tags[i].name.clone(),
                    values: copy_texts(&self.tags[i].values),
                };
                tags.push(p);
                assert(tags.deep_view() =~= before.push(self.tags[i as int]@));
            }
            i += 1;
        }
        assert(self.tags.deep_view().subrange(0, i as int) =~= self.tags.deep_view());
        Filter { kind: self.kind, tags, limit: self.limit }
    }
}

/// Builds the query for job listings, step by step.
pub struct JobsFilter {
    filter: Filter,
}

impl View for JobsFilter {
    type V = FilterView;

    /// The query as built so far.
    closed spec fn view(&self) -> FilterView {
        self.filter@
    }
}

impl JobsFilter {
    /// The query for all job listings.
    pub fn new() -> (f: Self)
        ensures
            f@ == base_filter(),
    {
        let mut values: Vec<String> = Vec::new();
        values.push(CATEGORY_JOBS.to_owned());
        assert(values.deep_view() =~= seq![CATEGORY_JOBS@]);
        let mut tags: Vec<TagPredicate> = Vec::new();
        tags.push(TagPredicate { name: TAG_CATEGORY.to_owned(), values });
        assert(tags.deep_view() =~= base_filter().tags);
        JobsFilter { filter: Filter { kind: KIND_JOB_LISTING, tags, limit: None } }
    }

    /// Narrows the query to listings of the company `name`.
    pub fn company(self, name: &str) -> (f: Self)
        ensures
            f@ == with_tag(self@, TAG_COMPANY@, name@),
    {
        JobsFilter { filter: self.filter.custom_tag(TAG_COMPANY, name.to_owned()) }
    }

    /// Narrows the query to listings with the employment type `emp_type`.
    pub fn employment_type(self, emp_type: EmploymentType) -> (f: Self)
        ensures
            f@ == with_tag(self@, TAG_EMPLOYMENT_TYPE@, employment_type_name(emp_type)),
    {
        JobsFilter {
            filter: self.filter.custom_tag(TAG_EMPLOYMENT_TYPE, emp_type.tag_name().to_owned()),
        }
    }

    /// Narrows the query to listings that ask for `skill`.
    pub fn skill(self, skill: &str) -> (f: Self)
        ensures
            f@ == with_tag(self@, TAG_SKILL@, skill@),
    {
        JobsFilter { filter: self.filter.custom_tag(TAG_SKILL, skill.to_owned()) }
    }

    /// Bounds the number of events asked for.
    pub fn limit(self, limit: usize) -> (f: Self)
        ensures
            f@ == (FilterView { limit: Some(limit), ..self@ }),
    {
        let mut f = self;
        f.filter.limit = Some(limit);
        f
    }

    /// The query as built.
    pub fn build(self) -> (f: Filter)
        ensures
            f@ == self@,
    {
        self.filter
    }
}

impl Default for JobsFilter {
    /// The query for all job listings.
    fn default() -> (f: Self)
        ensures
            f@ == base_filter(),
    {
        JobsFilter::new()
    }
}

/// Whether one of `tags` has the name `name` and the value `value`.
pub open spec fn has_tag(tags: Tags, name: Seq<char>, value: Seq<char>) -> bool {
    exists|i: int|
        0 <= i < tags.len() && (#[trigger] tags[i]).len() >= 2 && tags[i][0] == name && tags[i][1]
            == value
}

/// Narrowing a query by a name and a value keeps every event that the
/// query matched and that has a tag of that name and value.
pub proof fn lemma_narrowing_keeps_match(
    f: FilterView,
    name: Seq<char>,
    value: Seq<char>,
    kind: u16,
    tags: Tags,
)
    requires
        filter_matches(f, kind, tags),
        has_tag(tags, name, value),
    ensures
        filter_matches(with_tag(f, name, value), kind, tags),
{
    let g = with_tag(f, name, value);
    let i = predicate_index(f.tags, name, 0);
    lemma_predicate_index(f.tags, name, 0);
    let at = choose|n: int|
        0 <= n < tags.len() && (#[trigger] tags[n]).len() >= 2 && tags[n][0] == name && tags[n][1]
            == value;
    assert forall|k: int| 0 <= k < g.tags.len() implies predicate_holds(
        tags,
        #[trigger] g.tags[k],
    ) by {
        if k == i {
            if i < f.tags.len() {
                let p = with_value(f.tags[i], value);
                assert(p.values.contains(value)) by {
                    if !f.tags[i].values.contains(value) {
                        assert(p.values[p.values.len() - 1] == value);
                    }
                }
            } else {
                assert(seq![value][0] == value);
            }
            assert(tag_satisfies(tags[at], g.tags[k]));
        } else {
            assert(g.tags[k] == f.tags[k]);
            assert(predicate_holds(tags, f.tags[k]));
        }
    }
}

/// The query for all job listings matches the event of every listing.
pub proof fn lemma_base_filter_matches(j: JobListingView, pubkey_hex: Seq<char>)
    ensures
        filter_matches(base_filter(), KIND_JOB_LISTING, job_tags(j, pubkey_hex)),
{
    let tags = job_tags(j, pubkey_hex);
    let fixed = fixed_tags(j, pubkey_hex);
    assert(tags[1] == fixed[1]);
    assert(seq![CATEGORY_JOBS@][0] == CATEGORY_JOBS@);
    assert(tag_satisfies(tags[1], base_filter().tags[0]));
}

/// The event of a listing has a company tag with the organization's name.
pub proof fn lemma_company_tag_written(j: JobListingView, pubkey_hex: Seq<char>)
    ensures
        has_tag(job_tags(j, pubkey_hex), TAG_COMPANY@, j.hiring_organization.name),
{
    let tags = job_tags(j, pubkey_hex);
    assert(tags[2] == fixed_tags(j, pubkey_hex)[2]);
}

/// The event of a listing has an employment type tag for each of the
/// listing's employment types.
pub proof fn lemma_employment_type_tag_written(
    j: JobListingView,
    pubkey_hex: Seq<char>,
    emp_type: EmploymentType,
)
    requires
        j.employment_type.contains(emp_type),
    ensures
        has_tag(job_tags(j, pubkey_hex), TAG_EMPLOYMENT_TYPE@, employment_type_name(emp_type)),
{
    let tags = job_tags(j, pubkey_hex);
    let k = choose|k: int| 0 <= k < j.employment_type.len() && j.employment_type[k] == emp_type;
    assert(fixed_tags(j, pubkey_hex).len() == 6);
    assert(tags[6 + k] == employment_tags(j.employment_type)[k]);
}

/// The event of a listing has a skill tag for each of the listing's
/// skills.
pub proof fn lemma_skill_tag_written(j: JobListingView, pubkey_hex: Seq<char>, skill: Seq<char>)
    requires
        j.skills is Some,
        j.skills->0.contains(skill),
    ensures
        has_tag(job_tags(j, pubkey_hex), TAG_SKILL@, skill),
{
    let tags = job_tags(j, pubkey_hex);
    let skills = j.skills->0;
    let k = choose|k: int| 0 <= k < skills.len() && skills[k] == skill;
    let offset = 6 + j.employment_type.len();
    assert(fixed_tags(j, pubkey_hex).len() == 6);
    assert(employment_tags(j.employment_type).len() == j.employment_type.len());
    assert(tags[offset + k] == skill_tags(j.skills)[k]);
}

/// A query narrowed to a company matches the event of every listing of
/// that company.
pub proof fn lemma_company_filter_matches(j: JobListingView, pubkey_hex: Seq<char>)
    ensures
        filter_matches(
            with_tag(base_filter(), TAG_COMPANY@, j.hiring_organization.name),
            KIND_JOB_LISTING,
            job_tags(j, pubkey_hex),
        ),
{
    lemma_base_filter_matches(j, pubkey_hex);
    lemma_company_tag_written(j, pubkey_hex);
    lemma_narrowing_keeps_match(
        base_filter(),
        TAG_COMPANY@,
        j.hiring_organization.name,
        KIND_JOB_LISTING,
        job_tags(j, pubkey_hex),
    );
}

/// A query narrowed to an employment type matches the event of every
/// listing that has that employment type.
pub proof fn lemma_employment_type_filter_matches(
    j: JobListingView,
    pubkey_hex: Seq<char>,
    emp_type: EmploymentType,
)
    requires
        j.employment_type.contains(emp_type),
    ensures
        filter_matches(
            with_tag(base_filter(), TAG_EMPLOYMENT_TYPE@, employment_type_name(emp_type)),
            KIND_JOB_LISTING,
            job_tags(j, pubkey_hex),
        ),
{
    lemma_base_filter_matches(j, pubkey_hex);
    lemma_employment_type_tag_written(j, pubkey_hex, emp_type);
    lemma_narrowing_keeps_match(
        base_filter(),
        TAG_EMPLOYMENT_TYPE@,
        employment_type_name(emp_type),
        KIND_JOB_LISTING,
        job_tags(j, pubkey_hex),
    );
}

/// A query narrowed to a skill matches the event of every listing that
/// asks for that skill.
pub proof fn lemma_skill_filter_matches(j: JobListingView, pubkey_hex: Seq<char>, skill: Seq<char>)
    requires
        j.skills is Some,
        j.skills->0.contains(skill),
    ensures
        filter_matches(
            with_tag(base_filter(), TAG_SKILL@, skill),
            KIND_JOB_LISTING,
            job_tags(j, pubkey_hex),
        ),
{
    lemma_base_filter_matches(j, pubkey_hex);
    lemma_skill_tag_written(j, pubkey_hex, skill);
    lemma_narrowing_keeps_match(
        base_filter(),
        TAG_SKILL@,
        skill,
        KIND_JOB_LISTING,
        job_tags(j, pubkey_hex),
    );
}

} // verus!
