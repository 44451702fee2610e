//! What the encoder of tags and the decoder of tags have in common: read
//! back from its tags alone, a listing keeps what the tags carry.

use vstd::prelude::*;
use crate::events::{
    carries, decoded_employment_types, decoded_location_types, employment_tags,
    employment_type_from_upper, employment_type_name, employment_type_upper_name,
    lemma_every_employment_type_is_read, event_identifier, event_of, first_value,
    first_value_from, fixed_tags, job_tags, optional_tag, pair_tag,
    place_tags, places_tags, salary_tags, skill_tags, tag_value, tags_listing, values_of,
    EventView, Tags, TAG_CATEGORY, TAG_COMPANY, TAG_COMPANY_URL, TAG_COUNTRY, TAG_DATE_POSTED,
    TAG_EMPLOYER_PUBKEY, TAG_EMPLOYMENT_TYPE, TAG_EXPIRES, TAG_IDENTIFIER, TAG_JOB_ID,
    TAG_LIGHTNING, TAG_LOCATION, TAG_LOCATION_TYPE, TAG_REGION, TAG_SALARY, TAG_SKILL, TAG_TITLE,
};
use crate::listing::JobListingView;
use crate::text::uppercase;
use crate::types::{EmploymentType, JobLocationType, JobLocationView};

verus! {

/// No tag of `tags` is a tag of `name` with a value.
pub open spec fn lacks(tags: Tags, name: Seq<char>) -> bool {
    forall|i: int| 0 <= i < tags.len() ==> tag_value(#[trigger] tags[i], name) is None
}

/// Where no tag has the name, there is no first value of it.
pub proof fn lemma_lacking_has_no_value(tags: Tags, name: Seq<char>, start: int)
    requires
        lacks(tags, name),
        0 <= start,
    ensures
        first_value_from(tags, name, start) is None,
    decreases tags.len() - start,
{
    if start < tags.len() {
        assert(tag_value(tags[start], name) is None);
        lemma_lacking_has_no_value(tags, name, start + 1);
    }
}

/// The first value among `a` followed by `b` is the first value among
/// `a`, or, where `a` has none, the first among `b`.
pub proof fn lemma_first_value_concat(a: Tags, b: Tags, name: Seq<char>, start: int)
    requires
        0 <= start <= a.len(),
    ensures
        first_value_from(a + b, name, start) == match first_value_from(a, name, start) {
            Some(v) => Some(v),
            None => first_value(b, name),
        },
    decreases a.len() - start,
{
    if start < a.len() {
        assert((a + b)[start] == a[start]);
        lemma_first_value_concat(a, b, name, start + 1);
    } else {
        lemma_first_value_shift(a, b, name, 0);
    }
}

/// Counting from the end of `a`, the first value among `a` followed by `b`
/// is the first among `b`.
proof fn lemma_first_value_shift(a: Tags, b: Tags, name: Seq<char>, k: int)
    requires
        0 <= k <= b.len(),
    ensures
        first_value_from(a + b, name, a.len() + k) == first_value_from(b, name, k),
    decreases b.len() - k,
{
    if k < b.len() {
        assert((a + b)[a.len() + k] == b[k]);
        lemma_first_value_shift(a, b, name, k + 1);
    }
}

/// The values of a name among `a` followed by `b` are those among `a`,
/// then those among `b`.
pub proof fn lemma_values_of_concat(a: Tags, b: Tags, name: Seq<char>)
    ensures
        values_of(a + b, name) == values_of(a, name) + values_of(b, name),
    decreases b.len(),
{
    if b.len() == 0 {
        assert(a + b =~= a);
        assert(values_of(a, name) + values_of(b, name) =~= values_of(a, name));
    } else {
        assert((a + b).drop_last() =~= a + b.drop_last());
        assert((a + b).last() == b.last());
        lemma_values_of_concat(a, b.drop_last(), name);
        let rest = values_of(a, name) + values_of(b.drop_last(), name);
        match tag_value(b.last(), name) {
            Some(v) => {
                assert(rest.push(v) =~= values_of(a, name) + values_of(b.drop_last(), name).push(
                    v,
                ));
            },
            None => {},
        }
    }
}

/// Where no tag has the name, it has no values.
pub proof fn lemma_lacking_has_no_values(tags: Tags, name: Seq<char>)
    requires
        lacks(tags, name),
    ensures
        values_of(tags, name) == Seq::<Seq<char>>::empty(),
    decreases tags.len(),
{
    if tags.len() > 0 {
        assert(tag_value(tags[tags.len() - 1], name) is None);
        assert forall|i: int| 0 <= i < tags.drop_last().len() implies tag_value(
            #[trigger] tags.drop_last()[i],
            name,
        ) is None by {
            assert(tags.drop_last()[i] == tags[i]);
        }
        lemma_lacking_has_no_values(tags.drop_last(), name);
    }
}

/// The skill tags hold the skills, in their order, as values of the skill
/// name.
pub proof fn lemma_skill_values(skills: Seq<Seq<char>>)
    ensures
        values_of(skill_tags(Some(skills)), TAG_SKILL@) == skills,
    decreases skills.len(),
{
    let tags = skill_tags(Some(skills));
    if skills.len() == 0 {
        assert(values_of(tags, TAG_SKILL@) =~= skills);
    } else {
        assert(tags.drop_last() =~= skill_tags(Some(skills.drop_last())));
        assert(tags.last() == pair_tag(TAG_SKILL@, skills.last()));
        lemma_skill_values(skills.drop_last());
        assert(skills.drop_last().push(skills.last()) =~= skills);
    }
}

/// Every tag of the places is a country tag or a region tag.
pub proof fn lemma_places_names(places: Seq<JobLocationView>)
    ensures
        forall|i: int|
            0 <= i < places_tags(places).len() ==> {
                let tag = #[trigger] places_tags(places)[i];
                tag.len() == 2 && (tag[0] == TAG_COUNTRY@ || tag[0] == TAG_REGION@)
            },
    decreases places.len(),
{
    if places.len() > 0 {
        lemma_places_names(places.drop_last());
        let head = places_tags(places.drop_last());
        let tail = place_tags(places.last());
        assert forall|i: int| 0 <= i < places_tags(places).len() implies {
            let tag = #[trigger] places_tags(places)[i];
            tag.len() == 2 && (tag[0] == TAG_COUNTRY@ || tag[0] == TAG_REGION@)
        } by {
            if i < head.len() {
                assert(places_tags(places)[i] == head[i]);
            } else {
                assert(places_tags(places)[i] == tail[i - head.len()]);
            }
        }
    }
}

/// The tags of a listing that come before its optional text tags.
pub open spec fn core_tags(j: JobListingView, pubkey_hex: Seq<char>) -> Tags {
    fixed_tags(j, pubkey_hex) + employment_tags(j.employment_type) + skill_tags(j.skills)
        + salary_tags(j.base_salary) + places_tags(j.job_location)
}

/// Whether `name` is a name that the core tags of a listing use.
pub open spec fn is_core_name(name: Seq<char>) -> bool {
    ||| name == TAG_IDENTIFIER@
    ||| name == TAG_CATEGORY@
    ||| name == TAG_COMPANY@
    ||| name == TAG_JOB_ID@
    ||| name == TAG_TITLE@
    ||| name == TAG_LOCATION@
    ||| name == TAG_EMPLOYMENT_TYPE@
    ||| name == TAG_SKILL@
    ||| name == TAG_SALARY@
    ||| name == TAG_COUNTRY@
    ||| name == TAG_REGION@
}

/// Whether `name` is the name of an optional text tag, or one that only
/// the decoder knows.
pub open spec fn is_late_name(name: Seq<char>) -> bool {
    ||| name == TAG_EXPIRES@
    ||| name == TAG_EMPLOYER_PUBKEY@
    ||| name == TAG_LIGHTNING@
    ||| name == TAG_COMPANY_URL@
    ||| name == TAG_DATE_POSTED@
    ||| name == TAG_LOCATION_TYPE@
}

/// No name of the core tags is the name of an optional text tag, and the
/// names of the optional text tags differ from each other.
pub proof fn lemma_names_differ()
    ensures
        forall|name: Seq<char>| is_core_name(name) ==> !is_late_name(name),
        TAG_IDENTIFIER@ != TAG_TITLE@,
        TAG_CATEGORY@ != TAG_TITLE@,
        TAG_COMPANY@ != TAG_TITLE@,
        TAG_JOB_ID@ != TAG_TITLE@,
        TAG_IDENTIFIER@ != TAG_COMPANY@,
        TAG_CATEGORY@ != TAG_COMPANY@,
        TAG_SKILL@ != TAG_IDENTIFIER@,
        TAG_SKILL@ != TAG_CATEGORY@,
        TAG_SKILL@ != TAG_COMPANY@,
        TAG_SKILL@ != TAG_JOB_ID@,
        TAG_SKILL@ != TAG_TITLE@,
        TAG_SKILL@ != TAG_LOCATION@,
        TAG_SKILL@ != TAG_EMPLOYMENT_TYPE@,
        TAG_SKILL@ != TAG_SALARY@,
        TAG_SKILL@ != TAG_COUNTRY@,
        TAG_SKILL@ != TAG_REGION@,
        TAG_EXPIRES@ != TAG_EMPLOYER_PUBKEY@,
        TAG_EXPIRES@ != TAG_LIGHTNING@,
        TAG_EXPIRES@ != TAG_COMPANY_URL@,
        TAG_EXPIRES@ != TAG_DATE_POSTED@,
        TAG_EXPIRES@ != TAG_LOCATION_TYPE@,
        TAG_EMPLOYER_PUBKEY@ != TAG_LIGHTNING@,
        TAG_EMPLOYER_PUBKEY@ != TAG_COMPANY_URL@,
        TAG_EMPLOYER_PUBKEY@ != TAG_DATE_POSTED@,
        TAG_EMPLOYER_PUBKEY@ != TAG_LOCATION_TYPE@,
        TAG_LIGHTNING@ != TAG_COMPANY_URL@,
        TAG_LIGHTNING@ != TAG_DATE_POSTED@,
        TAG_LIGHTNING@ != TAG_LOCATION_TYPE@,
        TAG_COMPANY_URL@ != TAG_DATE_POSTED@,
        TAG_COMPANY_URL@ != TAG_LOCATION_TYPE@,
        TAG_DATE_POSTED@ != TAG_LOCATION_TYPE@,
{
    reveal_strlit("d");
    reveal_strlit("t");
    reveal_strlit("company");
    reveal_strlit("job-id");
    reveal_strlit("title");
    reveal_strlit("location");
    reveal_strlit("employment-type");
    reveal_strlit("skill");
    reveal_strlit("salary");
    reveal_strlit("country");
    reveal_strlit("region");
    reveal_strlit("expires");
    reveal_strlit("employer-pubkey");
    reveal_strlit("lightning");
    reveal_strlit("company-url");
    reveal_strlit("date-posted");
    reveal_strlit("location-type");
    assert(TAG_IDENTIFIER@.len() == 1);
    assert(TAG_CATEGORY@.len() == 1);
    assert(TAG_COMPANY@.len() == 7 && TAG_COMPANY@[0] == 'c');
    assert(TAG_JOB_ID@.len() == 6);
    assert(TAG_TITLE@.len() == 5 && TAG_TITLE@[0] == 't');
    assert(TAG_LOCATION@.len() == 8);
    assert(TAG_EMPLOYMENT_TYPE@.len() == 15 && TAG_EMPLOYMENT_TYPE@[6] == 'm');
    assert(TAG_SKILL@.len() == 5 && TAG_SKILL@[0] == 's');
    assert(TAG_SALARY@.len() == 6);
    assert(TAG_COUNTRY@.len() == 7 && TAG_COUNTRY@[0] == 'c');
    assert(TAG_REGION@.len() == 6);
    assert(TAG_EXPIRES@.len() == 7 && TAG_EXPIRES@[0] == 'e');
    assert(TAG_EMPLOYER_PUBKEY@.len() == 15 && TAG_EMPLOYER_PUBKEY@[6] == 'e');
    assert(TAG_LIGHTNING@.len() == 9);
    assert(TAG_COMPANY_URL@.len() == 11 && TAG_COMPANY_URL@[0] == 'c');
    assert(TAG_DATE_POSTED@.len() == 11 && TAG_DATE_POSTED@[0] == 'd');
    assert(TAG_LOCATION_TYPE@.len() == 13);
}

/// Every tag among the core tags of a listing has a name of the core.
pub proof fn lemma_core_names(j: JobListingView, pubkey_hex: Seq<char>)
    ensures
        forall|i: int|
            0 <= i < core_tags(j, pubkey_hex).len() ==> {
                let tag = #[trigger] core_tags(j, pubkey_hex)[i];
                tag.len() >= 2 && is_core_name(tag[0])
            },
{
    let fixed = fixed_tags(j, pubkey_hex);
    let employment = employment_tags(j.employment_type);
    let skills = skill_tags(j.skills);
    let salary = salary_tags(j.base_salary);
    let places = places_tags(j.job_location);
    let core = core_tags(j, pubkey_hex);
    lemma_places_names(j.job_location);
    let a = fixed.len();
    let b = a + employment.len();
    let c = b + skills.len();
    let d = c + salary.len();
    assert forall|i: int| 0 <= i < core.len() implies {
        let tag = #[trigger] core[i];
        tag.len() >= 2 && is_core_name(tag[0])
    } by {
        if i < a {
            assert(core[i] == fixed[i]);
        } else if i < b {
            assert(core[i] == employment[i - a]);
        } else if i < c {
            assert(core[i] == skills[i - b]);
        } else if i < d {
            assert(core[i] == salary[i - c]);
        } else {
            assert(core[i] == places[i - d]);
        }
    }
}

/// The core tags of a listing hold no tag of an optional text or of a name
/// that only the decoder knows.
pub proof fn lemma_core_lacks_late_names(j: JobListingView, pubkey_hex: Seq<char>, name: Seq<char>)
    requires
        is_late_name(name),
    ensures
        lacks(core_tags(j, pubkey_hex), name),
{
    lemma_names_differ();
    lemma_core_names(j, pubkey_hex);
    let core = core_tags(j, pubkey_hex);
    assert forall|i: int| 0 <= i < core.len() implies tag_value(#[trigger] core[i], name)
        is None by {
        assert(is_core_name(core[i][0]));
    }
}

/// The first value of `name` at or after `start` is the value of the
/// first tag from there on that has one.
pub proof fn lemma_first_value_at(tags: Tags, name: Seq<char>, start: int, at: int)
    requires
        0 <= start <= at < tags.len(),
        forall|i: int| start <= i < at ==> tag_value(#[trigger] tags[i], name) is None,
        tag_value(tags[at], name) is Some,
    ensures
        first_value_from(tags, name, start) == tag_value(tags[at], name),
    decreases at - start,
{
    if start < at {
        lemma_first_value_at(tags, name, start + 1, at);
    }
}

/// Among the tags of a listing, the first identifier tag holds the
/// identifier of the event, the first title tag the title, and the first
/// company tag the organization's name.
pub proof fn lemma_required_tags_written(j: JobListingView, pubkey_hex: Seq<char>)
    ensures
        first_value(job_tags(j, pubkey_hex), TAG_IDENTIFIER@) == Some(
            event_identifier(j, pubkey_hex),
        ),
        first_value(job_tags(j, pubkey_hex), TAG_TITLE@) == Some(j.title),
        first_value(job_tags(j, pubkey_hex), TAG_COMPANY@) == Some(j.hiring_organization.name),
{
    lemma_names_differ();
    let tags = job_tags(j, pubkey_hex);
    let fixed = fixed_tags(j, pubkey_hex);
    assert(fixed.len() == 6);
    assert(tags.len() >= 6);
    assert(tags[0] == fixed[0]);
    assert(tags[1] == fixed[1]);
    assert(tags[2] == fixed[2]);
    assert(tags[3] == fixed[3]);
    assert(tags[4] == fixed[4]);
    lemma_first_value_at(tags, TAG_IDENTIFIER@, 0, 0);
    lemma_first_value_at(tags, TAG_COMPANY@, 0, 2);
    lemma_first_value_at(tags, TAG_TITLE@, 0, 4);
}

/// Where neither `a` nor `b` has a tag of the name, `a` followed by `b`
/// has none.
pub proof fn lemma_lacks_concat(a: Tags, b: Tags, name: Seq<char>)
    requires
        lacks(a, name),
        lacks(b, name),
    ensures
        lacks(a + b, name),
{
    assert forall|i: int| 0 <= i < (a + b).len() implies tag_value(#[trigger] (a + b)[i], name)
        is None by {
        if i < a.len() {
            assert((a + b)[i] == a[i]);
        } else {
            assert((a + b)[i] == b[i - a.len()]);
        }
    }
}

/// The tags of a listing hold no location type tag: the location tag has
/// another name.
pub proof fn lemma_no_location_type_written(j: JobListingView, pubkey_hex: Seq<char>)
    ensures
        lacks(job_tags(j, pubkey_hex), TAG_LOCATION_TYPE@),
{
    lemma_names_differ();
    let key = TAG_LOCATION_TYPE@;
    let core = core_tags(j, pubkey_hex);
    let o1 = optional_tag(TAG_EXPIRES@, j.valid_through);
    let o2 = optional_tag(TAG_EMPLOYER_PUBKEY@, j.nostr_employer_pubkey);
    let o3 = optional_tag(TAG_LIGHTNING@, j.lightning_address);
    let o4 = optional_tag(TAG_COMPANY_URL@, j.hiring_organization.url);
    assert(job_tags(j, pubkey_hex) == core + o1 + o2 + o3 + o4);
    lemma_core_lacks_late_names(j, pubkey_hex, key);
    lemma_optional_lacks(TAG_EXPIRES@, j.valid_through, key);
    lemma_optional_lacks(TAG_EMPLOYER_PUBKEY@, j.nostr_employer_pubkey, key);
    lemma_optional_lacks(TAG_LIGHTNING@, j.lightning_address, key);
    lemma_optional_lacks(TAG_COMPANY_URL@, j.hiring_organization.url, key);
    lemma_lacks_concat(core, o1, key);
    lemma_lacks_concat(core + o1, o2, key);
    lemma_lacks_concat(core + o1 + o2, o3, key);
    lemma_lacks_concat(core + o1 + o2 + o3, o4, key);
}

/// The first value of `key` in an optional tag of `name` is the tag's
/// value where the names agree, and absent where they differ.
pub proof fn lemma_first_value_optional(name: Seq<char>, value: Option<Seq<char>>, key: Seq<char>)
    ensures
        first_value(optional_tag(name, value), key) == if name == key {
            value
        } else {
            None
        },
{
    let tags = optional_tag(name, value);
    if value is Some {
        assert(first_value_from(tags, key, 1) is None);
    }
}

/// Among the tags of a listing, the first value of the name of an optional
/// text tag, or of a name that only the decoder knows, is the first among
/// the optional text tags.
proof fn lemma_late_value(j: JobListingView, pubkey_hex: Seq<char>, key: Seq<char>)
    requires
        is_late_name(key),
    ensures
        first_value(job_tags(j, pubkey_hex), key) == {
            let expires = first_value(optional_tag(TAG_EXPIRES@, j.valid_through), key);
            let pubkey = first_value(
                optional_tag(TAG_EMPLOYER_PUBKEY@, j.nostr_employer_pubkey),
                key,
            );
            let lightning = first_value(optional_tag(TAG_LIGHTNING@, j.lightning_address), key);
            let url = first_value(optional_tag(TAG_COMPANY_URL@, j.hiring_organization.url), key);
            if expires is Some {
                expires
            } else if pubkey is Some {
                pubkey
            } else if lightning is Some {
                lightning
            } else {
                url
            }
        },
{
    let core = core_tags(j, pubkey_hex);
    let o1 = optional_tag(TAG_EXPIRES@, j.valid_through);
    let o2 = optional_tag(TAG_EMPLOYER_PUBKEY@, j.nostr_employer_pubkey);
    let o3 = optional_tag(TAG_LIGHTNING@, j.lightning_address);
    let o4 = optional_tag(TAG_COMPANY_URL@, j.hiring_organization.url);
    assert(job_tags(j, pubkey_hex) == core + o1 + o2 + o3 + o4);
    lemma_core_lacks_late_names(j, pubkey_hex, key);
    lemma_lacking_has_no_value(core, key, 0);
    lemma_first_value_concat(core, o1, key, 0);
    lemma_first_value_concat(core + o1, o2, key, 0);
    lemma_first_value_concat(core + o1 + o2, o3, key, 0);
    lemma_first_value_concat(core + o1 + o2 + o3, o4, key, 0);
}

/// Among the tags of a listing, the optional texts are found as they were
/// written, each under its name, and no posting date is found.
pub proof fn lemma_optional_texts_written(j: JobListingView, pubkey_hex: Seq<char>)
    ensures
        first_value(job_tags(j, pubkey_hex), TAG_EXPIRES@) == j.valid_through,
        first_value(job_tags(j, pubkey_hex), TAG_EMPLOYER_PUBKEY@) == j.nostr_employer_pubkey,
        first_value(job_tags(j, pubkey_hex), TAG_LIGHTNING@) == j.lightning_address,
        first_value(job_tags(j, pubkey_hex), TAG_COMPANY_URL@) == j.hiring_organization.url,
        first_value(job_tags(j, pubkey_hex), TAG_DATE_POSTED@) is None,
{
    lemma_names_differ();
    lemma_late_value(j, pubkey_hex, TAG_EXPIRES@);
    lemma_late_value(j, pubkey_hex, TAG_EMPLOYER_PUBKEY@);
    lemma_late_value(j, pubkey_hex, TAG_LIGHTNING@);
    lemma_late_value(j, pubkey_hex, TAG_COMPANY_URL@);
    lemma_late_value(j, pubkey_hex, TAG_DATE_POSTED@);
    lemma_first_value_optional(TAG_EXPIRES@, j.valid_through, TAG_EXPIRES@);
    lemma_first_value_optional(TAG_EXPIRES@, j.valid_through, TAG_EMPLOYER_PUBKEY@);
    lemma_first_value_optional(TAG_EXPIRES@, j.valid_through, TAG_LIGHTNING@);
    lemma_first_value_optional(TAG_EXPIRES@, j.valid_through, TAG_COMPANY_URL@);
    lemma_first_value_optional(TAG_EXPIRES@, j.valid_through, TAG_DATE_POSTED@);
    lemma_first_value_optional(TAG_EMPLOYER_PUBKEY@, j.nostr_employer_pubkey, TAG_EXPIRES@);
    lemma_first_value_optional(
        TAG_EMPLOYER_PUBKEY@,
        j.nostr_employer_pubkey,
        TAG_EMPLOYER_PUBKEY@,
    );
    lemma_first_value_optional(TAG_EMPLOYER_PUBKEY@, j.nostr_employer_pubkey, TAG_LIGHTNING@);
    lemma_first_value_optional(TAG_EMPLOYER_PUBKEY@, j.nostr_employer_pubkey, TAG_COMPANY_URL@);
    lemma_first_value_optional(TAG_EMPLOYER_PUBKEY@, j.nostr_employer_pubkey, TAG_DATE_POSTED@);
    lemma_first_value_optional(TAG_LIGHTNING@, j.lightning_address, TAG_EXPIRES@);
    lemma_first_value_optional(TAG_LIGHTNING@, j.lightning_address, TAG_EMPLOYER_PUBKEY@);
    lemma_first_value_optional(TAG_LIGHTNING@, j.lightning_address, TAG_LIGHTNING@);
    lemma_first_value_optional(TAG_LIGHTNING@, j.lightning_address, TAG_COMPANY_URL@);
    lemma_first_value_optional(TAG_LIGHTNING@, j.lightning_address, TAG_DATE_POSTED@);
    lemma_first_value_optional(TAG_COMPANY_URL@, j.hiring_organization.url, TAG_EXPIRES@);
    lemma_first_value_optional(TAG_COMPANY_URL@, j.hiring_organization.url, TAG_EMPLOYER_PUBKEY@);
    lemma_first_value_optional(TAG_COMPANY_URL@, j.hiring_organization.url, TAG_LIGHTNING@);
    lemma_first_value_optional(TAG_COMPANY_URL@, j.hiring_organization.url, TAG_COMPANY_URL@);
    lemma_first_value_optional(TAG_COMPANY_URL@, j.hiring_organization.url, TAG_DATE_POSTED@);
}

/// The skills of a listing as a list: none where the listing names none.
pub open spec fn skills_or_none(j: JobListingView) -> Seq<Seq<char>> {
    match j.skills {
        Some(s) => s,
        None => Seq::empty(),
    }
}

/// An optional tag lacks every name but its own.
proof fn lemma_optional_lacks(name: Seq<char>, value: Option<Seq<char>>, key: Seq<char>)
    requires
        name != key,
    ensures
        lacks(optional_tag(name, value), key),
{
}

/// Among the tags of a listing, the values of the skill name are the
/// listing's skills, in their order.
pub proof fn lemma_skills_written(j: JobListingView, pubkey_hex: Seq<char>)
    ensures
        values_of(job_tags(j, pubkey_hex), TAG_SKILL@) == skills_or_none(j),
{
    lemma_names_differ();
    let key = TAG_SKILL@;
    let fixed = fixed_tags(j, pubkey_hex);
    let employment = employment_tags(j.employment_type);
    let skills = skill_tags(j.skills);
    let salary = salary_tags(j.base_salary);
    let places = places_tags(j.job_location);
    let o1 = optional_tag(TAG_EXPIRES@, j.valid_through);
    let o2 = optional_tag(TAG_EMPLOYER_PUBKEY@, j.nostr_employer_pubkey);
    let o3 = optional_tag(TAG_LIGHTNING@, j.lightning_address);
    let o4 = optional_tag(TAG_COMPANY_URL@, j.hiring_organization.url);
    assert(job_tags(j, pubkey_hex) == fixed + employment + skills + salary + places + o1 + o2 + o3
        + o4);
    assert(is_core_name(key));
    assert(lacks(fixed, key));
    assert(lacks(employment, key));
    assert(lacks(salary, key));
    assert(lacks(places, key)) by {
        lemma_places_names(j.job_location);
    }
    lemma_optional_lacks(TAG_EXPIRES@, j.valid_through, key);
    lemma_optional_lacks(TAG_EMPLOYER_PUBKEY@, j.nostr_employer_pubkey, key);
    lemma_optional_lacks(TAG_LIGHTNING@, j.lightning_address, key);
    lemma_optional_lacks(TAG_COMPANY_URL@, j.hiring_organization.url, key);
    lemma_lacking_has_no_values(fixed, key);
    lemma_lacking_has_no_values(employment, key);
    lemma_lacking_has_no_values(salary, key);
    lemma_lacking_has_no_values(places, key);
    lemma_lacking_has_no_values(o1, key);
    lemma_lacking_has_no_values(o2, key);
    lemma_lacking_has_no_values(o3, key);
    lemma_lacking_has_no_values(o4, key);
    match j.skills {
        Some(s) => {
            lemma_skill_values(s);
        },
        None => {
            lemma_lacking_has_no_values(skills, key);
        },
    }
    lemma_values_of_concat(fixed, employment, key);
    lemma_values_of_concat(fixed + employment, skills, key);
    lemma_values_of_concat(fixed + employment + skills, salary, key);
    lemma_values_of_concat(fixed + employment + skills + salary, places, key);
    lemma_values_of_concat(fixed + employment + skills + salary + places, o1, key);
    lemma_values_of_concat(fixed + employment + skills + salary + places + o1, o2, key);
    lemma_values_of_concat(fixed + employment + skills + salary + places + o1 + o2, o3, key);
    lemma_values_of_concat(fixed + employment + skills + salary + places + o1 + o2 + o3, o4, key);
    assert(values_of(job_tags(j, pubkey_hex), key) =~= skills_or_none(j));
}

/// Where no tag has the location type name, no location type is decoded.
pub proof fn lemma_no_location_types(tags: Tags)
    requires
        lacks(tags, TAG_LOCATION_TYPE@),
    ensures
        decoded_location_types(tags) == Seq::<JobLocationType>::empty(),
    decreases tags.len(),
{
    if tags.len() > 0 {
        assert(tag_value(tags[tags.len() - 1], TAG_LOCATION_TYPE@) is None);
        assert forall|i: int| 0 <= i < tags.drop_last().len() implies tag_value(
            #[trigger] tags.drop_last()[i],
            TAG_LOCATION_TYPE@,
        ) is None by {
            assert(tags.drop_last()[i] == tags[i]);
        }
        lemma_no_location_types(tags.drop_last());
    }
}

/// Whether upper-casing turns the name of every employment type into the
/// upper-case form of that name. The names are plain letters; the case
/// mapping itself is not modelled, so this is a premise where it is used.
pub open spec fn names_upper_case_plainly() -> bool {
    forall|e: EmploymentType|
        uppercase(#[trigger] employment_type_name(e)) == employment_type_upper_name(e)
}

/// The employment types decoded from `a` followed by `b` are those decoded
/// from `a`, then those decoded from `b`.
pub proof fn lemma_decoded_employment_concat(a: Tags, b: Tags)
    ensures
        decoded_employment_types(a + b) == decoded_employment_types(a) + decoded_employment_types(
            b,
        ),
    decreases b.len(),
{
    if b.len() == 0 {
        assert(a + b =~= a);
        assert(decoded_employment_types(a) + decoded_employment_types(b)
            =~= decoded_employment_types(a));
    } else {
        assert((a + b).drop_last() =~= a + b.drop_last());
        assert((a + b).last() == b.last());
        lemma_decoded_employment_concat(a, b.drop_last());
        let head = decoded_employment_types(a);
        let rest = decoded_employment_types(b.drop_last());
        match tag_value(b.last(), TAG_EMPLOYMENT_TYPE@) {
            Some(v) => match employment_type_from_upper(uppercase(v)) {
                Some(e) => {
                    assert((head + rest).push(e) =~= head + rest.push(e));
                },
                None => {},
            },
            None => {},
        }
    }
}

/// Where no tag has the employment type name, no employment type is
/// decoded.
pub proof fn lemma_no_employment_types(tags: Tags)
    requires
        lacks(tags, TAG_EMPLOYMENT_TYPE@),
    ensures
        decoded_employment_types(tags) == Seq::<EmploymentType>::empty(),
    decreases tags.len(),
{
    if tags.len() > 0 {
        assert(tag_value(tags[tags.len() - 1], TAG_EMPLOYMENT_TYPE@) is None);
        assert forall|i: int| 0 <= i < tags.drop_last().len() implies tag_value(
            #[trigger] tags.drop_last()[i],
            TAG_EMPLOYMENT_TYPE@,
        ) is None by {
            assert(tags.drop_last()[i] == tags[i]);
        }
        lemma_no_employment_types(tags.drop_last());
    }
}

/// The employment type tags of a list of types decode to that list.
pub proof fn lemma_employment_tags_decode(types: Seq<EmploymentType>)
    requires
        names_upper_case_plainly(),
    ensures
        decoded_employment_types(employment_tags(types)) == types,
    decreases types.len(),
{
    let tags = employment_tags(types);
    if types.len() == 0 {
        assert(decoded_employment_types(tags) =~= types);
    } else {
        let e = types.last();
        assert(tags.drop_last() =~= employment_tags(types.drop_last()));
        assert(tags.last() == pair_tag(TAG_EMPLOYMENT_TYPE@, employment_type_name(e)));
        assert(tag_value(tags.last(), TAG_EMPLOYMENT_TYPE@) == Some(employment_type_name(e)));
        assert(uppercase(employment_type_name(e)) == employment_type_upper_name(e));
        lemma_every_employment_type_is_read(e);
        lemma_employment_tags_decode(types.drop_last());
        assert(types.drop_last().push(e) =~= types);
    }
}

/// The employment type name is the name of no other tag that a listing
/// has.
proof fn lemma_employment_name_differs()
    ensures
        TAG_EMPLOYMENT_TYPE@ != TAG_IDENTIFIER@,
        TAG_EMPLOYMENT_TYPE@ != TAG_CATEGORY@,
        TAG_EMPLOYMENT_TYPE@ != TAG_COMPANY@,
        TAG_EMPLOYMENT_TYPE@ != TAG_JOB_ID@,
        TAG_EMPLOYMENT_TYPE@ != TAG_TITLE@,
        TAG_EMPLOYMENT_TYPE@ != TAG_LOCATION@,
        TAG_EMPLOYMENT_TYPE@ != TAG_SKILL@,
        TAG_EMPLOYMENT_TYPE@ != TAG_SALARY@,
        TAG_EMPLOYMENT_TYPE@ != TAG_COUNTRY@,
        TAG_EMPLOYMENT_TYPE@ != TAG_REGION@,
        TAG_EMPLOYMENT_TYPE@ != TAG_EXPIRES@,
        TAG_EMPLOYMENT_TYPE@ != TAG_EMPLOYER_PUBKEY@,
        TAG_EMPLOYMENT_TYPE@ != TAG_LIGHTNING@,
        TAG_EMPLOYMENT_TYPE@ != TAG_COMPANY_URL@,
{
    lemma_names_differ();
    reveal_strlit("d");
    reveal_strlit("t");
    reveal_strlit("company");
    reveal_strlit("job-id");
    reveal_strlit("title");
    reveal_strlit("location");
    reveal_strlit("employment-type");
    reveal_strlit("skill");
    reveal_strlit("salary");
    reveal_strlit("country");
    reveal_strlit("region");
    assert(TAG_EMPLOYMENT_TYPE@.len() == 15);
    assert(TAG_IDENTIFIER@.len() == 1);
    assert(TAG_CATEGORY@.len() == 1);
    assert(TAG_COMPANY@.len() == 7);
    assert(TAG_JOB_ID@.len() == 6);
    assert(TAG_TITLE@.len() == 5);
    assert(TAG_LOCATION@.len() == 8);
    assert(TAG_SKILL@.len() == 5);
    assert(TAG_SALARY@.len() == 6);
    assert(TAG_COUNTRY@.len() == 7);
    assert(TAG_REGION@.len() == 6);
    assert(is_core_name(TAG_EMPLOYMENT_TYPE@));
}

/// Among the tags of a listing, the employment types that are decoded are
/// the listing's employment types, in their order.
pub proof fn lemma_employment_types_written(j: JobListingView, pubkey_hex: Seq<char>)
    requires
        names_upper_case_plainly(),
    ensures
        decoded_employment_types(job_tags(j, pubkey_hex)) == j.employment_type,
{
    lemma_employment_name_differs();
    let key = TAG_EMPLOYMENT_TYPE@;
    let fixed = fixed_tags(j, pubkey_hex);
    let employment = employment_tags(j.employment_type);
    let skills = skill_tags(j.skills);
    let salary = salary_tags(j.base_salary);
    let places = places_tags(j.job_location);
    let o1 = optional_tag(TAG_EXPIRES@, j.valid_through);
    let o2 = optional_tag(TAG_EMPLOYER_PUBKEY@, j.nostr_employer_pubkey);
    let o3 = optional_tag(TAG_LIGHTNING@, j.lightning_address);
    let o4 = optional_tag(TAG_COMPANY_URL@, j.hiring_organization.url);
    assert(job_tags(j, pubkey_hex) == fixed + employment + skills + salary + places + o1 + o2 + o3
        + o4);
    assert(lacks(fixed, key));
    assert(lacks(skills, key));
    assert(lacks(salary, key));
    assert(lacks(places, key)) by {
        lemma_places_names(j.job_location);
    }
    lemma_optional_lacks(TAG_EXPIRES@, j.valid_through, key);
    lemma_optional_lacks(TAG_EMPLOYER_PUBKEY@, j.nostr_employer_pubkey, key);
    lemma_optional_lacks(TAG_LIGHTNING@, j.lightning_address, key);
    lemma_optional_lacks(TAG_COMPANY_URL@, j.hiring_organization.url, key);
    lemma_no_employment_types(fixed);
    lemma_no_employment_types(skills);
    lemma_no_employment_types(salary);
    lemma_no_employment_types(places);
    lemma_no_employment_types(o1);
    lemma_no_employment_types(o2);
    lemma_no_employment_types(o3);
    lemma_no_employment_types(o4);
    lemma_employment_tags_decode(j.employment_type);
    lemma_decoded_employment_concat(fixed, employment);
    lemma_decoded_employment_concat(fixed + employment, skills);
    lemma_decoded_employment_concat(fixed + employment + skills, salary);
    lemma_decoded_employment_concat(fixed + employment + skills + salary, places);
    lemma_decoded_employment_concat(fixed + employment + skills + salary + places, o1);
    lemma_decoded_employment_concat(fixed + employment + skills + salary + places + o1, o2);
    lemma_decoded_employment_concat(fixed + employment + skills + salary + places + o1 + o2, o3);
    lemma_decoded_employment_concat(
        fixed + employment + skills + salary + places + o1 + o2 + o3,
        o4,
    );
    assert(decoded_employment_types(job_tags(j, pubkey_hex)) =~= j.employment_type);
}

/// Read back from its tags alone, the event of a listing gives a listing
/// that keeps what the tags carry: the title, the organization's name and
/// URL, the skills, the expiry date, the employer's key and the payment
/// address. Its identifier is that of the event, its description the
/// event's content, and its posting date the fallback date, since the
/// tags carry none. It names no location type: the tags carry the location
/// under another name than the one that is read. Its employment types are
/// those that were written, given that upper-casing their names gives the
/// upper-case names.
pub proof fn lemma_tags_round_trip(
    j: JobListingView,
    content: Seq<char>,
    pubkey_hex: Seq<char>,
    e: EventView,
    fallback_date: Seq<char>,
)
    requires
        carries(e, event_of(j, content, pubkey_hex)),
    ensures
        tags_listing(e, fallback_date) is Ok,
        ({
            let back = tags_listing(e, fallback_date)->Ok_0;
            &&& back.identifier == event_identifier(j, pubkey_hex)
            &&& back.title == j.title
            &&& back.description == content
            &&& back.date_posted == fallback_date
            &&& back.hiring_organization.name == j.hiring_organization.name
            &&& back.hiring_organization.url == j.hiring_organization.url
            &&& back.skills == Some(skills_or_none(j))
            &&& back.valid_through == j.valid_through
            &&& back.nostr_employer_pubkey == j.nostr_employer_pubkey
            &&& back.lightning_address == j.lightning_address
            &&& back.job_location_type == Some(Seq::<JobLocationType>::empty())
            &&& names_upper_case_plainly() ==> back.employment_type == j.employment_type
        }),
{
    if names_upper_case_plainly() {
        lemma_employment_types_written(j, pubkey_hex);
    }
    lemma_required_tags_written(j, pubkey_hex);
    lemma_optional_texts_written(j, pubkey_hex);
    lemma_skills_written(j, pubkey_hex);
    lemma_no_location_type_written(j, pubkey_hex);
    lemma_no_location_types(e.tags);
}

} // verus!
