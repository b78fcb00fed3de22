//! The queries for vulnerabilities and what is answered to them.

use vstd::prelude::*;
use crate::handlers::status::INTERNAL_SERVER_ERROR;
use crate::handlers::status::NOT_FOUND;
use crate::handlers::status::all_or_status;
use crate::handlers::status::one_or_status;
use crate::models::fix_commits;
use crate::models::timestamp::datetime_text;
use crate::models::timestamp::show_datetime;
use crate::models::vulnerabilities::Model;

verus! {

/// The parameters of a listing.
#[derive(Debug)]
pub struct ListQuery {
    pub limit: Option<u64>,
    pub offset: Option<u64>,
    pub package_name: Option<String>,
    pub severity_id: Option<i32>,
    pub type_id: Option<i32>,
}

/// The parameters of a search by an advisory identifier.
#[derive(Debug)]
pub struct SearchQuery {
    pub id_type: String,
    pub id_value: String,
}

/// A vulnerability as the API shows it.
#[derive(Debug)]
pub struct VulnerabilityResponse {
    pub id: i32,
    pub package_name: String,
    pub severity_id: i32,
    pub type_id: i32,
    pub summary: Option<String>,
    pub details: Option<String>,
    pub published_at: Option<String>,
}

/// One condition that a listing puts on the records that it returns.
#[derive(Debug)]
pub enum Filter {
    PackageName(String),
    SeverityId(i32),
    TypeId(i32),
}

/// The conditions that a listing asks for: one for each of the package
/// name, the severity and the type that the query gives, in this order.
pub open spec fn filters_of(query: ListQuery) -> Seq<Filter> {
    (match query.package_name {
        Some(name) => seq![Filter::PackageName(name)],
        None => Seq::empty(),
    }) + (match query.severity_id {
        Some(severity) => seq![Filter::SeverityId(severity)],
        None => Seq::empty(),
    }) + (match query.type_id {
        Some(kind) => seq![Filter::TypeId(kind)],
        None => Seq::empty(),
    })
}

/// What a response says, as plain text.
pub struct Shown {
    pub id: i32,
    pub package_name: Seq<char>,
    pub severity_id: i32,
    pub type_id: i32,
    pub summary: Option<Seq<char>>,
    pub details: Option<Seq<char>>,
    pub published_at: Option<Seq<char>>,
}

/// The characters of a string, where there is one.
pub open spec fn text_of(text: Option<String>) -> Option<Seq<char>> {
    match text {
        Some(inner) => Some(inner@),
        None => None,
    }
}

impl View for VulnerabilityResponse {
    type V = Shown;

    open spec fn view(&self) -> Shown {
        Shown {
            id: self.id,
            package_name: self.package_name@,
            severity_id: self.severity_id,
            type_id: self.type_id,
            summary: text_of(self.summary),
            details: text_of(self.details),
            published_at: text_of(self.published_at),
        }
    }
}

/// A string or none, copied.
fn copy_text(text: &Option<String>) -> (copy: Option<String>)
    ensures
        copy == *text,
{
    match text {
        Some(inner) => Some(inner.clone()),
        None => None,
    }
}

impl ListQuery {
    /// The conditions to put on the listing that this query asks for.
    pub fn filters(&self) -> (conditions: Vec<Filter>)
        ensures
            conditions@ == filters_of(*self),
    {
        let mut conditions: Vec<Filter> = Vec::new();
        if let Some(name) = &self.package_name {
            conditions.push(Filter::PackageName(name.clone()));
        }
        if let Some(severity) = self.severity_id {
            conditions.push(Filter::SeverityId(severity));
        }
        if let Some(kind) = self.type_id {
            conditions.push(Filter::TypeId(kind));
        }
        assert(conditions@ =~= filters_of(*self));
        conditions
    }
}

impl VulnerabilityResponse {
    /// What the API shows of a record: its identifier, package, severity,
    /// type, summary and details as they are, and the time of publication
    /// in its text form.
    pub open spec fn of(model: Model) -> Shown {
        Shown {
            id: model.id,
            package_name: model.package_name@,
            severity_id: model.severity_id,
            type_id: model.type_id,
            summary: text_of(model.summary),
            details: text_of(model.details),
            published_at: match model.published_at {
                Some(at) => Some(datetime_text(at)),
                None => None,
            },
        }
    }

    /// Makes the response for a record.
    pub fn from_model(model: &Model) -> (response: Self)
        ensures
            response@ == Self::of(*model),
    {
        let published_at = match &model.published_at {
            Some(at) => Some(show_datetime(at)),
            None => None,
        };
        VulnerabilityResponse {
            id: model.id,
            package_name: model.package_name.clone(),
            severity_id: model.severity_id,
            type_id: model.type_id,
            summary: copy_text(&model.summary),
            details: copy_text(&model.details),
            published_at,
        }
    }
}

/// The responses for a list of records, one for one.
pub open spec fn responses_of(models: Seq<Model>) -> Seq<Shown> {
    models.map_values(|model: Model| VulnerabilityResponse::of(model))
}

/// What a list of responses says, entry by entry.
pub open spec fn shown(responses: Seq<VulnerabilityResponse>) -> Seq<Shown> {
    responses.map_values(|response: VulnerabilityResponse| response@)
}

/// The answer to a listing: the responses for the records that the query
/// returned, in their order, or `INTERNAL_SERVER_ERROR` where it failed.
pub fn list<E>(fetched: Result<Vec<Model>, E>) -> (answer: Result<Vec<VulnerabilityResponse>, u16>)
    ensures
        match fetched {
            Ok(models) => answer is Ok && shown(answer->Ok_0@) == responses_of(models@),
            Err(_) => answer == Err::<Vec<VulnerabilityResponse>, u16>(INTERNAL_SERVER_ERROR),
        },
{
    match all_or_status(fetched) {
        Ok(models) => {
            let mut response: Vec<VulnerabilityResponse> = Vec::new();
            let mut i: usize = 0;
            while i < models.len()
                invariant
                    i <= models.len(),
                    shown(response@) == responses_of(models@.take(i as int)),
                decreases models.len() - i,
            {
                let ghost before = response@;
                let next = VulnerabilityResponse::from_model(&models[i]);
                let ghost said = next@;
                response.push(next);
                assert(shown(response@) =~= shown(before).push(said));
                assert(shown(response@) =~= responses_of(models@.take(i + 1)));
                i += 1;
            }
            assert(models@.take(models.len() as int) =~= models@);
            Ok(response)
        },
        Err(status) => Err(status),
    }
}

/// The answer to a query for one vulnerability: its response where the
/// query found it, `NOT_FOUND` where it found none, and
/// `INTERNAL_SERVER_ERROR` where the query failed.
pub fn get_by_id<E>(looked_up: Result<Option<Model>, E>) -> (answer: Result<
    VulnerabilityResponse,
    u16,
>)
    ensures
        match looked_up {
            Ok(Some(model)) => answer is Ok && answer->Ok_0@ == VulnerabilityResponse::of(model),
            Ok(None) => answer == Err::<VulnerabilityResponse, u16>(NOT_FOUND),
            Err(_) => answer == Err::<VulnerabilityResponse, u16>(INTERNAL_SERVER_ERROR),
        },
{
    match one_or_status(looked_up) {
        Ok(model) => Ok(VulnerabilityResponse::from_model(&model)),
        Err(status) => Err(status),
    }
}

/// What a search does once the advisory identifier was looked up.
#[derive(Debug)]
pub enum SearchStep {
    /// Answer with this status.
    Fail(u16),
    /// Query for the vulnerability with this identifier, and answer as
    /// `get_by_id` says.
    FindVulnerability(i32),
}

/// Decides how a search goes on after its query for the advisory
/// identifier, which gives the identifier of the vulnerability that the
/// advisory is about: on to the vulnerability where there is one,
/// `NOT_FOUND` where no advisory has the identifier, and
/// `INTERNAL_SERVER_ERROR` where the query failed.
pub fn search<E>(looked_up: Result<Option<i32>, E>) -> (next: SearchStep)
    ensures
        next == match looked_up {
            Ok(Some(vulnerability_id)) => SearchStep::FindVulnerability(vulnerability_id),
            Ok(None) => SearchStep::Fail(NOT_FOUND),
            Err(_) => SearchStep::Fail(INTERNAL_SERVER_ERROR),
        },
{
    match one_or_status(looked_up) {
        Ok(vulnerability_id) => SearchStep::FindVulnerability(vulnerability_id),
        Err(status) => SearchStep::Fail(status),
    }
}

/// What a query for the files or the functions of a vulnerability does once
/// the commits that fix it are known.
#[derive(Debug)]
pub enum NextStep {
    /// The first query failed: answer with this status.
    Fail(u16),
    /// No commit fixes the vulnerability: answer with the empty list, and
    /// make no second query.
    AnswerEmpty,
    /// Query for the records of the commits with these identifiers.
    QueryByCommits(Vec<i32>),
}

/// Decides how a query for the files or the functions of a vulnerability
/// goes on after its query for the fix commits.
pub fn after_commits<E>(fetched: Result<Vec<fix_commits::Model>, E>) -> (next: NextStep)
    ensures
        match fetched {
            Err(_) => next == NextStep::Fail(INTERNAL_SERVER_ERROR),
            Ok(commits) => if commits@.len() == 0 {
                next == NextStep::AnswerEmpty
            } else {
                next matches NextStep::QueryByCommits(ids) && ids@ == fix_commits::ids_of(commits@)
            },
        },
{
    match all_or_status(fetched) {
        Err(status) => NextStep::Fail(status),
        Ok(commits) => {
            let mut commit_ids: Vec<i32> = Vec::new();
            let mut i: usize = 0;
            while i < commits.len()
                invariant
                    i <= commits.len(),
                    commit_ids@ == fix_commits::ids_of(commits@.take(i as int)),
                decreases commits.len() - i,
            {
                commit_ids.push(commits[i].id);
                assert(commit_ids@ =~= fix_commits::ids_of(commits@.take(i + 1)));
                i += 1;
            }
            assert(commits@.take(commits.len() as int) =~= commits@);
            if commit_ids.len() == 0 {
                NextStep::AnswerEmpty
            } else {
                NextStep::QueryByCommits(commit_ids)
            }
        },
    }
}

} // verus!
