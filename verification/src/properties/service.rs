//! The listing service: the decisions between the steps of a search. The
//! store is asked by the caller of these functions, who reports each
//! outcome back; nothing here is retried, and a failure ends the search.
//!
//! [`search_step`] is the whole of a search as a state machine: the caller
//! hands it what happened and does what it asks next, until it answers.

use crate::agents::{AgentRole, Caller};
use crate::properties::filter::{FilterSpec, FindPropertyQuery};
use crate::properties::model::{compose, related_of, retrieval_of, Property};
use crate::properties::pagination::{
    check_paging, paging_verdict, total_pages, total_pages_fits, total_pages_of, PagingError,
};
use crate::properties::predicate::PredicateView;
use crate::properties::query::{CountQuery, RetrievalQuery, RetrievalQueryView};
use crate::properties::search::count_predicate;
use crate::response::{
    bad_request, bad_request_of, forbidden, forbidden_of, outcome_of, server_error,
    server_error_of, Failure, FailureView,
};
use crate::text::reported;
use vstd::prelude::*;

verus! {

/// Who a request is made by: nobody where it names no user; the user in
/// the role that the store holds for them; and a refusal, without a
/// message, where the request names a user whose role cannot be told.
pub open spec fn caller_of(user_id: Option<u128>, role: Option<AgentRole>) -> Result<
    Option<Caller>,
    FailureView,
> {
    match user_id {
        None => Ok(None),
        Some(id) => match role {
            Some(r) => Ok(Some(Caller { user_id: id, role: r })),
            None => Err(forbidden_of(None)),
        },
    }
}

/// Settles who a search is made by. `role` is what the store answered when
/// asked for the role of `user_id`, and `None` where it had no answer; it
/// is not read where the request names no user, so that a visitor costs
/// the store nothing.
pub fn resolve_caller(user_id: Option<u128>, role: Option<AgentRole>) -> (caller: Result<
    Option<Caller>,
    Failure,
>)
    ensures
        outcome_of(caller) == caller_of(user_id, role),
{
    match user_id {
        None => Ok(None),
        Some(id) => match role {
            Some(r) => Ok(Some(Caller { user_id: id, role: r })),
            None => Err(forbidden(None)),
        },
    }
}

/// The two queries of one search: the retrieval and the count that goes
/// with it, each run on its own.
#[derive(Debug, PartialEq, Eq)]
pub struct SearchPlan {
    pub retrieval: RetrievalQuery,
    pub count: CountQuery,
    /// The limit of the search, by which the pages are counted.
    pub limit: Option<i64>,
}

/// The mathematical content of a [`SearchPlan`].
pub struct SearchPlanView {
    pub retrieval: RetrievalQueryView,
    pub count: PredicateView,
    pub limit: Option<i64>,
}

impl View for SearchPlan {
    type V = SearchPlanView;

    open spec fn view(&self) -> SearchPlanView {
        SearchPlanView { retrieval: self.retrieval@, count: self.count@, limit: self.limit }
    }
}

/// The plan of a search: the retrieval and the count of the caller's
/// search where page and limit pass, and else the reason why they are
/// turned away.
pub open spec fn plan_of(caller: Option<Caller>, filters: FilterSpec) -> Result<
    SearchPlanView,
    PagingError,
> {
    match paging_verdict(filters.page, filters.limit) {
        Ok(_) => Ok(
            SearchPlanView {
                retrieval: retrieval_of(caller, filters),
                count: count_predicate(caller, filters),
                limit: filters.limit,
            },
        ),
        Err(refusal) => Err(refusal),
    }
}

/// A planning outcome whose plan is taken by its content.
pub open spec fn planned(plan: Result<SearchPlan, PagingError>) -> Result<
    SearchPlanView,
    PagingError,
> {
    match plan {
        Ok(p) => Ok(p@),
        Err(refusal) => Err(refusal),
    }
}

/// An outcome whose query and failure are taken by their content.
pub open spec fn composed(answer: Result<RetrievalQuery, Failure>) -> Result<
    RetrievalQueryView,
    FailureView,
> {
    match answer {
        Ok(retrieval) => Ok(retrieval@),
        Err(failure) => Err(failure@),
    }
}

/// Composes the queries of a search, unless its page or limit must be
/// turned away: a page or a limit that is not positive, or an offset
/// beyond 64 bits.
pub fn plan_search(caller: &Option<Caller>, query: &FindPropertyQuery) -> (plan: Result<
    SearchPlan,
    PagingError,
>)
    ensures
        planned(plan) == plan_of(*caller, query@),
{
    match check_paging(query.page, query.limit) {
        Ok(()) => {
            let (retrieval, count) = compose(caller, query);
            Ok(SearchPlan { retrieval, count, limit: query.limit })
        },
        Err(e) => Err(e),
    }
}

/// The totals of a search, sent along with its rows.
#[derive(Clone, Copy, Debug, PartialEq, Eq, Structural)]
pub struct Totals {
    /// The number of listings that the search counts.
    pub total_data: i64,
    pub total_pages: i64,
}

/// What a search answers once its rows are fetched and its count is
/// known: the totals, or the failure of the count.
pub open spec fn totals_of(count: Result<i64, Seq<char>>, limit: Option<i64>) -> Result<
    Totals,
    FailureView,
> {
    match count {
        Ok(n) => Ok(Totals { total_data: n, total_pages: total_pages_of(n, limit) as i64 }),
        Err(message) => Err(server_error_of(message)),
    }
}

/// Concludes a search from the outcome of its count.
pub fn conclude_search(count: Result<i64, String>, limit: Option<i64>) -> (answer: Result<
    Totals,
    Failure,
>)
    requires
        count matches Ok(n) ==> total_pages_fits(n, limit),
    ensures
        outcome_of(answer) == totals_of(reported(count), limit),
{
    match count {
        Ok(n) => Ok(Totals { total_data: n, total_pages: total_pages(n, limit) }),
        Err(message) => Err(server_error(message)),
    }
}

/// The filters that find the listings in the street of a subject.
pub open spec fn street_filters(street: Seq<char>) -> FilterSpec {
    FilterSpec { street: Some(street), ..FilterSpec::unconstrained() }
}

/// The filters that find the listings in the street of a subject.
pub fn related_query(street: String) -> (query: FindPropertyQuery)
    ensures
        query@ == street_filters(street@),
{
    FindPropertyQuery {
        s: None,
        province: None,
        regency: None,
        street: Some(street),
        page: None,
        limit: None,
        is_popular: None,
        sold_status: None,
        purchase_status: None,
        building_type: None,
        sort: None,
        developer_id: None,
    }
}

/// The query for the listings related to a subject: the listings in the
/// subject's street other than the subject, or a server error with the
/// store's words where the subject could not be fetched.
pub open spec fn related_answer_of(property_id: i32, street: Result<Seq<char>, Seq<char>>)
    -> Result<RetrievalQueryView, FailureView> {
    match street {
        Ok(name) => Ok(related_of(property_id, street_filters(name))),
        Err(message) => Err(server_error_of(message)),
    }
}

/// The street of a subject, or the store's words on why it gave none, each
/// taken by its characters.
pub open spec fn street_of(street: Result<String, String>) -> Result<Seq<char>, Seq<char>> {
    match street {
        Ok(name) => Ok(name@),
        Err(message) => Err(message@),
    }
}

/// Composes the query for the listings related to a subject, from what the
/// store answered when asked for the subject's street.
pub fn find_many_related(property_id: i32, street: Result<String, String>) -> (answer: Result<
    RetrievalQuery,
    Failure,
>)
    ensures
        composed(answer) == related_answer_of(property_id, street_of(street)),
{
    match street {
        Ok(name) => {
            let query = related_query(name);
            Ok(Property::find_many_related(property_id, &query))
        },
        Err(message) => Err(server_error(message)),
    }
}

/// The query for the listings of an agent found by name: every undeleted
/// listing of theirs, as they would find them with no filter set; or a bad
/// request with the store's words where no such agent could be fetched.
pub open spec fn agent_answer_of(agent: Result<u128, Seq<char>>) -> Result<
    RetrievalQueryView,
    FailureView,
> {
    match agent {
        Ok(id) => Ok(
            retrieval_of(
                Some(Caller { user_id: id, role: AgentRole::Agent }),
                FilterSpec::unconstrained(),
            ),
        ),
        Err(message) => Err(bad_request_of(message)),
    }
}

/// Composes the query for the listings of an agent found by name, from
/// what the store answered when asked for the agent.
pub fn find_many_by_agent_name(agent: Result<u128, String>) -> (answer: Result<
    RetrievalQuery,
    Failure,
>)
    ensures
        composed(answer) == agent_answer_of(reported(agent)),
{
    match agent {
        Ok(id) => {
            let caller = Some(Caller { user_id: id, role: AgentRole::Agent });
            let query = FindPropertyQuery::default();
            Ok(Property::find_many(&caller, &query))
        },
        Err(message) => Err(bad_request(message)),
    }
}

/// Where a search stands.
#[derive(Clone, Copy, Debug, PartialEq, Eq)]
pub enum SearchState {
    /// Nothing was asked of the store yet.
    Received,
    /// The store was asked for the role of the user who signed the request.
    AwaitingRole { user_id: u128 },
    /// The store was asked for the rows of the caller's search.
    AwaitingRows { caller: Option<Caller> },
    /// The rows are there, and the store was asked for the count.
    AwaitingCount,
    /// The search has answered, with totals, a refusal or a failure.
    Answered,
}

/// What is reported to a search.
#[derive(Debug, PartialEq, Eq)]
pub enum SearchEvent {
    /// A request came in, signed by a user or by nobody.
    Request { user_id: Option<u128> },
    /// The store told the role of the user, or had none to tell.
    Role(Option<AgentRole>),
    /// The store returned the rows, or failed in the words given.
    Rows(Result<(), String>),
    /// The store returned the count, or failed in the words given.
    Count(Result<i64, String>),
}

/// The mathematical content of a [`SearchEvent`].
pub enum SearchEventView {
    Request { user_id: Option<u128> },
    Role(Option<AgentRole>),
    Rows(Result<(), Seq<char>>),
    Count(Result<i64, Seq<char>>),
}

impl View for SearchEvent {
    type V = SearchEventView;

    open spec fn view(&self) -> SearchEventView {
        match self {
            SearchEvent::Request { user_id } => SearchEventView::Request { user_id: *user_id },
            SearchEvent::Role(role) => SearchEventView::Role(*role),
            SearchEvent::Rows(outcome) => SearchEventView::Rows(reported(*outcome)),
            SearchEvent::Count(outcome) => SearchEventView::Count(reported(*outcome)),
        }
    }
}

/// What a search asks for next.
#[derive(Debug, PartialEq, Eq)]
pub enum SearchAction {
    /// Nothing: the event was none that the search waited for.
    Nothing,
    /// Ask the store for the role of this user, and report it.
    LookUpRole(u128),
    /// Run this retrieval, keep its rows, and report how it went.
    Fetch(RetrievalQuery),
    /// Run this count, and report it.
    Count(CountQuery),
    /// Answer with the rows kept and these totals.
    Answer(Totals),
    /// Turn the request away for its page or its limit.
    Refuse(PagingError),
    /// Answer with this failure and no rows.
    Fail(Failure),
}

/// The mathematical content of a [`SearchAction`].
pub enum SearchActionView {
    Nothing,
    LookUpRole(u128),
    Fetch(RetrievalQueryView),
    Count(PredicateView),
    Answer(Totals),
    Refuse(PagingError),
    Fail(FailureView),
}

impl View for SearchAction {
    type V = SearchActionView;

    open spec fn view(&self) -> SearchActionView {
        match self {
            SearchAction::Nothing => SearchActionView::Nothing,
            SearchAction::LookUpRole(user_id) => SearchActionView::LookUpRole(*user_id),
            SearchAction::Fetch(retrieval) => SearchActionView::Fetch(retrieval@),
            SearchAction::Count(count) => SearchActionView::Count(count@),
            SearchAction::Answer(totals) => SearchActionView::Answer(*totals),
            SearchAction::Refuse(refusal) => SearchActionView::Refuse(*refusal),
            SearchAction::Fail(failure) => SearchActionView::Fail(failure@),
        }
    }
}

/// How a search goes on once its caller is settled: it fetches the rows of
/// the caller's search, unless page or limit must be turned away.
pub open spec fn fetch_step(caller: Option<Caller>, filters: FilterSpec) -> (
    SearchState,
    SearchActionView,
) {
    match paging_verdict(filters.page, filters.limit) {
        Ok(_) => (
            SearchState::AwaitingRows { caller },
            SearchActionView::Fetch(retrieval_of(caller, filters)),
        ),
        Err(refusal) => (SearchState::Answered, SearchActionView::Refuse(refusal)),
    }
}

/// How a search goes on from a state on an event.
///
/// A request signed by nobody goes on at once as a visitor's; one signed
/// by a user first has the role of the user looked up, and is refused
/// where there is none. The rows are fetched before the count is asked
/// for. The first failure of the store ends the search with the store's
/// words, and nothing is asked twice. An event that the state does not
/// wait for changes nothing and asks for nothing.
pub open spec fn step_of(state: SearchState, event: SearchEventView, filters: FilterSpec) -> (
    SearchState,
    SearchActionView,
) {
    match (state, event) {
        (SearchState::Received, SearchEventView::Request { user_id: None }) => fetch_step(
            None,
            filters,
        ),
        (SearchState::Received, SearchEventView::Request { user_id: Some(id) }) => (
            SearchState::AwaitingRole { user_id: id },
            SearchActionView::LookUpRole(id),
        ),
        (SearchState::AwaitingRole { user_id }, SearchEventView::Role(Some(role))) => fetch_step(
            Some(Caller { user_id, role }),
            filters,
        ),
        (SearchState::AwaitingRole { user_id }, SearchEventView::Role(None)) => (
            SearchState::Answered,
            SearchActionView::Fail(forbidden_of(None)),
        ),
        (SearchState::AwaitingRows { caller }, SearchEventView::Rows(Ok(_))) => (
            SearchState::AwaitingCount,
            SearchActionView::Count(count_predicate(caller, filters)),
        ),
        (SearchState::AwaitingRows { caller }, SearchEventView::Rows(Err(words))) => (
            SearchState::Answered,
            SearchActionView::Fail(server_error_of(words)),
        ),
        (SearchState::AwaitingCount, SearchEventView::Count(Ok(total))) => (
            SearchState::Answered,
            SearchActionView::Answer(
                Totals {
                    total_data: total,
                    total_pages: total_pages_of(total, filters.limit) as i64,
                },
            ),
        ),
        (SearchState::AwaitingCount, SearchEventView::Count(Err(words))) => (
            SearchState::Answered,
            SearchActionView::Fail(server_error_of(words)),
        ),
        _ => (state, SearchActionView::Nothing),
    }
}

/// Whether the pages of a search can be counted on an event: that is asked
/// only of a count that arrives when the search waits for it.
pub open spec fn step_fits(state: SearchState, event: SearchEventView, filters: FilterSpec)
    -> bool {
    state is AwaitingCount ==> (event matches SearchEventView::Count(Ok(total))
        ==> total_pages_fits(total, filters.limit))
}

fn fetch(caller: Option<Caller>, query: &FindPropertyQuery) -> (next: (SearchState, SearchAction))
    ensures
        next.0 == fetch_step(caller, query@).0,
        next.1@ == fetch_step(caller, query@).1,
{
    match check_paging(query.page, query.limit) {
        Ok(()) => (
            SearchState::AwaitingRows { caller },
            SearchAction::Fetch(Property::find_many(&caller, query)),
        ),
        Err(refusal) => (SearchState::Answered, SearchAction::Refuse(refusal)),
    }
}

/// Takes a search one step further: from where it stands and what is
/// reported to it, to where it stands next and what it asks for. The
/// filters are those of the request, the same at every step.
pub fn search_step(state: SearchState, event: SearchEvent, query: &FindPropertyQuery) -> (next: (
    SearchState,
    SearchAction,
))
    requires
        step_fits(state, event@, query@),
    ensures
        next.0 == step_of(state, event@, query@).0,
        next.1@ == step_of(state, event@, query@).1,
{
    match state {
        SearchState::Received => match event {
            SearchEvent::Request { user_id: None } => fetch(None, query),
            SearchEvent::Request { user_id: Some(id) } => (
                SearchState::AwaitingRole { user_id: id },
                SearchAction::LookUpRole(id),
            ),
            _ => (state, SearchAction::Nothing),
        },
        SearchState::AwaitingRole { user_id } => match event {
            SearchEvent::Role(role) => match resolve_caller(Some(user_id), role) {
                Ok(caller) => fetch(caller, query),
                Err(failure) => (SearchState::Answered, SearchAction::Fail(failure)),
            },
            _ => (state, SearchAction::Nothing),
        },
        SearchState::AwaitingRows { caller } => match event {
            SearchEvent::Rows(Ok(_)) => (
                SearchState::AwaitingCount,
                SearchAction::Count(Property::count_find_many_rows(&caller, query)),
            ),
            SearchEvent::Rows(Err(words)) => (
                SearchState::Answered,
                SearchAction::Fail(server_error(words)),
            ),
            _ => (state, SearchAction::Nothing),
        },
        SearchState::AwaitingCount => match event {
            SearchEvent::Count(outcome) => match conclude_search(outcome, query.limit) {
                Ok(totals) => (SearchState::Answered, SearchAction::Answer(totals)),
                Err(failure) => (SearchState::Answered, SearchAction::Fail(failure)),
            },
            _ => (state, SearchAction::Nothing),
        },
        SearchState::Answered => (state, SearchAction::Nothing),
    }
}

impl SearchState {
    /// How far a search has come: the number of things that it has asked
    /// for or answered.
    pub open spec fn progress(self) -> nat {
        match self {
            SearchState::Received => 0,
            SearchState::AwaitingRole { .. } => 1,
            SearchState::AwaitingRows { .. } => 2,
            SearchState::AwaitingCount => 3,
            SearchState::Answered => 4,
        }
    }
}

/// A search never goes back and never asks twice: a step either asks for
/// nothing and leaves the search where it stands, or takes it further. A
/// search that has answered asks for nothing more, and only a search that
/// has answered stops asking.
pub proof fn search_advances(state: SearchState, event: SearchEventView, filters: FilterSpec)
    ensures
        step_of(state, event, filters).1 is Nothing ==> step_of(state, event, filters).0 == state,
        !(step_of(state, event, filters).1 is Nothing) ==> step_of(state, event, filters).0.progress()
            > state.progress(),
        state is Answered ==> step_of(state, event, filters).1 is Nothing,
        step_of(state, event, filters).0 is Answered <==> state is Answered || step_of(
            state,
            event,
            filters,
        ).1 is Answer || step_of(state, event, filters).1 is Refuse || step_of(
            state,
            event,
            filters,
        ).1 is Fail,
{
}

} // verus!
