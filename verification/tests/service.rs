use property_listings::agents::{
    admin_gate, authorize_update, needs_admin, resolve_updater, AgentRole, Caller,
};
use property_listings::properties::enumerates::SoldStatus;
use property_listings::properties::filter::FindPropertyQuery;
use property_listings::properties::model::{compose, Property};
use property_listings::properties::pagination::{PageWindow, PagingError};
use property_listings::properties::predicate::{Field, Predicate};
use property_listings::properties::query::OrderSpec;
use property_listings::properties::service::{
    conclude_search, find_many_by_agent_name, find_many_related, plan_search, related_query,
    resolve_caller, search_step, SearchAction, SearchEvent, SearchState, Totals,
};
use property_listings::response::{
    bad_request, forbidden, lookup_failure, server_error, Failure, StoreError, STATUS_BAD_REQUEST,
    STATUS_CREATED, STATUS_FORBIDDEN, STATUS_NOT_FOUND, STATUS_OK, STATUS_SERVER_ERROR,
};
use property_listings::schema::TextColumn;

fn and(left: Predicate, right: Predicate) -> Predicate {
    Predicate::And(Box::new(left), Box::new(right))
}

#[test]
fn statuses_have_their_numbers() {
    assert_eq!(STATUS_OK, 200);
    assert_eq!(STATUS_CREATED, 201);
    assert_eq!(STATUS_BAD_REQUEST, 400);
    assert_eq!(STATUS_FORBIDDEN, 403);
    assert_eq!(STATUS_NOT_FOUND, 404);
    assert_eq!(STATUS_SERVER_ERROR, 500);
}

#[test]
fn failures_carry_status_and_message() {
    assert_eq!(
        server_error("connection reset".to_string()),
        Failure { status: 500, message: Some("connection reset".to_string()) }
    );
    assert_eq!(
        bad_request("no such agent".to_string()),
        Failure { status: 400, message: Some("no such agent".to_string()) }
    );
    assert_eq!(forbidden(None), Failure { status: 403, message: None });
    assert_eq!(
        forbidden(Some("Forbidden".to_string())),
        Failure { status: 403, message: Some("Forbidden".to_string()) }
    );
}

#[test]
fn lookup_failure_tells_not_found_from_the_rest() {
    let missing = StoreError { not_found: true, message: "Record not found".to_string() };
    assert_eq!(
        lookup_failure(missing, "Bank"),
        Failure { status: 404, message: Some("Bank not found".to_string()) }
    );
    let missing = StoreError { not_found: true, message: "Record not found".to_string() };
    assert_eq!(
        lookup_failure(missing, "Developer"),
        Failure { status: 404, message: Some("Developer not found".to_string()) }
    );
    let broken = StoreError { not_found: false, message: "connection reset".to_string() };
    assert_eq!(
        lookup_failure(broken, "Bank"),
        Failure { status: 500, message: Some("connection reset".to_string()) }
    );
}

#[test]
fn visitor_needs_no_role() {
    assert_eq!(resolve_caller(None, None), Ok(None));
    assert_eq!(resolve_caller(None, Some(AgentRole::Admin)), Ok(None));
}

#[test]
fn signed_in_caller_takes_the_role_of_the_store() {
    assert_eq!(
        resolve_caller(Some(7), Some(AgentRole::Agent)),
        Ok(Some(Caller { user_id: 7, role: AgentRole::Agent }))
    );
    assert_eq!(
        resolve_caller(Some(u128::MAX), Some(AgentRole::Admin)),
        Ok(Some(Caller { user_id: u128::MAX, role: AgentRole::Admin }))
    );
}

#[test]
fn caller_of_unknown_role_is_refused() {
    assert_eq!(resolve_caller(Some(7), None), Err(Failure { status: 403, message: None }));
}

#[test]
fn plan_holds_both_queries_of_a_search() {
    let query = FindPropertyQuery {
        s: Some("kuta".to_string()),
        page: Some(2),
        limit: Some(10),
        ..FindPropertyQuery::default()
    };
    let caller = Some(Caller { user_id: 7, role: AgentRole::Agent });
    let plan = plan_search(&caller, &query).unwrap();
    assert_eq!(plan.retrieval, Property::find_many(&caller, &query));
    assert_eq!(plan.count, Property::count_find_many_rows(&caller, &query));
    assert_eq!(plan.retrieval.window, Some(PageWindow { limit: 10, offset: 10 }));
    assert_eq!(plan.limit, Some(10));
}

#[test]
fn plan_turns_away_bad_pages_and_limits() {
    let zero_limit = FindPropertyQuery { limit: Some(0), ..FindPropertyQuery::default() };
    assert_eq!(plan_search(&None, &zero_limit), Err(PagingError::LimitNotPositive));
    let negative_page =
        FindPropertyQuery { page: Some(-1), limit: Some(5), ..FindPropertyQuery::default() };
    assert_eq!(plan_search(&None, &negative_page), Err(PagingError::PageNotPositive));
    let far_out = FindPropertyQuery {
        page: Some(i64::MAX),
        limit: Some(i64::MAX),
        ..FindPropertyQuery::default()
    };
    assert_eq!(plan_search(&None, &far_out), Err(PagingError::OffsetOutOfRange));
}

#[test]
fn search_concludes_with_totals() {
    assert_eq!(
        conclude_search(Ok(10), Some(5)),
        Ok(Totals { total_data: 10, total_pages: 3 })
    );
    assert_eq!(conclude_search(Ok(10), None), Ok(Totals { total_data: 10, total_pages: 1 }));
    assert_eq!(conclude_search(Ok(0), Some(20)), Ok(Totals { total_data: 0, total_pages: 1 }));
}

#[test]
fn failed_count_ends_the_search_with_the_stores_words() {
    assert_eq!(
        conclude_search(Err("relation does not exist".to_string()), Some(5)),
        Err(Failure { status: 500, message: Some("relation does not exist".to_string()) })
    );
    assert_eq!(
        conclude_search(Err("down".to_string()), Some(0)),
        Err(Failure { status: 500, message: Some("down".to_string()) })
    );
}

#[test]
fn related_query_constrains_the_street_only() {
    let query = related_query("jalan raya kuta".to_string());
    assert_eq!(
        query,
        FindPropertyQuery {
            street: Some("jalan raya kuta".to_string()),
            ..FindPropertyQuery::default()
        }
    );
}

#[test]
fn related_listings_share_the_street_of_the_subject() {
    let retrieval = find_many_related(4, Ok("Jalan Raya Kuta".to_string())).unwrap();
    assert_eq!(
        retrieval.predicate,
        and(
            and(
                and(Predicate::NotEquals(Field::Id(4)), Predicate::Equals(Field::Deleted(false))),
                Predicate::Equals(Field::Sold(SoldStatus::Available))
            ),
            Predicate::Equals(Field::Text(TextColumn::Street, "jalan raya kuta".to_string()))
        )
    );
    assert_eq!(retrieval.order, OrderSpec::IdDescending);
    assert_eq!(retrieval.window, None);
    assert_eq!(
        find_many_related(4, Err("Record not found".to_string())),
        Err(Failure { status: 500, message: Some("Record not found".to_string()) })
    );
}

#[test]
fn listings_of_a_named_agent_are_their_own_undeleted_ones() {
    let retrieval = find_many_by_agent_name(Ok(12)).unwrap();
    assert_eq!(
        retrieval.predicate,
        and(Predicate::Equals(Field::Owner(12)), Predicate::Equals(Field::Deleted(false)))
    );
    assert_eq!(retrieval.order, OrderSpec::IdDescending);
    assert!(!retrieval.distinct_on_site_path);
    assert_eq!(retrieval.window, None);
    assert_eq!(
        find_many_by_agent_name(Err("Record not found".to_string())),
        Err(Failure { status: 400, message: Some("Record not found".to_string()) })
    );
}

#[test]
fn reading_passes_the_admin_gate_unasked() {
    assert!(!needs_admin(true));
    assert!(needs_admin(false));
}

#[test]
fn only_an_admin_passes_the_gate() {
    assert_eq!(admin_gate(Ok(AgentRole::Admin)), Ok(()));
    assert_eq!(admin_gate(Ok(AgentRole::Agent)), Err(Failure { status: 403, message: None }));
    assert_eq!(
        admin_gate(Err("Record not found".to_string())),
        Err(Failure { status: 403, message: Some("Record not found".to_string()) })
    );
}

#[test]
fn updater_is_known_by_the_role_of_the_store() {
    assert_eq!(
        resolve_updater(7, Ok(AgentRole::Agent)),
        Ok(Caller { user_id: 7, role: AgentRole::Agent })
    );
    assert_eq!(
        resolve_updater(7, Err("Record not found".to_string())),
        Err(Failure { status: 400, message: Some("Record not found".to_string()) })
    );
}

#[test]
fn owner_and_admin_may_update_a_listing() {
    let owner = Caller { user_id: 7, role: AgentRole::Agent };
    let stranger = Caller { user_id: 8, role: AgentRole::Agent };
    let admin = Caller { user_id: 9, role: AgentRole::Admin };
    assert_eq!(authorize_update(owner, Ok(7)), Ok(()));
    assert_eq!(authorize_update(admin, Ok(7)), Ok(()));
    assert_eq!(
        authorize_update(stranger, Ok(7)),
        Err(Failure { status: 403, message: Some("Forbidden".to_string()) })
    );
    assert_eq!(
        authorize_update(owner, Err("Record not found".to_string())),
        Err(Failure { status: 400, message: Some("Record not found".to_string()) })
    );
}

#[test]
fn composer_gives_retrieval_and_count_of_one_search() {
    let query = FindPropertyQuery {
        s: Some("kuta".to_string()),
        province: Some("Bali".to_string()),
        limit: Some(10),
        ..FindPropertyQuery::default()
    };
    let (retrieval, count) = compose(&None, &query);
    assert_eq!(retrieval, Property::find_many(&None, &query));
    assert_eq!(count, Property::count_find_many_rows(&None, &query));
    assert!(retrieval.predicate != count.predicate);
}

#[test]
fn request_without_a_readable_caller_is_unauthorized() {
    assert_eq!(
        property_listings::response::unauthorized(),
        Failure { status: 401, message: Some("Unauthorized".to_string()) }
    );
    assert_eq!(property_listings::response::STATUS_UNAUTHORIZED, 401);
}

fn paged_search() -> FindPropertyQuery {
    FindPropertyQuery {
        s: Some("kuta".to_string()),
        page: Some(2),
        limit: Some(5),
        ..FindPropertyQuery::default()
    }
}

#[test]
fn visitor_search_runs_from_request_to_totals() {
    let query = paged_search();
    let (state, action) =
        search_step(SearchState::Received, SearchEvent::Request { user_id: None }, &query);
    assert_eq!(state, SearchState::AwaitingRows { caller: None });
    assert_eq!(action, SearchAction::Fetch(Property::find_many(&None, &query)));

    let (state, action) = search_step(state, SearchEvent::Rows(Ok(())), &query);
    assert_eq!(state, SearchState::AwaitingCount);
    assert_eq!(action, SearchAction::Count(Property::count_find_many_rows(&None, &query)));

    let (state, action) = search_step(state, SearchEvent::Count(Ok(10)), &query);
    assert_eq!(state, SearchState::Answered);
    assert_eq!(action, SearchAction::Answer(Totals { total_data: 10, total_pages: 3 }));

    let (state, action) = search_step(state, SearchEvent::Count(Ok(10)), &query);
    assert_eq!(state, SearchState::Answered);
    assert_eq!(action, SearchAction::Nothing);
}

#[test]
fn signed_search_looks_up_the_role_first() {
    let query = paged_search();
    let (state, action) =
        search_step(SearchState::Received, SearchEvent::Request { user_id: Some(7) }, &query);
    assert_eq!(state, SearchState::AwaitingRole { user_id: 7 });
    assert_eq!(action, SearchAction::LookUpRole(7));

    let caller = Some(Caller { user_id: 7, role: AgentRole::Agent });
    let (state, action) = search_step(state, SearchEvent::Role(Some(AgentRole::Agent)), &query);
    assert_eq!(state, SearchState::AwaitingRows { caller });
    assert_eq!(action, SearchAction::Fetch(Property::find_many(&caller, &query)));

    let (state, action) = search_step(state, SearchEvent::Rows(Ok(())), &query);
    assert_eq!(state, SearchState::AwaitingCount);
    assert_eq!(action, SearchAction::Count(Property::count_find_many_rows(&caller, &query)));
}

#[test]
fn signed_search_without_a_role_is_refused() {
    let query = paged_search();
    let (state, action) = search_step(
        SearchState::AwaitingRole { user_id: 7 },
        SearchEvent::Role(None),
        &query,
    );
    assert_eq!(state, SearchState::Answered);
    assert_eq!(action, SearchAction::Fail(Failure { status: 403, message: None }));
}

#[test]
fn failed_retrieval_ends_the_search_before_the_count() {
    let query = paged_search();
    let (state, action) = search_step(
        SearchState::AwaitingRows { caller: None },
        SearchEvent::Rows(Err("connection reset".to_string())),
        &query,
    );
    assert_eq!(state, SearchState::Answered);
    assert_eq!(
        action,
        SearchAction::Fail(Failure { status: 500, message: Some("connection reset".to_string()) })
    );
}

#[test]
fn failed_count_ends_the_search() {
    let query = paged_search();
    let (state, action) = search_step(
        SearchState::AwaitingCount,
        SearchEvent::Count(Err("timeout".to_string())),
        &query,
    );
    assert_eq!(state, SearchState::Answered);
    assert_eq!(
        action,
        SearchAction::Fail(Failure { status: 500, message: Some("timeout".to_string()) })
    );
}

#[test]
fn search_with_a_bad_page_is_turned_away_before_the_store_is_asked() {
    let query = FindPropertyQuery { page: Some(0), limit: Some(5), ..FindPropertyQuery::default() };
    let (state, action) =
        search_step(SearchState::Received, SearchEvent::Request { user_id: None }, &query);
    assert_eq!(state, SearchState::Answered);
    assert_eq!(action, SearchAction::Refuse(PagingError::PageNotPositive));

    let (state, action) = search_step(
        SearchState::AwaitingRole { user_id: 7 },
        SearchEvent::Role(Some(AgentRole::Admin)),
        &FindPropertyQuery { limit: Some(-1), ..FindPropertyQuery::default() },
    );
    assert_eq!(state, SearchState::Answered);
    assert_eq!(action, SearchAction::Refuse(PagingError::LimitNotPositive));
}

#[test]
fn unexpected_event_changes_nothing() {
    let query = paged_search();
    let states = [
        SearchState::Received,
        SearchState::AwaitingRole { user_id: 7 },
        SearchState::AwaitingRows { caller: None },
        SearchState::Answered,
    ];
    for state in states {
        let (next, action) = search_step(state, SearchEvent::Count(Ok(3)), &query);
        assert_eq!(next, state);
        assert_eq!(action, SearchAction::Nothing);
    }
    let (next, action) =
        search_step(SearchState::AwaitingCount, SearchEvent::Rows(Ok(())), &query);
    assert_eq!(next, SearchState::AwaitingCount);
    assert_eq!(action, SearchAction::Nothing);
    let (next, action) = search_step(
        SearchState::AwaitingRows { caller: None },
        SearchEvent::Request { user_id: None },
        &query,
    );
    assert_eq!(next, SearchState::AwaitingRows { caller: None });
    assert_eq!(action, SearchAction::Nothing);
}
