use property_listings::agents::{AgentRole, Caller};
use property_listings::properties::enumerates::{PurchaseStatus, SoldStatus};
use property_listings::properties::filter::{FindPropertyQuery, FindPropertySort};
use property_listings::properties::model::{ConfigFlag, DeleteAction, Property};
use property_listings::properties::pagination::PageWindow;
use property_listings::properties::predicate::{Field, Predicate};
use property_listings::properties::query::OrderSpec;
use property_listings::properties::search::{
    order, search_condition, visibility, SearchMatching,
};
use property_listings::schema::{Column, TextColumn};

fn listing(id: i32, owner: u128) -> Property {
    Property {
        id,
        user_id: owner,
        site_path: "/for-sale/villa/bali/badung/jalan-raya-kuta".to_string(),
        title: "Villa near the beach".to_string(),
        province: "bali".to_string(),
        regency: "badung".to_string(),
        street: "jalan raya kuta".to_string(),
        price: 1_500_000_000,
        purchase_status: PurchaseStatus::ForSale,
        sold_status: SoldStatus::Available,
        building_type: "villa".to_string(),
        is_deleted: false,
        configurations: vec![ConfigFlag { name: "is_popular".to_string(), value: true }],
        developer_id: Some(3),
    }
}

fn and(left: Predicate, right: Predicate) -> Predicate {
    Predicate::And(Box::new(left), Box::new(right))
}

fn or(left: Predicate, right: Predicate) -> Predicate {
    Predicate::Or(Box::new(left), Box::new(right))
}

fn visitor_base() -> Predicate {
    and(
        Predicate::Equals(Field::Deleted(false)),
        Predicate::Equals(Field::Sold(SoldStatus::Available)),
    )
}

fn agent(id: u128) -> Option<Caller> {
    Some(Caller { user_id: id, role: AgentRole::Agent })
}

fn admin(id: u128) -> Option<Caller> {
    Some(Caller { user_id: id, role: AgentRole::Admin })
}

#[test]
fn visibility_of_a_visitor_is_available_and_not_deleted() {
    assert_eq!(visibility(&None), visitor_base());
}

#[test]
fn visibility_of_an_admin_is_unconstrained() {
    assert_eq!(visibility(&admin(1)), Predicate::True);
}

#[test]
fn visibility_of_an_agent_is_own_and_not_deleted() {
    assert_eq!(
        visibility(&agent(77)),
        and(Predicate::Equals(Field::Owner(77)), Predicate::Equals(Field::Deleted(false)))
    );
}

#[test]
fn unfiltered_visitor_search_sees_exactly_available_undeleted_rows() {
    let retrieval = Property::find_many(&None, &FindPropertyQuery::default());
    assert_eq!(retrieval.predicate, visitor_base());
    assert!(!retrieval.distinct_on_site_path);
    assert_eq!(retrieval.order, OrderSpec::IdDescending);
    assert_eq!(retrieval.window, None);

    let shown = listing(1, 10);
    let mut deleted = listing(2, 10);
    deleted.is_deleted = true;
    let mut sold = listing(3, 10);
    sold.sold_status = SoldStatus::Sold;
    assert_eq!(retrieval.predicate.settle(&shown), Some(true));
    assert_eq!(retrieval.predicate.settle(&deleted), Some(false));
    assert_eq!(retrieval.predicate.settle(&sold), Some(false));
}

#[test]
fn count_uses_the_same_condition_when_no_text_is_matched() {
    let query = FindPropertyQuery {
        s: Some("42".to_string()),
        province: Some("Bali".to_string()),
        regency: Some("Badung".to_string()),
        street: Some("Jalan Raya Kuta".to_string()),
        is_popular: Some(true),
        sold_status: Some(SoldStatus::Available),
        purchase_status: Some(PurchaseStatus::ForSale),
        building_type: Some("Villa".to_string()),
        developer_id: Some(3),
        ..FindPropertyQuery::default()
    };
    for caller in [None, agent(10), admin(1)] {
        let retrieval = Property::find_many(&caller, &query);
        let count = Property::count_find_many_rows(&caller, &query);
        assert_eq!(retrieval.predicate, count.predicate);
    }
}

#[test]
fn count_applies_the_street_filter_too() {
    let query = FindPropertyQuery {
        street: Some("Jalan Sunset".to_string()),
        ..FindPropertyQuery::default()
    };
    let count = Property::count_find_many_rows(&None, &query);
    assert_eq!(
        count.predicate,
        and(
            visitor_base(),
            Predicate::Equals(Field::Text(TextColumn::Street, "jalan sunset".to_string()))
        )
    );
    assert_eq!(count.predicate.settle(&listing(1, 10)), Some(false));
}

#[test]
fn agent_search_never_admits_a_listing_of_another_agent() {
    let others = listing(5, 20);
    let queries = [
        FindPropertyQuery::default(),
        FindPropertyQuery { s: Some("5".to_string()), ..FindPropertyQuery::default() },
        FindPropertyQuery { s: Some("villa".to_string()), ..FindPropertyQuery::default() },
        FindPropertyQuery {
            province: Some("Bali".to_string()),
            purchase_status: Some(PurchaseStatus::ForSale),
            sort: Some(FindPropertySort::LowestPrice),
            ..FindPropertyQuery::default()
        },
    ];
    for query in queries.iter() {
        let retrieval = Property::find_many(&agent(10), query);
        let count = Property::count_find_many_rows(&agent(10), query);
        assert_eq!(retrieval.predicate.settle(&others), Some(false));
        assert_eq!(count.predicate.settle(&others), Some(false));
    }
    let own = listing(5, 10);
    let retrieval = Property::find_many(&agent(10), &queries[1]);
    assert_eq!(retrieval.predicate.settle(&own), Some(true));
}

#[test]
fn numeric_term_is_an_exact_id_lookup() {
    assert_eq!(
        search_condition("42", SearchMatching::Ranked),
        Predicate::Equals(Field::Id(42))
    );
    assert_eq!(
        search_condition("42", SearchMatching::Inclusive),
        Predicate::Equals(Field::Id(42))
    );
    let query = FindPropertyQuery { s: Some("42".to_string()), ..FindPropertyQuery::default() };
    let retrieval = Property::find_many(&admin(1), &query);
    assert_eq!(retrieval.predicate, and(Predicate::True, Predicate::Equals(Field::Id(42))));
    assert_eq!(retrieval.order, OrderSpec::IdDescending);

    let mut wanted = listing(42, 10);
    wanted.site_path = "/for-sale/villa/bali/badung/jalan-42".to_string();
    let mut lookalike = listing(7, 10);
    lookalike.site_path = "/for-sale/villa/bali/badung/jalan-42".to_string();
    lookalike.title = "42".to_string();
    assert_eq!(retrieval.predicate.settle(&wanted), Some(true));
    assert_eq!(retrieval.predicate.settle(&lookalike), Some(false));
}

#[test]
fn signed_and_padded_numbers_are_id_lookups() {
    for (term, id) in [("+42", 42), ("-7", -7), ("007", 7), ("0", 0), ("-0", 0),
        ("2147483647", i32::MAX), ("-2147483648", i32::MIN)]
    {
        assert_eq!(
            search_condition(term, SearchMatching::Ranked),
            Predicate::Equals(Field::Id(id)),
            "term {:?}",
            term
        );
    }
}

#[test]
fn terms_that_spell_no_integer_are_matched_as_text() {
    for term in ["", "+", "-", "4 2", " 42", "42 ", "4_2", "42a", "0x10", "1.5", "2147483648",
        "-2147483649", "99999999999999999999", "\u{0664}\u{0662}", "--1", "+-1"]
    {
        assert_eq!(
            search_condition(term, SearchMatching::Ranked),
            Predicate::Similar(TextColumn::SitePath, term.to_string(), 10),
            "term {:?}",
            term
        );
    }
}

#[test]
fn text_term_is_ranked_by_similarity_to_the_site_path() {
    let query = FindPropertyQuery { s: Some("kuta".to_string()), ..FindPropertyQuery::default() };
    let retrieval = Property::find_many(&None, &query);
    assert_eq!(
        retrieval.predicate,
        and(visitor_base(), Predicate::Similar(TextColumn::SitePath, "kuta".to_string(), 10))
    );
    assert!(retrieval.distinct_on_site_path);
    assert_eq!(retrieval.order, OrderSpec::SitePathThenSimilarity("kuta".to_string()));
    assert_eq!(retrieval.predicate.settle(&listing(1, 10)), None);
    let mut deleted = listing(2, 10);
    deleted.is_deleted = true;
    assert_eq!(retrieval.predicate.settle(&deleted), Some(false));
}

#[test]
fn text_term_is_counted_by_its_presence_in_title_or_street() {
    let found = |column: TextColumn| {
        or(
            or(
                Predicate::ILike(column, "%kuta".to_string()),
                Predicate::ILike(column, "%kuta%".to_string()),
            ),
            Predicate::ILike(column, "kuta%".to_string()),
        )
    };
    assert_eq!(
        search_condition("kuta", SearchMatching::Inclusive),
        or(found(TextColumn::Title), found(TextColumn::Street))
    );
}

#[test]
fn only_a_visitor_with_a_term_gets_one_listing_per_site_path() {
    let with_term = FindPropertyQuery { s: Some("kuta".to_string()), ..FindPropertyQuery::default() };
    let with_id = FindPropertyQuery { s: Some("12".to_string()), ..FindPropertyQuery::default() };
    let without = FindPropertyQuery::default();
    assert!(Property::find_many(&None, &with_term).distinct_on_site_path);
    assert!(Property::find_many(&None, &with_id).distinct_on_site_path);
    assert!(!Property::find_many(&None, &without).distinct_on_site_path);
    assert!(!Property::find_many(&agent(10), &with_term).distinct_on_site_path);
    assert!(!Property::find_many(&admin(1), &with_term).distinct_on_site_path);
}

#[test]
fn explicit_sort_overrides_the_order_of_the_search_term() {
    for term in [None, Some("kuta".to_string()), Some("42".to_string())] {
        let dearest = FindPropertyQuery {
            s: term.clone(),
            sort: Some(FindPropertySort::HighestPrice),
            ..FindPropertyQuery::default()
        };
        assert_eq!(order(&dearest), OrderSpec::PriceDescending);
        let cheapest = FindPropertyQuery {
            s: term,
            sort: Some(FindPropertySort::LowestPrice),
            ..FindPropertyQuery::default()
        };
        assert_eq!(order(&cheapest), OrderSpec::PriceAscending);
    }
}

#[test]
fn order_without_sort_follows_the_search_term() {
    let none = FindPropertyQuery::default();
    assert_eq!(order(&none), OrderSpec::IdDescending);
    let id = FindPropertyQuery { s: Some("42".to_string()), ..FindPropertyQuery::default() };
    assert_eq!(order(&id), OrderSpec::IdDescending);
    let text = FindPropertyQuery { s: Some("Kuta".to_string()), ..FindPropertyQuery::default() };
    assert_eq!(order(&text), OrderSpec::SitePathThenSimilarity("Kuta".to_string()));
}

#[test]
fn soft_deleted_listing_stays_findable_by_id_but_leaves_the_owners_search() {
    assert_eq!(Property::delete(AgentRole::Agent), DeleteAction::MarkDeleted);
    assert_eq!(Property::delete(AgentRole::Admin), DeleteAction::Remove);

    let mut row = listing(9, 10);
    row.is_deleted = true;
    let by_id = Property::find_one_by_id(9);
    assert_eq!(by_id.predicate, Predicate::Equals(Field::Id(9)));
    assert_eq!(by_id.predicate.settle(&row), Some(true));
    let as_admin = Property::find_many(
        &admin(1),
        &FindPropertyQuery { s: Some("9".to_string()), ..FindPropertyQuery::default() },
    );
    assert_eq!(as_admin.predicate.settle(&row), Some(true));
    let as_owner = Property::find_many(&agent(10), &FindPropertyQuery::default());
    assert_eq!(as_owner.predicate.settle(&row), Some(false));
    assert_eq!(as_owner.predicate.settle(&listing(9, 10)), Some(true));
}

#[test]
fn offer_filter_also_matches_listings_for_sale_or_rent() {
    let query = FindPropertyQuery {
        province: Some("Bali".to_string()),
        purchase_status: Some(PurchaseStatus::ForRent),
        ..FindPropertyQuery::default()
    };
    let retrieval = Property::find_many(&None, &query);
    assert_eq!(
        retrieval.predicate,
        and(
            and(
                visitor_base(),
                Predicate::Equals(Field::Text(TextColumn::Province, "bali".to_string()))
            ),
            or(
                Predicate::Equals(Field::Purchase(PurchaseStatus::ForRent)),
                Predicate::Equals(Field::Purchase(PurchaseStatus::ForSaleOrRent))
            )
        )
    );
    let mut for_rent = listing(1, 10);
    for_rent.purchase_status = PurchaseStatus::ForRent;
    let mut either = listing(2, 10);
    either.purchase_status = PurchaseStatus::ForSaleOrRent;
    let for_sale = listing(3, 10);
    let mut elsewhere = listing(4, 10);
    elsewhere.purchase_status = PurchaseStatus::ForRent;
    elsewhere.province = "jawa barat".to_string();
    assert_eq!(retrieval.predicate.settle(&for_rent), Some(true));
    assert_eq!(retrieval.predicate.settle(&either), Some(true));
    assert_eq!(retrieval.predicate.settle(&for_sale), Some(false));
    assert_eq!(retrieval.predicate.settle(&elsewhere), Some(false));
    let count = Property::count_find_many_rows(&None, &query);
    assert_eq!(count.predicate.settle(&either), Some(true));
}

#[test]
fn location_filters_lowercase_what_was_asked_for() {
    let query = FindPropertyQuery {
        province: Some("BALI".to_string()),
        regency: Some("Badung".to_string()),
        street: Some("Jalan Raya KUTA".to_string()),
        building_type: Some("Villa".to_string()),
        ..FindPropertyQuery::default()
    };
    let retrieval = Property::find_many(&admin(1), &query);
    assert_eq!(retrieval.predicate.settle(&listing(1, 10)), Some(true));
    let mut other = listing(2, 10);
    other.building_type = "house".to_string();
    assert_eq!(retrieval.predicate.settle(&other), Some(false));
}

#[test]
fn popularity_filter_tests_the_configuration_flag() {
    let popular = FindPropertyQuery { is_popular: Some(true), ..FindPropertyQuery::default() };
    let unpopular = FindPropertyQuery { is_popular: Some(false), ..FindPropertyQuery::default() };
    let retrieval = Property::find_many(&admin(1), &popular);
    assert_eq!(
        retrieval.predicate,
        and(Predicate::True, Predicate::Contains("is_popular".to_string(), true))
    );
    let flagged = listing(1, 10);
    let mut unflagged = listing(2, 10);
    unflagged.configurations = vec![ConfigFlag { name: "is_featured".to_string(), value: true }];
    let mut flagged_false = listing(3, 10);
    flagged_false.configurations = vec![ConfigFlag { name: "is_popular".to_string(), value: false }];
    assert_eq!(retrieval.predicate.settle(&flagged), Some(true));
    assert_eq!(retrieval.predicate.settle(&unflagged), Some(false));
    assert_eq!(retrieval.predicate.settle(&flagged_false), Some(false));
    let retrieval = Property::find_many(&admin(1), &unpopular);
    assert_eq!(retrieval.predicate.settle(&flagged_false), Some(true));
    assert_eq!(retrieval.predicate.settle(&unflagged), Some(false));
}

#[test]
fn developer_filter_skips_listings_without_a_developer() {
    let query = FindPropertyQuery { developer_id: Some(3), ..FindPropertyQuery::default() };
    let retrieval = Property::find_many(&admin(1), &query);
    let mut none = listing(2, 10);
    none.developer_id = None;
    let mut other = listing(3, 10);
    other.developer_id = Some(4);
    assert_eq!(retrieval.predicate.settle(&listing(1, 10)), Some(true));
    assert_eq!(retrieval.predicate.settle(&none), Some(false));
    assert_eq!(retrieval.predicate.settle(&other), Some(false));
    assert!(!Field::Developer(3).differs_in(&none));
    assert!(Field::Developer(3).differs_in(&other));
}

#[test]
fn search_window_follows_page_and_limit() {
    let paged = FindPropertyQuery { page: Some(3), limit: Some(20), ..FindPropertyQuery::default() };
    assert_eq!(
        Property::find_many(&None, &paged).window,
        Some(PageWindow { limit: 20, offset: 40 })
    );
    let limited = FindPropertyQuery { limit: Some(20), ..FindPropertyQuery::default() };
    assert_eq!(
        Property::find_many(&None, &limited).window,
        Some(PageWindow { limit: 20, offset: 0 })
    );
    let page_only = FindPropertyQuery { page: Some(3), ..FindPropertyQuery::default() };
    assert_eq!(Property::find_many(&None, &page_only).window, None);
}

#[test]
fn related_listings_exclude_the_subject_and_what_is_gone() {
    let query = FindPropertyQuery {
        street: Some("Jalan Raya Kuta".to_string()),
        s: Some("ignored".to_string()),
        province: Some("ignored".to_string()),
        limit: Some(4),
        ..FindPropertyQuery::default()
    };
    let related = Property::find_many_related(1, &query);
    assert_eq!(
        related.predicate,
        and(
            and(
                and(
                    Predicate::NotEquals(Field::Id(1)),
                    Predicate::Equals(Field::Deleted(false))
                ),
                Predicate::Equals(Field::Sold(SoldStatus::Available))
            ),
            Predicate::Equals(Field::Text(TextColumn::Street, "jalan raya kuta".to_string()))
        )
    );
    assert_eq!(related.order, OrderSpec::IdDescending);
    assert!(!related.distinct_on_site_path);
    assert_eq!(related.window, Some(PageWindow { limit: 4, offset: 0 }));
    let mut sold = listing(2, 10);
    sold.sold_status = SoldStatus::Sold;
    let mut elsewhere = listing(3, 10);
    elsewhere.street = "jalan sunset".to_string();
    assert_eq!(related.predicate.settle(&listing(1, 10)), Some(false));
    assert_eq!(related.predicate.settle(&listing(4, 20)), Some(true));
    assert_eq!(related.predicate.settle(&sold), Some(false));
    assert_eq!(related.predicate.settle(&elsewhere), Some(false));
}

#[test]
fn distinct_queries_name_their_columns_in_order() {
    assert_eq!(Property::find_distinct_site_paths().columns, vec![Column::SitePath]);
    assert_eq!(
        Property::find_distinct_building_type_paths().columns,
        vec![Column::PurchaseStatus, Column::BuildingType]
    );
    assert_eq!(
        Property::find_distinct_province_paths().columns,
        vec![Column::PurchaseStatus, Column::BuildingType, Column::Province]
    );
    assert_eq!(
        Property::find_distinct_regency_paths().columns,
        vec![Column::PurchaseStatus, Column::BuildingType, Column::Province, Column::Regency]
    );
}

#[test]
fn settle_follows_the_connectives() {
    let row = listing(1, 10);
    let yes = || Predicate::Equals(Field::Id(1));
    let no = || Predicate::Equals(Field::Id(2));
    let open = || Predicate::ILike(TextColumn::Title, "%villa%".to_string());
    assert_eq!(and(yes(), open()).settle(&row), None);
    assert_eq!(and(no(), open()).settle(&row), Some(false));
    assert_eq!(and(open(), no()).settle(&row), Some(false));
    assert_eq!(or(yes(), open()).settle(&row), Some(true));
    assert_eq!(or(open(), yes()).settle(&row), Some(true));
    assert_eq!(or(no(), open()).settle(&row), None);
    assert_eq!(or(no(), no()).settle(&row), Some(false));
    assert_eq!(and(yes(), yes()).settle(&row), Some(true));
    assert_eq!(Predicate::True.settle(&row), Some(true));
    assert_eq!(Predicate::NotEquals(Field::Id(1)).settle(&row), Some(false));
    assert_eq!(yes().and(no()), and(yes(), no()));
    assert_eq!(yes().or(no()), or(yes(), no()));
}
