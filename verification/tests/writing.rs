use property_listings::properties::create_update::{
    place, site_path, CreateUpdatePropertyApiPayload,
};
use property_listings::properties::enumerates::{PurchaseStatus, SoldStatus};
use property_listings::properties::site_paths::find_site_paths;

fn payload() -> CreateUpdatePropertyApiPayload {
    CreateUpdatePropertyApiPayload {
        title: "  Villa Near The Beach ".to_string(),
        description: "Three Bedrooms".to_string(),
        province: " Bali ".to_string(),
        regency: "Badung".to_string(),
        street: "Jalan Raya Kuta".to_string(),
        gmap_iframe: Some("<iframe src=\"X\"></iframe>".to_string()),
        price: 1_500_000_000,
        purchase_status: PurchaseStatus::ForSaleOrRent,
        sold_status: Some(SoldStatus::Available),
        building_type: " Town House".to_string(),
        building_certificate: Some("SHM".to_string()),
        description_seo: Some("Villa For Sale".to_string()),
        price_down_payment: Some(150_000_000),
        developer_id: Some(3),
        bank_id: None,
    }
}

#[test]
fn site_path_joins_offer_type_and_place() {
    assert_eq!(
        site_path(PurchaseStatus::ForSale, "Villa", "Bali", "Badung", "Jalan Raya Kuta"),
        "/for-sale/villa/bali/badung/jalan-raya-kuta"
    );
    assert_eq!(
        site_path(PurchaseStatus::ForRent, " Town House ", " DKI Jakarta", "Jakarta Selatan ", "Jl. Sudirman No 1"),
        "/for-rent/town-house/dki-jakarta/jakarta-selatan/jl.-sudirman-no-1"
    );
    assert_eq!(site_path(PurchaseStatus::ForSaleOrRent, "", "", "", ""), "/for-sale-or-rent////");
}

#[test]
fn place_is_trimmed_and_lowercased() {
    assert_eq!(place("  Jawa Barat "), "jawa barat");
    assert_eq!(place("BALI"), "bali");
    assert_eq!(place(""), "");
}

#[test]
fn payload_is_normalised_for_the_store() {
    let stored = payload().to_sql_payload();
    assert_eq!(stored.site_path, "/for-sale-or-rent/town-house/bali/badung/jalan-raya-kuta");
    assert_eq!(stored.title, "  Villa Near The Beach ");
    assert_eq!(stored.description, "Three Bedrooms");
    assert_eq!(stored.province, "bali");
    assert_eq!(stored.regency, "badung");
    assert_eq!(stored.street, "jalan raya kuta");
    assert_eq!(stored.gmap_iframe, Some("<iframe src=\"X\"></iframe>".to_string()));
    assert_eq!(stored.price, 1_500_000_000);
    assert_eq!(stored.purchase_status, PurchaseStatus::ForSaleOrRent);
    assert_eq!(stored.sold_status, Some(SoldStatus::Available));
    assert_eq!(stored.building_type, " town house");
    assert_eq!(stored.building_certificate, Some("shm".to_string()));
    assert_eq!(stored.description_seo, Some("Villa For Sale".to_string()));
    assert_eq!(stored.price_down_payment, Some(150_000_000));
    assert_eq!(stored.developer_id, Some(3));
    assert_eq!(stored.bank_id, None);
}

#[test]
fn payload_without_certificate_stores_none() {
    let mut sent = payload();
    sent.building_certificate = None;
    sent.sold_status = None;
    let stored = sent.to_sql_payload();
    assert_eq!(stored.building_certificate, None);
    assert_eq!(stored.sold_status, None);
}

#[test]
fn site_map_lists_every_group_in_order() {
    let building_types = Some(vec![
        (PurchaseStatus::ForRent, "town house".to_string()),
        (PurchaseStatus::ForSale, "villa".to_string()),
    ]);
    let provinces = Some(vec![(
        PurchaseStatus::ForSale,
        "villa".to_string(),
        "jawa barat".to_string(),
    )]);
    let regencies = Some(vec![(
        PurchaseStatus::ForSaleOrRent,
        "town house".to_string(),
        "dki jakarta".to_string(),
        "jakarta selatan".to_string(),
    )]);
    let listed = Some(vec![
        "/for-sale/villa/bali/badung/jalan-a".to_string(),
        "/for-sale/villa/bali/badung/jalan-b".to_string(),
    ]);
    assert_eq!(
        find_site_paths(&building_types, &provinces, &regencies, &listed),
        vec![
            "/for-sale",
            "/for-rent",
            "/for-rent/town-house",
            "/for-sale/villa",
            "/for-sale/villa/jawa-barat",
            "/for-sale-or-rent/town-house/dki-jakarta/jakarta-selatan",
            "/for-sale/villa/bali/badung/jalan-a",
            "/for-sale/villa/bali/badung/jalan-b",
        ]
    );
}

#[test]
fn site_map_leaves_out_what_the_store_could_not_report() {
    assert_eq!(find_site_paths(&None, &None, &None, &None), vec!["/for-sale", "/for-rent"]);
    let listed = Some(vec!["/for-sale/villa/bali/badung/jalan-a".to_string()]);
    assert_eq!(
        find_site_paths(&None, &None, &None, &listed),
        vec!["/for-sale", "/for-rent", "/for-sale/villa/bali/badung/jalan-a"]
    );
    let provinces = Some(vec![(PurchaseStatus::ForRent, "villa".to_string(), "bali".to_string())]);
    assert_eq!(
        find_site_paths(&Some(vec![]), &provinces, &None, &Some(vec![])),
        vec!["/for-sale", "/for-rent", "/for-rent/villa/bali"]
    );
}

#[test]
fn site_map_hyphenates_but_does_not_change_case() {
    let building_types = Some(vec![(PurchaseStatus::ForSale, "Town House ".to_string())]);
    assert_eq!(
        find_site_paths(&building_types, &None, &None, &None),
        vec!["/for-sale", "/for-rent", "/for-sale/Town-House-"]
    );
}
