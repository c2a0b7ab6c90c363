use verdant_backend::routes::farmers::SearchFarmersQuery;
use verdant_backend::routes::health::health_report;
use verdant_backend::routes::projections::{
    default_page, default_page_size, normalize_escrow_id, normalize_financing_id,
    normalize_page, normalize_page_size, normalize_verification_id, page_window, pagination,
};

#[test]
fn pages_are_normalized() {
    assert_eq!(normalize_page(0), 1);
    assert_eq!(normalize_page(-5), 1);
    assert_eq!(normalize_page(3), 3);
    assert_eq!(normalize_page_size(0), 1);
    assert_eq!(normalize_page_size(500), 100);
    assert_eq!(normalize_page_size(25), 25);
    assert_eq!(default_page(), 1);
    assert_eq!(default_page_size(), 20);
    assert_eq!(page_window(3, 10), (3, 10, 20));
    assert_eq!(page_window(0, 1000), (1, 100, 0));
}

#[test]
fn total_pages_round_up_and_are_at_least_one() {
    let p = pagination(1, 20, 0);
    assert_eq!(p.total_pages, 1);
    let p = pagination(2, 20, 41);
    assert_eq!((p.page, p.page_size, p.total, p.total_pages), (2, 20, 41, 3));
    assert_eq!(pagination(1, 10, 10).total_pages, 1);
}

#[test]
fn counter_ids_normalize_to_presentation_form() {
    assert_eq!(
        normalize_verification_id("va:verification:000000000042").ok(),
        Some("va:verification:000000000042".to_string())
    );
    assert_eq!(
        normalize_verification_id("42").ok(),
        Some("va:verification:000000000042".to_string())
    );
    assert_eq!(
        normalize_escrow_id("11").ok(),
        Some("va:escrow:000000000011".to_string())
    );
    assert_eq!(
        normalize_financing_id("7").ok(),
        Some("va:financing:000000000007".to_string())
    );
}

#[test]
fn invalid_counter_ids_are_bad_requests() {
    let e = normalize_verification_id("va:escrow:000000000001").err().unwrap();
    assert_eq!(e.status(), 400);
    assert_eq!(e.message(), "invalid verification id: va:escrow:000000000001");
    let e = normalize_escrow_id("abc").err().unwrap();
    assert_eq!(e.message(), "invalid escrow id: abc");
    let e = normalize_financing_id("va:financing:x").err().unwrap();
    assert_eq!(e.message(), "invalid financing id: va:financing:x");
}

#[test]
fn health_reports_database_state() {
    let up = health_report(true);
    assert_eq!((up.status.as_str(), up.database.as_str()), ("ok", "up"));
    let down = health_report(false);
    assert_eq!((down.status.as_str(), down.database.as_str()), ("degraded", "down"));
}

#[test]
fn search_query_holds_its_page() {
    let q = SearchFarmersQuery { q: None, page: 1, page_size: 20 };
    assert_eq!(q.page_size, 20);
}
