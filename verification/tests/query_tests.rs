use rus_core::model::Model;
use rus_core::query::Query;
use rus_core::time::Timestamp;

fn at(secs: i64) -> Timestamp {
    Timestamp::from_secs(secs)
}

fn row(id: i32, expires: Option<i64>) -> Model {
    Model {
        id,
        long_url: format!("https://example.com/{}", id),
        short_url: format!("code{:02}", id),
        creation_date: at(10),
        expiration_date: expires.map(at),
        last_access_date: at(10),
        ip_address: String::new(),
    }
}

fn twelve() -> Vec<Model> {
    (1..=12).map(|id| row(id, None)).collect()
}

fn ids(rows: &[Model]) -> Vec<i32> {
    rows.iter().map(|row| row.id).collect()
}

#[test]
fn page_three_of_twelve_rows_by_five() {
    let rows = twelve();
    let (items, pages) = Query::find_redirections_in_page(&rows, 3, 5);
    assert_eq!(ids(&items), vec![11, 12]);
    assert_eq!(items, vec![row(11, None), row(12, None)]);
    assert_eq!(pages, 3);
}

#[test]
fn page_five_of_twelve_rows_by_five_is_empty() {
    let rows = twelve();
    let (items, pages) = Query::find_redirections_in_page(&rows, 5, 5);
    assert!(items.is_empty());
    assert_eq!(pages, 3);
}

#[test]
fn the_first_pages_are_full() {
    let rows = twelve();
    assert_eq!(ids(&Query::find_redirections_in_page(&rows, 1, 5).0), vec![1, 2, 3, 4, 5]);
    assert_eq!(ids(&Query::find_redirections_in_page(&rows, 2, 5).0), vec![6, 7, 8, 9, 10]);
    assert_eq!(ids(&Query::find_redirections_in_page(&rows, 4, 5).0), Vec::<i32>::new());
}

#[test]
fn the_pages_rejoin_to_the_listing() {
    let rows = twelve();
    for per_page in 1..=14u64 {
        let pages = Query::num_pages(12, per_page);
        let mut joined: Vec<Model> = Vec::new();
        for page in 1..=pages {
            let (items, count) = Query::find_redirections_in_page(&rows, page, per_page);
            assert_eq!(count, pages);
            assert!(!items.is_empty());
            assert!(items.len() as u64 <= per_page);
            joined.extend(items);
        }
        assert_eq!(joined, rows);
        assert!(Query::find_redirections_in_page(&rows, pages + 1, per_page).0.is_empty());
    }
}

#[test]
fn an_empty_listing_has_no_pages() {
    let rows: Vec<Model> = Vec::new();
    let (items, pages) = Query::find_redirections_in_page(&rows, 1, 5);
    assert!(items.is_empty());
    assert_eq!(pages, 0);
}

#[test]
fn huge_pages_and_sizes_do_not_overflow() {
    let rows = twelve();
    assert_eq!(Query::find_redirections_in_page(&rows, u64::MAX, u64::MAX), (vec![], 1));
    assert_eq!(Query::find_redirections_in_page(&rows, u64::MAX, 5), (vec![], 3));
    assert_eq!(Query::find_redirections_in_page(&rows, 1, u64::MAX), (rows.clone(), 1));
    assert_eq!(Query::find_redirections_in_page(&rows, 2, u64::MAX), (vec![], 1));
}

#[test]
fn the_number_of_pages_rounds_up() {
    assert_eq!(Query::num_pages(0, 5), 0);
    assert_eq!(Query::num_pages(1, 5), 1);
    assert_eq!(Query::num_pages(5, 5), 1);
    assert_eq!(Query::num_pages(6, 5), 2);
    assert_eq!(Query::num_pages(10, 5), 2);
    assert_eq!(Query::num_pages(11, 5), 3);
    assert_eq!(Query::num_pages(12, 5), 3);
    assert_eq!(Query::num_pages(12, 1), 12);
    assert_eq!(Query::num_pages(u64::MAX, 1), u64::MAX);
    assert_eq!(Query::num_pages(u64::MAX, 2), 9_223_372_036_854_775_808);
    assert_eq!(Query::num_pages(u64::MAX, u64::MAX), 1);
}

#[test]
fn page_window_gives_offset_and_end() {
    assert_eq!(Query::page_window(1, 5, 12), (0, 5));
    assert_eq!(Query::page_window(2, 5, 12), (5, 10));
    assert_eq!(Query::page_window(3, 5, 12), (10, 12));
    assert_eq!(Query::page_window(4, 5, 12), (12, 12));
    assert_eq!(Query::page_window(u64::MAX, u64::MAX, 12), (12, 12));
    assert_eq!(Query::page_window(1, 5, 0), (0, 0));
}

#[test]
fn pages_are_numbered_from_one() {
    assert_eq!(Query::page_index(1), 0);
    assert_eq!(Query::page_index(3), 2);
    assert_eq!(Query::page_index(u64::MAX), u64::MAX - 1);
}

#[test]
fn a_sweep_removes_the_expired_rows_only() {
    let mut rows = vec![
        row(1, Some(50)),
        row(2, None),
        row(3, Some(150)),
        row(4, Some(99)),
        row(5, Some(100)),
        row(6, Some(101)),
    ];
    let removed = Query::delete_outdated_redirections(&mut rows, &at(100));
    assert_eq!(removed, vec![row(1, Some(50)), row(4, Some(99))]);
    assert_eq!(rows, vec![row(2, None), row(3, Some(150)), row(5, Some(100)), row(6, Some(101))]);
}

#[test]
fn a_second_sweep_finds_nothing() {
    let mut rows = vec![row(1, Some(50)), row(2, None), row(3, Some(150))];
    let first = Query::delete_outdated_redirections(&mut rows, &at(100));
    assert_eq!(ids(&first), vec![1]);
    let left = rows.clone();
    let second = Query::delete_outdated_redirections(&mut rows, &at(100));
    assert!(second.is_empty());
    assert_eq!(rows, left);
}

#[test]
fn a_sweep_of_nothing_expired_changes_nothing() {
    let mut rows = vec![row(1, Some(500)), row(2, None)];
    let before = rows.clone();
    assert!(Query::delete_outdated_redirections(&mut rows, &at(100)).is_empty());
    assert_eq!(rows, before);
    let mut none: Vec<Model> = Vec::new();
    assert!(Query::delete_outdated_redirections(&mut none, &at(100)).is_empty());
    assert!(none.is_empty());
}

#[test]
fn a_sweep_can_empty_the_table() {
    let mut rows = vec![row(1, Some(1)), row(2, Some(2))];
    let removed = Query::delete_outdated_redirections(&mut rows, &at(3));
    assert_eq!(ids(&removed), vec![1, 2]);
    assert!(rows.is_empty());
}

#[test]
fn expiration_is_strictly_in_the_past() {
    let expiring = row(1, Some(100));
    assert!(!expiring.is_expired_at(&at(99)));
    assert!(!expiring.is_expired_at(&at(100)));
    assert!(expiring.is_expired_at(&Timestamp::new(100, 1).unwrap()));
    assert!(expiring.is_expired_at(&at(101)));
    assert!(!row(2, None).is_expired_at(&at(i64::MAX)));
}

#[test]
fn a_refresh_reaches_exactly_one_row() {
    assert!(Query::update_access_date(1));
    assert!(!Query::update_access_date(0));
    assert!(!Query::update_access_date(2));
}
