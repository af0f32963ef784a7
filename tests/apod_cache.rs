use earendel::apod::{apod_request_url, image_url, into_earendel_apod, target_object_name};
use earendel::{Apod, CalendarDay, EarendelApod, EarendelError, EarendelServer};

fn record(title: &str, img: Vec<u8>) -> EarendelApod {
    EarendelApod { title: title.to_string(), img, copyright: Some("Someone".to_string()) }
}

fn document(url: Option<&str>) -> Apod {
    Apod {
        id: None,
        copyright: None,
        date: "2024-03-01".to_string(),
        explanation: Some("A galaxy.".to_string()),
        hdurl: None,
        media_type: "image".to_string(),
        service_version: Some("v1".to_string()),
        title: "Spiral".to_string(),
        url: url.map(|u| u.to_string()),
    }
}

fn same(a: &EarendelApod, b: &EarendelApod) -> bool {
    a.title == b.title && a.img == b.img && a.copyright == b.copyright
}

#[test]
fn empty_cache_misses() {
    let server = EarendelServer::new();
    assert!(server.cached_apod(CalendarDay { days_from_ce: 738_000 }).is_none());
}

#[test]
fn same_day_lookups_hit_after_one_fetch() {
    let mut server = EarendelServer::new();
    let today = CalendarDay { days_from_ce: 738_000 };
    assert!(server.cached_apod(today).is_none());
    let stored = server.record_apod(today, Ok(record("Spiral", vec![1, 2, 3]))).unwrap();
    assert!(same(&stored, &record("Spiral", vec![1, 2, 3])));
    for _ in 0..3 {
        let hit = server.cached_apod(today).expect("served from the cache");
        assert!(same(&hit, &stored));
    }
}

#[test]
fn yesterdays_entry_is_not_returned_today() {
    let mut server = EarendelServer::new();
    let yesterday = CalendarDay { days_from_ce: 738_000 };
    let today = CalendarDay { days_from_ce: 738_001 };
    server.record_apod(yesterday, Ok(record("Old", vec![9]))).unwrap();
    assert!(server.cached_apod(today).is_none());
    server.record_apod(today, Ok(record("New", vec![7]))).unwrap();
    let hit = server.cached_apod(today).unwrap();
    assert_eq!(hit.title, "New");
    assert!(server.cached_apod(yesterday).is_none());
}

#[test]
fn failed_fetch_leaves_cache_alone() {
    let mut server = EarendelServer::new();
    let yesterday = CalendarDay { days_from_ce: 10 };
    let today = CalendarDay { days_from_ce: 11 };
    server.record_apod(yesterday, Ok(record("Old", vec![9]))).unwrap();
    let r = server.record_apod(today, Err(EarendelError::Transport));
    assert!(matches!(r, Err(EarendelError::Transport)));
    assert!(server.cached_apod(today).is_none());
    assert_eq!(server.cached_apod(yesterday).unwrap().title, "Old");
}

#[test]
fn get_apod_image_on_empty_cache_asks_for_fetch() {
    let server = EarendelServer::new();
    let (today, cached) = server.get_apod_image().unwrap();
    assert!(cached.is_none());
    assert!(today.days_from_ce > 738_000);
}

#[test]
fn apod_request_url_carries_key() {
    assert_eq!(apod_request_url("DEMO_KEY"), "https://api.nasa.gov/planetary/apod?api_key=DEMO_KEY");
}

#[test]
fn missing_image_url_is_data_shape_error() {
    assert!(matches!(image_url(&document(None)), Err(EarendelError::DataShape)));
}

#[test]
fn image_url_is_taken_from_document() {
    assert_eq!(image_url(&document(Some("https://apod.example/a.jpg"))).unwrap(), "https://apod.example/a.jpg");
}

#[test]
fn record_combines_document_and_bytes() {
    let mut doc = document(Some("u"));
    doc.copyright = Some("Jane".to_string());
    let r = into_earendel_apod(doc, vec![4, 5]);
    assert_eq!(r.title, "Spiral");
    assert_eq!(r.img, vec![4, 5]);
    assert_eq!(r.copyright, Some("Jane".to_string()));
}

#[test]
fn duplicate_keeps_contents() {
    let a = EarendelApod { title: "T".to_string(), img: vec![0, 255, 3], copyright: None };
    assert!(same(&a.duplicate(), &a));
}

#[test]
fn target_object_is_fallback() {
    assert_eq!(target_object_name(&record("Anything", vec![])), "NGC 4632");
}

#[test]
fn default_server_is_empty() {
    let server = EarendelServer::default();
    assert!(server.cached_apod(CalendarDay { days_from_ce: 1 }).is_none());
}

#[test]
fn clock_gives_a_day() {
    let today = CalendarDay::today().expect("the clock reads a date after 1970");
    assert!(today.days_from_ce > 738_000);
}
