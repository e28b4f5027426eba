use daummap::keyword::Place;
use daummap::stream::{DedupIdent, PageStream, Step};

fn place(id: usize, name: &str) -> Place {
    Place {
        id: Some(id),
        name: name.to_string(),
        category: String::new(),
        category_group: None,
        phone: String::new(),
        address: String::new(),
        road_address: String::new(),
        longitude: None,
        latitude: None,
        url: String::new(),
        distance: None,
    }
}

/// Runs a stream against in-memory pages: `pages[i]` answers the fetch of
/// page `i + 1`, `None` standing for a fetch failure. Returns the emitted
/// names, how often the fetcher was invoked, and whether the stream stopped
/// on a failure.
fn drive(pages: Vec<Option<Vec<Place>>>) -> (Vec<String>, usize, bool) {
    let mut pages = pages;
    let mut s: PageStream<Place> = PageStream::new();
    let mut got: Vec<String> = Vec::new();
    let mut fetches: usize = 0;
    loop {
        match s.next_step() {
            Step::Item(p) => got.push(p.name),
            Step::Fetch(page) => {
                fetches += 1;
                match pages[page - 1].take() {
                    Some(batch) => s.on_page(batch),
                    None => s.on_fetch_error(),
                }
            }
            Step::Done => return (got, fetches, false),
            Step::Failed => return (got, fetches, true),
        }
    }
}

#[test]
fn overlapping_pages_dedup_order_and_fetch_count() {
    let pages = vec![
        Some(vec![place(1, "A"), place(2, "B")]),
        Some(vec![place(2, "B"), place(3, "C")]),
        Some(vec![]),
    ];
    let (got, fetches, failed) = drive(pages);
    assert_eq!(got, vec!["A".to_string(), "B".to_string(), "C".to_string()]);
    assert_eq!(fetches, 3);
    assert!(!failed);
}

#[test]
fn error_on_second_page_is_surfaced_after_first_items() {
    let pages = vec![Some(vec![place(1, "A")]), None];
    let (got, fetches, failed) = drive(pages);
    assert_eq!(got, vec!["A".to_string()]);
    assert_eq!(fetches, 2);
    assert!(failed);
}

#[test]
fn empty_first_page_ends_stream_after_one_fetch() {
    let pages = vec![Some(vec![])];
    let (got, fetches, failed) = drive(pages);
    assert_eq!(got, Vec::<String>::new());
    assert_eq!(fetches, 1);
    assert!(!failed);
}

#[test]
fn duplicates_within_one_page_are_dropped() {
    let pages = vec![
        Some(vec![place(1, "A"), place(1, "A"), place(2, "B")]),
        Some(vec![]),
    ];
    let (got, fetches, failed) = drive(pages);
    assert_eq!(got, vec!["A".to_string(), "B".to_string()]);
    assert_eq!(fetches, 2);
    assert!(!failed);
}

#[test]
fn page_of_only_seen_items_counts_as_empty() {
    // the third page is never requested: a page that contributes nothing new
    // exhausts the stream, even though it was not literally empty
    let pages = vec![
        Some(vec![place(1, "A"), place(2, "B")]),
        Some(vec![place(2, "B"), place(1, "A")]),
    ];
    let (got, fetches, failed) = drive(pages);
    assert_eq!(got, vec!["A".to_string(), "B".to_string()]);
    assert_eq!(fetches, 2);
    assert!(!failed);
}

#[test]
fn items_with_same_id_but_different_name_are_distinct() {
    let pages = vec![
        Some(vec![place(1, "A")]),
        Some(vec![place(1, "B")]),
        Some(vec![]),
    ];
    let (got, fetches, failed) = drive(pages);
    assert_eq!(got, vec!["A".to_string(), "B".to_string()]);
    assert_eq!(fetches, 3);
    assert!(!failed);
}

#[test]
fn no_fetch_while_buffer_holds_items() {
    let mut s: PageStream<Place> = PageStream::new();
    match s.next_step() {
        Step::Fetch(p) => assert_eq!(p, 1),
        _ => panic!("a fresh stream must ask for page 1"),
    }
    s.on_page(vec![place(1, "A"), place(2, "B")]);
    match s.next_step() {
        Step::Item(p) => assert_eq!(p.name, "A"),
        _ => panic!("a buffered item must come before any fetch"),
    }
    match s.next_step() {
        Step::Item(p) => assert_eq!(p.name, "B"),
        _ => panic!("the second buffered item must come before any fetch"),
    }
    match s.next_step() {
        Step::Fetch(p) => assert_eq!(p, 2),
        _ => panic!("a drained buffer must trigger the next page"),
    }
}

#[test]
fn failure_is_terminal_and_repeats() {
    let mut s: PageStream<Place> = PageStream::new();
    match s.next_step() {
        Step::Fetch(p) => assert_eq!(p, 1),
        _ => panic!("a fresh stream must ask for page 1"),
    }
    s.on_fetch_error();
    assert!(matches!(s.next_step(), Step::Failed));
    assert!(matches!(s.next_step(), Step::Failed));
}

#[test]
fn exhausted_stream_keeps_answering_done() {
    let mut s: PageStream<Place> = PageStream::new();
    match s.next_step() {
        Step::Fetch(p) => assert_eq!(p, 1),
        _ => panic!("a fresh stream must ask for page 1"),
    }
    s.on_page(vec![]);
    assert!(matches!(s.next_step(), Step::Done));
    assert!(matches!(s.next_step(), Step::Done));
}

#[test]
fn identity_is_deterministic_and_symmetric() {
    let a = place(1, "A");
    let b = place(1, "A");
    let c = place(2, "A");
    let d = place(1, "B");
    assert!(a.is_duplicate(&b));
    assert!(b.is_duplicate(&a));
    assert_eq!(a.is_duplicate(&b), a.is_duplicate(&b));
    assert!(!a.is_duplicate(&c));
    assert!(!c.is_duplicate(&a));
    assert!(!a.is_duplicate(&d));
    assert!(!d.is_duplicate(&a));
    assert!(a.is_duplicate(&a));
}

#[test]
fn duplicate_copies_the_identity_fields() {
    let a = place(7, "Seven");
    let copy = a.duplicate();
    assert_eq!(copy.id, Some(7));
    assert_eq!(copy.name, "Seven");
    assert!(a.is_duplicate(&copy));
}
