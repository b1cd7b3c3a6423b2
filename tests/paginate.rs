use registrar::paginate::{OffsetSweep, Page, PageSweep, SweepStep};
use registrar::Error;

/// Runs a next-page sweep against `pages`, keyed by page number; returns the
/// outcome and the page numbers fetched.
fn run_pages(pages: &[(u64, Vec<u32>, Option<i32>)]) -> (registrar::Result<Vec<u32>>, Vec<u64>) {
    let mut fetched = Vec::new();
    let mut sweep = PageSweep::new();
    loop {
        let cursor = sweep.cursor();
        fetched.push(cursor);
        let answer = match pages.iter().find(|p| p.0 == cursor) {
            Some((_, items, next)) => Ok(Page { items: items.clone(), next_page: *next }),
            None => Err(Error::Http(format!("no page {}", cursor))),
        };
        match sweep.step(answer) {
            SweepStep::Fetch(next) => sweep = next,
            SweepStep::Done(items) => return (Ok(items), fetched),
            SweepStep::Failed(e) => return (Err(e), fetched),
        }
    }
}

/// Runs an offset sweep against answers given in fetch order; returns the
/// outcome and the offsets fetched.
fn run_batches(answers: Vec<registrar::Result<Vec<u32>>>) -> (registrar::Result<Vec<u32>>, Vec<u64>) {
    let mut fetched = Vec::new();
    let mut answers = answers.into_iter();
    let mut sweep = OffsetSweep::new();
    loop {
        fetched.push(sweep.cursor());
        let answer = answers.next().expect("the sweep fetched more than was served");
        match sweep.step(answer) {
            SweepStep::Fetch(next) => sweep = next,
            SweepStep::Done(items) => return (Ok(items), fetched),
            SweepStep::Failed(e) => return (Err(e), fetched),
        }
    }
}

fn two_pages() -> Vec<(u64, Vec<u32>, Option<i32>)> {
    vec![(1, (1..=100).collect(), Some(2)), (2, (101..=150).collect(), None)]
}

#[test]
fn next_page_sweep_gathers_all_pages_in_order() {
    let (r, fetched) = run_pages(&two_pages());
    let items = r.unwrap();
    assert_eq!(items.len(), 150);
    assert_eq!(items, (1..=150).collect::<Vec<u32>>());
    assert_eq!(fetched, vec![1, 2]);
}

#[test]
fn next_page_sweep_single_page() {
    let (r, fetched) = run_pages(&[(1, vec![], None)]);
    assert!(r.unwrap().is_empty());
    assert_eq!(fetched, vec![1]);
}

#[test]
fn next_page_sweep_may_skip_pages_forward() {
    let (r, fetched) = run_pages(&[(1, vec![1], Some(5)), (5, vec![5], None)]);
    assert_eq!(r.unwrap(), vec![1, 5]);
    assert_eq!(fetched, vec![1, 5]);
}

#[test]
fn next_page_sweep_stops_when_cursor_does_not_advance() {
    let (r, fetched) = run_pages(&[(1, vec![1], Some(2)), (2, vec![2], Some(2))]);
    assert!(matches!(r, Err(Error::Stalled(2))));
    assert_eq!(fetched, vec![1, 2]);
    let (r, _) = run_pages(&[(1, vec![1], Some(-3))]);
    assert!(matches!(r, Err(Error::Stalled(1))));
}

#[test]
fn next_page_sweep_failure_discards_gathered_items() {
    let (r, fetched) = run_pages(&[(1, (1..=100).collect(), Some(2))]);
    assert!(matches!(r, Err(Error::Http(_))));
    assert_eq!(fetched, vec![1, 2]);
}

#[test]
fn offset_sweep_ends_on_empty_batch() {
    let full: Vec<u32> = (0..1000).collect();
    let (r, fetched) = run_batches(vec![Ok(full.clone()), Ok(full.clone()), Ok(vec![])]);
    let items = r.unwrap();
    assert_eq!(items.len(), 2000);
    assert_eq!(&items[..1000], &full[..]);
    assert_eq!(&items[1000..], &full[..]);
    assert_eq!(fetched, vec![0, 1000, 2000]);
}

#[test]
fn offset_sweep_of_empty_list() {
    let (r, fetched) = run_batches(vec![Ok(vec![])]);
    assert!(r.unwrap().is_empty());
    assert_eq!(fetched, vec![0]);
}

#[test]
fn offset_sweep_advances_by_batch_length() {
    let (r, fetched) = run_batches(vec![Ok(vec![1, 2, 3]), Ok(vec![4]), Ok(vec![])]);
    assert_eq!(r.unwrap(), vec![1, 2, 3, 4]);
    assert_eq!(fetched, vec![0, 3, 4]);
}

#[test]
fn repeated_sweeps_give_identical_output() {
    let first = run_pages(&two_pages());
    let second = run_pages(&two_pages());
    assert_eq!(first.0.unwrap(), second.0.unwrap());
    assert_eq!(first.1, second.1);
    let batches = || vec![Ok(vec![3, 1, 2]), Ok(vec![9, 7]), Ok(vec![])];
    let a = run_batches(batches());
    let b = run_batches(batches());
    assert_eq!(a.0.unwrap(), b.0.unwrap());
    assert_eq!(a.1, b.1);
}

#[test]
fn aborted_fetch_mid_sweep_is_an_error_not_a_partial_list() {
    let full: Vec<u32> = (0..1000).collect();
    let (r, fetched) = run_batches(vec![
        Ok(full.clone()),
        Err(Error::Http("operation was canceled".to_string())),
        Ok(vec![]),
    ]);
    match r {
        Err(Error::Http(m)) => assert_eq!(m, "operation was canceled"),
        other => panic!("expected the fetch's error, got {:?}", other),
    }
    assert_eq!(fetched, vec![0, 1000]);
}
