use agent_data::{Cursor, PAGE_SIZE};

#[test]
fn pages_cover_rows_once_in_order() {
    let mut c = Cursor::with_page_size(10, 3);
    let mut seen: Vec<usize> = Vec::new();
    let mut sizes: Vec<usize> = Vec::new();
    loop {
        let p = c.fetch_page();
        if p.len == 0 {
            break;
        }
        sizes.push(p.len);
        seen.extend(p.start..p.start + p.len);
    }
    assert_eq!(sizes, vec![3, 3, 3, 1]);
    assert_eq!(seen, (0..10).collect::<Vec<usize>>());
}

#[test]
fn page_size_one_and_exact_multiple() {
    let mut c = Cursor::with_page_size(2, 1);
    assert_eq!((c.fetch_page().start, c.fetch_page().start), (0, 1));
    assert!(c.is_exhausted());
    let mut d = Cursor::with_page_size(6, 3);
    assert_eq!(d.fetch_page().len, 3);
    assert_eq!(d.fetch_page().len, 3);
    assert_eq!(d.fetch_page().len, 0);
}

#[test]
fn default_page_size() {
    assert_eq!(PAGE_SIZE, 2048);
    let mut c = Cursor::new(5000);
    let a = c.fetch_page();
    let b = c.fetch_page();
    let d = c.fetch_page();
    assert_eq!((a.start, a.len), (0, 2048));
    assert_eq!((b.start, b.len), (2048, 2048));
    assert_eq!((d.start, d.len), (4096, 904));
    assert_eq!(c.offset(), 5000);
}

#[test]
fn exhausted_cursor_stays_empty() {
    let mut c = Cursor::with_page_size(4, 8);
    assert_eq!(c.fetch_page().len, 4);
    for _ in 0..5 {
        let p = c.fetch_page();
        assert_eq!((p.start, p.len), (4, 0));
        assert!(c.is_exhausted());
    }
    let mut e = Cursor::new(0);
    assert!(e.is_exhausted());
    assert_eq!(e.fetch_page().len, 0);
}
