use satlight::location::{Position, Span};

#[test]
fn range_of_a_new_span() {
    let mut span = Span::new(3, 7);
    assert_eq!(span.range(), 3..7);
    assert_eq!(span.start, 4);
    assert_eq!(span.end, 8);
}

#[test]
fn merging_spans() {
    let a = Span::new(2, 5);
    let b = Span::new(4, 9);
    assert_eq!(a.merge(b), b.merge(a));
    assert_eq!(a.merge(b), Span::new(2, 9));
    assert_eq!(a.merge(a), a);
}

#[test]
fn dummy_and_top_spans() {
    assert!(Span::dummy().is_dummy());
    assert!(Span::default().is_dummy());
    assert!(!Span::top().is_dummy());
    assert!(Span::top().is_valid());
    assert!(!Span::new(5, 2).is_valid());
}

#[test]
fn moving_span_ends() {
    let s = Span::new(1, 2);
    assert_eq!(s.with_start(10), Span { start: 11, end: 3 });
    assert_eq!(s.with_end(10), Span { start: 2, end: 11 });
}

#[test]
fn positions_compare_by_offset() {
    let a = Position::new(1, 5, 4);
    let b = Position::new(2, 1, 10);
    assert!(a < b);
    assert!(b.with_line(9).with_column(9) > a);
    assert_eq!(a.partial_cmp(&a.with_line(7)), Some(std::cmp::Ordering::Equal));
    assert_eq!(a.with_offset(3).offset, 3);
}
