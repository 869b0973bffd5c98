use assist_rs::ephemeris::{chunk_plan, chunk_ranges, reassemble};
use assist_rs::Error;

#[test]
fn chunk_plans() {
    assert_eq!(chunk_plan(Some(1), 8, 10).unwrap(), (1, 10));
    assert_eq!(chunk_plan(Some(3), 8, 10).unwrap(), (3, 4));
    assert_eq!(chunk_plan(Some(16), 8, 10).unwrap(), (10, 1));
    assert_eq!(chunk_plan(None, 4, 10).unwrap(), (4, 3));
    assert_eq!(chunk_plan(None, 0, 5).unwrap(), (1, 5));
    assert_eq!(chunk_plan(Some(usize::MAX), 1, usize::MAX).unwrap(), (usize::MAX, 1));
    assert!(matches!(chunk_plan(Some(0), 4, 10), Err(Error::Other(_))));
}

#[test]
fn chunk_ranges_match_slice_chunks() {
    for len in 0..12usize {
        for chunk in 1..5usize {
            let items: Vec<usize> = (0..len).collect();
            let want: Vec<(usize, usize)> = items
                .chunks(chunk)
                .map(|c| (c[0], c[0] + c.len()))
                .collect();
            assert_eq!(chunk_ranges(len, chunk), want, "len {len} chunk {chunk}");
        }
    }
}

#[test]
fn reassembly_restores_caller_order() {
    // Observers 0..5 sorted by epoch as 3,0,4,1,2 and cut into chunks of 2.
    let chunks = vec![
        vec![(3usize, "d"), (0, "a")],
        vec![(4, "e"), (1, "b")],
        vec![(2, "c")],
    ];
    assert_eq!(reassemble(5, chunks).unwrap(), vec!["a", "b", "c", "d", "e"]);
}

#[test]
fn reassembly_reports_missing_results() {
    let chunks = vec![vec![(0usize, 1.5f64)], vec![(2, 2.5)]];
    match reassemble(3, chunks) {
        Err(Error::Other(m)) => assert_eq!(m, "missing ephemeris result for observer"),
        other => panic!("expected error, got {other:?}"),
    }
    let empty: Vec<Vec<(usize, u8)>> = vec![];
    assert_eq!(reassemble(0, empty).unwrap(), Vec::<u8>::new());
}

#[test]
fn reassembly_keeps_the_last_result_for_a_repeated_index() {
    let chunks = vec![vec![(0usize, 'x'), (1, 'y')], vec![(0, 'z')]];
    assert_eq!(reassemble(2, chunks).unwrap(), vec!['z', 'y']);
}

#[test]
fn zero_threads_are_refused_even_without_observers() {
    match chunk_plan(Some(0), 8, 0) {
        Err(Error::Other(m)) => {
            assert_eq!(m, "num_threads = Some(0) is not valid; use None for the default pool")
        }
        other => panic!("expected an error, got {other:?}"),
    }
    assert_eq!(chunk_plan(None, 8, 0).unwrap(), (1, 0));
}
