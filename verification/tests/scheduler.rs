use spin_langevin::scheduler::{assign_rows, worker_count, workers_for, Share};

#[test]
fn at_least_one_worker() {
    assert!(worker_count() >= 1);
}

#[test]
fn worker_count_matches_the_thread_pool() {
    assert_eq!(worker_count(), rayon::current_num_threads().max(1));
}

#[test]
fn workers_for_a_reported_thread_count() {
    assert_eq!(workers_for(0), 1);
    assert_eq!(workers_for(1), 1);
    assert_eq!(workers_for(2), 2);
    assert_eq!(workers_for(64), 64);
    assert_eq!(workers_for(usize::MAX), usize::MAX);
    assert_eq!(worker_count(), workers_for(rayon::current_num_threads()));
}

#[test]
fn ten_rows_on_four_workers() {
    assert_eq!(
        assign_rows(10, 4),
        vec![
            Share { slot: 0, start: 0, end: 3 },
            Share { slot: 1, start: 3, end: 6 },
            Share { slot: 2, start: 6, end: 8 },
            Share { slot: 3, start: 8, end: 10 },
        ]
    );
}

#[test]
fn fewer_rows_than_workers() {
    assert_eq!(
        assign_rows(2, 4),
        vec![
            Share { slot: 0, start: 0, end: 1 },
            Share { slot: 1, start: 1, end: 2 },
            Share { slot: 2, start: 2, end: 2 },
            Share { slot: 3, start: 2, end: 2 },
        ]
    );
}

#[test]
fn no_rows() {
    assert_eq!(
        assign_rows(0, 2),
        vec![Share { slot: 0, start: 0, end: 0 }, Share { slot: 1, start: 0, end: 0 }]
    );
}

#[test]
fn one_worker_takes_everything() {
    assert_eq!(assign_rows(7, 1), vec![Share { slot: 0, start: 0, end: 7 }]);
}

#[test]
fn even_division() {
    assert_eq!(
        assign_rows(8, 4),
        vec![
            Share { slot: 0, start: 0, end: 2 },
            Share { slot: 1, start: 2, end: 4 },
            Share { slot: 2, start: 4, end: 6 },
            Share { slot: 3, start: 6, end: 8 },
        ]
    );
}

#[test]
fn shares_cover_every_row_once() {
    for rows in 0..40usize {
        for workers in 1..9usize {
            let shares = assign_rows(rows, workers);
            assert_eq!(shares.len(), workers);
            let mut owner = vec![0usize; rows];
            let mut next = 0;
            for (w, share) in shares.iter().enumerate() {
                assert_eq!(share.slot, w);
                assert_eq!(share.start, next);
                assert!(share.start <= share.end);
                let len = share.end - share.start;
                assert!(len == rows / workers || len == rows / workers + 1);
                for r in share.start..share.end {
                    owner[r] += 1;
                }
                next = share.end;
            }
            assert_eq!(next, rows);
            assert!(owner.iter().all(|&n| n == 1));
        }
    }
}

#[test]
fn huge_row_counts_do_not_overflow() {
    let shares = assign_rows(usize::MAX, 3);
    assert_eq!(shares[0].start, 0);
    assert_eq!(shares[2].end, usize::MAX);
    assert_eq!(shares[0].end, shares[1].start);
    assert_eq!(shares[1].end, shares[2].start);
}
