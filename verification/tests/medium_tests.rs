use sortmedium::bar::Bar;
use sortmedium::headless::NonGuiVec;
use sortmedium::medium::SortingList;
use sortmedium::visual::GuiVec;

fn selection_sort<T: SortingList>(m: &mut T) -> bool {
    let n = m.len();
    for i in 0..n {
        let mut min = i;
        for j in (i + 1)..n {
            if m.lessThan(j, min) {
                min = j;
            }
        }
        if m.swap(i, min) {
            return true;
        }
    }
    false
}

fn positions<T: SortingList>(m: &T) -> Vec<usize> {
    m.getListClone().iter().map(|b| b.position).collect()
}

#[test]
fn bar_new_keeps_fields() {
    let b = Bar::new(3, 2, 5);
    assert_eq!(b.position, 3);
    assert_eq!(b.hue_num, 2);
    assert_eq!(b.hue_den, 5);
}

#[test]
fn headless_new_builds_zero_based_run() {
    let m = NonGuiVec::new(4, 0);
    assert_eq!(m.len(), 4);
    assert_eq!(positions(&m), vec![0, 1, 2, 3]);
}

#[test]
fn visual_new_builds_one_based_run_with_distinct_hues() {
    let m = GuiVec::new(5, 7);
    assert_eq!(m.len(), 5);
    assert_eq!(positions(&m), vec![1, 2, 3, 4, 5]);
    for (i, b) in m.list.iter().enumerate() {
        assert_eq!(b.hue_num, i + 1);
        assert_eq!(b.hue_den, 5);
    }
    assert_eq!(m.reads, 0);
    assert_eq!(m.writes, 0);
    assert_eq!(m.comps, 0);
    assert_eq!(m.delay, 7);
    assert_eq!(m.render_skip, 1);
    assert_eq!(m.skipped, 0);
    assert!(!m.done);
    assert!(!m.is_paused);
}

#[test]
fn is_sorted_scans_non_decreasing() {
    let mut m = NonGuiVec::new(0, 0);
    assert!(m.isSorted());

    let mut m = NonGuiVec::new(1, 0);
    assert!(m.isSorted());

    let mut m = NonGuiVec::new(3, 0);
    m.list = vec![Bar::new(1, 0, 1), Bar::new(1, 0, 1), Bar::new(2, 0, 1)];
    assert!(m.isSorted());
}

#[test]
fn is_sorted_rejects_strictly_descending() {
    let mut m = NonGuiVec::new(3, 0);
    m.list = vec![Bar::new(3, 0, 1), Bar::new(2, 0, 1), Bar::new(1, 0, 1)];
    assert!(!m.isSorted());

    let mut g = GuiVec::new(2, 0);
    g.swap(0, 1);
    assert!(!g.isSorted());
}

#[test]
fn visual_swap_counts_two_reads_two_writes() {
    let mut m = GuiVec::new(5, 0);
    let done = m.swap(0, 3);
    assert!(!done);
    assert_eq!(m.reads, 2);
    assert_eq!(m.writes, 2);
    assert_eq!(m.comps, 0);
    assert_eq!(positions(&m), vec![4, 2, 3, 1, 5]);
    assert_eq!(m.last_touched, vec![0, 3]);
}

#[test]
fn visual_set_counts_one_read_one_write() {
    let mut m = GuiVec::new(5, 0);
    let done = m.set(2, Bar::new(1, 1, 5));
    assert!(!done);
    assert_eq!(m.reads, 1);
    assert_eq!(m.writes, 1);
    assert_eq!(m.comps, 0);
    assert_eq!(positions(&m), vec![1, 2, 1, 4, 5]);
    assert_eq!(m.last_touched, vec![2]);
}

#[test]
fn visual_comparisons_count_one_each() {
    let mut m = GuiVec::new(5, 0);
    assert!(m.lessThan(0, 1));
    assert_eq!(m.comps, 1);
    assert_eq!(m.reads, 2);
    assert_eq!(m.last_touched, vec![1]);

    assert!(!m.lessThan(1, 0));
    assert_eq!(m.comps, 2);
    assert_eq!(m.reads, 4);

    assert!(m.lessThanEqual(2, 3));
    assert_eq!(m.comps, 3);
    assert_eq!(m.reads, 5);
    assert_eq!(m.last_touched, vec![2]);

    assert!(!m.lessThanEqual(4, 4));
    assert_eq!(m.comps, 4);
    assert_eq!(m.reads, 6);
}

#[test]
fn visual_is_sorted_counts_len_reads() {
    let mut m = GuiVec::new(5, 0);
    assert!(m.isSorted());
    assert_eq!(m.reads, 5);
    assert_eq!(m.writes, 0);
    assert_eq!(m.comps, 0);
}

#[test]
fn randomize_preserves_position_multiset() {
    for _ in 0..5 {
        let mut m = GuiVec::new(50, 0);
        m.randomize();
        let mut after = positions(&m);
        after.sort();
        assert_eq!(after, (1..=50).collect::<Vec<usize>>());
        assert_eq!(m.reads, 0);
        assert_eq!(m.writes, 0);
        assert_eq!(m.comps, 0);
    }
    let mut h = NonGuiVec::new(40, 0);
    h.randomize();
    let mut after = positions(&h);
    after.sort();
    assert_eq!(after, (0..40).collect::<Vec<usize>>());
}

#[test]
fn swaps_and_sets_never_invent_positions() {
    let mut m = NonGuiVec::new(6, 0);
    m.swap(0, 5);
    m.swap(2, 3);
    m.set(1, Bar::new(9, 0, 1));
    m.swap(1, 4);
    let mut after = positions(&m);
    after.sort();
    // every position came from the original run 0..6 or the one explicit write
    assert_eq!(after, vec![0, 2, 3, 4, 5, 9]);
}

#[test]
fn visual_sort_scenario_length_five() {
    let mut m = GuiVec::new(5, 0);
    m.randomize();
    let aborted = selection_sort(&mut m);
    assert!(!aborted);
    assert!(m.isSorted());
    assert_eq!(positions(&m), vec![1, 2, 3, 4, 5]);
    assert!(!m.done);
}

#[test]
fn headless_sort_scenario_length_ten() {
    let mut m = NonGuiVec::new(10, 0);
    let mut expected = positions(&m);
    expected.sort();
    m.randomize();
    let aborted = selection_sort(&mut m);
    assert!(!aborted);
    assert!(m.isSorted());
    assert_eq!(positions(&m), expected);
}

#[test]
fn cancellation_flag_returned_by_next_mutating_call() {
    let mut m = GuiVec::new(4, 0);
    assert!(!m.swap(0, 1));
    m.done = true;
    assert!(m.swap(1, 2));
    assert!(m.set(0, Bar::new(1, 1, 4)));

    let mut h = NonGuiVec::new(4, 0);
    assert!(!h.swap(0, 1));
    assert!(!h.set(0, Bar::new(0, 0, 1)));
}

#[test]
fn elements_and_clone_snapshot() {
    let mut m = GuiVec::new(3, 0);
    let snap = m.getListClone();
    assert_eq!(m.elements().len(), 3);
    for (a, b) in m.elements().iter().zip(snap.iter()) {
        assert_eq!(a.position, b.position);
    }
    m.swap(0, 2);
    // the snapshot does not alias live mutation
    let snap_positions: Vec<usize> = snap.iter().map(|b| b.position).collect();
    assert_eq!(snap_positions, vec![1, 2, 3]);
    assert_eq!(positions(&m), vec![3, 2, 1]);
}

#[test]
fn shuffle_spreads_over_distinct_orders() {
    macroquad::rand::srand(12345);
    let mut counts: std::collections::HashMap<Vec<usize>, usize> = std::collections::HashMap::new();
    for _ in 0..600 {
        let mut m = NonGuiVec::new(4, 0);
        m.randomize();
        let after = positions(&m);
        let mut check = after.clone();
        check.sort();
        assert_eq!(check, vec![0, 1, 2, 3]);
        *counts.entry(after).or_insert(0) += 1;
    }
    // the generator's shuffle reorders: many distinct orders, none dominant
    assert!(counts.len() >= 3);
    for (_, c) in counts {
        assert!(c <= 500);
    }
}
