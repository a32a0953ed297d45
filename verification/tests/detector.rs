use pidone::detector::{is_attached, ProcEntry};

fn entry(pid: u64, ppid: u64) -> ProcEntry {
    ProcEntry { pid, ppid }
}

#[test]
fn empty_namespace_is_not_attached() {
    let table: Vec<ProcEntry> = Vec::new();
    assert!(!is_attached(1, &table));
}

#[test]
fn init_alone_is_not_attached() {
    let table = vec![entry(1, 0)];
    assert!(!is_attached(1, &table));
}

#[test]
fn all_descendants_of_init_is_not_attached() {
    let table = vec![
        entry(1, 0),
        entry(2, 1),
        entry(3, 2),
        entry(4, 2),
        entry(5, 4),
    ];
    assert!(!is_attached(1, &table));
}

#[test]
fn one_foreign_process_flips_to_attached() {
    let table = vec![
        entry(1, 0),
        entry(2, 1),
        entry(3, 2),
        entry(9, 7),
    ];
    assert!(is_attached(1, &table));
}

#[test]
fn unresolvable_ancestor_counts_as_attached() {
    let table = vec![entry(1, 0), entry(6, 5)];
    assert!(is_attached(1, &table));
}

#[test]
fn ancestor_cycle_away_from_init_counts_as_attached() {
    let table = vec![entry(1, 0), entry(7, 8), entry(8, 7)];
    assert!(is_attached(1, &table));
}

#[test]
fn deep_chain_to_init_is_not_attached() {
    let mut table = vec![entry(1, 0)];
    let mut parent: u64 = 1;
    for pid in 2..40u64 {
        table.push(entry(pid, parent));
        parent = pid;
    }
    assert!(!is_attached(1, &table));
}

#[test]
fn foreign_subtree_is_attached_even_if_internally_consistent() {
    let table = vec![
        entry(1, 0),
        entry(2, 1),
        entry(50, 40),
        entry(51, 50),
    ];
    assert!(is_attached(1, &table));
}
