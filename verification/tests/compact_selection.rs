use std::collections::VecDeque;

use phonique::selection::{compute_selection, SelectionModifier};

#[test]
fn test_compute_single_selection() {
    let mut indexes: VecDeque<usize> = VecDeque::new();
    compute_selection(1, &mut indexes, &None);
    assert_eq!(indexes, VecDeque::from(vec![1]));
}

#[test]
fn test_compute_shift_selection() {
    let mut indexes: VecDeque<usize> = VecDeque::new();
    compute_selection(5, &mut indexes, &Some(SelectionModifier::Shift));
    assert_eq!(indexes, VecDeque::from(vec![5]));
}

#[test]
fn test_compute_shift_selection_merge_up() {
    let mut indexes: VecDeque<usize> = VecDeque::from(vec![5, 6, 7]);
    compute_selection(2, &mut indexes, &Some(SelectionModifier::Shift));
    assert_eq!(indexes, VecDeque::from(vec![5, 4, 3, 2]));
}

#[test]
fn test_compute_shift_selection_merge_down() {
    let mut indexes: VecDeque<usize> = VecDeque::from(vec![5, 6, 7, 8]);
    compute_selection(7, &mut indexes, &Some(SelectionModifier::Shift));
    assert_eq!(indexes, VecDeque::from(vec![5, 6, 7]));

    compute_selection(10, &mut indexes, &Some(SelectionModifier::Shift));
    assert_eq!(indexes, VecDeque::from(vec![5, 6, 7, 8, 9, 10]));
}

#[test]
fn test_compute_shift_selection_merge_up_down() {
    let mut indexes: VecDeque<usize> = VecDeque::from(vec![5, 6, 7]);
    compute_selection(10, &mut indexes, &Some(SelectionModifier::Shift));
    compute_selection(3, &mut indexes, &Some(SelectionModifier::Shift));
    assert_eq!(indexes, VecDeque::from(vec![5, 4, 3]));
}

#[test]
fn test_compute_ctrl_selection_merge() {
    let mut indexes: VecDeque<usize> = VecDeque::from(vec![5, 6, 7]);
    compute_selection(10, &mut indexes, &Some(SelectionModifier::Control));
    assert_eq!(indexes, VecDeque::from(vec![10, 5, 6, 7]));
}

#[test]
fn shift_click_on_anchor_keeps_selection() {
    let mut indexes: VecDeque<usize> = VecDeque::from(vec![5, 6, 7]);
    compute_selection(5, &mut indexes, &Some(SelectionModifier::Shift));
    assert_eq!(indexes, VecDeque::from(vec![5, 6, 7]));
}

#[test]
fn other_modifier_leaves_selection_alone() {
    let mut indexes: VecDeque<usize> = VecDeque::from(vec![2, 3]);
    compute_selection(9, &mut indexes, &Some(SelectionModifier::Other));
    assert_eq!(indexes, VecDeque::from(vec![2, 3]));
}
