//! Row-selection logic of the compact list view: plain click, shift-click
//! range growth, and control-click accumulation.

use std::collections::VecDeque;

use vstd::prelude::*;

verus! {

/// The modifier key held during a click; `Other` stands for any key that
/// plays no selection role.
#[derive(Debug, Clone, Copy, PartialEq, Eq, Structural)]
pub enum SelectionModifier {
    Shift,
    Control,
    Other,
}

/// What a click at `index` turns the selection into.  Without a modifier it
/// becomes the single clicked row.  With shift it becomes the run from the
/// anchor (the front of the old selection) to the clicked row, walking
/// toward it; a click on the anchor itself changes nothing.  With control
/// the clicked row is put in front of what was selected; any other modifier
/// leaves the selection alone.
pub open spec fn selection_after(
    index: usize,
    before: Seq<usize>,
    modifier: Option<SelectionModifier>,
) -> Seq<usize> {
    match modifier {
        Option::None => seq![index],
        Option::Some(SelectionModifier::Shift) => {
            if before.len() == 0 {
                seq![index]
            } else if (index as int) < (before[0] as int) {
                Seq::new(
                    (before[0] - index + 1) as nat,
                    |i: int| (before[0] - i) as usize,
                )
            } else if (index as int) > (before[0] as int) {
                Seq::new(
                    (index - before[0] + 1) as nat,
                    |i: int| (before[0] + i) as usize,
                )
            } else {
                before
            }
        },
        Option::Some(SelectionModifier::Control) => seq![index] + before,
        Option::Some(SelectionModifier::Other) => before,
    }
}

/// Applies one click to the current selection.
pub fn compute_selection(
    index: usize,
    indexes: &mut VecDeque<usize>,
    modifier_key: &Option<SelectionModifier>,
)
    ensures
        final(indexes)@ == selection_after(index, old(indexes)@, *modifier_key),
{
    if modifier_key.is_none() {
        indexes.clear();
        indexes.push_front(index);
        proof {
            assert(indexes@ =~= seq![index]);
        }
        return ;
    }
    let modifier = match modifier_key {
        Some(m) => *m,
        None => SelectionModifier::Other,
    };
    match modifier {
        SelectionModifier::Shift => {
            if indexes.len() == 0 {
                indexes.push_front(index);
                proof {
                    assert(indexes@ =~= seq![index]);
                }
            } else {
                let first = indexes[0];
                if index < first {
                    let start = match indexes.pop_front() {
                        Some(s) => s,
                        None => 0,  // unreachable: the selection is not empty
                    };
                    indexes.clear();
                    let mut cur = start;
                    while cur > index
                        invariant
                            index <= cur <= start,
                            indexes@ == Seq::new(
                                (start - cur) as nat,
                                |i: int| (start - i) as usize,
                            ),
                        decreases cur,
                    {
                        indexes.push_back(cur);
                        proof {
                            assert(indexes@ =~= Seq::new(
                                (start - cur + 1) as nat,
                                |i: int| (start - i) as usize,
                            ));
                        }
                        cur = cur - 1;
                    }
                    indexes.push_back(index);
                    proof {
                        assert(indexes@ =~= Seq::new(
                            (start - index + 1) as nat,
                            |i: int| (start - i) as usize,
                        ));
                    }
                } else if index > first {
                    let start = match indexes.pop_front() {
                        Some(s) => s,
                        None => 0,  // unreachable: the selection is not empty
                    };
                    indexes.clear();
                    let mut cur = start;
                    while cur < index
                        invariant
                            start <= cur <= index,
                            indexes@ == Seq::new(
                                (cur - start) as nat,
                                |i: int| (start + i) as usize,
                            ),
                        decreases index - cur,
                    {
                        indexes.push_back(cur);
                        proof {
                            assert(indexes@ =~= Seq::new(
                                (cur - start + 1) as nat,
                                |i: int| (start + i) as usize,
                            ));
                        }
                        cur = cur + 1;
                    }
                    indexes.push_back(index);
                    proof {
                        assert(indexes@ =~= Seq::new(
                            (index - start + 1) as nat,
                            |i: int| (start + i) as usize,
                        ));
                    }
                }
            }
        },
        SelectionModifier::Control => {
            indexes.push_front(index);
            proof {
                assert(indexes@ =~= seq![index] + old(indexes)@);
            }
        },
        SelectionModifier::Other => {},
    }
}

} // verus!
