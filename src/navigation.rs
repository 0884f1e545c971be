use vstd::prelude::*;
use crate::question::Question;

verus! {

/// The position after `index` in a sequence of `len` items, wrapping to the first.
pub open spec fn next_of(index: int, len: int) -> int {
    if index + 1 == len {
        0
    } else {
        index + 1
    }
}

/// The position before `index` in a sequence of `len` items, wrapping to the last.
pub open spec fn previous_of(index: int, len: int) -> int {
    if index == 0 {
        len - 1
    } else {
        index - 1
    }
}

/// Moves one question forward; past the last question comes the first.
pub fn next_index(index: usize, len: usize) -> (r: usize)
    requires
        index < len,
    ensures
        r == next_of(index as int, len as int),
        r < len,
        index == len - 1 ==> r == 0,
{
    if index + 1 < len {
        index + 1
    } else {
        0
    }
}

/// Moves one question back; before the first question comes the last.
pub fn previous_index(index: usize, len: usize) -> (r: usize)
    requires
        index < len,
    ensures
        r == previous_of(index as int, len as int),
        r < len,
        index == 0 ==> r == len - 1,
{
    match index.checked_sub(1) {
        Some(i) => i,
        None => len - 1,
    }
}

/// The zero-based option position that a shortcut symbol stands for:
/// `'1'` for the first option up to `'6'` for the sixth.
pub open spec fn slot_of(symbol: char) -> Option<nat> {
    if symbol == '1' {
        Some(0)
    } else if symbol == '2' {
        Some(1)
    } else if symbol == '3' {
        Some(2)
    } else if symbol == '4' {
        Some(3)
    } else if symbol == '5' {
        Some(4)
    } else if symbol == '6' {
        Some(5)
    } else {
        None
    }
}

/// The option of `q` that `symbol` selects, if `q` has an option at that position.
pub open spec fn resolved_option(symbol: char, q: Question) -> Option<String> {
    match slot_of(symbol) {
        Some(p) => if p < q.options@.len() {
            Some(q.options@[p as int])
        } else {
            None
        },
        None => None,
    }
}

/// The option position of a shortcut symbol.
pub fn option_slot(symbol: char) -> (r: Option<usize>)
    ensures
        r matches Some(p) ==> slot_of(symbol) == Some(p as nat),
        r is None ==> slot_of(symbol) is None,
{
    match symbol {
        '1' => Some(0),
        '2' => Some(1),
        '3' => Some(2),
        '4' => Some(3),
        '5' => Some(4),
        '6' => Some(5),
        _ => None,
    }
}

/// The text of the option that `option` selects on `question`, or `None` when
/// the symbol is no shortcut or points past the last option.
pub fn get_answer_from_alphanum_option(option: char, question: &Question) -> (r: Option<String>)
    ensures
        r == resolved_option(option, *question),
{
    match option_slot(option) {
        Some(index) => if index < question.options.len() {
            Some(question.options[index].clone())
        } else {
            None
        },
        None => None,
    }
}

} // verus!
