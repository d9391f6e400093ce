//! The names under which slots, stages and mushroom houses are shown.

use crate::savefile::constants::StartingMushroomKind;
use vstd::prelude::*;

verus! {

/// The character of the digit `d`.
pub open spec fn digit(d: int) -> char {
    (0x30 + d) as u8 as char
}

/// The decimal digits of `n`, most significant first, with no leading zero.
pub open spec fn decimal(n: nat) -> Seq<char>
    decreases n,
{
    if n < 10 {
        seq![digit(n as int)]
    } else {
        decimal(n / 10).push(digit((n % 10) as int))
    }
}

/// `format!` with the pieces `{}{}{}`: the first text, then the integer
/// as std displays it, in decimal digits, then the second text.
#[verifier::external_body]
fn numbered(before: &str, n: usize, after: &str) -> (text: String)
    ensures
        text@ == before@ + decimal(n as nat) + after@,
{
    format!("{}{}{}", before, n, after)
}

/// The name of slot `index`: the three save slots, then the three quick
/// slots, each counted from one.
pub open spec fn slot_label(index: int) -> Seq<char> {
    if 0 <= index <= 2 {
        "Save Slot "@ + decimal((index + 1) as nat)
    } else if 3 <= index <= 5 {
        "Quick Slot "@ + decimal((index - 2) as nat)
    } else {
        "error"@
    }
}

/// Names a slot for the list from which the user picks one.
pub fn get_slot_string(index: usize) -> (label: String)
    ensures
        label@ == slot_label(index as int),
{
    proof {
        reveal_strlit("");
    }
    if index <= 2 {
        let label = numbered("Save Slot ", index + 1, "");
        assert(label@ =~= slot_label(index as int));
        label
    } else if index <= 5 {
        let label = numbered("Quick Slot ", index - 2, "");
        assert(label@ =~= slot_label(index as int));
        label
    } else {
        "error".to_owned()
    }
}

/// The name of a kind of mushroom house.
pub open spec fn house_type_label(kind: StartingMushroomKind) -> Seq<char> {
    match kind {
        StartingMushroomKind::NoHouse => "None"@,
        StartingMushroomKind::Star => "Star"@,
        StartingMushroomKind::Item => "Item"@,
        StartingMushroomKind::OneUp => "1-Up"@,
        StartingMushroomKind::StarRescue => "Star (Rescue)"@,
        StartingMushroomKind::ItemRescue => "Item (Rescue)"@,
        StartingMushroomKind::OneUpRescue => "1-Up (Rescue)"@,
    }
}

/// Names a kind of mushroom house.
pub fn get_house_type_string(house_type: StartingMushroomKind) -> (label: String)
    ensures
        label@ == house_type_label(house_type),
{
    match house_type {
        StartingMushroomKind::NoHouse => "None".to_owned(),
        StartingMushroomKind::Star => "Star".to_owned(),
        StartingMushroomKind::Item => "Item".to_owned(),
        StartingMushroomKind::OneUp => "1-Up".to_owned(),
        StartingMushroomKind::StarRescue => "Star (Rescue)".to_owned(),
        StartingMushroomKind::ItemRescue => "Item (Rescue)".to_owned(),
        StartingMushroomKind::OneUpRescue => "1-Up (Rescue)".to_owned(),
    }
}

/// The name of the stage with index `stage` inside its world. Indexes
/// that the game leaves unused are named by their number.
pub open spec fn stage_label(stage: int) -> Seq<char> {
    if 0 <= stage <= 8 {
        "Stage "@ + decimal((stage + 1) as nat)
    } else if stage == 19 {
        "Coin Battle Stage"@
    } else if stage == 20 {
        "Ghost House"@
    } else if 21 <= stage <= 22 {
        "Tower "@ + decimal((stage - 20) as nat)
    } else if 23 <= stage <= 24 {
        "Castle "@ + decimal((stage - 22) as nat)
    } else if 25 <= stage <= 28 {
        "Toad House "@ + decimal((stage - 24) as nat)
    } else if 32 <= stage <= 34 {
        "Enemy Ambush "@ + decimal((stage - 31) as nat)
    } else if stage == 35 {
        "Cannon"@
    } else if stage == 37 {
        "Airship"@
    } else if stage == 38 {
        "\"Rescue\""@
    } else if stage == 39 {
        "Title Screen"@
    } else if stage == 40 {
        "Peach's Castle"@
    } else if stage == 41 {
        "Staff Credits"@
    } else {
        "(unused index "@ + decimal(stage as nat) + ")"@
    }
}

/// Names a stage by its index inside its world.
pub fn get_stage_name_string(stage_index: usize) -> (label: String)
    ensures
        label@ == stage_label(stage_index as int),
{
    proof {
        reveal_strlit("");
    }
    let label = if stage_index <= 8 {
        numbered("Stage ", stage_index + 1, "")
    } else if stage_index == 19 {
        "Coin Battle Stage".to_owned()
    } else if stage_index == 20 {
        "Ghost House".to_owned()
    } else if 21 <= stage_index && stage_index <= 22 {
        numbered("Tower ", stage_index - 20, "")
    } else if 23 <= stage_index && stage_index <= 24 {
        numbered("Castle ", stage_index - 22, "")
    } else if 25 <= stage_index && stage_index <= 28 {
        numbered("Toad House ", stage_index - 24, "")
    } else if 32 <= stage_index && stage_index <= 34 {
        numbered("Enemy Ambush ", stage_index - 31, "")
    } else if stage_index == 35 {
        "Cannon".to_owned()
    } else if stage_index == 37 {
        "Airship".to_owned()
    } else if stage_index == 38 {
        "\"Rescue\"".to_owned()
    } else if stage_index == 39 {
        "Title Screen".to_owned()
    } else if stage_index == 40 {
        "Peach's Castle".to_owned()
    } else if stage_index == 41 {
        "Staff Credits".to_owned()
    } else {
        numbered("(unused index ", stage_index, ")")
    };
    assert(label@ =~= stage_label(stage_index as int));
    label
}

} // verus!
