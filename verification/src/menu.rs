//! The static navigation menu: its labels and the color category each label
//! falls into.

use vstd::prelude::*;

use crate::text::str_eq;

verus! {

/// The color category a menu entry is drawn in.
#[derive(Clone, Copy, Debug, PartialEq, Eq, Structural)]
pub enum ColorClass {
    /// An ordinary entry.
    Normal,
    /// An entry with unread content.
    Unread,
    /// An entry that needs attention; takes precedence over `Unread`.
    Important,
}

/// One selectable entry of the navigation menu.
pub struct MenuEntry {
    /// The label shown in the menu, which also keys the page table.
    pub label: &'static str,
    /// The color category the entry is drawn in.
    pub color: ColorClass,
}

/// Labels with unread content.
pub open spec fn is_unread(label: Seq<char>) -> bool {
    label == "Newspaper"@ || label == "Crimes"@ || label == "Messages"@
}

/// Labels that need attention.
pub open spec fn is_important(label: Seq<char>) -> bool {
    label == "Hospital"@ || label == "Jail"@ || label == "Crimes"@
}

/// The color category of `label`: important labels win over unread ones, and
/// every other label is normal.
pub open spec fn classify_spec(label: Seq<char>) -> ColorClass {
    if is_important(label) {
        ColorClass::Important
    } else if is_unread(label) {
        ColorClass::Unread
    } else {
        ColorClass::Normal
    }
}

/// Computes the color category of `label`.
pub fn classify_label(label: &str) -> (c: ColorClass)
    ensures
        c == classify_spec(label@),
{
    if str_eq(label, "Hospital") || str_eq(label, "Jail") || str_eq(label, "Crimes") {
        ColorClass::Important
    } else if str_eq(label, "Newspaper") || str_eq(label, "Messages") {
        ColorClass::Unread
    } else {
        ColorClass::Normal
    }
}

/// Every label falls into exactly one color category, and a label that is
/// both important and unread is classified as important.
pub proof fn lemma_classify_exactly_one(label: Seq<char>)
    ensures
        (classify_spec(label) == ColorClass::Important) <==> is_important(label),
        (classify_spec(label) == ColorClass::Unread) <==> (is_unread(label) && !is_important(
            label,
        )),
        (classify_spec(label) == ColorClass::Normal) <==> (!is_unread(label) && !is_important(
            label,
        )),
{
}

/// The labels of the navigation menu, in the order they are shown.
pub open spec fn menu_labels_spec() -> Seq<Seq<char>> {
    seq![
        "Home"@,
        "Items"@,
        "City"@,
        "Job"@,
        "Gym"@,
        "Properties"@,
        "Education"@,
        "Crimes"@,
        "Missions"@,
        "Newspaper"@,
        "Jail"@,
        "Hospital"@,
        "Casino"@,
        "Forums"@,
        "Hall of Fame"@,
        "Faction"@,
        "Recruit Citizens"@,
        "Calendar"@,
        "Rules"@,
    ]
}

/// Returns the menu's labels in display order.
pub fn menu_labels() -> (v: Vec<&'static str>)
    ensures
        v@.len() == menu_labels_spec().len(),
        forall|i: int| 0 <= i < v@.len() ==> v@[i]@ == menu_labels_spec()[i],
{
    let v: Vec<&'static str> = vec![
        "Home",
        "Items",
        "City",
        "Job",
        "Gym",
        "Properties",
        "Education",
        "Crimes",
        "Missions",
        "Newspaper",
        "Jail",
        "Hospital",
        "Casino",
        "Forums",
        "Hall of Fame",
        "Faction",
        "Recruit Citizens",
        "Calendar",
        "Rules",
    ];
    v
}

/// Builds the navigation menu once, at startup: each label of the static
/// list paired with its color category.
pub fn build_menu() -> (menu: Vec<MenuEntry>)
    ensures
        menu@.len() == menu_labels_spec().len(),
        forall|i: int|
            0 <= i < menu@.len() ==> menu@[i].label@ == menu_labels_spec()[i] && menu@[i].color
                == classify_spec(menu_labels_spec()[i]),
{
    let labels = menu_labels();
    let mut menu: Vec<MenuEntry> = Vec::new();
    let mut k: usize = 0;
    while k < labels.len()
        invariant
            k <= labels@.len(),
            labels@.len() == menu_labels_spec().len(),
            forall|i: int| 0 <= i < labels@.len() ==> labels@[i]@ == menu_labels_spec()[i],
            menu@.len() == k,
            forall|i: int|
                0 <= i < k ==> menu@[i].label@ == menu_labels_spec()[i] && menu@[i].color
                    == classify_spec(menu_labels_spec()[i]),
        decreases labels@.len() - k,
    {
        let label = labels[k];
        let color = classify_label(label);
        menu.push(MenuEntry { label, color });
        k = k + 1;
    }
    menu
}

} // verus!
