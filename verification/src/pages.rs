//! The static page table: each menu label owns a content page made of an
//! info line and two panes of text, with a placeholder page for labels the
//! table does not know.

use vstd::prelude::*;

use crate::menu::MenuEntry;
use crate::state::UiState;
use crate::text::str_eq;

verus! {

/// The content page that belongs to `page`: its info text, left pane text
/// and right pane text, in that order. Labels outside the table get the
/// under-construction placeholder.
pub open spec fn page_info_spec(page: Seq<char>) -> (Seq<char>, Seq<char>, Seq<char>) {
    if page == "Home"@ {
        (
            "Welcome to your home screen. Here you’ll find your basic stats and property info."@,
            "Stats overview"@,
            "Current property info"@,
        )
    } else if page == "Items"@ {
        (
            "This is your inventory. All your collected items will be listed here."@,
            "You have no items yet."@,
            "Use or discard items here."@,
        )
    } else if page == "City"@ {
        (
            "Visit shops, explore zones, and interact with the city here."@,
            "City zones overview"@,
            "Shops and NPCs"@,
        )
    } else if page == "Job"@ {
        (
            "Check your current job, salary, and available tasks."@,
            "Job title and salary"@,
            "Current tasks"@,
        )
    } else if page == "Gym"@ {
        (
            "Train your stats here. Strength, speed, defense—you name it."@,
            "Stat training panel"@,
            "Recent training log"@,
        )
    } else if page == "Properties"@ {
        (
            "Buy, sell, or upgrade your properties."@,
            "Owned properties"@,
            "Market listings"@,
        )
    } else if page == "Education"@ {
        (
            "Enroll in courses to gain skills that unlock new opportunities."@,
            "Current courses"@,
            "Completed courses"@,
        )
    } else if page == "Crimes"@ {
        (
            "Perform crimes to gain money and experience. Risk vs reward!"@,
            "Available crimes"@,
            "Crime success history"@,
        )
    } else if page == "Missions"@ {
        (
            "Complete missions for rewards and progression."@,
            "Current missions"@,
            "Completed missions"@,
        )
    } else if page == "Newspaper"@ {
        (
            "Read updates, events, and changes in the game world."@,
            "Today’s headlines"@,
            "Archived news"@,
        )
    } else if page == "Jail"@ {
        (
            "See your jail status and how to escape or wait it out."@,
            "Time remaining"@,
            "Escape options"@,
        )
    } else if page == "Hospital"@ {
        (
            "Check your injuries and time to recover."@,
            "Injury status"@,
            "Recovery tips"@,
        )
    } else if page == "Casino"@ {
        (
            "Try your luck with slots, blackjack, and roulette."@,
            "Available games"@,
            "Last win history"@,
        )
    } else if page == "Forums"@ {
        (
            "Chat with other players or browse announcements."@,
            "Recent threads"@,
            "Your replies"@,
        )
    } else if page == "Hall of Fame"@ {
        (
            "View top players ranked by wealth, strength, and more."@,
            "Leaderboard"@,
            "Your rank"@,
        )
    } else if page == "Faction"@ {
        (
            "Manage or join a faction to collaborate with others."@,
            "Faction info"@,
            "Member list"@,
        )
    } else if page == "Recruit Citizens"@ {
        (
            "Invite new players and earn rewards."@,
            "Referral link"@,
            "Recruit rewards"@,
        )
    } else if page == "Calendar"@ {
        (
            "Track daily and weekly events."@,
            "Today’s events"@,
            "Upcoming events"@,
        )
    } else if page == "Rules"@ {
        (
            "Review game rules and avoid punishment."@,
            "Most broken rules"@,
            "Reporting system"@,
        )
    } else {
        ("This page is under construction."@, "Left Box"@, "Right Box"@)
    }
}

/// Looks `page` up in the static page table and returns its info text, left
/// pane text and right pane text.
pub fn get_page_info(page: &str) -> (r: (&'static str, &'static str, &'static str))
    ensures
        (r.0@, r.1@, r.2@) == page_info_spec(page@),
{
    if str_eq(page, "Home") {
        (
            "Welcome to your home screen. Here you’ll find your basic stats and property info.",
            "Stats overview",
            "Current property info",
        )
    } else if str_eq(page, "Items") {
        (
            "This is your inventory. All your collected items will be listed here.",
            "You have no items yet.",
            "Use or discard items here.",
        )
    } else if str_eq(page, "City") {
        (
            "Visit shops, explore zones, and interact with the city here.",
            "City zones overview",
            "Shops and NPCs",
        )
    } else if str_eq(page, "Job") {
        (
            "Check your current job, salary, and available tasks.",
            "Job title and salary",
            "Current tasks",
        )
    } else if str_eq(page, "Gym") {
        (
            "Train your stats here. Strength, speed, defense—you name it.",
            "Stat training panel",
            "Recent training log",
        )
    } else if str_eq(page, "Properties") {
        (
            "Buy, sell, or upgrade your properties.",
            "Owned properties",
            "Market listings",
        )
    } else if str_eq(page, "Education") {
        (
            "Enroll in courses to gain skills that unlock new opportunities.",
            "Current courses",
            "Completed courses",
        )
    } else if str_eq(page, "Crimes") {
        (
            "Perform crimes to gain money and experience. Risk vs reward!",
            "Available crimes",
            "Crime success history",
        )
    } else if str_eq(page, "Missions") {
        (
            "Complete missions for rewards and progression.",
            "Current missions",
            "Completed missions",
        )
    } else if str_eq(page, "Newspaper") {
        (
            "Read updates, events, and changes in the game world.",
            "Today’s headlines",
            "Archived news",
        )
    } else if str_eq(page, "Jail") {
        (
            "See your jail status and how to escape or wait it out.",
            "Time remaining",
            "Escape options",
        )
    } else if str_eq(page, "Hospital") {
        (
            "Check your injuries and time to recover.",
            "Injury status",
            "Recovery tips",
        )
    } else if str_eq(page, "Casino") {
        (
            "Try your luck with slots, blackjack, and roulette.",
            "Available games",
            "Last win history",
        )
    } else if str_eq(page, "Forums") {
        (
            "Chat with other players or browse announcements.",
            "Recent threads",
            "Your replies",
        )
    } else if str_eq(page, "Hall of Fame") {
        (
            "View top players ranked by wealth, strength, and more.",
            "Leaderboard",
            "Your rank",
        )
    } else if str_eq(page, "Faction") {
        (
            "Manage or join a faction to collaborate with others.",
            "Faction info",
            "Member list",
        )
    } else if str_eq(page, "Recruit Citizens") {
        (
            "Invite new players and earn rewards.",
            "Referral link",
            "Recruit rewards",
        )
    } else if str_eq(page, "Calendar") {
        (
            "Track daily and weekly events.",
            "Today’s events",
            "Upcoming events",
        )
    } else if str_eq(page, "Rules") {
        (
            "Review game rules and avoid punishment.",
            "Most broken rules",
            "Reporting system",
        )
    } else {
        ("This page is under construction.", "Left Box", "Right Box")
    }
}

/// The content page shown for the selected menu entry: exactly the page the
/// table associates with that entry's label, or the placeholder for a label
/// the table does not know.
pub fn page_for_selected(menu: &Vec<MenuEntry>, state: &UiState) -> (r: (
    &'static str,
    &'static str,
    &'static str,
))
    requires
        state.wf(menu@.len()),
    ensures
        (r.0@, r.1@, r.2@) == page_info_spec(menu@[state.selected as int].label@),
{
    let label = menu[state.selected].label;
    get_page_info(label)
}

} // verus!
