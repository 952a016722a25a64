use dashboard::menu::build_menu;
use dashboard::pages::{get_page_info, page_for_selected};
use dashboard::state::{handle_event, InputEvent, UiState};

#[test]
fn home_page_content() {
    let (info, left, right) = get_page_info("Home");
    assert_eq!(
        info,
        "Welcome to your home screen. Here you’ll find your basic stats and property info."
    );
    assert_eq!(left, "Stats overview");
    assert_eq!(right, "Current property info");
}

#[test]
fn job_page_content() {
    let (info, left, right) = get_page_info("Job");
    assert_eq!(info, "Check your current job, salary, and available tasks.");
    assert_eq!(left, "Job title and salary");
    assert_eq!(right, "Current tasks");
}

#[test]
fn unknown_label_gets_the_placeholder() {
    let (info, left, right) = get_page_info("Messages");
    assert_eq!(info, "This page is under construction.");
    assert_eq!(left, "Left Box");
    assert_eq!(right, "Right Box");
    assert_eq!(get_page_info(""), get_page_info("no such page"));
}

#[test]
fn every_menu_label_has_its_own_page() {
    let expectations: [(&str, &str, &str, &str); 19] = [
        (
            "Home",
            "Welcome to your home screen. Here you’ll find your basic stats and property info.",
            "Stats overview",
            "Current property info",
        ),
        (
            "Items",
            "This is your inventory. All your collected items will be listed here.",
            "You have no items yet.",
            "Use or discard items here.",
        ),
        (
            "City",
            "Visit shops, explore zones, and interact with the city here.",
            "City zones overview",
            "Shops and NPCs",
        ),
        (
            "Job",
            "Check your current job, salary, and available tasks.",
            "Job title and salary",
            "Current tasks",
        ),
        (
            "Gym",
            "Train your stats here. Strength, speed, defense—you name it.",
            "Stat training panel",
            "Recent training log",
        ),
        (
            "Properties",
            "Buy, sell, or upgrade your properties.",
            "Owned properties",
            "Market listings",
        ),
        (
            "Education",
            "Enroll in courses to gain skills that unlock new opportunities.",
            "Current courses",
            "Completed courses",
        ),
        (
            "Crimes",
            "Perform crimes to gain money and experience. Risk vs reward!",
            "Available crimes",
            "Crime success history",
        ),
        (
            "Missions",
            "Complete missions for rewards and progression.",
            "Current missions",
            "Completed missions",
        ),
        (
            "Newspaper",
            "Read updates, events, and changes in the game world.",
            "Today’s headlines",
            "Archived news",
        ),
        (
            "Jail",
            "See your jail status and how to escape or wait it out.",
            "Time remaining",
            "Escape options",
        ),
        (
            "Hospital",
            "Check your injuries and time to recover.",
            "Injury status",
            "Recovery tips",
        ),
        (
            "Casino",
            "Try your luck with slots, blackjack, and roulette.",
            "Available games",
            "Last win history",
        ),
        (
            "Forums",
            "Chat with other players or browse announcements.",
            "Recent threads",
            "Your replies",
        ),
        (
            "Hall of Fame",
            "View top players ranked by wealth, strength, and more.",
            "Leaderboard",
            "Your rank",
        ),
        (
            "Faction",
            "Manage or join a faction to collaborate with others.",
            "Faction info",
            "Member list",
        ),
        (
            "Recruit Citizens",
            "Invite new players and earn rewards.",
            "Referral link",
            "Recruit rewards",
        ),
        (
            "Calendar",
            "Track daily and weekly events.",
            "Today’s events",
            "Upcoming events",
        ),
        (
            "Rules",
            "Review game rules and avoid punishment.",
            "Most broken rules",
            "Reporting system",
        ),
    ];
    for (label, info, left, right) in expectations.iter() {
        let got = get_page_info(label);
        assert_eq!(got.0, *info);
        assert_eq!(got.1, *left);
        assert_eq!(got.2, *right);
    }
}

#[test]
fn each_selected_entry_shows_its_own_page() {
    let menu = build_menu();
    for i in 0..menu.len() {
        let s = UiState {
            selected: i,
            input: Vec::new(),
        };
        let shown = page_for_selected(&menu, &s);
        assert_eq!(shown, get_page_info(menu[i].label));
    }
}

#[test]
fn down_three_times_shows_the_job_page() {
    let menu = build_menu();
    let mut s = UiState::new();
    assert_eq!(menu[s.selected].label, "Home");
    for _ in 0..3 {
        handle_event(&mut s, menu.len(), InputEvent::MoveDown);
    }
    assert_eq!(s.selected, 3);
    assert_eq!(menu[3].label, "Job");
    let (info, left, right) = page_for_selected(&menu, &s);
    assert_eq!(info, "Check your current job, salary, and available tasks.");
    assert_eq!(left, "Job title and salary");
    assert_eq!(right, "Current tasks");
}
