use nano_bot::help::{
    create_buttons, create_message, find_by_name, page_count, total_pages, HelpCommandOptions,
    HelpDetails,
};
use nano_bot::registry::SessionRegistry;
use nano_bot::session::{Control, InboundEvent, Session, SessionPhase, StepEffect};

fn leaf(name: &str) -> HelpDetails {
    HelpDetails {
        name: name.to_string(),
        details: format!("about {name}"),
        sub_commands: Vec::new(),
    }
}

fn catalogue_of(n: usize) -> Vec<HelpDetails> {
    (1..=n).map(|i| leaf(&format!("cmd{i}"))).collect()
}

#[test]
fn total_pages_rounds_up_with_a_floor_of_one() {
    assert_eq!(total_pages(0), 1);
    assert_eq!(total_pages(1), 1);
    assert_eq!(total_pages(15), 1);
    assert_eq!(total_pages(16), 2);
    assert_eq!(total_pages(20), 2);
    assert_eq!(total_pages(30), 2);
    assert_eq!(total_pages(31), 3);
}

#[test]
fn twenty_children_paginate_into_two_pages() {
    let data = catalogue_of(20);
    assert_eq!(
        page_count(&data, &HelpCommandOptions::AllCommands),
        Some(2)
    );

    let first = create_message(&data, &HelpCommandOptions::AllCommands, 0).unwrap();
    assert_eq!(first.total_pages, 2);
    assert_eq!(first.entries.len(), 15);
    assert_eq!(first.entries[0].name, "cmd1");
    assert_eq!(first.entries[14].name, "cmd15");
    assert!(!first.buttons.back_enabled);
    assert!(first.buttons.forward_enabled);
    assert!(first.parent.is_none());

    let mut reg: SessionRegistry<u32> = SessionRegistry::new();
    let mut session = Session::open(&mut reg, 1, 555, 9, first.total_pages).unwrap();
    let effect = session.handle_event(
        &mut reg,
        &InboundEvent { source_user_id: 9, control: Control::Forward },
    );
    assert_eq!(effect, StepEffect::Redraw { page: 1 });

    let second = create_message(&data, &HelpCommandOptions::AllCommands, session.page).unwrap();
    assert_eq!(second.entries.len(), 5);
    assert_eq!(second.entries[0].name, "cmd16");
    assert_eq!(second.entries[4].name, "cmd20");
    assert!(second.buttons.back_enabled);
    assert!(!second.buttons.forward_enabled);
}

#[test]
fn lookup_of_a_childless_command_fails_before_any_session_exists() {
    let data = vec![leaf("solo")];
    let reg: SessionRegistry<u32> = SessionRegistry::new();
    let options = HelpCommandOptions::SubCommand("solo".to_string());
    assert_eq!(page_count(&data, &options), None);
    let r = create_message(&data, &options, 0);
    assert_eq!(r.unwrap_err(), "solo");
    assert_eq!(reg.len(), 0);
}

#[test]
fn lookup_of_a_missing_command_fails() {
    let data = catalogue_of(3);
    let options = HelpCommandOptions::SubCommand("ghost".to_string());
    assert_eq!(page_count(&data, &options), None);
    let r = create_message(&data, &options, 0);
    assert_eq!(r.unwrap_err(), "ghost");
}

#[test]
fn subcommand_listing_shows_parent_and_children() {
    let mut parent = leaf("config");
    parent.sub_commands = vec![leaf("get"), leaf("set")];
    let data = vec![leaf("hello"), parent];
    let options = HelpCommandOptions::SubCommand("config".to_string());
    assert_eq!(page_count(&data, &options), Some(1));
    let page = create_message(&data, &options, 0).unwrap();
    let parent_entry = page.parent.unwrap();
    assert_eq!(parent_entry.name, "config");
    assert_eq!(parent_entry.details, "about config");
    assert_eq!(page.entries.len(), 2);
    assert_eq!(page.entries[0].name, "get");
    assert_eq!(page.entries[1].name, "set");
    assert!(!page.entries[0].has_sub_commands);
    assert_eq!(page.total_pages, 1);
    assert!(!page.buttons.back_enabled);
    assert!(!page.buttons.forward_enabled);
}

#[test]
fn buttons_follow_the_page_bounds() {
    let b = create_buttons(20, 0);
    assert!(!b.back_enabled);
    assert!(b.forward_enabled);
    let b = create_buttons(20, 1);
    assert!(b.back_enabled);
    assert!(!b.forward_enabled);
    let b = create_buttons(0, 0);
    assert!(!b.back_enabled);
    assert!(!b.forward_enabled);
}

#[test]
fn parse_reads_the_optional_target() {
    assert_eq!(HelpCommandOptions::parse(None), HelpCommandOptions::AllCommands);
    assert_eq!(
        HelpCommandOptions::parse(Some("hug".to_string())),
        HelpCommandOptions::SubCommand("hug".to_string())
    );
}

#[test]
fn find_by_name_returns_the_first_match() {
    let data = catalogue_of(3);
    let found = find_by_name(&data, &"cmd2".to_string()).unwrap();
    assert_eq!(found.name, "cmd2");
    assert!(find_by_name(&data, &"cmd9".to_string()).is_none());
}

#[test]
fn default_help_details_is_the_placeholder() {
    let d = HelpDetails::default();
    assert_eq!(d.name, "default command");
    assert_eq!(d.details, "default text");
    assert!(d.sub_commands.is_empty());
}

#[test]
fn empty_catalogue_still_has_one_page() {
    let data: Vec<HelpDetails> = Vec::new();
    assert_eq!(page_count(&data, &HelpCommandOptions::AllCommands), Some(1));
    let page = create_message(&data, &HelpCommandOptions::AllCommands, 0).unwrap();
    assert_eq!(page.total_pages, 1);
    assert!(page.entries.is_empty());
    assert!(!page.buttons.back_enabled);
    assert!(!page.buttons.forward_enabled);
}
