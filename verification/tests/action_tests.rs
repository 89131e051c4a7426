use nano_bot::action::{ActionCommandData, ActionError, ActionTarget};

fn hug_data() -> ActionCommandData {
    ActionCommandData {
        kind: "hug".to_string(),
        description: "hug a user".to_string(),
        targeted_messages: Some(vec!["<user> hugs <target>!".to_string()]),
        lonely_messages: vec!["Here is a hug for <user>.".to_string()],
        nano_messages: Some(vec!["<target> thanks <user> for the hug!".to_string()]),
    }
}

fn wave_data() -> ActionCommandData {
    ActionCommandData {
        kind: "wave".to_string(),
        description: "wave".to_string(),
        targeted_messages: None,
        lonely_messages: vec!["<user> waves.".to_string()],
        nano_messages: None,
    }
}

#[test]
fn targetable_needs_both_template_lists() {
    assert!(hug_data().targetable());
    assert!(!wave_data().targetable());
    let half = ActionCommandData {
        nano_messages: None,
        ..hug_data()
    };
    assert!(!half.targetable());
}

#[test]
fn lonely_message_mentions_the_user() {
    let msg = hug_data()
        .action_message(ActionTarget::Alone, "@villuna", "")
        .unwrap();
    assert_eq!(msg, "Here is a hug for @villuna.");
}

#[test]
fn targeted_message_mentions_both() {
    let msg = hug_data()
        .action_message(ActionTarget::AtUser, "@villuna", "@friend")
        .unwrap();
    assert_eq!(msg, "@villuna hugs @friend!");
}

#[test]
fn bot_directed_message_uses_its_own_templates() {
    let msg = hug_data()
        .action_message(ActionTarget::AtBot, "@villuna", "@nano")
        .unwrap();
    assert_eq!(msg, "@nano thanks @villuna for the hug!");
}

#[test]
fn target_on_an_untargetable_command_is_refused() {
    let e = wave_data()
        .action_message(ActionTarget::AtUser, "@villuna", "@friend")
        .unwrap_err();
    assert_eq!(e, ActionError::NotTargetable);
    let e = wave_data()
        .action_message(ActionTarget::AtBot, "@villuna", "@nano")
        .unwrap_err();
    assert_eq!(e, ActionError::NotTargetable);
}

#[test]
fn random_pick_stays_within_the_template_list() {
    let data = ActionCommandData {
        lonely_messages: vec![
            "one <user>".to_string(),
            "two <user>".to_string(),
            "three <user>".to_string(),
        ],
        ..hug_data()
    };
    for _ in 0..50 {
        let msg = data.action_message(ActionTarget::Alone, "@u", "").unwrap();
        assert!(
            msg == "one @u" || msg == "two @u" || msg == "three @u",
            "unexpected message: {msg}"
        );
    }
}
