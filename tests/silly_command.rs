use taka_the_discord_bot_api::silly_command::{RawSillyCommandData, SillyCommandPDO, SillyCommandType};

fn complete(id: i32) -> RawSillyCommandData {
    RawSillyCommandData {
        id_silly_command: Some(id),
        name: Some(format!("hug{id}")),
        description: Some("Hug someone".to_string()),
        footer_text: Some("footer".to_string()),
        command_type: Some(2),
        self_texts: None,
        self_images: Some(vec!["a.png".to_string()]),
        images: None,
        preferences: Some(vec!["ALL".to_string()]),
        texts: None,
        gender_attributes: None,
    }
}

#[test]
fn command_type_codes() {
    assert_eq!(SillyCommandType::try_from(1), Ok(SillyCommandType::AuthorOnly));
    assert_eq!(SillyCommandType::try_from(2), Ok(SillyCommandType::SingleUser));
    assert_eq!(SillyCommandType::try_from(0), Err(()));
    assert_eq!(SillyCommandType::try_from(3), Err(()));
    assert_eq!(SillyCommandType::AuthorOnly.code(), 1);
    assert_eq!(SillyCommandType::SingleUser.code(), 2);
}

#[test]
fn complete_row_makes_a_command() {
    let d = complete(4).into_silly_command_data().unwrap();
    assert_eq!(d.id_silly_command, 4);
    assert_eq!(d.name, "hug4");
    assert_eq!(d.description, "Hug someone");
    assert_eq!(d.footer_text, "footer");
    assert_eq!(d.command_type, SillyCommandType::SingleUser);
    assert!(d.self_texts.is_empty());
    assert_eq!(d.self_images, vec!["a.png".to_string()]);
    assert_eq!(d.preferences, vec!["ALL".to_string()]);
    assert!(d.images.is_empty() && d.texts.is_empty() && d.gender_attributes.is_empty());
}

#[test]
fn incomplete_rows_make_nothing() {
    let mut r = complete(1);
    r.footer_text = None;
    assert!(r.into_silly_command_data().is_none());
    let mut r = complete(1);
    r.command_type = Some(9);
    assert!(r.into_silly_command_data().is_none());
    let mut r = complete(1);
    r.name = None;
    assert!(r.into_silly_command_data().is_none());
    assert!(RawSillyCommandData::default().into_silly_command_data().is_none());
}

#[test]
fn catalogue_keeps_complete_rows_in_order() {
    let mut bad = complete(2);
    bad.description = None;
    let rows = vec![complete(1), bad, complete(3)];
    let out = SillyCommandPDO::commands_from_rows(rows);
    let ids: Vec<i32> = out.iter().map(|d| d.id_silly_command).collect();
    assert_eq!(ids, vec![1, 3]);
    assert!(SillyCommandPDO::commands_from_rows(vec![]).is_empty());
}
