use saildb::action::{InvalidAction, ListAction, StoreAction, ACTION_COUNT};

#[test]
fn store_tags_in_declaration_order() {
    assert_eq!(StoreAction::Get.tag(), 0);
    assert_eq!(StoreAction::Insert.tag(), 1);
    assert_eq!(StoreAction::Remove.tag(), 2);
}

#[test]
fn list_tags_in_declaration_order() {
    assert_eq!(ListAction::Get.tag(), 0);
    assert_eq!(ListAction::Push.tag(), 1);
    assert_eq!(ListAction::Remove.tag(), 2);
}

#[test]
fn store_tag_round_trip() {
    for action in [StoreAction::Get, StoreAction::Insert, StoreAction::Remove] {
        assert_eq!(StoreAction::from_tag(action.tag()), Ok(action));
    }
}

#[test]
fn list_tag_round_trip() {
    for action in [ListAction::Get, ListAction::Push, ListAction::Remove] {
        assert_eq!(ListAction::from_tag(action.tag()), Ok(action));
    }
}

#[test]
fn unknown_store_tag_is_refused() {
    assert_eq!(StoreAction::from_tag(3), Err(InvalidAction { value: 3 }));
    assert_eq!(StoreAction::from_tag(255), Err(InvalidAction { value: 255 }));
}

#[test]
fn unknown_list_tag_is_refused() {
    assert_eq!(ListAction::from_tag(ACTION_COUNT), Err(InvalidAction { value: 3 }));
    assert_eq!(ListAction::from_tag(200), Err(InvalidAction { value: 200 }));
}

#[test]
fn every_byte_decodes_iff_below_count() {
    for code in 0..=255u8 {
        assert_eq!(StoreAction::from_tag(code).is_ok(), code < ACTION_COUNT);
        assert_eq!(ListAction::from_tag(code).is_ok(), code < ACTION_COUNT);
    }
}
