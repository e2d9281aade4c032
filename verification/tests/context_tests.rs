use right_click_manager::context::ContextType;

#[test]
fn registry_paths_of_contexts() {
    assert_eq!(ContextType::File.reg_path(), "*\\shell");
    assert_eq!(ContextType::Folder.reg_path(), "Folder\\shell");
    assert_eq!(ContextType::Drive.reg_path(), "Drive\\shell");
    assert_eq!(ContextType::Desktop.reg_path(), "DesktopBackground\\shell");
}

#[test]
fn display_names_of_contexts() {
    assert_eq!(ContextType::File.display_name(), "文件 (*)");
    assert_eq!(ContextType::Folder.display_name(), "文件夹");
    assert_eq!(ContextType::Drive.display_name(), "驱动器");
    assert_eq!(ContextType::Desktop.display_name(), "桌面背景");
}

#[test]
fn item_data_round_trips_and_matches_position() {
    let all = ContextType::all();
    assert_eq!(all.len(), 4);
    for (i, c) in all.iter().enumerate() {
        assert_eq!(c.item_data(), i as isize);
        assert_eq!(ContextType::from_item_data(c.item_data()), Some(*c));
    }
}

#[test]
fn item_data_is_read_as_i8() {
    assert_eq!(ContextType::from_item_data(256), Some(ContextType::File));
    assert_eq!(ContextType::from_item_data(259), Some(ContextType::Desktop));
    assert_eq!(ContextType::from_item_data(4), None);
    assert_eq!(ContextType::from_item_data(-1), None);
}
