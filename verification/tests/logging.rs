use harper_desktop::logging::Role;

#[test]
fn roles_write_to_separate_files() {
    assert_ne!(
        Role::Main.filename_prefix(),
        Role::Highlighter.filename_prefix(),
        "the two processes run concurrently and would interleave"
    );
}

#[test]
fn role_prefixes_name_the_process() {
    assert_eq!(Role::Main.filename_prefix(), "harper");
    assert_eq!(Role::Highlighter.filename_prefix(), "harper-highlighter");
}
