use bootstrap::keys::{key_set, Key, Variant};
use bootstrap::template::{env_file_text, render};

#[test]
fn minimal_template_lists_the_four_common_keys() {
    assert_eq!(
        env_file_text(Variant::Minimal),
        "TOKEN=null\nSHOT_ROLE=null\nSHOT_TIMEOUT_IN_HOURS=null\nGUILD_ID=null\n"
    );
}

#[test]
fn database_template_adds_the_connection_settings() {
    assert_eq!(
        env_file_text(Variant::Database),
        "TOKEN=null\nSHOT_ROLE=null\nSHOT_TIMEOUT_IN_HOURS=null\nGUILD_ID=null\n\
         DB_USER=your_db_user\nDB_PASSWORD=your_db_password\nDB_NAME=your_db_name\n\
         DB_HOST=localhost\nDB_PORT=5432\n"
    );
}

#[test]
fn database_template_starts_with_the_minimal_one() {
    let minimal = env_file_text(Variant::Minimal);
    let database = env_file_text(Variant::Database);
    assert!(database.starts_with(&minimal));
    assert_eq!(database.lines().count(), 9);
    assert_eq!(minimal.lines().count(), 4);
}

#[test]
fn render_of_no_keys_is_empty() {
    assert_eq!(render(&Vec::new()), "");
}

#[test]
fn render_keeps_the_order_given() {
    let keys = vec![Key::DbPort, Key::Token, Key::DbPort];
    assert_eq!(render(&keys), "DB_PORT=5432\nTOKEN=null\nDB_PORT=5432\n");
}

#[test]
fn key_set_is_in_declared_order() {
    assert_eq!(
        key_set(Variant::Minimal),
        vec![Key::Token, Key::ShotRole, Key::ShotTimeoutInHours, Key::GuildId]
    );
    assert_eq!(
        key_set(Variant::Database),
        vec![
            Key::Token,
            Key::ShotRole,
            Key::ShotTimeoutInHours,
            Key::GuildId,
            Key::DbUser,
            Key::DbPassword,
            Key::DbName,
            Key::DbHost,
            Key::DbPort,
        ]
    );
}

#[test]
fn key_names_and_placeholders() {
    let expected = [
        (Key::Token, "TOKEN", "null"),
        (Key::ShotRole, "SHOT_ROLE", "null"),
        (Key::ShotTimeoutInHours, "SHOT_TIMEOUT_IN_HOURS", "null"),
        (Key::GuildId, "GUILD_ID", "null"),
        (Key::DbUser, "DB_USER", "your_db_user"),
        (Key::DbPassword, "DB_PASSWORD", "your_db_password"),
        (Key::DbName, "DB_NAME", "your_db_name"),
        (Key::DbHost, "DB_HOST", "localhost"),
        (Key::DbPort, "DB_PORT", "5432"),
    ];
    for (key, name, placeholder) in expected {
        assert_eq!(key.name(), name);
        assert_eq!(key.placeholder(), placeholder);
    }
}

#[test]
fn only_host_and_port_fall_back() {
    assert_eq!(Key::DbHost.fallback(), Some("localhost"));
    assert_eq!(Key::DbPort.fallback(), Some("5432"));
    for key in [
        Key::Token,
        Key::ShotRole,
        Key::ShotTimeoutInHours,
        Key::GuildId,
        Key::DbUser,
        Key::DbPassword,
        Key::DbName,
    ] {
        assert_eq!(key.fallback(), None);
    }
}

#[test]
fn only_the_database_variant_has_a_database_stage() {
    assert!(Variant::Database.has_database());
    assert!(!Variant::Minimal.has_database());
}
