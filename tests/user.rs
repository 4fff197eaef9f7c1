use taka_the_discord_bot_api::user::{RegisterUserSchema, User, UserPDO};

fn user(role: &str) -> User {
    User {
        id: 1,
        name: "n".to_string(),
        email: "e@x".to_string(),
        password: "h".to_string(),
        role: role.to_string(),
        verified: true,
        created_at: None,
        updated_at: Some(0),
        password_rev: 2,
    }
}

#[test]
fn roles() {
    assert!(user("admin").is_admin());
    assert!(!user("admin").is_user());
    assert!(user("user").is_user());
    assert!(user("moderator").is_moderator());
    assert!(user("moderator").has_role(&["user", "moderator"]));
    assert!(!user("guest").has_role(&["user", "moderator"]));
    assert!(!user("admin").has_role(&[]));
    assert!(user("x").is_verified());
}

#[test]
fn registration_defaults_to_unverified_user() {
    let schema = RegisterUserSchema { name: "n".to_string(), email: "e".to_string(), password: "p".to_string() };
    let c = UserPDO::registration(schema, None);
    assert_eq!((c.name.as_str(), c.email.as_str(), c.password.as_str()), ("n", "e", "p"));
    assert_eq!(c.role, "user");
    assert!(!c.verified);
    let schema = RegisterUserSchema { name: "n".to_string(), email: "e".to_string(), password: "p".to_string() };
    assert_eq!(UserPDO::registration(schema, Some("admin")).role, "admin");
}

#[test]
fn login_outcomes() {
    assert_eq!(UserPDO::login_outcome(None, true).unwrap_err().0, "Invald email or password");
    assert_eq!(UserPDO::login_outcome(Some(user("user")), false).unwrap_err().0, "Invalid password");
    assert_eq!(UserPDO::login_outcome(Some(user("user")), true).unwrap().email, "e@x");
}
