use micro_frontend::errors::ErrorCode;
use micro_frontend::validation::{
    sanitize_display_name, sanitize_username, validate_display_name, validate_username,
    ValidatedDisplayName, ValidatedUsername,
};

#[test]
fn test_validated_username_new() {
    let username = ValidatedUsername::new("testuser".to_string()).unwrap();
    assert_eq!(username.as_str(), "testuser");
    assert_eq!(username.into_string(), "testuser");

    let username = ValidatedUsername::new("user123".to_string()).unwrap();
    assert_eq!(username.as_str(), "user123");

    let username = ValidatedUsername::new("test-user".to_string()).unwrap();
    assert_eq!(username.as_str(), "test-user");

    let result = ValidatedUsername::new("".to_string());
    assert!(result.is_err());
    if let Err(err) = result {
        assert!(matches!(err.code, ErrorCode::ValidationFailed));
    }

    let result = ValidatedUsername::new("a".to_string());
    assert!(result.is_err());

    let result = ValidatedUsername::new("test@user".to_string());
    assert!(result.is_err());
}

#[test]
fn test_validated_display_name_new() {
    let display_name = ValidatedDisplayName::new("John Doe".to_string()).unwrap();
    assert_eq!(display_name.as_str(), "John Doe");
    assert_eq!(display_name.into_string(), "John Doe");

    let display_name = ValidatedDisplayName::new("User 123".to_string()).unwrap();
    assert_eq!(display_name.as_str(), "User 123");

    let result = ValidatedDisplayName::new("".to_string());
    assert!(result.is_err());
    if let Err(err) = result {
        assert!(matches!(err.code, ErrorCode::ValidationFailed));
    }

    let result = ValidatedDisplayName::new("<script>alert('xss')</script>".to_string());
    assert!(result.is_err());

    let long_name = "a".repeat(101);
    let result = ValidatedDisplayName::new(long_name);
    assert!(result.is_err());
}

#[test]
fn test_display_trait() {
    let username = ValidatedUsername::new("testuser".to_string()).unwrap();
    assert_eq!(format!("{}", username.to_display_string()), "testuser");

    let display_name = ValidatedDisplayName::new("John Doe".to_string()).unwrap();
    assert_eq!(format!("{}", display_name.to_display_string()), "John Doe");
}

#[test]
fn test_username_validation() {
    assert!(validate_username("test_user").is_ok());
    assert!(validate_username("user123").is_ok());
    assert!(validate_username("test-user").is_ok());
    assert!(validate_username("a1b").is_ok());
    assert!(validate_username(&"a".repeat(50)).is_ok());

    assert!(validate_username("").is_err());
    assert!(validate_username("ab").is_err());
    assert!(validate_username(&"a".repeat(51)).is_err());
    assert!(validate_username("test user").is_err());
    assert!(validate_username("test@user").is_err());
    assert!(validate_username("test.user").is_err());
}

#[test]
fn test_display_name_validation() {
    assert!(validate_display_name("John Doe").is_ok());
    assert!(validate_display_name("User 123").is_ok());
    assert!(validate_display_name("Test User!").is_ok());
    assert!(validate_display_name("A").is_ok());
    assert!(validate_display_name(&"A".repeat(100)).is_ok());

    assert!(validate_display_name("").is_err());
    assert!(validate_display_name(&"A".repeat(101)).is_err());
    assert!(validate_display_name("Test<script>").is_err());
    assert!(validate_display_name("Test&amp;").is_err());
    assert!(validate_display_name("Test>User").is_err());
}

#[test]
fn test_sanitization() {
    assert_eq!(sanitize_username("  TestUser  "), "testuser");
    assert_eq!(sanitize_username("User123"), "user123");
    assert_eq!(sanitize_display_name("  John Doe  "), "John Doe");
    assert_eq!(sanitize_display_name("Test User"), "Test User");
}

#[test]
fn username_errors_name_the_first_rule_that_is_broken() {
    let message = |s: &str| validate_username(s).unwrap_err().message;
    assert_eq!(message(""), "Username cannot be empty");
    assert_eq!(message("ab"), "Username must be at least 3 characters long");
    assert_eq!(message(&"a".repeat(51)), "Username must be at most 50 characters long");
    assert_eq!(
        message("test user"),
        "Username must contain only alphanumeric characters, underscores, and hyphens"
    );
    let err = validate_username("ab").unwrap_err();
    assert!(matches!(err.code, ErrorCode::ValidationFailed));
    assert!(err.details.is_none());
}

#[test]
fn username_length_is_counted_in_bytes_before_the_pattern_is_tried() {
    let message = |s: &str| validate_username(s).unwrap_err().message;
    assert_eq!(message("é"), "Username must be at least 3 characters long");
    assert_eq!(
        message("éé"),
        "Username must contain only alphanumeric characters, underscores, and hyphens"
    );
    assert_eq!(message(&"é".repeat(26)), "Username must be at most 50 characters long");
    assert_eq!(
        message("abc\n"),
        "Username must contain only alphanumeric characters, underscores, and hyphens"
    );
}

#[test]
fn username_pattern_agrees_with_a_character_by_character_check() {
    let samples = [
        "abc", "a_b", "a-b", "A-Z", "0-9", "___", "---", "ab", "abcd!", "ab c", "ab\tc", "abc ",
        " abc", "ab.c", "ab/c", "ab\u{e9}", "ABCdef123_-", "a\u{0}b", "abc\r",
    ];
    for s in samples {
        let expected = (3..=50).contains(&s.chars().count())
            && s.chars().all(|c| c.is_ascii_alphanumeric() || c == '_' || c == '-');
        assert_eq!(validate_username(s).is_ok(), expected, "{:?}", s);
    }
}

#[test]
fn display_name_errors_name_the_first_rule_that_is_broken() {
    let message = |s: &str| validate_display_name(s).unwrap_err().message;
    assert_eq!(message(""), "Display name cannot be empty");
    assert_eq!(message(&"A".repeat(101)), "Display name must be at most 100 characters long");
    assert_eq!(message("a<b"), "Display name cannot contain HTML characters");
    assert_eq!(message("a>b"), "Display name cannot contain HTML characters");
    assert_eq!(message("a&b"), "Display name cannot contain HTML characters");
    assert_eq!(message("a\u{0}b"), "Display name cannot contain control characters");
    assert_eq!(message("a\u{7f}b"), "Display name cannot contain control characters");
    assert_eq!(message("a\u{85}b"), "Display name cannot contain control characters");
    assert_eq!(message("a\u{1}<"), "Display name cannot contain HTML characters");
    assert_eq!(message(&"é".repeat(51)), "Display name must be at most 100 characters long");
}

#[test]
fn display_name_allows_tab_and_line_breaks() {
    assert!(validate_display_name("a\tb").is_ok());
    assert!(validate_display_name("a\nb").is_ok());
    assert!(validate_display_name("a\rb").is_ok());
    assert!(validate_display_name(&"é".repeat(50)).is_ok());
    assert!(validate_display_name("名前").is_ok());
}

#[test]
fn control_characters_are_those_of_the_standard_library() {
    for code in 0u32..0x300 {
        if let Some(c) = char::from_u32(code) {
            let name = format!("a{}b", c);
            let forbidden = c == '<'
                || c == '>'
                || c == '&'
                || (c.is_control() && c != '\t' && c != '\n' && c != '\r');
            assert_eq!(validate_display_name(&name).is_err(), forbidden, "{:?}", c);
        }
    }
}

#[test]
fn sanitizing_trims_as_the_standard_library_does() {
    let samples = [
        "",
        " ",
        "\t\n x \r\n",
        "\u{a0}x\u{a0}",
        "\u{2003}John\u{3000}",
        "\u{85}a b\u{1680}",
        "\u{200b}x\u{200b}",
        "x\u{feff}",
        " \u{2028}\u{2029}\u{202f}\u{205f}y",
        "\u{0b}\u{0c}z\u{1c}",
    ];
    for s in samples {
        assert_eq!(sanitize_display_name(s), s.trim(), "{:?}", s);
    }
    for code in 0u32..0x3100 {
        if let Some(c) = char::from_u32(code) {
            let s = format!("{}x{}", c, c);
            assert_eq!(sanitize_display_name(&s), s.trim(), "{:?}", c);
        }
    }
}

#[test]
fn sanitizing_a_username_lowers_only_ascii_capitals() {
    assert_eq!(sanitize_username("  ÀBC  "), "Àbc");
    assert_eq!(sanitize_username("\tA_Z-09\n"), "a_z-09");
    assert_eq!(sanitize_username("   "), "");
}

#[test]
fn a_validated_value_survives_cloning() {
    let username = ValidatedUsername::new("clone_me".to_string()).unwrap();
    assert_eq!(username.clone().as_str(), "clone_me");
    let display_name = ValidatedDisplayName::new("Clone Me".to_string()).unwrap();
    assert_eq!(display_name.clone().into_string(), "Clone Me");
}
