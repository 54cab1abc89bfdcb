use sshbind::prompt::{classify_prompt, kind_of_lowercase_prompt, PromptKind, TotpPromptHandler};
use sshbind::Creds;

fn creds(key: Option<&str>) -> Creds {
    Creds {
        username: "max".to_string(),
        password: "s3cret".to_string(),
        totp_key: key.map(|k| k.to_string()),
    }
}

#[test]
fn prompt_kinds() {
    assert_eq!(classify_prompt("Username:"), PromptKind::Username);
    assert_eq!(classify_prompt("Verification code:"), PromptKind::Totp);
    assert_eq!(classify_prompt("Enter 2FA token"), PromptKind::Totp);
    assert_eq!(classify_prompt("Password:"), PromptKind::Password);
    // "one" comes before "pass".
    assert_eq!(classify_prompt("One-time password:"), PromptKind::Totp);
    // "user" comes first of all.
    assert_eq!(classify_prompt("USER password"), PromptKind::Username);
    assert_eq!(classify_prompt("Press enter"), PromptKind::Nothing);
}

#[test]
fn prompt_answers_from_credentials() {
    let h = TotpPromptHandler::new(creds(Some("GEZDGNBVGY3TQOJQ")));
    assert_eq!(h.respond("login user:"), Ok("max".to_string()));
    assert_eq!(h.respond("Password: "), Ok("s3cret".to_string()));
    assert_eq!(h.respond("Welcome"), Ok(String::new()));
    let code = h.respond("Verification code:").unwrap();
    assert_eq!(code.len(), 6);
    assert!(code.chars().all(|c| c.is_ascii_digit()));
}

#[test]
fn prompt_totp_errors() {
    let h = TotpPromptHandler::new(creds(None));
    assert_eq!(h.respond("OTP:"), Err("TOTP key is required".to_string()));
    let h = TotpPromptHandler::new(creds(Some("!!not base32!!")));
    assert_eq!(h.respond("OTP:"), Err("Failed to build totp builder".to_string()));
}

#[test]
fn totp_keys_follow_the_base32_alphabet() {
    // Lower-case letters, padding and the digits 0, 1, 8, 9 are outside it.
    for bad in ["gezdgnbv", "GEZDGNBV====", "GEZ1", "GEZ8"] {
        let h = TotpPromptHandler::new(creds(Some(bad)));
        assert_eq!(h.respond("OTP:"), Err("Failed to build totp builder".to_string()), "{}", bad);
    }
    for good in ["", "A", "JBSWY3DPEHPK3PXP", "ABCDEFGHIJKLMNOPQRSTUVWXYZ234567"] {
        let h = TotpPromptHandler::new(creds(Some(good)));
        let code = h.respond("OTP:").unwrap();
        assert_eq!(code.len(), 6, "{}", good);
    }
}

#[test]
fn prompt_list_answers_in_order() {
    let h = TotpPromptHandler::new(creds(Some("GEZDGNBVGY3TQOJQGEZDGNBVGY3TQOJQ")));
    let prompts = vec!["Password:".to_string(), "Token:".to_string(), "Banner".to_string()];
    let answers = h.prompt(&prompts).unwrap();
    assert_eq!(answers.len(), 3);
    assert_eq!(answers[0], "s3cret");
    assert_eq!(answers[1].len(), 6);
    assert_eq!(answers[2], "");

    let h = TotpPromptHandler::new(creds(None));
    let prompts = vec!["Password:".to_string(), "Code:".to_string()];
    assert_eq!(h.prompt(&prompts), Err("TOTP key is required".to_string()));
    assert_eq!(h.prompt(&Vec::new()), Ok(Vec::new()));
}

#[test]
fn prompt_kinds_of_lowercase_text() {
    assert_eq!(kind_of_lowercase_prompt("username:"), PromptKind::Username);
    assert_eq!(kind_of_lowercase_prompt("enter otp"), PromptKind::Totp);
    assert_eq!(kind_of_lowercase_prompt("password:"), PromptKind::Password);
    // The text is taken as it is: upper case is not recognised here.
    assert_eq!(kind_of_lowercase_prompt("PASSWORD:"), PromptKind::Nothing);
}

#[test]
fn prompt_answers_by_kind() {
    let h = TotpPromptHandler::new(creds(None));
    assert_eq!(h.answer(PromptKind::Username), Ok("max".to_string()));
    assert_eq!(h.answer(PromptKind::Password), Ok("s3cret".to_string()));
    assert_eq!(h.answer(PromptKind::Nothing), Ok(String::new()));
    assert_eq!(h.answer(PromptKind::Totp), Err("TOTP key is required".to_string()));
}
