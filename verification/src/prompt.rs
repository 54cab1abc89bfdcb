//! Answers to keyboard-interactive prompts, from a host's credentials.
use vstd::prelude::*;

use crate::text::{all_digits, chars_of, contains_str, has_substring, lowercase, to_lowercase};
use crate::types::Creds;

verus! {

/// What a prompt asks for.
#[derive(Debug, PartialEq, Eq, Clone, Copy, Structural)]
pub enum PromptKind {
    /// The user name.
    Username,
    /// A one-time code.
    Totp,
    /// The password.
    Password,
    /// Nothing the credentials can answer.
    Nothing,
}

/// What a prompt asks for, from its lowercase text: a text that mentions `user`
/// asks for the user name; one that mentions `otp`, `2fa`, `one`, `time`, `code`
/// or `token` asks for a one-time code; one that mentions `pass` asks for the
/// password; the first rule that applies decides.
pub open spec fn prompt_kind(lower: Seq<char>) -> PromptKind {
    if has_substring(lower, "user"@) {
        PromptKind::Username
    } else if has_substring(lower, "otp"@) || has_substring(lower, "2fa"@) || has_substring(
        lower,
        "one"@,
    ) || has_substring(lower, "time"@) || has_substring(lower, "code"@) || has_substring(
        lower,
        "token"@,
    ) {
        PromptKind::Totp
    } else if has_substring(lower, "pass"@) {
        PromptKind::Password
    } else {
        PromptKind::Nothing
    }
}

/// How a prompt is read, from the words in its lowercase text: any text that
/// mentions `user` asks for the user name; otherwise any text that mentions
/// `otp`, `2fa`, `one`, `time`, `code` or `token` asks for a one-time code;
/// otherwise any text that mentions `pass` asks for the password; any other
/// text asks for nothing the credentials hold.
pub proof fn law_prompt_words(lower: Seq<char>)
    ensures
        has_substring(lower, "user"@) ==> prompt_kind(lower) == PromptKind::Username,
        !has_substring(lower, "user"@) ==> (has_substring(lower, "otp"@) ==> prompt_kind(lower)
            == PromptKind::Totp),
        !has_substring(lower, "user"@) ==> (has_substring(lower, "2fa"@) ==> prompt_kind(lower)
            == PromptKind::Totp),
        !has_substring(lower, "user"@) ==> (has_substring(lower, "one"@) ==> prompt_kind(lower)
            == PromptKind::Totp),
        !has_substring(lower, "user"@) ==> (has_substring(lower, "time"@) ==> prompt_kind(lower)
            == PromptKind::Totp),
        !has_substring(lower, "user"@) ==> (has_substring(lower, "code"@) ==> prompt_kind(lower)
            == PromptKind::Totp),
        !has_substring(lower, "user"@) ==> (has_substring(lower, "token"@) ==> prompt_kind(lower)
            == PromptKind::Totp),
        prompt_kind(lower) == PromptKind::Totp ==> !has_substring(lower, "user"@) && (
        has_substring(lower, "otp"@) || has_substring(lower, "2fa"@) || has_substring(lower, "one"@)
            || has_substring(lower, "time"@) || has_substring(lower, "code"@) || has_substring(
            lower,
            "token"@,
        )),
        prompt_kind(lower) == PromptKind::Password <==> !has_substring(lower, "user"@)
            && !has_substring(lower, "otp"@) && !has_substring(lower, "2fa"@) && !has_substring(
            lower,
            "one"@,
        ) && !has_substring(lower, "time"@) && !has_substring(lower, "code"@) && !has_substring(
            lower,
            "token"@,
        ) && has_substring(lower, "pass"@),
        prompt_kind(lower) == PromptKind::Nothing <==> !has_substring(lower, "user"@)
            && !has_substring(lower, "otp"@) && !has_substring(lower, "2fa"@) && !has_substring(
            lower,
            "one"@,
        ) && !has_substring(lower, "time"@) && !has_substring(lower, "code"@) && !has_substring(
            lower,
            "token"@,
        ) && !has_substring(lower, "pass"@),
{
}

/// What each kind of prompt is answered with: the user name, the password, the
/// empty string for a prompt the credentials cannot answer, and for a one-time
/// code prompt a six-digit code, or an error when the credentials hold no TOTP
/// key or one that is not a base32 secret.
pub proof fn law_prompt_answers(creds: Creds, k: PromptKind, r: Result<String, String>)
    requires
        answers(creds, k, r),
    ensures
        k == PromptKind::Username ==> r is Ok && r->Ok_0@ == creds.username@,
        k == PromptKind::Password ==> r is Ok && r->Ok_0@ == creds.password@,
        k == PromptKind::Nothing ==> r is Ok && r->Ok_0@ == Seq::<char>::empty(),
        k == PromptKind::Totp && creds.totp_key is None ==> r is Err && r->Err_0@
            == "TOTP key is required"@,
        k == PromptKind::Totp && creds.totp_key is Some && totp_key_accepted(
            creds.totp_key->0@,
        ) ==> r is Ok && r->Ok_0@.len() == 6 && all_digits(r->Ok_0@),
        k == PromptKind::Totp && creds.totp_key is Some && !totp_key_accepted(
            creds.totp_key->0@,
        ) ==> r is Err && r->Err_0@ == "Failed to build totp builder"@,
{
}

/// What the prompt with the lowercased text `lower` asks for.
pub fn kind_of_lowercase_prompt(lower: &str) -> (k: PromptKind)
    ensures
        k == prompt_kind(lower@),
{
    let v = chars_of(lower);
    if contains_str(&v, "user") {
        PromptKind::Username
    } else if contains_str(&v, "otp") || contains_str(&v, "2fa") || contains_str(&v, "one")
        || contains_str(&v, "time") || contains_str(&v, "code") || contains_str(&v, "token") {
        PromptKind::Totp
    } else if contains_str(&v, "pass") {
        PromptKind::Password
    } else {
        PromptKind::Nothing
    }
}

/// What the prompt with the text `text` asks for (the text is lowercased first).
pub fn classify_prompt(text: &str) -> (k: PromptKind)
    ensures
        k == prompt_kind(lowercase(text@)),
{
    let lower = to_lowercase(text);
    kind_of_lowercase_prompt(lower.as_str())
}

/// Whether `key` is a base32 secret as TOTP generation reads it: RFC 4648
/// base32 without padding, so every character is an upper-case letter or a digit
/// from `2` to `7` (the empty key is accepted too).
pub open spec fn totp_key_accepted(key: Seq<char>) -> bool {
    forall|i: int|
        0 <= i < key.len() ==> ('A' <= #[trigger] key[i] <= 'Z' || '2' <= key[i] <= '7')
}

#[verifier::external_type_specification]
#[verifier::external_body]
pub struct ExOathError(libreauth::oath::Error);

/// The current TOTP code for the base32 secret `base32_key`
/// (`libreauth::oath::TOTPBuilder::new().base32_key(..).finalize()`, then
/// `TOTP::generate`).
///
/// Trusted: the contract says that the builder accepts the key exactly when
/// `totp_key_accepted` holds of it (the base32 crate's decoder fails exactly on
/// a character outside that alphabet, and `finalize`, with the default code
/// length, fails only after a failed decode), and that a code has the default
/// form of six decimal digits, as the crate's source builds it.  Which code comes
/// out depends on the clock and is not stated; `generate` reads the system clock
/// and panics only when it stands before 1970.
#[verifier::external_body]
fn generate_totp_code(base32_key: &str) -> (r: Result<String, libreauth::oath::Error>)
    ensures
        r is Ok <==> totp_key_accepted(base32_key@),
        r matches Ok(code) ==> code@.len() == 6 && all_digits(code@),
{
    match libreauth::oath::TOTPBuilder::new().base32_key(base32_key).finalize() {
        Ok(totp) => Ok(totp.generate()),
        Err(e) => Err(e),
    }
}

/// The error when a prompt asks for a one-time code and the credentials hold no key.
pub open spec fn missing_key_message() -> Seq<char> {
    "TOTP key is required"@
}

/// The error when the TOTP key is not a valid base32 secret.
pub open spec fn invalid_key_message() -> Seq<char> {
    "Failed to build totp builder"@
}

/// Whether `r` is the answer that `creds` give to a prompt of kind `k`.
pub open spec fn answers(creds: Creds, k: PromptKind, r: Result<String, String>) -> bool {
    match k {
        PromptKind::Username => r is Ok && r->Ok_0@ == creds.username@,
        PromptKind::Password => r is Ok && r->Ok_0@ == creds.password@,
        PromptKind::Nothing => r is Ok && r->Ok_0@.len() == 0,
        PromptKind::Totp => match creds.totp_key {
            Option::None => r is Err && r->Err_0@ == missing_key_message(),
            Some(key) => if totp_key_accepted(key@) {
                r is Ok && r->Ok_0@.len() == 6 && all_digits(r->Ok_0@)
            } else {
                r is Err && r->Err_0@ == invalid_key_message()
            },
        },
    }
}

/// Answers keyboard-interactive prompts from a host's credentials.
pub struct TotpPromptHandler {
    creds: Creds,
}

impl TotpPromptHandler {
    /// A handler that answers from `creds`.
    pub fn new(creds: Creds) -> (r: Self)
        ensures
            r.creds() == creds,
    {
        TotpPromptHandler { creds }
    }

    /// The credentials that the handler answers from.
    pub closed spec fn creds(&self) -> Creds {
        self.creds
    }

    /// The answer to a prompt of kind `k`: the user name, the password, the
    /// current TOTP code, or nothing.  An error says why no code could be made.
    pub fn answer(&self, k: PromptKind) -> (r: Result<String, String>)
        ensures
            answers(self.creds(), k, r),
    {
        match k {
            PromptKind::Username => Ok(self.creds.username.clone()),
            PromptKind::Password => Ok(self.creds.password.clone()),
            PromptKind::Nothing => Ok(String::new()),
            PromptKind::Totp => match &self.creds.totp_key {
                Option::None => Err(String::from_str("TOTP key is required")),
                Some(key) => match generate_totp_code(key.as_str()) {
                    Ok(code) => Ok(code),
                    Err(_) => Err(String::from_str("Failed to build totp builder")),
                },
            },
        }
    }

    /// The answer to the prompt `text`, as `prompt_kind` of the lowercased text
    /// says what it asks for.
    pub fn respond(&self, text: &str) -> (r: Result<String, String>)
        ensures
            answers(self.creds(), prompt_kind(lowercase(text@)), r),
    {
        self.answer(classify_prompt(text))
    }

    /// The answers to the prompts, one for each, in order; the first error stops
    /// the answering and is returned.
    pub fn prompt(&self, prompts: &Vec<String>) -> (r: Result<Vec<String>, String>)
        ensures
            match r {
                Ok(responses) => {
                    &&& responses.len() == prompts.len()
                    &&& forall|i: int|
                        0 <= i < prompts.len() ==> answers(
                            self.creds(),
                            prompt_kind(lowercase(#[trigger] prompts[i]@)),
                            Ok::<String, String>(responses[i]),
                        )
                },
                Err(e) => exists|i: int|
                    0 <= i < prompts.len() && answers(
                        self.creds(),
                        prompt_kind(lowercase(#[trigger] prompts[i]@)),
                        Err::<String, String>(e),
                    ),
            },
    {
        let mut responses: Vec<String> = Vec::new();
        let mut i: usize = 0;
        while i < prompts.len()
            invariant
                i <= prompts.len(),
                responses.len() == i,
                forall|j: int|
                    0 <= j < i ==> answers(
                        self.creds(),
                        prompt_kind(lowercase(#[trigger] prompts[j]@)),
                        Ok::<String, String>(responses[j]),
                    ),
            decreases prompts.len() - i,
        {
            match self.respond(prompts[i].as_str()) {
                Ok(answer) => {
                    responses.push(answer);
                },
                Err(e) => {
                    return Err(e);
                },
            }
            i = i + 1;
        }
        Ok(responses)
    }
}

} // verus!
