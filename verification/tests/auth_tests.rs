use sshbind::auth::{
    remove_method, AuthAction, AuthEvent, AuthMethod, AuthPhase, OrderedAuthMethods, UserAuth,
};

#[test]
fn auth_method_names() {
    assert_eq!(AuthMethod::from_str("password"), Ok(AuthMethod::Password));
    assert_eq!(AuthMethod::from_str("publickey"), Ok(AuthMethod::PublicKey));
    assert_eq!(AuthMethod::from_str("keyboard-interactive"), Ok(AuthMethod::KeyboardInteractive));
    assert_eq!(AuthMethod::from_str("hostbased"), Ok(AuthMethod::HostBased));
    assert_eq!(AuthMethod::from_str("gssapi-with-mic"), Ok(AuthMethod::GssApiWithMic));
    assert_eq!(AuthMethod::from_str("gssapi-keyex"), Ok(AuthMethod::GssApiKeyex));
    assert_eq!(AuthMethod::from_str("none"), Ok(AuthMethod::NoAuth));
    assert_eq!(
        AuthMethod::from_str("Password"),
        Err("Unknown authentication method: Password".to_string())
    );
    assert_eq!(AuthMethod::KeyboardInteractive.as_str(), "keyboard-interactive");
    assert_eq!(AuthMethod::NoAuth.to_string(), "none");
    for m in [AuthMethod::Password, AuthMethod::PublicKey, AuthMethod::GssApiKeyex] {
        assert_eq!(AuthMethod::from_str(m.as_str()), Ok(m));
    }
}

#[test]
fn ordered_methods_keep_order_and_skip_unknown() {
    let parsed = OrderedAuthMethods::parse(" publickey , magic,password,, keyboard-interactive ");
    assert_eq!(
        parsed.methods,
        vec![AuthMethod::PublicKey, AuthMethod::Password, AuthMethod::KeyboardInteractive]
    );
    assert!(OrderedAuthMethods::parse("").methods.is_empty());
}

#[test]
fn remove_method_drops_every_copy() {
    let v = vec![AuthMethod::Password, AuthMethod::PublicKey, AuthMethod::Password];
    assert_eq!(remove_method(&v, AuthMethod::Password), vec![AuthMethod::PublicKey]);
    assert_eq!(remove_method(&v, AuthMethod::HostBased), v);
}

#[test]
fn userauth_tries_methods_in_server_order() {
    let (mut auth, first) = UserAuth::new("alice".to_string(), "h:22".to_string(), false);
    assert_eq!(first, AuthAction::QueryMethods);
    assert_eq!(auth.phase(), AuthPhase::AwaitInitialMethods);

    let a = auth.step(AuthEvent::MethodsListed("hostbased,publickey,password".to_string()), false);
    assert_eq!(a, AuthAction::TryPublicKey);
    assert_eq!(auth.phase(), AuthPhase::AwaitAttempt(AuthMethod::PublicKey));
    assert_eq!(auth.methods(), &vec![AuthMethod::Password]);

    let a = auth.step(AuthEvent::AttemptFailed("no key".to_string()), false);
    assert_eq!(a, AuthAction::TryPassword);

    let a = auth.step(AuthEvent::AttemptSucceeded, true);
    assert_eq!(a, AuthAction::Finish(Ok(())));
    assert_eq!(auth.phase(), AuthPhase::Done);
}

#[test]
fn userauth_fails_when_methods_run_out() {
    let (mut auth, _) = UserAuth::new("bob".to_string(), "srv:2222".to_string(), false);
    let a = auth.step(AuthEvent::MethodsListed("password".to_string()), false);
    assert_eq!(a, AuthAction::TryPassword);
    let a = auth.step(AuthEvent::AttemptFailed("denied".to_string()), false);
    assert_eq!(
        a,
        AuthAction::Finish(Err("Authentication failed for user: bob on host: srv:2222".to_string()))
    );
}

#[test]
fn userauth_no_attemptable_method() {
    let (mut auth, _) = UserAuth::new("bob".to_string(), "h".to_string(), false);
    let a = auth.step(AuthEvent::MethodsListed("hostbased,none".to_string()), false);
    assert_eq!(
        a,
        AuthAction::Finish(Err("Authentication failed for user: bob on host: h".to_string()))
    );
}

#[test]
fn userauth_errors_end_authentication() {
    let (mut auth, _) = UserAuth::new("u".to_string(), "h".to_string(), false);
    let a = auth.step(AuthEvent::QueryFailed("socket closed".to_string()), false);
    assert_eq!(a, AuthAction::Finish(Err("socket closed".to_string())));

    let (mut auth, _) = UserAuth::new("u".to_string(), "h".to_string(), false);
    auth.step(AuthEvent::MethodsListed("publickey,password".to_string()), false);
    let a = auth.step(AuthEvent::AttemptAborted("no identity file".to_string()), false);
    assert_eq!(a, AuthAction::Finish(Err("no identity file".to_string())));
    assert_eq!(auth.phase(), AuthPhase::Done);
}

#[test]
fn userauth_skipped_attempt_moves_on() {
    let (mut auth, _) = UserAuth::new("u".to_string(), "h".to_string(), false);
    auth.step(AuthEvent::MethodsListed("publickey,keyboard-interactive".to_string()), false);
    let a = auth.step(AuthEvent::AttemptSkipped, false);
    assert_eq!(a, AuthAction::TryKeyboardInteractive);
}

#[test]
fn userauth_two_factor_flow() {
    let (mut auth, _) = UserAuth::new("max".to_string(), "h:22".to_string(), true);
    let a = auth.step(AuthEvent::MethodsListed("password,keyboard-interactive".to_string()), false);
    assert_eq!(a, AuthAction::TryPassword);

    // With a TOTP key a failure asks for the list again.
    let a = auth.step(AuthEvent::AttemptFailed("partial".to_string()), false);
    assert_eq!(a, AuthAction::QueryMethods);
    assert_eq!(auth.phase(), AuthPhase::AwaitRefreshAfterFailure(AuthMethod::Password));

    // The failed method and public key are left out of the new list.
    let a = auth.step(
        AuthEvent::MethodsListed("publickey,password,keyboard-interactive".to_string()),
        false,
    );
    assert_eq!(a, AuthAction::TryKeyboardInteractive);
    assert!(auth.methods().is_empty());

    // No error, yet not authenticated: a partial success asks again.
    let a = auth.step(AuthEvent::AttemptSucceeded, false);
    assert_eq!(a, AuthAction::QueryMethods);
    assert_eq!(auth.phase(), AuthPhase::AwaitRefreshAfterPartial);

    let a = auth.step(AuthEvent::MethodsListed("keyboard-interactive".to_string()), true);
    assert_eq!(a, AuthAction::Finish(Ok(())));
}

#[test]
fn userauth_each_listed_method_tried_once() {
    let (mut auth, _) = UserAuth::new("u".to_string(), "h".to_string(), false);
    let mut tried = Vec::new();
    let mut a = auth.step(
        AuthEvent::MethodsListed("password,publickey,keyboard-interactive".to_string()),
        false,
    );
    loop {
        match a {
            AuthAction::TryPassword => tried.push(AuthMethod::Password),
            AuthAction::TryPublicKey => tried.push(AuthMethod::PublicKey),
            AuthAction::TryKeyboardInteractive => tried.push(AuthMethod::KeyboardInteractive),
            AuthAction::Finish(r) => {
                assert!(r.is_err());
                break;
            }
            AuthAction::QueryMethods => panic!("no TOTP key: no new query"),
        }
        a = auth.step(AuthEvent::AttemptFailed("no".to_string()), false);
    }
    assert_eq!(
        tried,
        vec![AuthMethod::Password, AuthMethod::PublicKey, AuthMethod::KeyboardInteractive]
    );
}

#[test]
fn ordered_methods_ignoring_case() {
    let parsed = OrderedAuthMethods::parse_ignoring_case(" PASSWORD ,PublicKey,Keyboard-Interactive,bogus");
    assert_eq!(
        parsed.methods,
        vec![AuthMethod::Password, AuthMethod::PublicKey, AuthMethod::KeyboardInteractive]
    );
    // The exact parser leaves names in another case out.
    assert!(OrderedAuthMethods::parse("PASSWORD").methods.is_empty());
}

#[test]
fn server_list_reads_only_the_five_user_methods() {
    let parsed =
        OrderedAuthMethods::parse_ignoring_case("gssapi-keyex,NONE,HostBased,gssapi-with-mic,password");
    assert_eq!(
        parsed.methods,
        vec![AuthMethod::HostBased, AuthMethod::GssApiWithMic, AuthMethod::Password]
    );
}

#[test]
fn userauth_reads_the_server_list_in_any_case() {
    let (mut auth, _) = UserAuth::new("u".to_string(), "h".to_string(), false);
    let a = auth.step(AuthEvent::MethodsListed("PublicKey, Password".to_string()), false);
    assert_eq!(a, AuthAction::TryPublicKey);
    assert_eq!(auth.methods(), &vec![AuthMethod::Password]);
}
