use smcli::credential::{CredentialConfig, CredentialError, OfficeCredentials, PasswordStorage, SmSession, SmStudent};
use smcli::resolve::{option_value, parse_id, resolve_value, MissingValue};
use smcli::vault::{vault_answer, VaultError, VaultWrite};

fn s(text: &str) -> String {
    String::from(text)
}

fn config_with_session(session: &str, sig: &str) -> CredentialConfig {
    let mut c = CredentialConfig::empty_creds();
    c.update_session(s(session), s(sig));
    c
}

#[test]
fn missing_config_loads_empty_and_asks_for_save() {
    let (creds, must_save) = CredentialConfig::load(None);
    assert!(must_save);
    assert_eq!(creds, CredentialConfig::empty_creds());
    assert_eq!(creds.get_office_keys(None), (None, None));
    assert_eq!(creds.get_session_keys(), (None, None));
    assert_eq!(creds.get_jwt_token(), None);
    assert_eq!(creds.get_student_keys(), (None, None));
}

#[test]
fn empty_config_loads_back_without_save() {
    let (first, _) = CredentialConfig::load(None);
    let (second, must_save) = CredentialConfig::load(Some(first.clone()));
    assert!(!must_save);
    assert_eq!(second, first);
}

#[test]
fn stored_config_is_kept_on_load() {
    let stored = config_with_session("sess", "sig");
    let (creds, must_save) = CredentialConfig::load(Some(stored.clone()));
    assert!(!must_save);
    assert_eq!(creds, stored);
}

#[test]
fn plaintext_office_is_stored_inline() {
    let mut c = CredentialConfig::empty_creds();
    let pending = c.apply_updates(Some(s("a@b.com")), Some(s("pw")), true, None, None, None, None, None);
    assert_eq!(pending, None);
    assert_eq!(
        c.office,
        Some(OfficeCredentials { email: s("a@b.com"), password: PasswordStorage::Inline(s("pw")) })
    );
    assert_eq!(c.get_office_keys(None), (Some(s("a@b.com")), Some(s("pw"))));
}

#[test]
fn vault_office_keeps_no_plaintext() {
    let mut c = CredentialConfig::empty_creds();
    let pending = c.apply_updates(Some(s("a@b.com")), Some(s("pw")), false, None, None, None, None, None);
    assert_eq!(pending, Some(VaultWrite { account: s("a@b.com"), password: s("pw") }));
    assert_eq!(c, CredentialConfig::empty_creds());
    let write = pending.unwrap();
    assert_eq!(c.finish_office_update(write.account, Ok(())), Ok(()));
    let office = c.office.clone().unwrap();
    assert_eq!(office.password, PasswordStorage::System);
    assert_eq!(office.vault_account(), Some(s("a@b.com")));
    let answer = vault_answer(Ok((true, s("pw"))));
    assert_eq!(c.get_office_keys(Some(answer)), (Some(s("a@b.com")), Some(s("pw"))));
}

#[test]
fn refused_vault_write_leaves_config_unchanged() {
    let mut c = config_with_session("sess", "sig");
    let before = c.clone();
    let pending = c.update_office(s("a@b.com"), s("pw"), false);
    assert_eq!(pending, Some(VaultWrite { account: s("a@b.com"), password: s("pw") }));
    let r = c.finish_office_update(s("a@b.com"), Err(VaultError::Unavailable));
    assert_eq!(r, Err(CredentialError::VaultStoreFailed(VaultError::Unavailable)));
    assert_eq!(c, before);
}

#[test]
fn env_session_beats_stored_session() {
    let stored = config_with_session("stored", "stored_sig");
    let (session, _) = stored.get_session_keys();
    let r = resolve_value("Session", None, "SM_SESSION", Some(s("from_env")), session);
    assert_eq!(r, Ok(s("from_env")));
}

#[test]
fn vault_failure_leaves_password_unset() {
    let office = OfficeCredentials::new(s("a@b.com"), None);
    let mut c = CredentialConfig::empty_creds();
    c.office = Some(office);
    assert_eq!(c.get_office_keys(Some(Err(VaultError::Unavailable))), (Some(s("a@b.com")), None));
    let answer = vault_answer(Ok((false, s(""))));
    assert_eq!(answer, Err(VaultError::NotFound));
    assert_eq!(c.get_office_keys(Some(answer)), (Some(s("a@b.com")), None));
    assert_eq!(c.get_office_keys(None), (Some(s("a@b.com")), None));
}

#[test]
fn command_line_value_wins() {
    let r = resolve_value("Email", Some(s("cli@x")), "SM_EMAIL", Some(s("env@x")), Some(s("stored@x")));
    assert_eq!(r, Ok(s("cli@x")));
    assert_eq!(option_value(Some(s("cli")), Some(s("env"))), Some(s("cli")));
}

#[test]
fn environment_value_before_stored() {
    let r = resolve_value("Email", None, "SM_EMAIL", Some(s("env@x")), Some(s("stored@x")));
    assert_eq!(r, Ok(s("env@x")));
    assert_eq!(option_value(None, Some(s("env"))), Some(s("env")));
}

#[test]
fn stored_value_last_and_missing_value_error() {
    let r = resolve_value("Email", None, "SM_EMAIL", None, Some(s("stored@x")));
    assert_eq!(r, Ok(s("stored@x")));
    let r = resolve_value("Password", None, "SM_PASSWORD", None, None);
    assert_eq!(r, Err(MissingValue { field: s("Password"), env_var: s("SM_PASSWORD") }));
    assert_eq!(option_value(None, None), None);
}

#[test]
fn inline_password_needs_no_vault() {
    let office = OfficeCredentials::new(s("a@b.com"), Some(s("secret")));
    assert_eq!(office.vault_account(), None);
    assert_eq!(office.get_password(None), Ok(s("secret")));
    assert_eq!(office.get_password(Some(Ok(s("other")))), Ok(s("secret")));
}

#[test]
fn system_password_comes_from_vault() {
    let office = OfficeCredentials::new(s("a@b.com"), None);
    assert_eq!(office.password, PasswordStorage::System);
    assert_eq!(office.get_password(Some(Ok(s("pw")))), Ok(s("pw")));
    assert_eq!(office.get_password(Some(Err(VaultError::NotFound))), Err(VaultError::NotFound));
    assert_eq!(office.get_password(None), Err(VaultError::Unavailable));
}

#[test]
fn vault_answer_cases() {
    assert_eq!(vault_answer(Ok((true, s("")))), Ok(s("")));
    assert_eq!(vault_answer(Ok((true, s("pw")))), Ok(s("pw")));
    assert_eq!(vault_answer(Ok((false, s("pw")))), Err(VaultError::NotFound));
    assert_eq!(vault_answer(Err(VaultError::Unavailable)), Err(VaultError::Unavailable));
}

#[test]
fn updates_replace_only_supplied_groups() {
    let mut c = CredentialConfig::empty_creds();
    c.update_jwt_token(s("old_token"));
    c.update_student(1, 2);
    let pending = c.apply_updates(Some(s("a@b.com")), None, true, Some(s("sess")), Some(s("sig")), None, Some(5), None);
    assert_eq!(pending, None);
    assert_eq!(c.office, None);
    assert_eq!(c.sm_session, Some(SmSession { session: s("sess"), session_sig: s("sig") }));
    assert_eq!(c.get_jwt_token(), Some(s("old_token")));
    assert_eq!(c.student, Some(SmStudent { id: 1, class_id: 2 }));
    let pending = c.apply_updates(None, None, false, Some(s("only_session")), None, Some(s("new_token")), Some(7), Some(8));
    assert_eq!(pending, None);
    assert_eq!(c.get_session_keys(), (Some(s("sess")), Some(s("sig"))));
    assert_eq!(c.get_jwt_token(), Some(s("new_token")));
    assert_eq!(c.get_student_keys(), (Some(7), Some(8)));
}

#[test]
fn empty_update_changes_nothing() {
    let mut c = config_with_session("sess", "sig");
    c.update_office(s("a@b.com"), s("pw"), true);
    let before = c.clone();
    let pending = c.apply_updates(None, None, true, None, None, None, None, None);
    assert_eq!(pending, None);
    assert_eq!(c, before);
}

#[test]
fn session_update_replaces_whole_record() {
    let mut c = config_with_session("a", "b");
    c.update_session(s("c"), s("d"));
    assert_eq!(c.get_session_keys(), (Some(s("c")), Some(s("d"))));
}

#[test]
fn parse_id_accepts_decimal_numbers() {
    assert_eq!(parse_id("42"), Some(42));
    assert_eq!(parse_id("+7"), Some(7));
    assert_eq!(parse_id("007"), Some(7));
    assert_eq!(parse_id("18446744073709551615"), Some(u64::MAX));
}

#[test]
fn parse_id_rejects_other_text() {
    assert_eq!(parse_id(""), None);
    assert_eq!(parse_id("+"), None);
    assert_eq!(parse_id("-1"), None);
    assert_eq!(parse_id("12a"), None);
    assert_eq!(parse_id(" 1"), None);
    assert_eq!(parse_id("18446744073709551616"), None);
    assert_eq!(parse_id("99999999999999999999x"), None);
    assert_eq!(parse_id("\u{663}"), None);
}
