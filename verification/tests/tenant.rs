use inth_oauth2_azure::{AzureTenant, Error, LifetimeModel};

#[test]
fn tenant_guid_gives_its_authorization_endpoint() {
    let tenant = AzureTenant::try_new("8eaef023-2b34-4da1-9baa-8bc8c9d6a490").unwrap();
    assert_eq!(
        tenant.auth_uri(),
        "https://login.microsoftonline.com/8eaef023-2b34-4da1-9baa-8bc8c9d6a490/oauth2/v2.0/authorize"
    );
    assert_eq!(
        tenant.token_uri(),
        "https://login.microsoftonline.com/8eaef023-2b34-4da1-9baa-8bc8c9d6a490/oauth2/v2.0/token"
    );
}

#[test]
fn tenant_domain_gives_its_token_endpoint() {
    let tenant = AzureTenant::try_new("contoso.onmicrosoft.com").unwrap();
    assert_eq!(
        tenant.token_uri(),
        "https://login.microsoftonline.com/contoso.onmicrosoft.com/oauth2/v2.0/token"
    );
    assert_eq!(
        tenant.auth_uri(),
        "https://login.microsoftonline.com/contoso.onmicrosoft.com/oauth2/v2.0/authorize"
    );
}

#[test]
fn new_builds_what_try_new_builds() {
    let tenant = AzureTenant::new("8eaef023-2b34-4da1-9baa-8bc8c9d6a490");
    assert_eq!(
        tenant.auth_uri(),
        "https://login.microsoftonline.com/8eaef023-2b34-4da1-9baa-8bc8c9d6a490/oauth2/v2.0/authorize"
    );
    assert_eq!(Ok(tenant), AzureTenant::try_new("8eaef023-2b34-4da1-9baa-8bc8c9d6a490"));
}

#[test]
fn identifier_sits_between_host_and_tail() {
    let ids = [
        "8eaef023-2b34-4da1-9baa-8bc8c9d6a490",
        "contoso.onmicrosoft.com",
        "Fabrikam.example",
        "a",
        "tenant_1~x",
    ];
    for id in ids {
        let tenant = AzureTenant::try_new(id).unwrap();
        let auth = url::Url::parse(tenant.auth_uri()).unwrap();
        assert_eq!(auth.host_str(), Some("login.microsoftonline.com"));
        assert_eq!(auth.path(), format!("/{}/oauth2/v2.0/authorize", id));
        let token = url::Url::parse(tenant.token_uri()).unwrap();
        assert_eq!(token.host_str(), Some("login.microsoftonline.com"));
        assert_eq!(token.path(), format!("/{}/oauth2/v2.0/token", id));
    }
}

#[test]
fn empty_identifier_goes_to_the_parser() {
    let tenant = AzureTenant::try_new("").unwrap();
    assert_eq!(
        tenant.auth_uri(),
        "https://login.microsoftonline.com//oauth2/v2.0/authorize"
    );
    assert_eq!(
        tenant.token_uri(),
        "https://login.microsoftonline.com//oauth2/v2.0/token"
    );
    assert_eq!(AzureTenant::try_new(""), Ok(tenant));
}

#[test]
fn white_space_and_control_characters_are_malformed() {
    assert_eq!(AzureTenant::try_new(" bad id\n"), Err(Error::MalformedEndpoint));
    assert_eq!(AzureTenant::try_new("bad id"), Err(Error::MalformedEndpoint));
    assert_eq!(AzureTenant::try_new("bad\tid"), Err(Error::MalformedEndpoint));
    assert_eq!(AzureTenant::try_new("contoso\n"), Err(Error::MalformedEndpoint));
    assert_eq!(AzureTenant::try_new("\u{0}"), Err(Error::MalformedEndpoint));
    assert_eq!(AzureTenant::try_new("a\u{7f}b"), Err(Error::MalformedEndpoint));
    assert_eq!(AzureTenant::try_new("a\u{a0}b"), Err(Error::MalformedEndpoint));
    assert_eq!(AzureTenant::try_new("a\u{2028}b"), Err(Error::MalformedEndpoint));
}

#[test]
fn endpoints_are_what_the_parser_serializes() {
    let parent = AzureTenant::try_new("..").unwrap();
    assert_eq!(
        parent.auth_uri(),
        "https://login.microsoftonline.com/oauth2/v2.0/authorize"
    );
    assert_eq!(
        parent.token_uri(),
        "https://login.microsoftonline.com/oauth2/v2.0/token"
    );
    let accented = AzureTenant::try_new("caf\u{e9}").unwrap();
    assert_eq!(
        accented.auth_uri(),
        "https://login.microsoftonline.com/caf%C3%A9/oauth2/v2.0/authorize"
    );
    let backslash = AzureTenant::try_new("a\\b").unwrap();
    assert_eq!(
        backslash.token_uri(),
        "https://login.microsoftonline.com/a/b/oauth2/v2.0/token"
    );
}

#[test]
fn construction_is_repeatable() {
    let first = AzureTenant::try_new("contoso.onmicrosoft.com").unwrap();
    let second = AzureTenant::try_new("contoso.onmicrosoft.com").unwrap();
    assert_eq!(first, second);
    assert_eq!(first.auth_uri(), first.auth_uri());
    assert_eq!(first.token_uri(), second.token_uri());
    let other = AzureTenant::try_new("fabrikam.onmicrosoft.com").unwrap();
    assert_ne!(first, other);
}

#[test]
fn clone_keeps_both_endpoints() {
    let tenant = AzureTenant::try_new("contoso.onmicrosoft.com").unwrap();
    let copy = tenant.clone();
    assert_eq!(copy, tenant);
    assert_eq!(copy.auth_uri(), tenant.auth_uri());
    assert_eq!(copy.token_uri(), tenant.token_uri());
}

#[test]
fn tenant_issues_refreshable_tokens() {
    let tenant = AzureTenant::try_new("contoso.onmicrosoft.com").unwrap();
    assert_eq!(tenant.lifetime_model(), LifetimeModel::Refresh);
}
