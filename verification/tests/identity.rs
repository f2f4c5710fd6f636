use astrid_sdk::error::SysError;
use astrid_sdk::identity::{list_links, resolve, unlink, IdentityError, PlatformLink, ResolvedUser};

#[test]
fn resolve_treats_link_not_found_as_none() {
    let user = ResolvedUser { user_id: "u-1".into(), display_name: Some("Ann".into()) };
    let got = resolve(Ok(user)).unwrap().unwrap();
    assert_eq!(got.user_id, "u-1");
    assert_eq!(got.display_name.as_deref(), Some("Ann"));
    assert!(resolve(Err(IdentityError::LinkNotFound)).unwrap().is_none());
    match resolve(Err(IdentityError::Other("CapabilityDenied".into()))) {
        Err(SysError::HostError(m)) => assert_eq!(m, "CapabilityDenied"),
        other => panic!("unexpected {other:?}"),
    }
}

#[test]
fn unlink_outcomes() {
    assert_eq!(unlink(Ok(())).unwrap(), true);
    assert_eq!(unlink(Err(IdentityError::LinkNotFound)).unwrap(), false);
    assert!(unlink(Err(IdentityError::Other("StoreUnavailable".into()))).is_err());
}

#[test]
fn list_links_attributes_the_user() {
    let host = vec![PlatformLink {
        platform: "discord".into(),
        platform_user_id: "123".into(),
        linked_at: "2024-01-01T00:00:00Z".into(),
        method: "system".into(),
    }];
    let links = list_links("u-9", host);
    assert_eq!(links.len(), 1);
    assert_eq!(links[0].astrid_user_id, "u-9");
    assert_eq!(links[0].platform, "discord");
    assert_eq!(links[0].platform_user_id, "123");
    assert_eq!(links[0].method, "system");
}
