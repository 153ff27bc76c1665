use tobira::realm::{
    ApiError, AuthContext, AuthUser, Context, Id, IdKind, PathLookup, Realm, RealmNameSource,
    RealmOrder, lookup_for_path,
};

fn realm(key: i64, parent_key: Option<i64>, full_path: &str) -> Realm {
    Realm {
        key,
        parent_key,
        plain_name: None,
        resolved_name: None,
        name_from_block: None,
        path_segment: full_path.rsplit('/').next().unwrap_or("").to_string(),
        full_path: full_path.to_string(),
        index: 0,
        child_order: RealmOrder::ByIndex,
        owner_display_name: None,
    }
}

fn user(username: &str, is_admin: bool, is_moderator: bool) -> Context {
    Context {
        auth: AuthContext::User(AuthUser {
            username: username.to_string(),
            is_admin,
            is_moderator,
        }),
    }
}

#[test]
fn main_root_classification() {
    let root = realm(0, None, "");
    assert!(root.is_main_root());
    assert!(!root.is_user_realm());
    assert!(!root.is_user_root());
    assert_eq!(root.owning_user(), None);
    assert_eq!(root.path(), "/");
    assert_eq!(root.path_segment(), "");
}

#[test]
fn user_realm_classification() {
    let r = realm(17, None, "/@peter");
    assert!(!r.is_main_root());
    assert!(r.is_user_realm());
    assert!(r.is_user_root());
    assert_eq!(r.owning_user(), Some("peter"));
    assert_eq!(r.path(), "/@peter");
}

#[test]
fn nested_user_realm_keeps_owner() {
    let r = realm(18, Some(17), "/@peter/videos/2024");
    assert!(r.is_user_realm());
    assert!(!r.is_user_root());
    assert_eq!(r.owning_user(), Some("peter"));
}

#[test]
fn empty_username_after_marker() {
    let r = realm(19, None, "/@");
    assert!(r.is_user_realm());
    assert_eq!(r.owning_user(), Some(""));
}

#[test]
fn ordinary_realm_has_no_owner() {
    let r = realm(3, Some(0), "/lectures");
    assert!(!r.is_user_realm());
    assert_eq!(r.owning_user(), None);
    assert_eq!(r.path(), "/lectures");
}

#[test]
fn owner_may_edit_own_tree() {
    let r = realm(18, Some(17), "/@peter/videos");
    assert!(r.can_current_user_edit(&user("peter", false, false)));
    assert!(r.require_write_access(&user("peter", false, false)).is_ok());
}

#[test]
fn stranger_may_not_edit_user_tree() {
    let r = realm(18, Some(17), "/@peter/videos");
    let ctx = user("paula", false, true);
    assert!(!r.can_current_user_edit(&ctx));
    assert_eq!(r.require_write_access(&ctx), Err(ApiError::NoWriteAccess));
}

#[test]
fn admin_may_edit_any_user_tree() {
    let r = realm(18, Some(17), "/@peter/videos");
    assert!(r.can_current_user_edit(&user("paula", true, false)));
}

#[test]
fn moderator_may_edit_public_tree() {
    let r = realm(3, Some(0), "/lectures");
    assert!(r.can_current_user_edit(&user("paula", false, true)));
    assert!(!r.can_current_user_edit(&user("paula", false, false)));
}

#[test]
fn anonymous_may_edit_nothing() {
    let public = realm(3, Some(0), "/lectures");
    let private = realm(18, Some(17), "/@peter/videos");
    let ctx = Context { auth: AuthContext::Anonymous };
    assert!(!public.can_current_user_edit(&ctx));
    assert!(!private.can_current_user_edit(&ctx));
    assert_eq!(public.require_write_access(&ctx), Err(ApiError::NoWriteAccess));
}

#[test]
fn id_round_trip() {
    let r = realm(41, Some(0), "/courses");
    let id = r.id();
    assert_eq!(id, Id { kind: IdKind::Realm, key: 41 });
    assert_eq!(id.key_for(IdKind::Realm), Some(41));
    assert_eq!(id.key_for(IdKind::Event), None);
}

#[test]
fn name_prefers_resolved_value() {
    let mut r = realm(3, Some(0), "/lectures");
    assert_eq!(r.name(), None);
    r.resolved_name = Some("Lectures".to_string());
    assert_eq!(r.name(), Some("Lectures"));
}

#[test]
fn name_source_prefers_plain_name() {
    let mut r = realm(3, Some(0), "/lectures");
    assert!(r.name_source().is_none());

    r.name_from_block = Some(77);
    match r.name_source() {
        Some(RealmNameSource::Block(b)) => assert_eq!(b.block, 77),
        other => panic!("expected block name source, got {:?}", other.is_some()),
    }

    r.plain_name = Some("Lectures".to_string());
    match r.name_source() {
        Some(RealmNameSource::Plain(p)) => assert_eq!(p.name, "Lectures"),
        other => panic!("expected plain name source, got {:?}", other.is_some()),
    }
}

#[test]
fn getters_return_fields() {
    let mut r = realm(3, Some(0), "/lectures");
    r.index = 4;
    r.child_order = RealmOrder::AlphabeticDesc;
    r.owner_display_name = Some("Peter Lustig".to_string());
    assert_eq!(r.index(), 4);
    assert_eq!(r.child_order(), RealmOrder::AlphabeticDesc);
    assert_eq!(r.owner_display_name(), Some("Peter Lustig"));
    assert_eq!(r.path_segment(), "lectures");
}

#[test]
fn path_lookup_normalizes() {
    assert!(matches!(lookup_for_path(""), PathLookup::Root));
    assert!(matches!(lookup_for_path("/"), PathLookup::Root));
    match lookup_for_path("/lectures/") {
        PathLookup::ByFullPath(p) => assert_eq!(p, "/lectures"),
        PathLookup::Root => panic!("expected full-path lookup"),
    }
    match lookup_for_path("/@peter") {
        PathLookup::ByFullPath(p) => assert_eq!(p, "/@peter"),
        PathLookup::Root => panic!("expected full-path lookup"),
    }
}
