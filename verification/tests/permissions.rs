use axo::permissions::{
    available_permissions, check_permission_named, perm_state_str, request_permission_named,
    AndroidPermissionHandler, DesktopPermissionHandler, IosPermissionHandler, Permission,
    PermissionHandler, PermissionState, PermissionTable, PlatformPermissions,
    WindowsPermissionHandler,
};
use axo::platform::TargetOs;

#[test]
fn permission_names_round_trip() {
    for name in available_permissions() {
        let p = Permission::parse_name(name).expect("listed names parse");
        assert_eq!(p.as_str(), name);
        let q: Permission = name.parse().unwrap();
        assert_eq!(p, q);
    }
    assert_eq!(available_permissions().len(), 15);
    assert_eq!(available_permissions()[10], "mediaLibrary");
}

#[test]
fn unknown_permission_is_an_error() {
    assert_eq!(Permission::parse_name("Camera"), None);
    assert_eq!(Permission::from_name("teleport"), Err("Unknown permission: teleport".to_string()));
    let r: Result<Permission, String> = "".parse();
    assert_eq!(r, Err("Unknown permission: ".to_string()));
}

#[test]
fn platform_constants() {
    assert_eq!(Permission::Camera.android_permission(), Some("android.permission.CAMERA"));
    assert_eq!(Permission::Wifi.android_permission(), None);
    assert_eq!(Permission::Location.ios_info_plist_key(), Some("NSLocationWhenInUseUsageDescription"));
    assert_eq!(Permission::Sms.ios_info_plist_key(), None);
    assert_eq!(Permission::Notifications.ios_framework_name(), Some("UNUserNotificationCenter"));
    assert_eq!(Permission::Storage.ios_framework_name(), None);
}

#[test]
fn state_names() {
    assert_eq!(perm_state_str(PermissionState::Granted), "granted");
    assert_eq!(perm_state_str(PermissionState::NotRequested), "not_requested");
    assert_eq!(perm_state_str(PermissionState::PermanentlyDenied), "permanently_denied");
}

#[test]
fn fresh_handlers_report_platform_defaults() {
    assert_eq!(DesktopPermissionHandler::new().check_permission(Permission::Camera), PermissionState::Granted);
    assert_eq!(AndroidPermissionHandler::new().check_permission(Permission::Camera), PermissionState::Denied);
    assert_eq!(IosPermissionHandler::new().check_permission(Permission::Camera), PermissionState::NotRequested);
    assert_eq!(WindowsPermissionHandler::new().check_permission(Permission::Camera), PermissionState::Denied);
}

#[test]
fn check_after_request_reports_granted() {
    let mut h = AndroidPermissionHandler::default();
    assert_eq!(h.request_permission(Permission::Microphone), PermissionState::Granted);
    assert_eq!(h.check_permission(Permission::Microphone), PermissionState::Granted);
    assert_eq!(h.check_permission(Permission::Camera), PermissionState::Denied);
    assert!(h.open_settings());
    assert_eq!(h.check_permission(Permission::Microphone), PermissionState::Granted);
}

#[test]
fn platform_dispatch() {
    let mut h = PlatformPermissions::for_os(TargetOs::Ios);
    assert!(matches!(h, PlatformPermissions::Ios(_)));
    assert_eq!(check_permission_named(&h, "camera"), "not_requested");
    assert_eq!(request_permission_named(&mut h, "camera"), "granted");
    assert_eq!(check_permission_named(&h, "camera"), "granted");
    assert_eq!(check_permission_named(&h, "teleport"), "unsupported");
    assert_eq!(request_permission_named(&mut h, "teleport"), "unsupported");
    assert!(matches!(PlatformPermissions::for_os(TargetOs::Linux), PlatformPermissions::Desktop(_)));
    assert!(matches!(PlatformPermissions::for_os(TargetOs::Windows), PlatformPermissions::Windows(_)));
    assert!(matches!(PlatformPermissions::for_os(TargetOs::Android), PlatformPermissions::Android(_)));
}

#[test]
fn permission_table_records_last_state() {
    let mut t = PermissionTable::new();
    assert_eq!(t.get(Permission::Sms), None);
    t.set(Permission::Sms, PermissionState::Limited);
    t.set(Permission::Sms, PermissionState::Restricted);
    assert_eq!(t.get(Permission::Sms), Some(PermissionState::Restricted));
    assert_eq!(t.get(Permission::Camera), None);
}

#[test]
fn documented_permissions_are_available() {
    let names = available_permissions();
    for documented in ["camera", "location", "storage", "notifications", "microphone", "contacts"] {
        assert!(names.contains(&documented), "{}", documented);
        assert_eq!(Permission::parse_name(documented).map(|p| p.as_str()), Some(documented));
    }
}

#[test]
fn desktop_grants_after_any_calls() {
    let mut h = DesktopPermissionHandler::new();
    for name in available_permissions() {
        let p = Permission::parse_name(name).unwrap();
        assert_eq!(h.check_permission(p), PermissionState::Granted);
        h.request_permission(p);
        assert!(h.open_settings());
    }
    for name in available_permissions() {
        assert_eq!(h.check_permission(Permission::parse_name(name).unwrap()), PermissionState::Granted);
    }
}
