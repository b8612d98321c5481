use vstd::prelude::*;

use crate::platform::TargetOs;
use crate::text::str_eq;
use vstd::string::StringExecFns;

verus! {

/// A runtime capability an app can ask the user for.
#[derive(Debug, Clone, Copy, PartialEq, Eq, Hash, Structural)]
pub enum Permission {
    Camera,
    Location,
    Storage,
    Notifications,
    Microphone,
    Contacts,
    Calendar,
    Reminders,
    Motion,
    Health,
    MediaLibrary,
    Bluetooth,
    Wifi,
    PhoneState,
    Sms,
}

/// The number of distinct permissions.
pub const PERMISSION_COUNT: usize = 15;

/// The name under which a permission is known to scripts.
pub open spec fn permission_name(p: Permission) -> Seq<char> {
    match p {
        Permission::Camera => "camera"@,
        Permission::Location => "location"@,
        Permission::Storage => "storage"@,
        Permission::Notifications => "notifications"@,
        Permission::Microphone => "microphone"@,
        Permission::Contacts => "contacts"@,
        Permission::Calendar => "calendar"@,
        Permission::Reminders => "reminders"@,
        Permission::Motion => "motion"@,
        Permission::Health => "health"@,
        Permission::MediaLibrary => "mediaLibrary"@,
        Permission::Bluetooth => "bluetooth"@,
        Permission::Wifi => "wifi"@,
        Permission::PhoneState => "phoneState"@,
        Permission::Sms => "sms"@,
    }
}

/// The permission a script name denotes, if any.
pub open spec fn permission_from_name(s: Seq<char>) -> Option<Permission> {
    if s == "camera"@ {
        Some(Permission::Camera)
    } else if s == "location"@ {
        Some(Permission::Location)
    } else if s == "storage"@ {
        Some(Permission::Storage)
    } else if s == "notifications"@ {
        Some(Permission::Notifications)
    } else if s == "microphone"@ {
        Some(Permission::Microphone)
    } else if s == "contacts"@ {
        Some(Permission::Contacts)
    } else if s == "calendar"@ {
        Some(Permission::Calendar)
    } else if s == "reminders"@ {
        Some(Permission::Reminders)
    } else if s == "motion"@ {
        Some(Permission::Motion)
    } else if s == "health"@ {
        Some(Permission::Health)
    } else if s == "mediaLibrary"@ {
        Some(Permission::MediaLibrary)
    } else if s == "bluetooth"@ {
        Some(Permission::Bluetooth)
    } else if s == "wifi"@ {
        Some(Permission::Wifi)
    } else if s == "phoneState"@ {
        Some(Permission::PhoneState)
    } else if s == "sms"@ {
        Some(Permission::Sms)
    } else {
        None
    }
}

/// The position of a permission in declaration order.
pub open spec fn permission_index(p: Permission) -> int {
    match p {
        Permission::Camera => 0,
        Permission::Location => 1,
        Permission::Storage => 2,
        Permission::Notifications => 3,
        Permission::Microphone => 4,
        Permission::Contacts => 5,
        Permission::Calendar => 6,
        Permission::Reminders => 7,
        Permission::Motion => 8,
        Permission::Health => 9,
        Permission::MediaLibrary => 10,
        Permission::Bluetooth => 11,
        Permission::Wifi => 12,
        Permission::PhoneState => 13,
        Permission::Sms => 14,
    }
}

/// The Android manifest permission constant, where Android has one.
pub open spec fn android_permission_name(p: Permission) -> Option<Seq<char>> {
    match p {
        Permission::Camera => Some("android.permission.CAMERA"@),
        Permission::Location => Some("android.permission.ACCESS_FINE_LOCATION"@),
        Permission::Storage => Some("android.permission.WRITE_EXTERNAL_STORAGE"@),
        Permission::Microphone => Some("android.permission.RECORD_AUDIO"@),
        Permission::Contacts => Some("android.permission.READ_CONTACTS"@),
        Permission::Calendar => Some("android.permission.READ_CALENDAR"@),
        Permission::Sms => Some("android.permission.READ_SMS"@),
        Permission::PhoneState => Some("android.permission.READ_PHONE_STATE"@),
        Permission::Bluetooth => Some("android.permission.BLUETOOTH"@),
        _ => None,
    }
}

/// The iOS Info.plist usage-description key, where iOS has one.
pub open spec fn ios_plist_key_name(p: Permission) -> Option<Seq<char>> {
    match p {
        Permission::Camera => Some("NSCameraUsageDescription"@),
        Permission::Location => Some("NSLocationWhenInUseUsageDescription"@),
        Permission::Microphone => Some("NSMicrophoneUsageDescription"@),
        Permission::Contacts => Some("NSContactsUsageDescription"@),
        Permission::Calendar => Some("NSCalendarsUsageDescription"@),
        Permission::Reminders => Some("NSRemindersUsageDescription"@),
        Permission::Health => Some("NSHealthShareUsageDescription"@),
        Permission::MediaLibrary => Some("NSMediaLibraryUsageDescription"@),
        Permission::Bluetooth => Some("NSBluetoothAlwaysUsageDescription"@),
        Permission::Motion => Some("NSMotionUsageDescription"@),
        Permission::Notifications => Some("UIBackgroundModes"@),
        _ => None,
    }
}

/// The iOS framework class through which a permission is requested.
pub open spec fn ios_framework(p: Permission) -> Option<Seq<char>> {
    match p {
        Permission::Camera => Some("AVCaptureDevice"@),
        Permission::Location => Some("CLLocationManager"@),
        Permission::Microphone => Some("AVCaptureDevice"@),
        Permission::Contacts => Some("CNContactStore"@),
        Permission::Calendar => Some("EKEventStore"@),
        Permission::Reminders => Some("EKEventStore"@),
        Permission::Health => Some("HKHealthStore"@),
        Permission::MediaLibrary => Some("PHPhotoLibrary"@),
        Permission::Bluetooth => Some("CBCentralManager"@),
        Permission::Motion => Some("CMMotionActivityManager"@),
        Permission::Notifications => Some("UNUserNotificationCenter"@),
        _ => None,
    }
}

/// The view of an optional string slice.
pub open spec fn opt_str_view(o: Option<&str>) -> Option<Seq<char>> {
    match o {
        Some(s) => Some(s@),
        None => None,
    }
}

impl Permission {
    /// The script name of this permission.
    pub fn as_str(&self) -> (s: &'static str)
        ensures
            s@ == permission_name(*self),
    {
        match self {
            Permission::Camera => "camera",
            Permission::Location => "location",
            Permission::Storage => "storage",
            Permission::Notifications => "notifications",
            Permission::Microphone => "microphone",
            Permission::Contacts => "contacts",
            Permission::Calendar => "calendar",
            Permission::Reminders => "reminders",
            Permission::Motion => "motion",
            Permission::Health => "health",
            Permission::MediaLibrary => "mediaLibrary",
            Permission::Bluetooth => "bluetooth",
            Permission::Wifi => "wifi",
            Permission::PhoneState => "phoneState",
            Permission::Sms => "sms",
        }
    }

    /// Android permission constant string (for AndroidManifest).
    pub fn android_permission(&self) -> (r: Option<&'static str>)
        ensures
            opt_str_view(r) == android_permission_name(*self),
    {
        match self {
            Permission::Camera => Some("android.permission.CAMERA"),
            Permission::Location => Some("android.permission.ACCESS_FINE_LOCATION"),
            Permission::Storage => Some("android.permission.WRITE_EXTERNAL_STORAGE"),
            Permission::Microphone => Some("android.permission.RECORD_AUDIO"),
            Permission::Contacts => Some("android.permission.READ_CONTACTS"),
            Permission::Calendar => Some("android.permission.READ_CALENDAR"),
            Permission::Sms => Some("android.permission.READ_SMS"),
            Permission::PhoneState => Some("android.permission.READ_PHONE_STATE"),
            Permission::Bluetooth => Some("android.permission.BLUETOOTH"),
            _ => None,
        }
    }

    /// iOS permission constant (Info.plist key).
    pub fn ios_info_plist_key(&self) -> (r: Option<&'static str>)
        ensures
            opt_str_view(r) == ios_plist_key_name(*self),
    {
        match self {
            Permission::Camera => Some("NSCameraUsageDescription"),
            Permission::Location => Some("NSLocationWhenInUseUsageDescription"),
            Permission::Microphone => Some("NSMicrophoneUsageDescription"),
            Permission::Contacts => Some("NSContactsUsageDescription"),
            Permission::Calendar => Some("NSCalendarsUsageDescription"),
            Permission::Reminders => Some("NSRemindersUsageDescription"),
            Permission::Health => Some("NSHealthShareUsageDescription"),
            Permission::MediaLibrary => Some("NSMediaLibraryUsageDescription"),
            Permission::Bluetooth => Some("NSBluetoothAlwaysUsageDescription"),
            Permission::Motion => Some("NSMotionUsageDescription"),
            Permission::Notifications => Some("UIBackgroundModes"),
            _ => None,
        }
    }

    /// iOS permission framework request method.
    pub fn ios_framework_name(&self) -> (r: Option<&'static str>)
        ensures
            opt_str_view(r) == ios_framework(*self),
    {
        match self {
            Permission::Camera => Some("AVCaptureDevice"),
            Permission::Location => Some("CLLocationManager"),
            Permission::Microphone => Some("AVCaptureDevice"),
            Permission::Contacts => Some("CNContactStore"),
            Permission::Calendar => Some("EKEventStore"),
            Permission::Reminders => Some("EKEventStore"),
            Permission::Health => Some("HKHealthStore"),
            Permission::MediaLibrary => Some("PHPhotoLibrary"),
            Permission::Bluetooth => Some("CBCentralManager"),
            Permission::Motion => Some("CMMotionActivityManager"),
            Permission::Notifications => Some("UNUserNotificationCenter"),
            _ => None,
        }
    }

    /// The permission a script name denotes, if any.
    pub fn parse_name(s: &str) -> (r: Option<Permission>)
        ensures
            r == permission_from_name(s@),
    {
        if str_eq(s, "camera") {
            Some(Permission::Camera)
        } else if str_eq(s, "location") {
            Some(Permission::Location)
        } else if str_eq(s, "storage") {
            Some(Permission::Storage)
        } else if str_eq(s, "notifications") {
            Some(Permission::Notifications)
        } else if str_eq(s, "microphone") {
            Some(Permission::Microphone)
        } else if str_eq(s, "contacts") {
            Some(Permission::Contacts)
        } else if str_eq(s, "calendar") {
            Some(Permission::Calendar)
        } else if str_eq(s, "reminders") {
            Some(Permission::Reminders)
        } else if str_eq(s, "motion") {
            Some(Permission::Motion)
        } else if str_eq(s, "health") {
            Some(Permission::Health)
        } else if str_eq(s, "mediaLibrary") {
            Some(Permission::MediaLibrary)
        } else if str_eq(s, "bluetooth") {
            Some(Permission::Bluetooth)
        } else if str_eq(s, "wifi") {
            Some(Permission::Wifi)
        } else if str_eq(s, "phoneState") {
            Some(Permission::PhoneState)
        } else if str_eq(s, "sms") {
            Some(Permission::Sms)
        } else {
            None
        }
    }

    /// Parses a script name, with the error message scripts see for an unknown name.
    pub fn from_name(s: &str) -> (r: Result<Permission, String>)
        ensures
            match r {
                Ok(p) => permission_from_name(s@) == Some(p),
                Err(msg) => permission_from_name(s@) is None && msg@ == "Unknown permission: "@
                    + s@,
            },
    {
        match Permission::parse_name(s) {
            Some(p) => Ok(p),
            None => {
                let mut msg = String::from_str("Unknown permission: ");
                msg.append(s);
                Err(msg)
            },
        }
    }

    /// The position of this permission in declaration order.
    pub fn index(&self) -> (i: usize)
        ensures
            i == permission_index(*self),
            i < PERMISSION_COUNT,
    {
        match self {
            Permission::Camera => 0,
            Permission::Location => 1,
            Permission::Storage => 2,
            Permission::Notifications => 3,
            Permission::Microphone => 4,
            Permission::Contacts => 5,
            Permission::Calendar => 6,
            Permission::Reminders => 7,
            Permission::Motion => 8,
            Permission::Health => 9,
            Permission::MediaLibrary => 10,
            Permission::Bluetooth => 11,
            Permission::Wifi => 12,
            Permission::PhoneState => 13,
            Permission::Sms => 14,
        }
    }
}


impl std::str::FromStr for Permission {
    type Err = String;

    fn from_str(s: &str) -> (r: Result<Self, Self::Err>)
        ensures
            match r {
                Ok(p) => permission_from_name(s@) == Some(p),
                Err(msg) => permission_from_name(s@) is None && msg@ == "Unknown permission: "@
                    + s@,
            },
    {
        Permission::from_name(s)
    }
}

/// The permission at a position in declaration order.
pub open spec fn permission_at(i: int) -> Permission {
    if i == 0 {
        Permission::Camera
    } else if i == 1 {
        Permission::Location
    } else if i == 2 {
        Permission::Storage
    } else if i == 3 {
        Permission::Notifications
    } else if i == 4 {
        Permission::Microphone
    } else if i == 5 {
        Permission::Contacts
    } else if i == 6 {
        Permission::Calendar
    } else if i == 7 {
        Permission::Reminders
    } else if i == 8 {
        Permission::Motion
    } else if i == 9 {
        Permission::Health
    } else if i == 10 {
        Permission::MediaLibrary
    } else if i == 11 {
        Permission::Bluetooth
    } else if i == 12 {
        Permission::Wifi
    } else if i == 13 {
        Permission::PhoneState
    } else {
        Permission::Sms
    }
}

/// Each permission sits at its own position, and every position holds one.
pub proof fn lemma_permission_index(p: Permission)
    ensures
        0 <= permission_index(p) < PERMISSION_COUNT,
        permission_at(permission_index(p)) == p,
{
}

/// A script name denotes a permission exactly when it is that permission's name:
/// parsing the name of a permission gives it back, and only its name parses to it.
pub proof fn lemma_name_roundtrip(p: Permission, s: Seq<char>)
    ensures
        permission_from_name(permission_name(p)) == Some(p),
        permission_from_name(s) == Some(p) <==> s == permission_name(p),
{
    lemma_names_distinct();
    assert(permission_name(Permission::Camera) == "camera"@);
    assert(permission_name(Permission::Location) == "location"@);
    assert(permission_name(Permission::Storage) == "storage"@);
    assert(permission_name(Permission::Notifications) == "notifications"@);
    assert(permission_name(Permission::Microphone) == "microphone"@);
    assert(permission_name(Permission::Contacts) == "contacts"@);
    assert(permission_name(Permission::Calendar) == "calendar"@);
    assert(permission_name(Permission::Reminders) == "reminders"@);
    assert(permission_name(Permission::Motion) == "motion"@);
    assert(permission_name(Permission::Health) == "health"@);
    assert(permission_name(Permission::MediaLibrary) == "mediaLibrary"@);
    assert(permission_name(Permission::Bluetooth) == "bluetooth"@);
    assert(permission_name(Permission::Wifi) == "wifi"@);
    assert(permission_name(Permission::PhoneState) == "phoneState"@);
    assert(permission_name(Permission::Sms) == "sms"@);
}

proof fn lemma_names_distinct()
    ensures
        forall|p: Permission, q: Permission|
            p != q ==> #[trigger] permission_name(p) != #[trigger] permission_name(q),
{
    reveal_strlit("camera");
    reveal_strlit("location");
    reveal_strlit("storage");
    reveal_strlit("notifications");
    reveal_strlit("microphone");
    reveal_strlit("contacts");
    reveal_strlit("calendar");
    reveal_strlit("reminders");
    reveal_strlit("motion");
    reveal_strlit("health");
    reveal_strlit("mediaLibrary");
    reveal_strlit("bluetooth");
    reveal_strlit("wifi");
    reveal_strlit("phoneState");
    reveal_strlit("sms");
    assert forall|p: Permission, q: Permission| p != q implies #[trigger] permission_name(p)
        != #[trigger] permission_name(q) by {
        if permission_name(p) == permission_name(q) {
            let a = permission_name(p);
            let b = permission_name(q);
            assert(a.len() == b.len());
            assert(a[0] == b[0]);
            assert(a[1] == b[1]);
            assert(a[2] == b[2]);
        }
    }
}

/// What the platform reports for a permission.
#[derive(Debug, Clone, Copy, PartialEq, Eq, Structural)]
pub enum PermissionState {
    Granted,
    Denied,
    NotRequested,
    Restricted,
    Limited,
    PermanentlyDenied,
}

/// The name under which a permission state is reported to scripts.
pub open spec fn state_name(state: PermissionState) -> Seq<char> {
    match state {
        PermissionState::Granted => "granted"@,
        PermissionState::Denied => "denied"@,
        PermissionState::NotRequested => "not_requested"@,
        PermissionState::Restricted => "restricted"@,
        PermissionState::Limited => "limited"@,
        PermissionState::PermanentlyDenied => "permanently_denied"@,
    }
}

/// The name under which a permission state is reported to scripts.
pub fn perm_state_str(state: PermissionState) -> (s: &'static str)
    ensures
        s@ == state_name(state),
{
    match state {
        PermissionState::Granted => "granted",
        PermissionState::Denied => "denied",
        PermissionState::NotRequested => "not_requested",
        PermissionState::Restricted => "restricted",
        PermissionState::Limited => "limited",
        PermissionState::PermanentlyDenied => "permanently_denied",
    }
}

/// The state recorded for each permission that has one.
pub struct PermissionTable {
    entries: Vec<Option<PermissionState>>,
}

impl View for PermissionTable {
    type V = Map<Permission, PermissionState>;

    closed spec fn view(&self) -> Map<Permission, PermissionState> {
        Map::new(
            |p: Permission|
                permission_index(p) < self.entries@.len() && self.entries@[permission_index(
                    p,
                )] is Some,
            |p: Permission| self.entries@[permission_index(p)]->Some_0,
        )
    }
}

impl PermissionTable {
    /// A table with nothing recorded.
    pub fn new() -> (t: Self)
        ensures
            t@ == Map::<Permission, PermissionState>::empty(),
    {
        let mut entries: Vec<Option<PermissionState>> = Vec::new();
        while entries.len() < PERMISSION_COUNT
            invariant
                entries.len() <= PERMISSION_COUNT,
                forall|i: int| 0 <= i < entries.len() ==> entries@[i] is None,
            decreases PERMISSION_COUNT - entries.len(),
        {
            entries.push(None);
        }
        let t = PermissionTable { entries };
        assert(t@ =~= Map::<Permission, PermissionState>::empty());
        t
    }

    /// The state recorded for a permission, if any.
    pub fn get(&self, p: Permission) -> (r: Option<PermissionState>)
        ensures
            r == (if self@.contains_key(p) {
                Some(self@[p])
            } else {
                None
            }),
    {
        let i = p.index();
        if i < self.entries.len() {
            self.entries[i]
        } else {
            None
        }
    }

    /// Records a state for a permission, replacing any earlier one.
    pub fn set(&mut self, p: Permission, state: PermissionState)
        ensures
            final(self)@ == old(self)@.insert(p, state),
    {
        let i = p.index();
        let ghost before = self@;
        while self.entries.len() <= i
            invariant
                self@ == before,
                i < PERMISSION_COUNT,
            decreases PERMISSION_COUNT - self.entries.len(),
        {
            let ghost prev = self.entries@;
            self.entries.push(None);
            assert(self@ =~= before);
        }
        self.entries.set(i, Some(state));
        proof {
            assert forall|q: Permission| permission_index(q) == permission_index(p) implies q == p by {
                lemma_permission_index(q);
                lemma_permission_index(p);
            }
            assert(self@ =~= before.insert(p, state));
        }
    }
}

/// The state reported for a permission, given what was recorded and the
/// platform's answer for a permission nothing was recorded for.
pub open spec fn reported_state(
    recorded: Map<Permission, PermissionState>,
    unrecorded: PermissionState,
    p: Permission,
) -> PermissionState {
    if recorded.contains_key(p) {
        recorded[p]
    } else {
        unrecorded
    }
}

/// A platform's permission service.
pub trait PermissionHandler: Send {
    /// The states recorded so far.
    spec fn recorded(&self) -> Map<Permission, PermissionState>;

    /// The answer for a permission nothing was recorded for.
    spec fn unrecorded_state(&self) -> PermissionState;

    fn check_permission(&self, perm: Permission) -> (s: PermissionState)
        ensures
            s == reported_state(self.recorded(), self.unrecorded_state(), perm),
    ;

    fn request_permission(&mut self, perm: Permission) -> (s: PermissionState)
        ensures
            final(self).recorded() == old(self).recorded().insert(perm, s),
            final(self).unrecorded_state() == old(self).unrecorded_state(),
    ;

    fn open_settings(&mut self) -> (opened: bool)
        ensures
            final(self).recorded() == old(self).recorded(),
            final(self).unrecorded_state() == old(self).unrecorded_state(),
    ;
}

/// Desktop handler (Linux, macOS): grants everything by default.
pub struct DesktopPermissionHandler {
    state: PermissionTable,
}

/// Whether every recorded state is `Granted`.
pub open spec fn all_granted(recorded: Map<Permission, PermissionState>) -> bool {
    forall|p: Permission| #[trigger] recorded.contains_key(p) ==> recorded[p] == PermissionState::Granted
}

impl DesktopPermissionHandler {
    #[verifier::type_invariant]
    spec fn records_only_granted(self) -> bool {
        all_granted(self.state@)
    }

    pub fn new() -> (h: Self)
        ensures
            h.recorded() == Map::<Permission, PermissionState>::empty(),
    {
        DesktopPermissionHandler { state: PermissionTable::new() }
    }
}

impl Default for DesktopPermissionHandler {
    fn default() -> (h: Self)
        ensures
            h.recorded() == Map::<Permission, PermissionState>::empty(),
    {
        Self::new()
    }
}

impl PermissionHandler for DesktopPermissionHandler {
    closed spec fn recorded(&self) -> Map<Permission, PermissionState> {
        self.state@
    }

    open spec fn unrecorded_state(&self) -> PermissionState {
        PermissionState::Granted
    }

    fn check_permission(&self, perm: Permission) -> (s: PermissionState)
        ensures
            s == PermissionState::Granted,
    {
        proof {
            use_type_invariant(self);
        }
        match self.state.get(perm) {
            Some(s) => s,
            None => PermissionState::Granted,
        }
    }

    fn request_permission(&mut self, perm: Permission) -> (s: PermissionState)
        ensures
            s == PermissionState::Granted,
    {
        proof {
            use_type_invariant(&*self);
        }
        let mut table = PermissionTable::new();
        std::mem::swap(&mut table, &mut self.state);
        table.set(perm, PermissionState::Granted);
        self.state = table;
        PermissionState::Granted
    }

    fn open_settings(&mut self) -> (opened: bool)
        ensures
            opened,
            *final(self) == *old(self),
    {
        true
    }
}

/// Android permission handler: maps to the Android runtime permission model.
pub struct AndroidPermissionHandler {
    state: PermissionTable,
}

impl AndroidPermissionHandler {
    pub fn new() -> (h: Self)
        ensures
            h.recorded() == Map::<Permission, PermissionState>::empty(),
    {
        AndroidPermissionHandler { state: PermissionTable::new() }
    }
}

impl Default for AndroidPermissionHandler {
    fn default() -> (h: Self)
        ensures
            h.recorded() == Map::<Permission, PermissionState>::empty(),
    {
        Self::new()
    }
}

impl PermissionHandler for AndroidPermissionHandler {
    closed spec fn recorded(&self) -> Map<Permission, PermissionState> {
        self.state@
    }

    open spec fn unrecorded_state(&self) -> PermissionState {
        PermissionState::Denied
    }

    fn check_permission(&self, perm: Permission) -> (s: PermissionState) {
        match self.state.get(perm) {
            Some(s) => s,
            None => PermissionState::Denied,
        }
    }

    fn request_permission(&mut self, perm: Permission) -> (s: PermissionState)
        ensures
            s == PermissionState::Granted,
    {
        self.state.set(perm, PermissionState::Granted);
        PermissionState::Granted
    }

    fn open_settings(&mut self) -> (opened: bool)
        ensures
            opened,
            *final(self) == *old(self),
    {
        true
    }
}

/// iOS permission handler: maps to the iOS permission frameworks.
pub struct IosPermissionHandler {
    state: PermissionTable,
}

impl IosPermissionHandler {
    pub fn new() -> (h: Self)
        ensures
            h.recorded() == Map::<Permission, PermissionState>::empty(),
    {
        IosPermissionHandler { state: PermissionTable::new() }
    }
}

impl Default for IosPermissionHandler {
    fn default() -> (h: Self)
        ensures
            h.recorded() == Map::<Permission, PermissionState>::empty(),
    {
        Self::new()
    }
}

impl PermissionHandler for IosPermissionHandler {
    closed spec fn recorded(&self) -> Map<Permission, PermissionState> {
        self.state@
    }

    open spec fn unrecorded_state(&self) -> PermissionState {
        PermissionState::NotRequested
    }

    fn check_permission(&self, perm: Permission) -> (s: PermissionState) {
        match self.state.get(perm) {
            Some(s) => s,
            None => PermissionState::NotRequested,
        }
    }

    fn request_permission(&mut self, perm: Permission) -> (s: PermissionState)
        ensures
            s == PermissionState::Granted,
    {
        self.state.set(perm, PermissionState::Granted);
        PermissionState::Granted
    }

    fn open_settings(&mut self) -> (opened: bool)
        ensures
            opened,
            *final(self) == *old(self),
    {
        true
    }
}

/// Windows permission handler.
pub struct WindowsPermissionHandler {
    state: PermissionTable,
}

impl WindowsPermissionHandler {
    pub fn new() -> (h: Self)
        ensures
            h.recorded() == Map::<Permission, PermissionState>::empty(),
    {
        WindowsPermissionHandler { state: PermissionTable::new() }
    }
}

impl Default for WindowsPermissionHandler {
    fn default() -> (h: Self)
        ensures
            h.recorded() == Map::<Permission, PermissionState>::empty(),
    {
        Self::new()
    }
}

impl PermissionHandler for WindowsPermissionHandler {
    closed spec fn recorded(&self) -> Map<Permission, PermissionState> {
        self.state@
    }

    open spec fn unrecorded_state(&self) -> PermissionState {
        PermissionState::Denied
    }

    fn check_permission(&self, perm: Permission) -> (s: PermissionState) {
        match self.state.get(perm) {
            Some(s) => s,
            None => PermissionState::Denied,
        }
    }

    fn request_permission(&mut self, perm: Permission) -> (s: PermissionState)
        ensures
            s == PermissionState::Granted,
    {
        self.state.set(perm, PermissionState::Granted);
        PermissionState::Granted
    }

    fn open_settings(&mut self) -> (opened: bool)
        ensures
            opened,
            *final(self) == *old(self),
    {
        true
    }
}

/// The permission handler of the platform the app runs on.
pub enum PlatformPermissions {
    Desktop(DesktopPermissionHandler),
    Android(AndroidPermissionHandler),
    Ios(IosPermissionHandler),
    Windows(WindowsPermissionHandler),
}

impl PlatformPermissions {
    /// The handler a build for `os` uses: Android, iOS and Windows have their
    /// own, every other system gets the desktop one.
    pub fn for_os(os: TargetOs) -> (h: Self)
        ensures
            h.recorded() == Map::<Permission, PermissionState>::empty(),
            h.unrecorded_state() == platform_default(os),
            match os {
                TargetOs::Android => h is Android,
                TargetOs::Ios => h is Ios,
                TargetOs::Windows => h is Windows,
                _ => h is Desktop,
            },
    {
        match os {
            TargetOs::Android => PlatformPermissions::Android(AndroidPermissionHandler::new()),
            TargetOs::Ios => PlatformPermissions::Ios(IosPermissionHandler::new()),
            TargetOs::Windows => PlatformPermissions::Windows(WindowsPermissionHandler::new()),
            _ => PlatformPermissions::Desktop(DesktopPermissionHandler::new()),
        }
    }
}

impl PermissionHandler for PlatformPermissions {
    open spec fn recorded(&self) -> Map<Permission, PermissionState> {
        match self {
            PlatformPermissions::Desktop(h) => h.recorded(),
            PlatformPermissions::Android(h) => h.recorded(),
            PlatformPermissions::Ios(h) => h.recorded(),
            PlatformPermissions::Windows(h) => h.recorded(),
        }
    }

    open spec fn unrecorded_state(&self) -> PermissionState {
        match self {
            PlatformPermissions::Desktop(h) => h.unrecorded_state(),
            PlatformPermissions::Android(h) => h.unrecorded_state(),
            PlatformPermissions::Ios(h) => h.unrecorded_state(),
            PlatformPermissions::Windows(h) => h.unrecorded_state(),
        }
    }

    fn check_permission(&self, perm: Permission) -> (s: PermissionState)
        ensures
            self is Desktop ==> s == PermissionState::Granted,
    {
        match self {
            PlatformPermissions::Desktop(h) => h.check_permission(perm),
            PlatformPermissions::Android(h) => h.check_permission(perm),
            PlatformPermissions::Ios(h) => h.check_permission(perm),
            PlatformPermissions::Windows(h) => h.check_permission(perm),
        }
    }

    fn request_permission(&mut self, perm: Permission) -> (s: PermissionState)
        ensures
            s == PermissionState::Granted,
            (*final(self)) is Desktop <==> (*old(self)) is Desktop,
            (*final(self)) is Android <==> (*old(self)) is Android,
            (*final(self)) is Ios <==> (*old(self)) is Ios,
            (*final(self)) is Windows <==> (*old(self)) is Windows,
    {
        match self {
            PlatformPermissions::Desktop(h) => h.request_permission(perm),
            PlatformPermissions::Android(h) => h.request_permission(perm),
            PlatformPermissions::Ios(h) => h.request_permission(perm),
            PlatformPermissions::Windows(h) => h.request_permission(perm),
        }
    }

    fn open_settings(&mut self) -> (opened: bool)
        ensures
            opened,
            *final(self) == *old(self),
            (*final(self)) is Desktop <==> (*old(self)) is Desktop,
            (*final(self)) is Android <==> (*old(self)) is Android,
            (*final(self)) is Ios <==> (*old(self)) is Ios,
            (*final(self)) is Windows <==> (*old(self)) is Windows,
    {
        match self {
            PlatformPermissions::Desktop(h) => h.open_settings(),
            PlatformPermissions::Android(h) => h.open_settings(),
            PlatformPermissions::Ios(h) => h.open_settings(),
            PlatformPermissions::Windows(h) => h.open_settings(),
        }
    }
}

/// The state name a script sees when it checks a permission by name:
/// the state's name, or "unsupported" when the name denotes no permission.
pub open spec fn named_check_answer(
    recorded: Map<Permission, PermissionState>,
    unrecorded: PermissionState,
    name: Seq<char>,
) -> Seq<char> {
    match permission_from_name(name) {
        Some(p) => state_name(reported_state(recorded, unrecorded, p)),
        None => "unsupported"@,
    }
}

/// Checks a permission given by its script name.
pub fn check_permission_named(handler: &PlatformPermissions, name: &str) -> (answer: &'static str)
    ensures
        answer@ == named_check_answer(handler.recorded(), handler.unrecorded_state(), name@),
{
    match Permission::parse_name(name) {
        Some(p) => perm_state_str(handler.check_permission(p)),
        None => "unsupported",
    }
}

/// Requests a permission given by its script name; an unknown name leaves
/// the handler unchanged and is answered "unsupported".
pub fn request_permission_named(handler: &mut PlatformPermissions, name: &str) -> (answer:
    &'static str)
    ensures
        match permission_from_name(name@) {
            Some(p) => {
                &&& answer@ == state_name(PermissionState::Granted)
                &&& final(handler).recorded() == old(handler).recorded().insert(
                    p,
                    PermissionState::Granted,
                )
            },
            None => {
                &&& answer@ == "unsupported"@
                &&& final(handler).recorded() == old(handler).recorded()
            },
        },
        final(handler).unrecorded_state() == old(handler).unrecorded_state(),
{
    match Permission::parse_name(name) {
        Some(p) => perm_state_str(handler.request_permission(p)),
        None => "unsupported",
    }
}

/// Every permission, in declaration order.
pub open spec fn all_permissions() -> Seq<Permission> {
    Seq::new(PERMISSION_COUNT as nat, |i: int| permission_at(i))
}

/// The script names of all permissions, in declaration order.
pub fn available_permissions() -> (names: Vec<&'static str>)
    ensures
        names@.len() == PERMISSION_COUNT,
        forall|i: int|
            0 <= i < PERMISSION_COUNT ==> #[trigger] names@[i]@ == permission_name(permission_at(i)),
{
    let mut names: Vec<&'static str> = Vec::new();
    names.push(Permission::Camera.as_str());
    names.push(Permission::Location.as_str());
    names.push(Permission::Storage.as_str());
    names.push(Permission::Notifications.as_str());
    names.push(Permission::Microphone.as_str());
    names.push(Permission::Contacts.as_str());
    names.push(Permission::Calendar.as_str());
    names.push(Permission::Reminders.as_str());
    names.push(Permission::Motion.as_str());
    names.push(Permission::Health.as_str());
    names.push(Permission::MediaLibrary.as_str());
    names.push(Permission::Bluetooth.as_str());
    names.push(Permission::Wifi.as_str());
    names.push(Permission::PhoneState.as_str());
    names.push(Permission::Sms.as_str());
    names
}

/// A check right after a request reports what the request answered, the
/// other permissions report what they did before, and a handler with nothing
/// recorded reports its platform's default for every permission.
pub proof fn lemma_check_after_request(
    recorded: Map<Permission, PermissionState>,
    unrecorded: PermissionState,
    p: Permission,
    answered: PermissionState,
    q: Permission,
)
    ensures
        reported_state(recorded.insert(p, answered), unrecorded, p) == answered,
        q != p ==> reported_state(recorded.insert(p, answered), unrecorded, q) == reported_state(
            recorded,
            unrecorded,
            q,
        ),
        reported_state(Map::empty(), unrecorded, q) == unrecorded,
{
}

/// Requesting a permission by name and then checking it by name reports the
/// granted state; a name that denotes no permission is unsupported both ways.
pub proof fn lemma_named_request_then_check(
    recorded: Map<Permission, PermissionState>,
    unrecorded: PermissionState,
    name: Seq<char>,
)
    ensures
        permission_from_name(name) matches Some(p) ==> named_check_answer(
            recorded.insert(p, PermissionState::Granted),
            unrecorded,
            name,
        ) == state_name(PermissionState::Granted),
        permission_from_name(name) is None ==> named_check_answer(recorded, unrecorded, name)
            == "unsupported"@,
{
}

/// A desktop handler only ever records `Granted`: nothing is recorded at
/// first, a request records `Granted`, and so it reports `Granted` for every
/// permission after any sequence of requests.
pub proof fn lemma_desktop_grants_everything(
    recorded: Map<Permission, PermissionState>,
    p: Permission,
    q: Permission,
)
    requires
        all_granted(recorded),
    ensures
        all_granted(Map::<Permission, PermissionState>::empty()),
        all_granted(recorded.insert(p, PermissionState::Granted)),
        reported_state(recorded, PermissionState::Granted, q) == PermissionState::Granted,
{
}

/// The permission state a reported name stands for, as scripts read it.
pub open spec fn state_named(name: Seq<char>) -> Option<PermissionState> {
    if name == "granted"@ {
        Some(PermissionState::Granted)
    } else if name == "denied"@ {
        Some(PermissionState::Denied)
    } else if name == "not_requested"@ {
        Some(PermissionState::NotRequested)
    } else if name == "restricted"@ {
        Some(PermissionState::Restricted)
    } else if name == "limited"@ {
        Some(PermissionState::Limited)
    } else if name == "permanently_denied"@ {
        Some(PermissionState::PermanentlyDenied)
    } else {
        None
    }
}

/// The reported names are told apart by their length and first character.
proof fn reveal_state_names()
    ensures
        "granted"@.len() == 7 && "granted"@[0] == 'g',
        "denied"@.len() == 6 && "denied"@[0] == 'd',
        "not_requested"@.len() == 13 && "not_requested"@[0] == 'n',
        "restricted"@.len() == 10 && "restricted"@[0] == 'r',
        "limited"@.len() == 7 && "limited"@[0] == 'l',
        "permanently_denied"@.len() == 18 && "permanently_denied"@[0] == 'p',
{
    reveal_strlit("granted");
    reveal_strlit("denied");
    reveal_strlit("not_requested");
    reveal_strlit("restricted");
    reveal_strlit("limited");
    reveal_strlit("permanently_denied");
}

/// Each permission state is reported under its own name, which reads back
/// as that state: `Granted` is "granted", `Denied` is "denied",
/// `NotRequested` is "not_requested", `Restricted` is "restricted",
/// `Limited` is "limited" and `PermanentlyDenied` is "permanently_denied";
/// different states have different names.
pub proof fn lemma_state_names(a: PermissionState, b: PermissionState)
    ensures
        state_named(state_name(a)) == Some(a),
        a != b ==> state_name(a) != state_name(b),
{
    reveal_state_names();
}

/// Checked by name before any request, a permission reports the platform's
/// default under its name: "denied" on Android and Windows, "not_requested"
/// on iOS, "granted" on desktops; an unknown name is "unsupported".
pub proof fn lemma_fresh_named_check(os: TargetOs, name: Seq<char>)
    ensures
        permission_from_name(name) is Some ==> state_named(
            named_check_answer(Map::empty(), platform_default(os), name),
        ) == Some(platform_default(os)),
        permission_from_name(name) is None ==> named_check_answer(
            Map::empty(),
            platform_default(os),
            name,
        ) == "unsupported"@,
{
    reveal_state_names();
}

/// The state a platform reports for a permission nothing was recorded for.
pub open spec fn platform_default(os: TargetOs) -> PermissionState {
    match os {
        TargetOs::Android => PermissionState::Denied,
        TargetOs::Windows => PermissionState::Denied,
        TargetOs::Ios => PermissionState::NotRequested,
        _ => PermissionState::Granted,
    }
}

} // verus!
