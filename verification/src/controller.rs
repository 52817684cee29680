//! Canonical controller bindings and Settings state.
use vstd::prelude::*;

verus! {

/// One physical controller button.
#[derive(Clone, Copy, Debug, PartialEq, Eq, Hash, Structural)]
pub enum ControllerButton {
    South,
    East,
    North,
    West,
    C,
    Z,
    LeftShoulder,
    RightShoulder,
    LeftTrigger,
    RightTrigger,
    Select,
    Start,
    Mode,
    LeftThumb,
    RightThumb,
    DPadUp,
    DPadDown,
    DPadLeft,
    DPadRight,
}

pub open spec fn button_label(b: ControllerButton) -> Seq<char> {
    match b {
        ControllerButton::South => "South (A / Cross)"@,
        ControllerButton::East => "East (B / Circle)"@,
        ControllerButton::North => "North (Y / Triangle)"@,
        ControllerButton::West => "West (X / Square)"@,
        ControllerButton::C => "C (legacy; reassign)"@,
        ControllerButton::Z => "Z (legacy; reassign)"@,
        ControllerButton::LeftShoulder => "Left shoulder (LB / L1)"@,
        ControllerButton::RightShoulder => "Right shoulder (RB / R1)"@,
        ControllerButton::LeftTrigger => "Left trigger (LT / L2)"@,
        ControllerButton::RightTrigger => "Right trigger (RT / R2)"@,
        ControllerButton::Select => "Select / Back"@,
        ControllerButton::Start => "Start / Options"@,
        ControllerButton::Mode => "Home / Guide"@,
        ControllerButton::LeftThumb => "Left stick press"@,
        ControllerButton::RightThumb => "Right stick press"@,
        ControllerButton::DPadUp => "D-pad up"@,
        ControllerButton::DPadDown => "D-pad down"@,
        ControllerButton::DPadLeft => "D-pad left"@,
        ControllerButton::DPadRight => "D-pad right"@,
    }
}

impl ControllerButton {
    pub fn label(self) -> (r: &'static str)
        ensures
            r@ == button_label(self),
    {
        match self {
            ControllerButton::South => "South (A / Cross)",
            ControllerButton::East => "East (B / Circle)",
            ControllerButton::North => "North (Y / Triangle)",
            ControllerButton::West => "West (X / Square)",
            ControllerButton::C => "C (legacy; reassign)",
            ControllerButton::Z => "Z (legacy; reassign)",
            ControllerButton::LeftShoulder => "Left shoulder (LB / L1)",
            ControllerButton::RightShoulder => "Right shoulder (RB / R1)",
            ControllerButton::LeftTrigger => "Left trigger (LT / L2)",
            ControllerButton::RightTrigger => "Right trigger (RT / R2)",
            ControllerButton::Select => "Select / Back",
            ControllerButton::Start => "Start / Options",
            ControllerButton::Mode => "Home / Guide",
            ControllerButton::LeftThumb => "Left stick press",
            ControllerButton::RightThumb => "Right stick press",
            ControllerButton::DPadUp => "D-pad up",
            ControllerButton::DPadDown => "D-pad down",
            ControllerButton::DPadLeft => "D-pad left",
            ControllerButton::DPadRight => "D-pad right",
        }
    }

    /// Compares two buttons.
    pub fn same_as(self, other: ControllerButton) -> (r: bool)
        ensures
            r == (self == other),
    {
        self == other
    }
}

/// One semantic role a controller button can be bound to.
#[derive(Clone, Copy, Debug, PartialEq, Eq, Hash, Structural)]
pub enum ControllerRole {
    Up,
    Down,
    Left,
    Right,
    Edit,
    Shift,
    Preview,
    PreviousPatch,
    NextPatch,
    Settings,
}

/// The number of bindable roles.
pub const ROLE_COUNT: usize = 10;

/// Every role in binding order.
pub open spec fn all_roles() -> Seq<ControllerRole> {
    seq![
        ControllerRole::Up,
        ControllerRole::Down,
        ControllerRole::Left,
        ControllerRole::Right,
        ControllerRole::Edit,
        ControllerRole::Shift,
        ControllerRole::Preview,
        ControllerRole::PreviousPatch,
        ControllerRole::NextPatch,
        ControllerRole::Settings,
    ]
}

/// The position of a role in binding order.
pub open spec fn role_position(r: ControllerRole) -> int {
    match r {
        ControllerRole::Up => 0,
        ControllerRole::Down => 1,
        ControllerRole::Left => 2,
        ControllerRole::Right => 3,
        ControllerRole::Edit => 4,
        ControllerRole::Shift => 5,
        ControllerRole::Preview => 6,
        ControllerRole::PreviousPatch => 7,
        ControllerRole::NextPatch => 8,
        ControllerRole::Settings => 9,
    }
}

pub open spec fn role_label(r: ControllerRole) -> Seq<char> {
    match r {
        ControllerRole::Up => "Move up"@,
        ControllerRole::Down => "Move down"@,
        ControllerRole::Left => "Move left"@,
        ControllerRole::Right => "Move right"@,
        ControllerRole::Edit => "Edit / confirm"@,
        ControllerRole::Shift => "Shift / page modifier"@,
        ControllerRole::Preview => "Hold to preview"@,
        ControllerRole::PreviousPatch => "Previous Patch"@,
        ControllerRole::NextPatch => "Next Patch"@,
        ControllerRole::Settings => "Open Settings"@,
    }
}

pub open spec fn role_description(r: ControllerRole) -> Seq<char> {
    match r {
        ControllerRole::Edit => "Tap to confirm. Hold with a direction to adjust a value."@,
        ControllerRole::Shift =>
            "Hold with a direction to change pages. Hold with Preview to open Settings."@,
        ControllerRole::Preview => "Hold on a Sample Browser file to hear it. Release to stop."@,
        ControllerRole::Settings => "Open Settings from a performance page."@,
        ControllerRole::PreviousPatch => "Select the adjacent Patch without wrapping."@,
        ControllerRole::NextPatch => "Select the adjacent Patch without wrapping."@,
        _ => "Move focus. Combine with Edit to adjust or Shift to change pages."@,
    }
}

impl ControllerRole {
    /// Every role in binding order.
    pub fn all() -> (r: Vec<ControllerRole>)
        ensures
            r@ == all_roles(),
    {
        let r = vec![
            ControllerRole::Up,
            ControllerRole::Down,
            ControllerRole::Left,
            ControllerRole::Right,
            ControllerRole::Edit,
            ControllerRole::Shift,
            ControllerRole::Preview,
            ControllerRole::PreviousPatch,
            ControllerRole::NextPatch,
            ControllerRole::Settings,
        ];
        assert(r@ =~= all_roles());
        r
    }

    /// The position of this role in binding order.
    pub fn position(self) -> (r: usize)
        ensures
            r == role_position(self),
            r < ROLE_COUNT,
            all_roles()[r as int] == self,
    {
        match self {
            ControllerRole::Up => 0,
            ControllerRole::Down => 1,
            ControllerRole::Left => 2,
            ControllerRole::Right => 3,
            ControllerRole::Edit => 4,
            ControllerRole::Shift => 5,
            ControllerRole::Preview => 6,
            ControllerRole::PreviousPatch => 7,
            ControllerRole::NextPatch => 8,
            ControllerRole::Settings => 9,
        }
    }

    /// The role at one position in binding order.
    pub fn at(position: usize) -> (r: ControllerRole)
        requires
            position < ROLE_COUNT,
        ensures
            r == all_roles()[position as int],
            role_position(r) == position,
    {
        match position {
            0 => ControllerRole::Up,
            1 => ControllerRole::Down,
            2 => ControllerRole::Left,
            3 => ControllerRole::Right,
            4 => ControllerRole::Edit,
            5 => ControllerRole::Shift,
            6 => ControllerRole::Preview,
            7 => ControllerRole::PreviousPatch,
            8 => ControllerRole::NextPatch,
            _ => ControllerRole::Settings,
        }
    }

    pub fn label(self) -> (r: &'static str)
        ensures
            r@ == role_label(self),
    {
        match self {
            ControllerRole::Up => "Move up",
            ControllerRole::Down => "Move down",
            ControllerRole::Left => "Move left",
            ControllerRole::Right => "Move right",
            ControllerRole::Edit => "Edit / confirm",
            ControllerRole::Shift => "Shift / page modifier",
            ControllerRole::Preview => "Hold to preview",
            ControllerRole::PreviousPatch => "Previous Patch",
            ControllerRole::NextPatch => "Next Patch",
            ControllerRole::Settings => "Open Settings",
        }
    }

    pub fn description(self) -> (r: &'static str)
        ensures
            r@ == role_description(self),
    {
        match self {
            ControllerRole::Edit => "Tap to confirm. Hold with a direction to adjust a value.",
            ControllerRole::Shift =>
                "Hold with a direction to change pages. Hold with Preview to open Settings.",
            ControllerRole::Preview => "Hold on a Sample Browser file to hear it. Release to stop.",
            ControllerRole::Settings => "Open Settings from a performance page.",
            ControllerRole::PreviousPatch => "Select the adjacent Patch without wrapping.",
            ControllerRole::NextPatch => "Select the adjacent Patch without wrapping.",
            _ => "Move focus. Combine with Edit to adjust or Shift to change pages.",
        }
    }
}

/// The only supported binding record version.
pub const BINDINGS_VERSION: u32 = 1;

/// No button is bound to two roles.
pub open spec fn buttons_distinct(b: Seq<ControllerButton>) -> bool {
    forall|i: int, j: int| 0 <= i < j < b.len() ==> b[i] != b[j]
}

/// The product-authored default assignment, in role order.
pub open spec fn default_buttons() -> Seq<ControllerButton> {
    seq![
        ControllerButton::DPadUp,
        ControllerButton::DPadDown,
        ControllerButton::DPadLeft,
        ControllerButton::DPadRight,
        ControllerButton::South,
        ControllerButton::LeftShoulder,
        ControllerButton::Start,
        ControllerButton::LeftTrigger,
        ControllerButton::RightTrigger,
        ControllerButton::North,
    ]
}

/// Reasons a recorded binding assignment is refused.
#[derive(Clone, Copy, Debug, PartialEq, Eq, Structural)]
pub enum BindingsError {
    UnsupportedVersion,
    WrongLength,
    DuplicateButton,
}

/// The mathematical content of a binding assignment.
pub struct BindingsView {
    pub version: u32,
    pub buttons: Seq<ControllerButton>,
}

/// One button per role, no button twice.
#[derive(Debug, PartialEq, Eq)]
pub struct ControllerBindings {
    version: u32,
    buttons: Vec<ControllerButton>,
}

impl View for ControllerBindings {
    type V = BindingsView;

    closed spec fn view(&self) -> BindingsView {
        BindingsView { version: self.version, buttons: self.buttons@ }
    }
}

/// The role bound to `button`, if any.
pub open spec fn role_of(b: Seq<ControllerButton>, button: ControllerButton) -> Option<ControllerRole> {
    if exists|i: int| 0 <= i < b.len() && b[i] == button {
        Some(all_roles()[choose|i: int| 0 <= i < b.len() && b[i] == button])
    } else {
        None
    }
}

/// The assignment after binding `button` to `role`: the role that held
/// `button` before, if any, takes the role's previous button.
pub open spec fn assigned(b: Seq<ControllerButton>, role: ControllerRole, button: ControllerButton) -> Seq<
    ControllerButton,
> {
    let previous = b[role_position(role)];
    let swapped = if exists|i: int| 0 <= i < b.len() && b[i] == button {
        b.update(choose|i: int| 0 <= i < b.len() && b[i] == button, previous)
    } else {
        b
    };
    swapped.update(role_position(role), button)
}

impl ControllerBindings {
    #[verifier::type_invariant]
    closed spec fn well_formed(self) -> bool {
        &&& self.version == BINDINGS_VERSION
        &&& self.buttons@.len() == ROLE_COUNT
        &&& buttons_distinct(self.buttons@)
    }

    /// The product-authored default assignment.
    pub fn default_bindings() -> (r: ControllerBindings)
        ensures
            r@.version == BINDINGS_VERSION,
            r@.buttons == default_buttons(),
    {
        let buttons = vec![
            ControllerButton::DPadUp,
            ControllerButton::DPadDown,
            ControllerButton::DPadLeft,
            ControllerButton::DPadRight,
            ControllerButton::South,
            ControllerButton::LeftShoulder,
            ControllerButton::Start,
            ControllerButton::LeftTrigger,
            ControllerButton::RightTrigger,
            ControllerButton::North,
        ];
        assert(buttons@ =~= default_buttons());
        ControllerBindings { version: BINDINGS_VERSION, buttons }
    }

    /// Accepts one recorded assignment exactly when its version is supported,
    /// it binds every role, and no button appears twice.
    pub fn from_parts(version: u32, buttons: Vec<ControllerButton>) -> (r: Result<
        ControllerBindings,
        BindingsError,
    >)
        ensures
            version != BINDINGS_VERSION ==> r == Err::<ControllerBindings, BindingsError>(
                BindingsError::UnsupportedVersion,
            ),
            version == BINDINGS_VERSION && buttons@.len() != ROLE_COUNT ==> r == Err::<
                ControllerBindings,
                BindingsError,
            >(BindingsError::WrongLength),
            version == BINDINGS_VERSION && buttons@.len() == ROLE_COUNT && !buttons_distinct(
                buttons@,
            ) ==> r == Err::<ControllerBindings, BindingsError>(BindingsError::DuplicateButton),
            r matches Ok(b) ==> b@ == (BindingsView { version, buttons: buttons@ }),
            r is Ok <==> version == BINDINGS_VERSION && buttons@.len() == ROLE_COUNT
                && buttons_distinct(buttons@),
    {
        if version != BINDINGS_VERSION {
            return Err(BindingsError::UnsupportedVersion);
        }
        if buttons.len() != ROLE_COUNT {
            return Err(BindingsError::WrongLength);
        }
        let mut j: usize = 0;
        while j < buttons.len()
            invariant
                version == BINDINGS_VERSION,
                buttons@.len() == ROLE_COUNT,
                j <= buttons@.len(),
                forall|a: int, b: int| 0 <= a < b < j ==> buttons@[a] != buttons@[b],
            decreases buttons.len() - j,
        {
            let mut i: usize = 0;
            while i < j
                invariant
                    version == BINDINGS_VERSION,
                    buttons@.len() == ROLE_COUNT,
                    forall|a: int, b: int| 0 <= a < b < j ==> buttons@[a] != buttons@[b],
                    i <= j < buttons@.len(),
                    forall|a: int| 0 <= a < i ==> buttons@[a] != buttons@[j as int],
                decreases j - i,
            {
                if buttons[i].same_as(buttons[j]) {
                    return Err(BindingsError::DuplicateButton);
                }
                i = i + 1;
            }
            j = j + 1;
        }
        Ok(ControllerBindings { version, buttons })
    }

    /// The recorded version.
    pub fn version(&self) -> (r: u32)
        ensures
            r == self@.version,
            r == BINDINGS_VERSION,
    {
        proof {
            use_type_invariant(self);
        }
        self.version
    }

    /// Every bound button, in role order.
    pub fn buttons(&self) -> (r: Vec<ControllerButton>)
        ensures
            r@ == self@.buttons,
            r@.len() == ROLE_COUNT,
            buttons_distinct(r@),
    {
        proof {
            use_type_invariant(self);
        }
        self.buttons.clone()
    }

    /// The button bound to `role`.
    pub fn button(&self, role: ControllerRole) -> (r: ControllerButton)
        ensures
            r == self@.buttons[role_position(role)],
    {
        proof {
            use_type_invariant(self);
        }
        self.buttons[role.position()]
    }

    /// The role bound to `button`, if any.
    pub fn role(&self, button: ControllerButton) -> (r: Option<ControllerRole>)
        ensures
            r == role_of(self@.buttons, button),
            match r {
                Some(role) => self@.buttons[role_position(role)] == button,
                None => forall|i: int| 0 <= i < self@.buttons.len() ==> self@.buttons[i] != button,
            },
    {
        proof {
            use_type_invariant(self);
        }
        let mut i: usize = 0;
        while i < self.buttons.len()
            invariant
                i <= self.buttons@.len(),
                self.buttons@.len() == ROLE_COUNT,
                buttons_distinct(self.buttons@),
                forall|k: int| 0 <= k < i ==> self.buttons@[k] != button,
            decreases self.buttons.len() - i,
        {
            if self.buttons[i].same_as(button) {
                let role = ControllerRole::at(i);
                proof {
                    let c = choose|k: int| 0 <= k < self.buttons@.len() && self.buttons@[k] == button;
                    if c != i {
                        if c < i {
                            assert(self.buttons@[c] != self.buttons@[i as int]);
                        } else {
                            assert(self.buttons@[i as int] != self.buttons@[c]);
                        }
                    }
                }
                return Some(role);
            }
            i = i + 1;
        }
        None
    }

    /// Binds `button` to `role`, swapping so that no button is bound twice.
    pub fn assign(&mut self, role: ControllerRole, button: ControllerButton)
        ensures
            final(self)@.version == old(self)@.version,
            final(self)@.buttons == assigned(old(self)@.buttons, role, button),
            final(self)@.buttons[role_position(role)] == button,
            buttons_distinct(final(self)@.buttons),
    {
        proof {
            use_type_invariant(&*self);
        }
        let ghost b = self.buttons@;
        let position = role.position();
        let previous = self.buttons[position];
        let other = self.role(button);
        let mut buttons = self.buttons.clone();
        match other {
            Some(o) => {
                buttons.set(o.position(), previous);
            },
            None => {},
        }
        buttons.set(position, button);
        proof {
            let after = buttons@;
            assert forall|i: int, j: int| 0 <= i < j < after.len() implies after[i] != after[j] by {
                match other {
                    Some(o) => {
                        let op = role_position(o);
                        if i == position as int || j == position as int {
                            if i == op || j == op {
                            }
                        } else if i == op || j == op {
                        } else {
                            assert(b[i] != b[j]);
                        }
                    },
                    None => {
                        if i != position as int && j != position as int {
                            assert(b[i] != b[j]);
                        }
                    },
                }
            }
            match other {
                Some(o) => {
                    let c = choose|i: int| 0 <= i < b.len() && b[i] == button;
                    assert(b[role_position(o)] == button);
                    if c != role_position(o) {
                        if c < role_position(o) {
                            assert(b[c] != b[role_position(o)]);
                        } else {
                            assert(b[role_position(o)] != b[c]);
                        }
                    }
                    assert(after =~= assigned(b, role, button));
                },
                None => {
                    assert(after =~= assigned(b, role, button));
                },
            }
        }
        self.buttons = buttons;
    }

    /// Copies the assignment.
    pub fn duplicate(&self) -> (r: ControllerBindings)
        ensures
            r@ == self@,
    {
        proof {
            use_type_invariant(self);
        }
        ControllerBindings { version: self.version, buttons: self.buttons.clone() }
    }
}

/// One entry of the controller Settings surface.
#[derive(Clone, Copy, Debug, PartialEq, Eq, Hash, Structural)]
pub enum ControllerSettingId {
    Binding(ControllerRole),
    ResetDefaults,
}

pub open spec fn setting_label(s: ControllerSettingId) -> Seq<char> {
    match s {
        ControllerSettingId::Binding(role) => role_label(role),
        ControllerSettingId::ResetDefaults => "Restore default buttons"@,
    }
}

impl ControllerSettingId {
    /// Every Settings entry: one binding per role, then the reset.
    pub fn all() -> (r: Vec<ControllerSettingId>)
        ensures
            r@.len() == ROLE_COUNT + 1,
            forall|i: int| 0 <= i < ROLE_COUNT ==> r@[i] == ControllerSettingId::Binding(
                #[trigger] all_roles()[i],
            ),
            r@[ROLE_COUNT as int] == ControllerSettingId::ResetDefaults,
    {
        let roles = ControllerRole::all();
        let mut r: Vec<ControllerSettingId> = Vec::new();
        let mut i: usize = 0;
        while i < roles.len()
            invariant
                roles@ == all_roles(),
                i <= roles@.len(),
                r@.len() == i,
                forall|k: int| 0 <= k < i ==> r@[k] == ControllerSettingId::Binding(
                    #[trigger] all_roles()[k],
                ),
            decreases roles.len() - i,
        {
            r.push(ControllerSettingId::Binding(roles[i]));
            i = i + 1;
        }
        r.push(ControllerSettingId::ResetDefaults);
        r
    }

    pub fn label(self) -> (r: &'static str)
        ensures
            r@ == setting_label(self),
    {
        match self {
            ControllerSettingId::Binding(role) => role.label(),
            ControllerSettingId::ResetDefaults => "Restore default buttons",
        }
    }
}

/// One connected controller.
#[derive(Clone, Debug, PartialEq, Eq)]
pub struct ControllerDevice {
    pub id: usize,
    pub name: String,
}

/// Stable visible controller failures.
#[derive(Clone, Copy, Debug, PartialEq, Eq, Structural)]
pub enum ControllerFailure {
    BackendUnavailable,
    DeviceOpenFailed,
    PreferenceRead,
    PreferenceDecode,
    PreferenceWrite,
    WorkerUnavailable,
}

pub open spec fn failure_label(f: ControllerFailure) -> Seq<char> {
    match f {
        ControllerFailure::BackendUnavailable => "Controller backend unavailable"@,
        ControllerFailure::DeviceOpenFailed =>
            "Could not open controller; reconnect and restart the app"@,
        ControllerFailure::PreferenceRead =>
            "Could not read controller buttons; restore defaults to recover"@,
        ControllerFailure::PreferenceDecode =>
            "Invalid controller button file; restore defaults to recover"@,
        ControllerFailure::PreferenceWrite =>
            "Buttons active, but saving failed; confirm a mapping to retry"@,
        ControllerFailure::WorkerUnavailable => "Controller preference worker unavailable"@,
    }
}

impl ControllerFailure {
    pub fn label(self) -> (r: &'static str)
        ensures
            r@ == failure_label(self),
    {
        match self {
            ControllerFailure::BackendUnavailable => "Controller backend unavailable",
            ControllerFailure::DeviceOpenFailed =>
                "Could not open controller; reconnect and restart the app",
            ControllerFailure::PreferenceRead =>
                "Could not read controller buttons; restore defaults to recover",
            ControllerFailure::PreferenceDecode =>
                "Invalid controller button file; restore defaults to recover",
            ControllerFailure::PreferenceWrite =>
                "Buttons active, but saving failed; confirm a mapping to retry",
            ControllerFailure::WorkerUnavailable => "Controller preference worker unavailable",
        }
    }
}

/// Progress of loading and saving the binding preference.
#[derive(Clone, Copy, Debug, PartialEq, Eq, Structural)]
pub enum ControllerPreferenceStatus {
    Loading,
    Saved,
    Saving,
    Failed(ControllerFailure),
}

pub open spec fn preference_label(s: ControllerPreferenceStatus) -> Seq<char> {
    match s {
        ControllerPreferenceStatus::Loading => "Loading buttons"@,
        ControllerPreferenceStatus::Saved => "Buttons saved"@,
        ControllerPreferenceStatus::Saving => "Saving buttons"@,
        ControllerPreferenceStatus::Failed(f) => failure_label(f),
    }
}

impl ControllerPreferenceStatus {
    pub fn label(self) -> (r: &'static str)
        ensures
            r@ == preference_label(self),
    {
        match self {
            ControllerPreferenceStatus::Loading => "Loading buttons",
            ControllerPreferenceStatus::Saved => "Buttons saved",
            ControllerPreferenceStatus::Saving => "Saving buttons",
            ControllerPreferenceStatus::Failed(failure) => failure.label(),
        }
    }
}

impl Default for ControllerPreferenceStatus {
    fn default() -> (r: ControllerPreferenceStatus)
        ensures
            r == ControllerPreferenceStatus::Loading,
    {
        ControllerPreferenceStatus::Loading
    }
}

/// Reducer-owned controller state.
#[derive(Debug, PartialEq, Eq)]
pub struct ControllerState {
    pub(crate) devices: Vec<ControllerDevice>,
    pub(crate) bindings: ControllerBindings,
    pub(crate) capture: Option<ControllerRole>,
    pub(crate) ready: bool,
    pub(crate) preference_status: ControllerPreferenceStatus,
    pub(crate) backend_failure: Option<ControllerFailure>,
}

/// The mathematical content of controller state.
pub struct ControllerStateView {
    pub devices: Seq<ControllerDevice>,
    pub bindings: BindingsView,
    pub capture: Option<ControllerRole>,
    pub ready: bool,
    pub preference_status: ControllerPreferenceStatus,
    pub backend_failure: Option<ControllerFailure>,
}

impl View for ControllerState {
    type V = ControllerStateView;

    closed spec fn view(&self) -> ControllerStateView {
        ControllerStateView {
            devices: self.devices@,
            bindings: self.bindings@,
            capture: self.capture,
            ready: self.ready,
            preference_status: self.preference_status,
            backend_failure: self.backend_failure,
        }
    }
}

impl ControllerState {
    /// The startup state: no devices, default bindings, loading preferences.
    pub fn initial() -> (r: ControllerState)
        ensures
            r@.devices.len() == 0,
            r@.bindings.buttons == default_buttons(),
            r@.capture is None,
            !r@.ready,
            r@.preference_status == ControllerPreferenceStatus::Loading,
            r@.backend_failure is None,
    {
        ControllerState {
            devices: Vec::new(),
            bindings: ControllerBindings::default_bindings(),
            capture: None,
            ready: false,
            preference_status: ControllerPreferenceStatus::Loading,
            backend_failure: None,
        }
    }

    pub fn devices(&self) -> (r: &Vec<ControllerDevice>)
        ensures
            r@ == self@.devices,
    {
        &self.devices
    }

    pub fn bindings(&self) -> (r: &ControllerBindings)
        ensures
            r@ == self@.bindings,
    {
        &self.bindings
    }

    pub fn capture(&self) -> (r: Option<ControllerRole>)
        ensures
            r == self@.capture,
    {
        self.capture
    }

    pub fn ready(&self) -> (r: bool)
        ensures
            r == self@.ready,
    {
        self.ready
    }

    pub fn preference_status(&self) -> (r: ControllerPreferenceStatus)
        ensures
            r == self@.preference_status,
    {
        self.preference_status
    }

    pub fn backend_failure(&self) -> (r: Option<ControllerFailure>)
        ensures
            r == self@.backend_failure,
    {
        self.backend_failure
    }
}

/// Normalized controller events delivered to the reducer.
#[derive(Debug, PartialEq, Eq)]
pub enum ControllerEvent {
    DevicesChanged { devices: Vec<ControllerDevice> },
    BackendFailed { failure: ControllerFailure },
    PreferencesLoaded { result: Result<Option<ControllerBindings>, ControllerFailure> },
    PreferencesSaved { bindings: ControllerBindings, result: Result<(), ControllerFailure> },
    ButtonCaptured { device_id: usize, button: ControllerButton },
}


/// Binding `button` to `role` gives the role that button; the one role that
/// held the button before, if any, takes the role's previous button, and
/// every other role keeps its own.
pub proof fn lemma_assignment_moves_only_the_displaced_button(
    b: Seq<ControllerButton>,
    role: ControllerRole,
    button: ControllerButton,
)
    requires
        b.len() == ROLE_COUNT,
        buttons_distinct(b),
    ensures
        ({
            let n = assigned(b, role, button);
            let pos = role_position(role);
            &&& n.len() == b.len()
            &&& n[pos] == button
            &&& forall|k: int| 0 <= k < b.len() && k != pos ==> #[trigger] n[k] == (if b[k] == button {
                b[pos]
            } else {
                b[k]
            })
        }),
{
    let pos = role_position(role);
    if exists|i: int| 0 <= i < b.len() && b[i] == button {
        let w = choose|i: int| 0 <= i < b.len() && b[i] == button;
        assert forall|k: int| 0 <= k < b.len() && k != pos implies #[trigger] assigned(b, role, button)[k] == (if b[k]
            == button {
            b[pos]
        } else {
            b[k]
        }) by {
            if b[k] == button && k != w {
                if k < w {
                    assert(b[k] != b[w]);
                } else {
                    assert(b[w] != b[k]);
                }
            }
        }
    }
}

} // verus!
