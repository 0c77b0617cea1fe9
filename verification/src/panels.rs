//! The editor's panels: their names, their titles, and finding a panel kind by name.
use vstd::prelude::*;

use crate::recents::UserPref;
use crate::text::chars_of;

verus! {

/// A panel of the editor.
pub trait Panel {
    /// The name under which the panel's kind is stored in a saved layout.
    fn name() -> &'static str;

    /// The title shown on the panel's tab.
    fn title(&self) -> String;
}

/// The kinds of panel that a tab can be opened with, in the order of the "add tab" menu.
#[derive(Clone, Copy, Debug, PartialEq, Eq, Structural)]
pub enum PanelKind {
    Assets,
    Timeline,
    Scene,
    ToolSettings,
    Debug,
}

/// The name of a panel kind.
pub open spec fn kind_name(k: PanelKind) -> Seq<char> {
    match k {
        PanelKind::Assets => "Assets"@,
        PanelKind::Timeline => "Timeline"@,
        PanelKind::Scene => "Scene"@,
        PanelKind::ToolSettings => "Tool Settings"@,
        PanelKind::Debug => "Debug"@,
    }
}

/// The panel kinds that a build offers: the debug panel only in a debug build.
pub open spec fn kind_available(k: PanelKind, debug_build: bool) -> bool {
    k != PanelKind::Debug || debug_build
}

/// The first panel kind, in menu order, whose name is `name`, among those that a debug build
/// (`debug_build`) or a release build offers.
pub open spec fn kind_named(name: Seq<char>, debug_build: bool) -> Option<PanelKind> {
    if name == "Assets"@ {
        Some(PanelKind::Assets)
    } else if name == "Timeline"@ {
        Some(PanelKind::Timeline)
    } else if name == "Scene"@ {
        Some(PanelKind::Scene)
    } else if name == "Tool Settings"@ {
        Some(PanelKind::ToolSettings)
    } else if debug_build && name == "Debug"@ {
        Some(PanelKind::Debug)
    } else {
        None
    }
}

fn same_chars(a: &str, b: &str) -> (r: bool)
    ensures
        r == (a@ == b@),
{
    let ca = chars_of(a);
    let cb = chars_of(b);
    if ca.len() != cb.len() {
        return false;
    }
    let mut i: usize = 0;
    while i < ca.len()
        invariant
            ca@ == a@,
            cb@ == b@,
            ca@.len() == cb@.len(),
            0 <= i <= ca@.len(),
            forall|k: int| 0 <= k < i ==> ca@[k] == cb@[k],
        decreases ca.len() - i,
    {
        if ca[i] != cb[i] {
            assert(a@[i as int] != b@[i as int]);
            return false;
        }
        i = i + 1;
    }
    assert(ca@ =~= cb@);
    true
}

impl PanelKind {

    /// Every panel kind that the build offers, in the order of the "add tab" menu: the debug
    /// panel comes last, and only in a debug build (`debug_build`).
    pub fn all(debug_build: bool) -> (r: Vec<PanelKind>)
        ensures
            r@ == if debug_build {
                seq![
                    PanelKind::Assets,
                    PanelKind::Timeline,
                    PanelKind::Scene,
                    PanelKind::ToolSettings,
                    PanelKind::Debug,
                ]
            } else {
                seq![PanelKind::Assets, PanelKind::Timeline, PanelKind::Scene, PanelKind::ToolSettings]
            },
    {
        let mut r = vec![
            PanelKind::Assets,
            PanelKind::Timeline,
            PanelKind::Scene,
            PanelKind::ToolSettings,
        ];
        if debug_build {
            r.push(PanelKind::Debug);
        }
        r
    }

    /// The name under which the kind is saved, which is also its entry in the "add tab" menu.
    pub fn name(&self) -> (r: &'static str)
        ensures
            r@ == kind_name(*self),
    {
        match self {
            PanelKind::Assets => "Assets",
            PanelKind::Timeline => "Timeline",
            PanelKind::Scene => "Scene",
            PanelKind::ToolSettings => "Tool Settings",
            PanelKind::Debug => "Debug",
        }
    }

    /// The kind saved under `name`, or `None` for an unknown panel type. The debug panel is
    /// known only in a debug build (`debug_build`).
    pub fn from_name(name: &str, debug_build: bool) -> (r: Option<PanelKind>)
        ensures
            r == kind_named(name@, debug_build),
    {
        if same_chars(name, "Assets") {
            Some(PanelKind::Assets)
        } else if same_chars(name, "Timeline") {
            Some(PanelKind::Timeline)
        } else if same_chars(name, "Scene") {
            Some(PanelKind::Scene)
        } else if same_chars(name, "Tool Settings") {
            Some(PanelKind::ToolSettings)
        } else if debug_build && same_chars(name, "Debug") {
            Some(PanelKind::Debug)
        } else {
            None
        }
    }
}

/// A saved panel kind that the build offers is read back as the same kind; a name that reads
/// back as a kind is that kind's name.
pub proof fn lemma_name_round_trip(k: PanelKind, debug_build: bool)
    requires
        kind_available(k, debug_build),
    ensures
        kind_named(kind_name(k), debug_build) == Some(k),
{
    broadcast use vstd::string::group_string_axioms;

    reveal_strlit("Assets");
    reveal_strlit("Timeline");
    reveal_strlit("Scene");
    reveal_strlit("Tool Settings");
    reveal_strlit("Debug");
    assert("Assets"@.len() == 6);
    assert("Timeline"@.len() == 8);
    assert("Scene"@.len() == 5);
    assert("Tool Settings"@.len() == 13);
    assert("Debug"@.len() == 5);
    assert("Scene"@[0] == 'S');
    assert("Debug"@[0] == 'D');
    assert("Assets"@ != "Timeline"@);
    assert("Assets"@ != "Scene"@);
    assert("Assets"@ != "Tool Settings"@);
    assert("Assets"@ != "Debug"@);
    assert("Timeline"@ != "Scene"@);
    assert("Timeline"@ != "Tool Settings"@);
    assert("Timeline"@ != "Debug"@);
    assert("Scene"@ != "Tool Settings"@);
    assert("Scene"@ != "Debug"@);
    assert("Tool Settings"@ != "Debug"@);
}

/// The panel that lists the colors of the open clip.
pub struct ColorsPanel {}

impl Panel for ColorsPanel {
    fn name() -> (r: &'static str)
        ensures
            r@ == "Colors"@,
    {
        "Colors"
    }

    fn title(&self) -> (r: String)
        ensures
            r@ == "Colors"@,
    {
        "Colors".to_owned()
    }
}

impl ColorsPanel {
    /// A colors panel.
    pub fn default() -> Self {
        ColorsPanel {}
    }
}

/// The panel that shows the undo and redo stacks while developing.
pub struct DebugPanel {
    pub request_redraw: bool,
}

impl Panel for DebugPanel {
    fn name() -> (r: &'static str)
        ensures
            r@ == kind_name(PanelKind::Debug),
    {
        "Debug"
    }

    fn title(&self) -> (r: String)
        ensures
            r@ == "Debug"@,
    {
        "Debug".to_owned()
    }
}

impl DebugPanel {
    /// A debug panel that does not ask for redraws.
    pub fn default() -> (r: Self)
        ensures
            !r.request_redraw,
    {
        DebugPanel { request_redraw: false }
    }
}

/// The panel with the settings of the current tool.
pub struct ToolSettings {}

impl Panel for ToolSettings {
    fn name() -> (r: &'static str)
        ensures
            r@ == kind_name(PanelKind::ToolSettings),
    {
        "Tool Settings"
    }

    fn title(&self) -> (r: String)
        ensures
            r@ == "Tool Settings"@,
    {
        "Tool Settings".to_owned()
    }
}

impl ToolSettings {
    /// A tool settings panel.
    pub fn default() -> Self {
        ToolSettings {}
    }
}

/// The preference that holds the layout of the editor's docked panels.
pub struct DockingLayoutPref;

impl UserPref for DockingLayoutPref {
    fn name() -> (r: &'static str)
        ensures
            r@ == "docking_layout"@,
    {
        "docking_layout"
    }
}

/// The preference that holds the tint of onion skins before the current frame.
pub struct OnionSkinPastColor;

impl UserPref for OnionSkinPastColor {
    fn name() -> (r: &'static str)
        ensures
            r@ == "onion_skin_past_color"@,
    {
        "onion_skin_past_color"
    }
}

/// The preference that holds the tint of onion skins after the current frame.
pub struct OnionSkinFutureColor;

impl UserPref for OnionSkinFutureColor {
    fn name() -> (r: &'static str)
        ensures
            r@ == "onion_skin_future_color"@,
    {
        "onion_skin_future_color"
    }
}

} // verus!
