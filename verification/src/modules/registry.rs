//! The registry of built-in modules: their ids and which module an id in a
//! theme or configuration names.

use vstd::prelude::*;

verus! {

/// IDs of all built-in modules, in alphabetical order.
pub open spec fn builtin_ids_spec() -> Seq<Seq<char>> {
    seq![
        "calendar"@,
        "clock"@,
        "favorites"@,
        "hyprcube"@,
        "lunar"@,
        "menu_button"@,
        "network"@,
        "power"@,
        "shell"@,
        "sound"@,
        "weather"@,
        "window_list"@,
        "workspaces"@,
    ]
}

/// Return the IDs of all built-in modules.
pub fn builtin_module_ids() -> (r: Vec<&'static str>)
    ensures
        r@.map_values(|s: &str| s@) == builtin_ids_spec(),
{
    let r = vec![
        "calendar",
        "clock",
        "favorites",
        "hyprcube",
        "lunar",
        "menu_button",
        "network",
        "power",
        "shell",
        "sound",
        "weather",
        "window_list",
        "workspaces",
    ];
    assert(r@.map_values(|s: &str| s@) =~= builtin_ids_spec());
    r
}

/// The built-in module kinds.
#[derive(Debug, Clone, Copy, PartialEq, Eq, Structural)]
pub enum ModuleKind {
    Calendar,
    Clock,
    Favorites,
    Hyprcube,
    Lunar,
    MenuButton,
    Network,
    Power,
    Shell,
    Sound,
    Weather,
    WindowList,
    Workspaces,
}

/// The id a module kind is registered under.
pub open spec fn kind_id(k: ModuleKind) -> Seq<char> {
    match k {
        ModuleKind::Calendar => "calendar"@,
        ModuleKind::Clock => "clock"@,
        ModuleKind::Favorites => "favorites"@,
        ModuleKind::Hyprcube => "hyprcube"@,
        ModuleKind::Lunar => "lunar"@,
        ModuleKind::MenuButton => "menu_button"@,
        ModuleKind::Network => "network"@,
        ModuleKind::Power => "power"@,
        ModuleKind::Shell => "shell"@,
        ModuleKind::Sound => "sound"@,
        ModuleKind::Weather => "weather"@,
        ModuleKind::WindowList => "window_list"@,
        ModuleKind::Workspaces => "workspaces"@,
    }
}

/// The module kind registered under `id`, if any.
pub open spec fn kind_for_id(id: Seq<char>) -> Option<ModuleKind> {
    if id == "calendar"@ {
        Some(ModuleKind::Calendar)
    } else if id == "clock"@ {
        Some(ModuleKind::Clock)
    } else if id == "favorites"@ {
        Some(ModuleKind::Favorites)
    } else if id == "hyprcube"@ {
        Some(ModuleKind::Hyprcube)
    } else if id == "lunar"@ {
        Some(ModuleKind::Lunar)
    } else if id == "menu_button"@ {
        Some(ModuleKind::MenuButton)
    } else if id == "network"@ {
        Some(ModuleKind::Network)
    } else if id == "power"@ {
        Some(ModuleKind::Power)
    } else if id == "shell"@ {
        Some(ModuleKind::Shell)
    } else if id == "sound"@ {
        Some(ModuleKind::Sound)
    } else if id == "weather"@ {
        Some(ModuleKind::Weather)
    } else if id == "window_list"@ {
        Some(ModuleKind::WindowList)
    } else if id == "workspaces"@ {
        Some(ModuleKind::Workspaces)
    } else {
        None
    }
}

impl ModuleKind {
    /// Which built-in module `id` names; unknown ids name none.
    pub fn from_id(id: &str) -> (r: Option<ModuleKind>)
        ensures
            r == kind_for_id(id@),
    {
        let owned = id.to_owned();
        if owned == "calendar".to_owned() {
            Some(ModuleKind::Calendar)
        } else if owned == "clock".to_owned() {
            Some(ModuleKind::Clock)
        } else if owned == "favorites".to_owned() {
            Some(ModuleKind::Favorites)
        } else if owned == "hyprcube".to_owned() {
            Some(ModuleKind::Hyprcube)
        } else if owned == "lunar".to_owned() {
            Some(ModuleKind::Lunar)
        } else if owned == "menu_button".to_owned() {
            Some(ModuleKind::MenuButton)
        } else if owned == "network".to_owned() {
            Some(ModuleKind::Network)
        } else if owned == "power".to_owned() {
            Some(ModuleKind::Power)
        } else if owned == "shell".to_owned() {
            Some(ModuleKind::Shell)
        } else if owned == "sound".to_owned() {
            Some(ModuleKind::Sound)
        } else if owned == "weather".to_owned() {
            Some(ModuleKind::Weather)
        } else if owned == "window_list".to_owned() {
            Some(ModuleKind::WindowList)
        } else if owned == "workspaces".to_owned() {
            Some(ModuleKind::Workspaces)
        } else {
            None
        }
    }

    /// The id this kind is registered under.
    pub fn id(self) -> (r: &'static str)
        ensures
            r@ == kind_id(self),
    {
        match self {
            ModuleKind::Calendar => "calendar",
            ModuleKind::Clock => "clock",
            ModuleKind::Favorites => "favorites",
            ModuleKind::Hyprcube => "hyprcube",
            ModuleKind::Lunar => "lunar",
            ModuleKind::MenuButton => "menu_button",
            ModuleKind::Network => "network",
            ModuleKind::Power => "power",
            ModuleKind::Shell => "shell",
            ModuleKind::Sound => "sound",
            ModuleKind::Weather => "weather",
            ModuleKind::WindowList => "window_list",
            ModuleKind::Workspaces => "workspaces",
        }
    }
}

/// Every registered id names a module whose own id is that id, and every
/// id that names a module is that module's id: the registry and the
/// modules agree.
pub proof fn law_registry_ids_resolve()
    ensures
        forall|i: int|
            0 <= i < builtin_ids_spec().len() ==> (kind_for_id(#[trigger] builtin_ids_spec()[i]) matches Some(k)
                && kind_id(k) == builtin_ids_spec()[i]),
        forall|id: Seq<char>| #[trigger] kind_for_id(id) is Some ==> kind_id(kind_for_id(id)->0) == id,
        builtin_ids_spec().len() == 13,
{
    reveal_strlit("calendar");
    reveal_strlit("clock");
    reveal_strlit("favorites");
    reveal_strlit("hyprcube");
    reveal_strlit("lunar");
    reveal_strlit("menu_button");
    reveal_strlit("network");
    reveal_strlit("power");
    reveal_strlit("shell");
    reveal_strlit("sound");
    reveal_strlit("weather");
    reveal_strlit("window_list");
    reveal_strlit("workspaces");
    let ids = builtin_ids_spec();
    assert forall|i: int| 0 <= i < ids.len() implies (kind_for_id(#[trigger] ids[i]) matches Some(k)
        && kind_id(k) == ids[i]) by {
        if i == 3 {
            lemma_differ_at(ids[3], "calendar"@, 0);
        } else if i == 4 {
            lemma_differ_at(ids[4], "clock"@, 0);
        } else if i == 7 {
            lemma_differ_at(ids[7], "clock"@, 0);
            lemma_differ_at(ids[7], "lunar"@, 0);
        } else if i == 8 {
            lemma_differ_at(ids[8], "clock"@, 0);
            lemma_differ_at(ids[8], "lunar"@, 0);
            lemma_differ_at(ids[8], "power"@, 0);
        } else if i == 9 {
            lemma_differ_at(ids[9], "clock"@, 0);
            lemma_differ_at(ids[9], "lunar"@, 0);
            lemma_differ_at(ids[9], "power"@, 0);
            lemma_differ_at(ids[9], "shell"@, 1);
        } else if i == 10 {
            lemma_differ_at(ids[10], "network"@, 0);
        } else if i == 11 {
            lemma_differ_at(ids[11], "menu_button"@, 0);
        }
    }
}

/// Two texts that differ at some position are different.
proof fn lemma_differ_at(s: Seq<char>, t: Seq<char>, k: int)
    requires
        0 <= k < s.len(),
        0 <= k < t.len(),
        s[k] != t[k],
    ensures
        s != t,
{
}

} // verus!
