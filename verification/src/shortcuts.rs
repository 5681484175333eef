//! Global keyboard shortcuts: the bindings that the application registers
//! itself, and the reading of bindings that the frontend asks for.
//!
//! The functions here say which shortcuts are to be registered. Registering
//! them with the operating system is the host's part.

use vstd::prelude::*;
use vstd::string::*;
use crate::text::{str_eq, texts};

verus! {

/// A shortcut as the frontend describes it.
#[derive(Debug)]
pub struct ShortcutConfig {
    pub key: String,
    pub modifiers: Vec<String>,
    pub action: String,
    pub description: String,
}

/// The shortcuts that the frontend asks to have registered.
#[derive(Debug)]
pub struct ShortcutRegistration {
    pub shortcuts: Vec<ShortcutConfig>,
}

/// The text of a [`ShortcutConfig`].
pub struct ShortcutConfigView {
    pub key: Seq<char>,
    pub modifiers: Seq<Seq<char>>,
    pub action: Seq<char>,
    pub description: Seq<char>,
}

impl View for ShortcutConfig {
    type V = ShortcutConfigView;

    open spec fn view(&self) -> ShortcutConfigView {
        ShortcutConfigView {
            key: self.key@,
            modifiers: texts(self.modifiers@),
            action: self.action@,
            description: self.description@,
        }
    }
}

/// The modifier keys of a shortcut.
#[derive(Debug, Clone, Copy, PartialEq, Eq, Structural)]
pub struct Modifiers {
    pub super_key: bool,
    pub control: bool,
    pub alt: bool,
    pub shift: bool,
}

/// The keys that a shortcut can be bound to.
#[derive(Debug, Clone, Copy, PartialEq, Eq, Structural)]
pub enum KeyCode {
    KeyA,
    KeyB,
    KeyC,
    KeyD,
    KeyE,
    KeyF,
    KeyG,
    KeyH,
    KeyI,
    KeyJ,
    KeyK,
    KeyL,
    KeyM,
    KeyN,
    KeyO,
    KeyP,
    KeyQ,
    KeyR,
    KeyS,
    KeyT,
    KeyU,
    KeyV,
    KeyW,
    KeyX,
    KeyY,
    KeyZ,
    Digit0,
    Digit1,
    Digit2,
    Digit3,
    Digit4,
    Digit5,
    Digit6,
    Digit7,
    Digit8,
    Digit9,
    Space,
    Enter,
    Escape,
    Tab,
}

/// A shortcut ready to be registered.
#[derive(Debug, Clone, Copy, PartialEq, Eq, Structural)]
pub struct Shortcut {
    pub modifiers: Modifiers,
    pub key: KeyCode,
}

/// What `str::to_lowercase` returns for a text: its lowercase form as Unicode
/// defines it.
pub uninterp spec fn lowercase(text: Seq<char>) -> Seq<char>;

/// `str::to_lowercase` of the standard library. The contract gives its result
/// the name [`lowercase`] and claims nothing more of it.
pub assume_specification[ str::to_lowercase ](text: &str) -> (lowered: String)
    ensures
        lowered@ == lowercase(text@),
;

/// Whether a name names the Cmd key, known elsewhere as Super.
pub open spec fn names_super(name: Seq<char>) -> bool {
    name == "cmd"@ || name == "super"@
}

/// Whether a name names the Ctrl key.
pub open spec fn names_control(name: Seq<char>) -> bool {
    name == "ctrl"@ || name == "control"@
}

/// Whether a name names the Alt key, known elsewhere as Option.
pub open spec fn names_alt(name: Seq<char>) -> bool {
    name == "alt"@ || name == "option"@
}

/// Whether a name names the Shift key.
pub open spec fn names_shift(name: Seq<char>) -> bool {
    name == "shift"@
}

/// The modifiers that a list of names stands for: each modifier that at least
/// one of the names is a name of. Names of no modifier are passed over.
pub open spec fn modifiers_named(names: Seq<Seq<char>>) -> Modifiers {
    Modifiers {
        super_key: exists|i: int| 0 <= i < names.len() && names_super(#[trigger] names[i]),
        control: exists|i: int| 0 <= i < names.len() && names_control(#[trigger] names[i]),
        alt: exists|i: int| 0 <= i < names.len() && names_alt(#[trigger] names[i]),
        shift: exists|i: int| 0 <= i < names.len() && names_shift(#[trigger] names[i]),
    }
}

/// The key that a name in lowercase stands for.
pub open spec fn key_named(name: Seq<char>) -> Option<KeyCode> {
    if name == "a"@ {
        Some(KeyCode::KeyA)
    } else if name == "b"@ {
        Some(KeyCode::KeyB)
    } else if name == "c"@ {
        Some(KeyCode::KeyC)
    } else if name == "d"@ {
        Some(KeyCode::KeyD)
    } else if name == "e"@ {
        Some(KeyCode::KeyE)
    } else if name == "f"@ {
        Some(KeyCode::KeyF)
    } else if name == "g"@ {
        Some(KeyCode::KeyG)
    } else if name == "h"@ {
        Some(KeyCode::KeyH)
    } else if name == "i"@ {
        Some(KeyCode::KeyI)
    } else if name == "j"@ {
        Some(KeyCode::KeyJ)
    } else if name == "k"@ {
        Some(KeyCode::KeyK)
    } else if name == "l"@ {
        Some(KeyCode::KeyL)
    } else if name == "m"@ {
        Some(KeyCode::KeyM)
    } else if name == "n"@ {
        Some(KeyCode::KeyN)
    } else if name == "o"@ {
        Some(KeyCode::KeyO)
    } else if name == "p"@ {
        Some(KeyCode::KeyP)
    } else if name == "q"@ {
        Some(KeyCode::KeyQ)
    } else if name == "r"@ {
        Some(KeyCode::KeyR)
    } else if name == "s"@ {
        Some(KeyCode::KeyS)
    } else if name == "t"@ {
        Some(KeyCode::KeyT)
    } else if name == "u"@ {
        Some(KeyCode::KeyU)
    } else if name == "v"@ {
        Some(KeyCode::KeyV)
    } else if name == "w"@ {
        Some(KeyCode::KeyW)
    } else if name == "x"@ {
        Some(KeyCode::KeyX)
    } else if name == "y"@ {
        Some(KeyCode::KeyY)
    } else if name == "z"@ {
        Some(KeyCode::KeyZ)
    } else if name == "1"@ {
        Some(KeyCode::Digit1)
    } else if name == "2"@ {
        Some(KeyCode::Digit2)
    } else if name == "3"@ {
        Some(KeyCode::Digit3)
    } else if name == "4"@ {
        Some(KeyCode::Digit4)
    } else if name == "5"@ {
        Some(KeyCode::Digit5)
    } else if name == "6"@ {
        Some(KeyCode::Digit6)
    } else if name == "7"@ {
        Some(KeyCode::Digit7)
    } else if name == "8"@ {
        Some(KeyCode::Digit8)
    } else if name == "9"@ {
        Some(KeyCode::Digit9)
    } else if name == "0"@ {
        Some(KeyCode::Digit0)
    } else if name == "space"@ {
        Some(KeyCode::Space)
    } else if name == "enter"@ {
        Some(KeyCode::Enter)
    } else if name == "escape"@ {
        Some(KeyCode::Escape)
    } else if name == "tab"@ {
        Some(KeyCode::Tab)
    } else {
        None
    }
}

/// The shortcut that a configuration asks for, if its key is known.
pub open spec fn shortcut_asked(config: ShortcutConfigView) -> Option<Shortcut> {
    match key_named(lowercase(config.key)) {
        Some(key) => Some(Shortcut { modifiers: modifiers_named(config.modifiers), key }),
        None => None,
    }
}

/// The shortcuts that a list of configurations asks for, in order;
/// configurations with an unknown key are passed over.
pub open spec fn shortcuts_asked(configs: Seq<ShortcutConfig>) -> Seq<Shortcut>
    decreases configs.len(),
{
    if configs.len() == 0 {
        Seq::empty()
    } else {
        match shortcut_asked(configs.last()@) {
            Some(shortcut) => shortcuts_asked(configs.drop_last()).push(shortcut),
            None => shortcuts_asked(configs.drop_last()),
        }
    }
}

/// Reads a list of modifier names.
pub fn parse_modifiers(names: &Vec<String>) -> (modifiers: Modifiers)
    ensures
        modifiers == modifiers_named(texts(names@)),
{
    let ghost given = texts(names@);
    let mut modifiers = Modifiers { super_key: false, control: false, alt: false, shift: false };
    let mut i: usize = 0;
    while i < names.len()
        invariant
            i <= names.len(),
            given == texts(names@),
            modifiers.super_key == exists|j: int| 0 <= j < i && names_super(#[trigger] given[j]),
            modifiers.control == exists|j: int| 0 <= j < i && names_control(#[trigger] given[j]),
            modifiers.alt == exists|j: int| 0 <= j < i && names_alt(#[trigger] given[j]),
            modifiers.shift == exists|j: int| 0 <= j < i && names_shift(#[trigger] given[j]),
        decreases names.len() - i,
    {
        let name = names[i].as_str();
        let ghost text = given[i as int];
        proof {
            lemma_modifier_names_differ();
            assert(name@ == text);
            assert(names_super(text) ==> !names_control(text) && !names_alt(text) && !names_shift(
                text,
            ));
            assert(names_control(text) ==> !names_alt(text) && !names_shift(text));
            assert(names_alt(text) ==> !names_shift(text));
        }
        if str_eq(name, "cmd") || str_eq(name, "super") {
            modifiers.super_key = true;
        } else if str_eq(name, "ctrl") || str_eq(name, "control") {
            modifiers.control = true;
        } else if str_eq(name, "alt") || str_eq(name, "option") {
            modifiers.alt = true;
        } else if str_eq(name, "shift") {
            modifiers.shift = true;
        }
        i += 1;
    }
    modifiers
}

/// No name names two modifiers.
proof fn lemma_modifier_names_differ()
    ensures
        forall|name: Seq<char>|
            #![trigger names_super(name)]
            names_super(name) ==> !names_control(name) && !names_alt(name) && !names_shift(
                name,
            ),
        forall|name: Seq<char>|
            #![trigger names_control(name)]
            names_control(name) ==> !names_alt(name) && !names_shift(name),
        forall|name: Seq<char>| #![trigger names_alt(name)] names_alt(name) ==> !names_shift(name),
{
    reveal_strlit("cmd");
    reveal_strlit("super");
    reveal_strlit("ctrl");
    reveal_strlit("control");
    reveal_strlit("alt");
    reveal_strlit("option");
    reveal_strlit("shift");
    assert("cmd"@.len() == 3 && "alt"@.len() == 3 && "super"@.len() == 5 && "shift"@.len() == 5);
    assert("ctrl"@.len() == 4 && "control"@.len() == 7 && "option"@.len() == 6);
    assert("cmd"@[0] == 'c' && "alt"@[0] == 'a');
    assert("super"@[1] == 'u' && "shift"@[1] == 'h');
}

/// The key that a name, already in lowercase, stands for.
pub fn key_code(name: &str) -> (key: Option<KeyCode>)
    ensures
        key == key_named(name@),
{
    if str_eq(name, "a") {
        Some(KeyCode::KeyA)
    } else if str_eq(name, "b") {
        Some(KeyCode::KeyB)
    } else if str_eq(name, "c") {
        Some(KeyCode::KeyC)
    } else if str_eq(name, "d") {
        Some(KeyCode::KeyD)
    } else if str_eq(name, "e") {
        Some(KeyCode::KeyE)
    } else if str_eq(name, "f") {
        Some(KeyCode::KeyF)
    } else if str_eq(name, "g") {
        Some(KeyCode::KeyG)
    } else if str_eq(name, "h") {
        Some(KeyCode::KeyH)
    } else if str_eq(name, "i") {
        Some(KeyCode::KeyI)
    } else if str_eq(name, "j") {
        Some(KeyCode::KeyJ)
    } else if str_eq(name, "k") {
        Some(KeyCode::KeyK)
    } else if str_eq(name, "l") {
        Some(KeyCode::KeyL)
    } else if str_eq(name, "m") {
        Some(KeyCode::KeyM)
    } else if str_eq(name, "n") {
        Some(KeyCode::KeyN)
    } else if str_eq(name, "o") {
        Some(KeyCode::KeyO)
    } else if str_eq(name, "p") {
        Some(KeyCode::KeyP)
    } else if str_eq(name, "q") {
        Some(KeyCode::KeyQ)
    } else if str_eq(name, "r") {
        Some(KeyCode::KeyR)
    } else if str_eq(name, "s") {
        Some(KeyCode::KeyS)
    } else if str_eq(name, "t") {
        Some(KeyCode::KeyT)
    } else if str_eq(name, "u") {
        Some(KeyCode::KeyU)
    } else if str_eq(name, "v") {
        Some(KeyCode::KeyV)
    } else if str_eq(name, "w") {
        Some(KeyCode::KeyW)
    } else if str_eq(name, "x") {
        Some(KeyCode::KeyX)
    } else if str_eq(name, "y") {
        Some(KeyCode::KeyY)
    } else if str_eq(name, "z") {
        Some(KeyCode::KeyZ)
    } else if str_eq(name, "1") {
        Some(KeyCode::Digit1)
    } else if str_eq(name, "2") {
        Some(KeyCode::Digit2)
    } else if str_eq(name, "3") {
        Some(KeyCode::Digit3)
    } else if str_eq(name, "4") {
        Some(KeyCode::Digit4)
    } else if str_eq(name, "5") {
        Some(KeyCode::Digit5)
    } else if str_eq(name, "6") {
        Some(KeyCode::Digit6)
    } else if str_eq(name, "7") {
        Some(KeyCode::Digit7)
    } else if str_eq(name, "8") {
        Some(KeyCode::Digit8)
    } else if str_eq(name, "9") {
        Some(KeyCode::Digit9)
    } else if str_eq(name, "0") {
        Some(KeyCode::Digit0)
    } else if str_eq(name, "space") {
        Some(KeyCode::Space)
    } else if str_eq(name, "enter") {
        Some(KeyCode::Enter)
    } else if str_eq(name, "escape") {
        Some(KeyCode::Escape)
    } else if str_eq(name, "tab") {
        Some(KeyCode::Tab)
    } else {
        None
    }
}

/// Reads the name of a key, in whatever case it is written.
pub fn parse_key(name: &str) -> (key: Option<KeyCode>)
    ensures
        key == key_named(lowercase(name@)),
{
    let lowered = name.to_lowercase();
    key_code(lowered.as_str())
}

/// The text of each configuration of a list.
pub open spec fn config_views(configs: Seq<ShortcutConfig>) -> Seq<ShortcutConfigView> {
    Seq::new(configs.len(), |i: int| configs[i]@)
}

/// The shortcuts to register for the frontend, in the order in which it asked
/// for them. A name that names no modifier is passed over, and so is a
/// configuration whose key is unknown.
pub fn register_global_shortcuts(shortcuts: &ShortcutRegistration) -> (asked: Vec<Shortcut>)
    ensures
        asked@ == shortcuts_asked(shortcuts.shortcuts@),
{
    let configs = &shortcuts.shortcuts;
    let mut asked: Vec<Shortcut> = Vec::new();
    let mut i: usize = 0;
    assert(configs@.take(0) =~= Seq::<ShortcutConfig>::empty());
    while i < configs.len()
        invariant
            i <= configs.len(),
            asked@ == shortcuts_asked(configs@.take(i as int)),
        decreases configs.len() - i,
    {
        let config = &configs[i];
        let modifiers = parse_modifiers(&config.modifiers);
        proof {
            let longer = configs@.take(i + 1);
            assert(longer.drop_last() =~= configs@.take(i as int));
            assert(longer.last() == configs@[i as int]);
        }
        match parse_key(config.key.as_str()) {
            Some(key) => {
                asked.push(Shortcut { modifiers, key });
            },
            None => {},
        }
        i += 1;
    }
    assert(configs@.take(configs@.len() as int) =~= configs@);
    asked
}

/// One of the application's own shortcuts, as the frontend is told of it:
/// the key with Cmd and Shift.
pub open spec fn default_shortcut(
    key: Seq<char>,
    action: Seq<char>,
    description: Seq<char>,
) -> ShortcutConfigView {
    ShortcutConfigView { key, modifiers: seq!["cmd"@, "shift"@], action, description }
}

/// The application's own shortcuts, as the frontend is told of them.
pub open spec fn default_shortcuts() -> Seq<ShortcutConfigView> {
    seq![
        default_shortcut("c"@, "toggle-window"@, "Show/Hide Calendar Window"@),
        default_shortcut("n"@, "new-event"@, "Create New Event"@),
        default_shortcut("t"@, "show-today"@, "Show Today's Events"@),
        default_shortcut("w"@, "week-view"@, "Switch to Week View"@),
        default_shortcut("m"@, "month-view"@, "Switch to Month View"@),
        default_shortcut("d"@, "day-view"@, "Switch to Day View"@),
    ]
}

fn shortcut_config(key: &str, action: &str, description: &str) -> (config: ShortcutConfig)
    ensures
        config@ == default_shortcut(key@, action@, description@),
{
    let mut modifiers: Vec<String> = Vec::new();
    modifiers.push(String::from_str("cmd"));
    modifiers.push(String::from_str("shift"));
    let config = ShortcutConfig {
        key: String::from_str(key),
        modifiers,
        action: String::from_str(action),
        description: String::from_str(description),
    };
    assert(config@.modifiers =~= seq!["cmd"@, "shift"@]);
    config
}

/// The application's own shortcuts, for the frontend to show.
pub fn get_registered_shortcuts() -> (shortcuts: Vec<ShortcutConfig>)
    ensures
        config_views(shortcuts@) == default_shortcuts(),
{
    let mut shortcuts: Vec<ShortcutConfig> = Vec::new();
    shortcuts.push(shortcut_config("c", "toggle-window", "Show/Hide Calendar Window"));
    shortcuts.push(shortcut_config("n", "new-event", "Create New Event"));
    shortcuts.push(shortcut_config("t", "show-today", "Show Today's Events"));
    shortcuts.push(shortcut_config("w", "week-view", "Switch to Week View"));
    shortcuts.push(shortcut_config("m", "month-view", "Switch to Month View"));
    shortcuts.push(shortcut_config("d", "day-view", "Switch to Day View"));
    assert(config_views(shortcuts@) =~= default_shortcuts());
    shortcuts
}

/// Cmd and Shift together.
pub open spec fn super_shift() -> Modifiers {
    Modifiers { super_key: true, control: false, alt: false, shift: true }
}

/// The shortcuts that the application registers at startup, in the order in
/// which it registers them.
pub fn setup_global_shortcuts() -> (shortcuts: Vec<Shortcut>)
    ensures
        shortcuts@ == seq![
        Shortcut { modifiers: super_shift(), key: KeyCode::KeyC },
        Shortcut { modifiers: super_shift(), key: KeyCode::KeyN },
        Shortcut { modifiers: super_shift(), key: KeyCode::KeyT },
        Shortcut { modifiers: super_shift(), key: KeyCode::KeyW },
        Shortcut { modifiers: super_shift(), key: KeyCode::KeyM },
        Shortcut { modifiers: super_shift(), key: KeyCode::KeyD },
        ],
{
    let modifiers = Modifiers { super_key: true, control: false, alt: false, shift: true };
    let mut shortcuts: Vec<Shortcut> = Vec::new();
    shortcuts.push(Shortcut { modifiers, key: KeyCode::KeyC });
    shortcuts.push(Shortcut { modifiers, key: KeyCode::KeyN });
    shortcuts.push(Shortcut { modifiers, key: KeyCode::KeyT });
    shortcuts.push(Shortcut { modifiers, key: KeyCode::KeyW });
    shortcuts.push(Shortcut { modifiers, key: KeyCode::KeyM });
    shortcuts.push(Shortcut { modifiers, key: KeyCode::KeyD });
    assert(shortcuts@ =~= seq![
        Shortcut { modifiers: super_shift(), key: KeyCode::KeyC },
        Shortcut { modifiers: super_shift(), key: KeyCode::KeyN },
        Shortcut { modifiers: super_shift(), key: KeyCode::KeyT },
        Shortcut { modifiers: super_shift(), key: KeyCode::KeyW },
        Shortcut { modifiers: super_shift(), key: KeyCode::KeyM },
        Shortcut { modifiers: super_shift(), key: KeyCode::KeyD },
    ]);
    shortcuts
}

} // verus!
