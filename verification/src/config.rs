//! Configuration records, as the loader delivers them.

use vstd::prelude::*;

use crate::json::{
    array_len, item_string, json_array_len, json_item_string, json_member_string, member_string,
};
use crate::keybinding::{raw_binding, BindingView, KeyBindings};
use crate::keysym::Keysym;

verus! {

/// The status bar: the command that launches it.
#[derive(PartialEq, Eq, Clone, Debug)]
pub struct Bar {
    command: String,
}

impl View for Bar {
    type V = Seq<char>;

    closed spec fn view(&self) -> Seq<char> {
        self.command@
    }
}

impl Bar {
    /// A bar with no launch command.
    pub fn new() -> (bar: Bar)
        ensures
            bar@ == Seq::<char>::empty(),
    {
        Bar { command: String::new() }
    }

    /// A bar launched by `command`.
    pub fn with_command(command: String) -> (bar: Bar)
        ensures
            bar@ == command@,
    {
        Bar { command }
    }

    /// The launch command.
    pub fn command(&self) -> (command: &String)
        ensures
            command@ == self@,
    {
        &self.command
    }
}

/// Keyboard-layout selection strings, unchecked.
#[derive(PartialEq, Eq, Clone, Debug)]
pub struct RawKeyboardConfig {
    pub layout: String,
    pub variant: String,
    pub model: String,
}

/// Keyboard-layout selection handed to the keymap compiler.
#[derive(PartialEq, Eq, Clone, Debug)]
pub struct KeyboardConfig {
    pub layout: String,
    pub variant: String,
    pub model: String,
}

impl KeyboardConfig {
    /// The selection that leaves every choice to the keymap compiler.
    pub fn new() -> (keyboard: KeyboardConfig)
        ensures
            keyboard.layout@ == Seq::<char>::empty(),
            keyboard.variant@ == Seq::<char>::empty(),
            keyboard.model@ == Seq::<char>::empty(),
    {
        KeyboardConfig { layout: String::new(), variant: String::new(), model: String::new() }
    }

    /// Takes the selection strings over as they are.
    pub fn from_raw(raw: &RawKeyboardConfig) -> (keyboard: KeyboardConfig)
        ensures
            keyboard.layout@ == raw.layout@,
            keyboard.variant@ == raw.variant@,
            keyboard.model@ == raw.model@,
    {
        KeyboardConfig {
            layout: raw.layout.clone(),
            variant: raw.variant.clone(),
            model: raw.model.clone(),
        }
    }
}

/// One entry of the launcher menu.
#[derive(PartialEq, Eq, Clone, Debug)]
pub struct MenuEntry {
    title: String,
    command: String,
}

impl MenuEntry {
    pub closed spec fn title_spec(&self) -> Seq<char> {
        self.title@
    }

    pub closed spec fn command_spec(&self) -> Seq<char> {
        self.command@
    }

    pub fn new(title: String, command: String) -> (entry: MenuEntry)
        ensures
            entry.title_spec() == title@,
            entry.command_spec() == command@,
    {
        MenuEntry { title, command }
    }

    pub fn title(&self) -> (title: &String)
        ensures
            title@ == self.title_spec(),
    {
        &self.title
    }

    pub fn command(&self) -> (command: &String)
        ensures
            command@ == self.command_spec(),
    {
        &self.command
    }
}

/// One key binding as four strings: a description, the key-symbol names, the
/// modifier names and the command. Names are separated by single spaces.
#[derive(PartialEq, Eq, Clone, Debug)]
pub struct RawKeyBinding {
    pub description: String,
    pub key: String,
    pub mod_key: String,
    pub command: String,
}

impl RawKeyBinding {
    /// A raw binding out of its four strings, if all four are there.
    pub fn from_parts(
        description: Option<String>,
        key: Option<String>,
        mod_key: Option<String>,
        command: Option<String>,
    ) -> (binding: Option<RawKeyBinding>)
        ensures
            binding is Some <==> description is Some && key is Some && mod_key is Some
                && command is Some,
            binding matches Some(b) ==> b.description@ == description->0@ && b.key@ == key->0@
                && b.mod_key@ == mod_key->0@ && b.command@ == command->0@,
    {
        match (description, key, mod_key, command) {
            (Some(description), Some(key), Some(mod_key), Some(command)) => Some(
                RawKeyBinding { description, key, mod_key, command },
            ),
            _ => None,
        }
    }
}

impl RawKeyboardConfig {
    /// A keyboard selection out of its three strings, if all three are
    /// there.
    pub fn from_parts(
        layout: Option<String>,
        variant: Option<String>,
        model: Option<String>,
    ) -> (keyboard: Option<RawKeyboardConfig>)
        ensures
            keyboard is Some <==> layout is Some && variant is Some && model is Some,
            keyboard matches Some(k) ==> k.layout@ == layout->0@ && k.variant@ == variant->0@
                && k.model@ == model->0@,
    {
        match (layout, variant, model) {
            (Some(layout), Some(variant), Some(model)) => Some(
                RawKeyboardConfig { layout, variant, model },
            ),
            _ => None,
        }
    }
}

/// The whole configuration as strings.
#[derive(PartialEq, Eq, Clone, Debug)]
pub struct RawConfiguration {
    pub keyboard: RawKeyboardConfig,
    pub key_bindings: Vec<RawKeyBinding>,
    pub menu: Vec<MenuEntry>,
    pub bar: Bar,
}

/// Whether item `i` of `key_bindings` in a JSON text is a binding: its
/// `description`, `keys`, `modifiers` and `command` are strings.
pub open spec fn json_has_binding(data: Seq<char>, i: usize) -> bool {
    &&& json_item_string(data, "key_bindings"@, i, "description"@) is Some
    &&& json_item_string(data, "key_bindings"@, i, "keys"@) is Some
    &&& json_item_string(data, "key_bindings"@, i, "modifiers"@) is Some
    &&& json_item_string(data, "key_bindings"@, i, "command"@) is Some
}

/// Whether a JSON text is a configuration: `keyboard` has the strings
/// `layout`, `variant` and `model`, `key_bindings` is an array of bindings,
/// and `bar` has the string `command`.
pub open spec fn json_is_configuration(data: Seq<char>) -> bool {
    &&& json_member_string(data, "keyboard"@, "layout"@) is Some
    &&& json_member_string(data, "keyboard"@, "variant"@) is Some
    &&& json_member_string(data, "keyboard"@, "model"@) is Some
    &&& json_member_string(data, "bar"@, "command"@) is Some
    &&& json_array_len(data, "key_bindings"@) matches Some(len)
    &&& forall|i: usize| i < len ==> json_has_binding(data, i)
}

impl RawConfiguration {
    /// Reads a configuration out of a JSON text. A text that is no
    /// configuration is refused as a whole. The menu is not read and stays
    /// empty.
    pub fn from_json(data: &str) -> (raw: Option<RawConfiguration>)
        ensures
            raw is Some <==> json_is_configuration(data@),
            raw matches Some(r) ==> {
                &&& Some(r.keyboard.layout@) == json_member_string(
                    data@,
                    "keyboard"@,
                    "layout"@,
                )
                &&& Some(r.keyboard.variant@) == json_member_string(
                    data@,
                    "keyboard"@,
                    "variant"@,
                )
                &&& Some(r.keyboard.model@) == json_member_string(data@, "keyboard"@, "model"@)
                &&& Some(r.bar@) == json_member_string(data@, "bar"@, "command"@)
                &&& r.menu@.len() == 0
                &&& Some(r.key_bindings@.len() as usize) == json_array_len(
                    data@,
                    "key_bindings"@,
                )
                &&& forall|i: int|
                    0 <= i < r.key_bindings@.len() ==> {
                        &&& Some((#[trigger] r.key_bindings@[i]).description@) == json_item_string(
                            data@,
                            "key_bindings"@,
                            i as usize,
                            "description"@,
                        )
                        &&& Some(r.key_bindings@[i].key@) == json_item_string(
                            data@,
                            "key_bindings"@,
                            i as usize,
                            "keys"@,
                        )
                        &&& Some(r.key_bindings@[i].mod_key@) == json_item_string(
                            data@,
                            "key_bindings"@,
                            i as usize,
                            "modifiers"@,
                        )
                        &&& Some(r.key_bindings@[i].command@) == json_item_string(
                            data@,
                            "key_bindings"@,
                            i as usize,
                            "command"@,
                        )
                    }
            },
    {
        let keyboard = match RawKeyboardConfig::from_parts(
            member_string(data, "keyboard", "layout"),
            member_string(data, "keyboard", "variant"),
            member_string(data, "keyboard", "model"),
        ) {
            Some(keyboard) => keyboard,
            None => {
                return None;
            },
        };
        let bar = match member_string(data, "bar", "command") {
            Some(command) => Bar::with_command(command),
            None => {
                return None;
            },
        };
        let len: usize = match array_len(data, "key_bindings") {
            Some(len) => len,
            None => {
                return None;
            },
        };
        let mut key_bindings: Vec<RawKeyBinding> = Vec::new();
        let mut i: usize = 0;
        while i < len
            invariant
                i <= len,
                json_array_len(data@, "key_bindings"@) == Some(len),
                key_bindings@.len() == i,
                forall|j: usize| j < i ==> json_has_binding(data@, j),
                forall|j: int|
                    0 <= j < i ==> {
                        &&& Some((#[trigger] key_bindings@[j]).description@) == json_item_string(
                            data@,
                            "key_bindings"@,
                            j as usize,
                            "description"@,
                        )
                        &&& Some(key_bindings@[j].key@) == json_item_string(
                            data@,
                            "key_bindings"@,
                            j as usize,
                            "keys"@,
                        )
                        &&& Some(key_bindings@[j].mod_key@) == json_item_string(
                            data@,
                            "key_bindings"@,
                            j as usize,
                            "modifiers"@,
                        )
                        &&& Some(key_bindings@[j].command@) == json_item_string(
                            data@,
                            "key_bindings"@,
                            j as usize,
                            "command"@,
                        )
                    },
            decreases len - i,
        {
            let binding = RawKeyBinding::from_parts(
                item_string(data, "key_bindings", i, "description"),
                item_string(data, "key_bindings", i, "keys"),
                item_string(data, "key_bindings", i, "modifiers"),
                item_string(data, "key_bindings", i, "command"),
            );
            match binding {
                Some(binding) => {
                    key_bindings.push(binding);
                },
                None => {
                    assert(!json_has_binding(data@, i));
                    return None;
                },
            }
            i += 1;
        }
        Some(RawConfiguration { keyboard, key_bindings, menu: Vec::new(), bar })
    }
}

/// The configuration that the compositor runs with. It is made once, at the
/// start, and never changed.
#[derive(Clone, Debug)]
pub struct Configuration {
    pub keyboard: KeyboardConfig,
    pub key_bindings: KeyBindings,
    pub menu: Vec<MenuEntry>,
    pub bar: Bar,
}

/// A configuration as plain values.
pub struct ConfigurationView {
    /// The keyboard-layout selection.
    pub layout: Seq<char>,
    pub variant: Seq<char>,
    pub model: Seq<char>,
    /// The key bindings, in their order.
    pub bindings: Seq<BindingView>,
    /// The menu: for each entry its title and its command.
    pub menu: Seq<(Seq<char>, Seq<char>)>,
    /// The command that launches the bar.
    pub bar: Seq<char>,
}

impl View for Configuration {
    type V = ConfigurationView;

    open spec fn view(&self) -> ConfigurationView {
        ConfigurationView {
            layout: self.keyboard.layout@,
            variant: self.keyboard.variant@,
            model: self.keyboard.model@,
            bindings: self.key_bindings@,
            menu: Seq::new(
                self.menu@.len(),
                |i: int| (self.menu@[i].title_spec(), self.menu@[i].command_spec()),
            ),
            bar: self.bar@,
        }
    }
}

impl Configuration {
    /// The configuration with nothing set: no bindings, no menu, no bar.
    pub fn new() -> (configuration: Configuration)
        ensures
            configuration.key_bindings@ == Seq::<BindingView>::empty(),
            configuration.menu@ == Seq::<MenuEntry>::empty(),
            configuration.bar@ == Seq::<char>::empty(),
            configuration.keyboard.layout@ == Seq::<char>::empty(),
            configuration.keyboard.variant@ == Seq::<char>::empty(),
            configuration.keyboard.model@ == Seq::<char>::empty(),
    {
        Configuration {
            keyboard: KeyboardConfig::new(),
            key_bindings: KeyBindings::new(),
            menu: Vec::new(),
            bar: Bar::new(),
        }
    }

    /// Reads the configuration off its raw form: the keyboard selection,
    /// the key bindings in their order, and the bar. `symbols[i]` holds what
    /// the key names of binding `i` resolved to. Nothing is refused: a name
    /// that names no key or no modifier is passed over. The menu starts
    /// empty.
    pub fn parse(raw: &RawConfiguration, symbols: &Vec<Vec<Keysym>>) -> (configuration:
        Configuration)
        ensures
            configuration.keyboard.layout@ == raw.keyboard.layout@,
            configuration.keyboard.variant@ == raw.keyboard.variant@,
            configuration.keyboard.model@ == raw.keyboard.model@,
            configuration.bar@ == raw.bar@,
            configuration.menu@ == Seq::<MenuEntry>::empty(),
            configuration.key_bindings@.len() == raw.key_bindings@.len(),
            forall|i: int|
                0 <= i < raw.key_bindings@.len() ==> #[trigger] configuration.key_bindings@[i]
                    == raw_binding(
                    raw.key_bindings@[i],
                    if i < symbols@.len() {
                        symbols@[i]@
                    } else {
                        Seq::<Keysym>::empty()
                    },
                ),
    {
        Configuration {
            keyboard: KeyboardConfig::from_raw(&raw.keyboard),
            key_bindings: KeyBindings::from_raw(&raw.key_bindings, symbols),
            menu: Vec::new(),
            bar: Bar::with_command(raw.bar.command.clone()),
        }
    }
}

} // verus!
