//! Key bindings: which command a key symbol runs under which modifiers.

use vstd::prelude::*;
use vstd::string::*;

use crate::config::RawKeyBinding;
use crate::keysym::{Keysym, KEY_NO_SYMBOL};
use crate::text::{fields, split_names, texts};

verus! {

/// The modifier keys that are active when a key event arrives.
#[derive(Clone, Copy, Debug, PartialEq, Eq, Structural, Hash)]
pub struct ModifiersState {
    pub ctrl: bool,
    pub alt: bool,
    pub shift: bool,
    pub caps_lock: bool,
    pub logo: bool,
    pub num_lock: bool,
}

impl ModifiersState {
    /// No modifier active.
    pub open spec fn empty() -> ModifiersState {
        ModifiersState {
            ctrl: false,
            alt: false,
            shift: false,
            caps_lock: false,
            logo: false,
            num_lock: false,
        }
    }

    /// The modifiers that a list of names switches on. A name that is none
    /// of the six switches nothing on.
    pub open spec fn named(names: Seq<Seq<char>>) -> ModifiersState {
        ModifiersState {
            ctrl: names.contains("Crtl"@),
            alt: names.contains("Alt"@),
            shift: names.contains("Shift"@),
            caps_lock: names.contains("CapsLock"@),
            logo: names.contains("Logo"@),
            num_lock: names.contains("NumLock"@),
        }
    }
}

impl Default for ModifiersState {
    fn default() -> (modifiers: ModifiersState)
        ensures
            modifiers == ModifiersState::empty(),
    {
        ModifiersState {
            ctrl: false,
            alt: false,
            shift: false,
            caps_lock: false,
            logo: false,
            num_lock: false,
        }
    }
}

/// Whether a name is one of the six that switch a modifier on.
pub open spec fn is_modifier_name(name: Seq<char>) -> bool {
    name == "Crtl"@ || name == "Alt"@ || name == "Shift"@ || name == "CapsLock"@ || name
        == "Logo"@ || name == "NumLock"@
}

/// What a key event leads to.
#[derive(Debug, PartialEq)]
pub enum KeyAction {
    /// Quit the compositor.
    Quit,
    /// Switch to the virtual terminal of this number.
    VtSwitch(i32),
    /// Run a command.
    Run(String),
    /// Move the cursor to the screen of this index.
    Screen(usize),
    /// Hand the key to the focused client.
    Forward,
    /// Do nothing more.
    Nothing,
}

/// A `KeyAction` with its command as a sequence of characters.
pub enum ActionView {
    Quit,
    VtSwitch(i32),
    Run(Seq<char>),
    Screen(usize),
    Forward,
    Nothing,
}

impl View for KeyAction {
    type V = ActionView;

    open spec fn view(&self) -> ActionView {
        match self {
            KeyAction::Quit => ActionView::Quit,
            KeyAction::VtSwitch(vt) => ActionView::VtSwitch(*vt),
            KeyAction::Run(command) => ActionView::Run(command@),
            KeyAction::Screen(index) => ActionView::Screen(*index),
            KeyAction::Forward => ActionView::Forward,
            KeyAction::Nothing => ActionView::Nothing,
        }
    }
}

/// One binding: any of `keys`, pressed under exactly `modifiers`, runs
/// `command`.
#[derive(PartialEq, Eq, Clone, Debug)]
pub struct KeyBinding {
    description: String,
    keys: Vec<Keysym>,
    modifiers: ModifiersState,
    command: String,
}

/// A binding as plain values.
pub struct BindingView {
    pub description: Seq<char>,
    pub keys: Seq<Keysym>,
    pub modifiers: ModifiersState,
    pub command: Seq<char>,
}

impl BindingView {
    /// Whether the binding answers to `keysym` under `modifiers`: the
    /// modifier sets are equal, and `keysym` is one of its keys.
    pub open spec fn matches(self, modifiers: ModifiersState, keysym: Keysym) -> bool {
        self.modifiers == modifiers && self.keys.contains(keysym)
    }
}

impl View for KeyBinding {
    type V = BindingView;

    closed spec fn view(&self) -> BindingView {
        BindingView {
            description: self.description@,
            keys: self.keys@,
            modifiers: self.modifiers,
            command: self.command@,
        }
    }
}

/// The binding that a raw binding describes, given what the names of its
/// keys resolved to.
pub open spec fn raw_binding(raw: RawKeyBinding, symbols: Seq<Keysym>) -> BindingView {
    BindingView {
        description: raw.description@,
        keys: valid_keysyms(symbols),
        modifiers: ModifiersState::named(fields(raw.mod_key@)),
        command: raw.command@,
    }
}

/// The key symbols that name a key: all but `KEY_NO_SYMBOL`, in order.
pub open spec fn valid_keysyms(symbols: Seq<Keysym>) -> Seq<Keysym> {
    symbols.filter(|symbol: Keysym| symbol != KEY_NO_SYMBOL)
}

impl KeyBinding {
    pub fn new(
        description: String,
        keys: Vec<Keysym>,
        modifiers: ModifiersState,
        command: String,
    ) -> (binding: KeyBinding)
        ensures
            binding@ == (BindingView {
                description: description@,
                keys: keys@,
                modifiers,
                command: command@,
            }),
    {
        KeyBinding { description, keys, modifiers, command }
    }

    /// The names in the key field of a raw binding, to be resolved to key
    /// symbols one by one.
    pub fn key_names(raw: &RawKeyBinding) -> (names: Vec<String>)
        ensures
            texts(names@) == fields(raw.key@),
    {
        split_names(raw.key.as_str())
    }

    /// Drops the symbols of names that resolved to no key.
    pub fn parse_keysyms(symbols: &Vec<Keysym>) -> (keys: Vec<Keysym>)
        ensures
            keys@ == valid_keysyms(symbols@),
    {
        let mut keys: Vec<Keysym> = Vec::new();
        let mut i: usize = 0;
        assert(symbols@.subrange(0, 0) =~= Seq::<Keysym>::empty());
        proof {
            reveal(Seq::filter);
        }
        while i < symbols.len()
            invariant
                i <= symbols.len(),
                keys@ == valid_keysyms(symbols@.subrange(0, i as int)),
            decreases symbols.len() - i,
        {
            proof {
                let seen = symbols@.subrange(0, i as int);
                assert(symbols@.subrange(0, i + 1) =~= seen.push(symbols@[i as int]));
                seen.lemma_filter_push(
                    symbols@[i as int],
                    |symbol: Keysym| symbol != KEY_NO_SYMBOL,
                );
            }
            if symbols[i] != KEY_NO_SYMBOL {
                keys.push(symbols[i]);
            }
            i += 1;
        }
        assert(symbols@.subrange(0, symbols.len() as int) =~= symbols@);
        keys
    }

    /// Reads a list of modifier names. The names are `Crtl`, `Alt`, `Shift`,
    /// `CapsLock`, `Logo` and `NumLock`; any other name is passed over.
    pub fn parse_modkeys(data: &str) -> (modifiers: ModifiersState)
        ensures
            modifiers == ModifiersState::named(fields(data@)),
    {
        let names = split_names(data);
        let ctrl = String::from_str("Crtl");
        let alt = String::from_str("Alt");
        let shift = String::from_str("Shift");
        let caps_lock = String::from_str("CapsLock");
        let logo = String::from_str("Logo");
        let num_lock = String::from_str("NumLock");
        let mut modifiers = ModifiersState::default();
        let mut i: usize = 0;
        let ghost all = texts(names@);
        assert(all.subrange(0, 0) =~= Seq::<Seq<char>>::empty());
        while i < names.len()
            invariant
                i <= names.len(),
                all == texts(names@),
                ctrl@ == "Crtl"@,
                alt@ == "Alt"@,
                shift@ == "Shift"@,
                caps_lock@ == "CapsLock"@,
                logo@ == "Logo"@,
                num_lock@ == "NumLock"@,
                modifiers == ModifiersState::named(all.subrange(0, i as int)),
            decreases names.len() - i,
        {
            proof {
                let seen = all.subrange(0, i as int);
                let next = all.subrange(0, i + 1);
                assert(next =~= seen.push(all[i as int]));
                assert(forall|name: Seq<char>|
                    next.contains(name) <==> seen.contains(name) || name == all[i as int]) by {
                    assert forall|name: Seq<char>|
                        next.contains(name) <==> seen.contains(name) || name
                            == all[i as int] by {
                        if seen.contains(name) {
                            let j = choose|j: int| 0 <= j < seen.len() && seen[j] == name;
                            assert(next[j] == name);
                        }
                        if name == all[i as int] {
                            assert(next[i as int] == name);
                        }
                    }
                }
            }
            let name = &names[i];
            if *name == ctrl {
                modifiers.ctrl = true;
            }
            if *name == alt {
                modifiers.alt = true;
            }
            if *name == shift {
                modifiers.shift = true;
            }
            if *name == caps_lock {
                modifiers.caps_lock = true;
            }
            if *name == logo {
                modifiers.logo = true;
            }
            if *name == num_lock {
                modifiers.num_lock = true;
            }
            i += 1;
        }
        assert(all.subrange(0, names.len() as int) =~= all);
        modifiers
    }

    /// The names of a list of modifier names that `parse_modkeys` passes
    /// over, in their order, for whoever wants to tell the user.
    pub fn unknown_modkeys(data: &str) -> (unknown: Vec<String>)
        ensures
            texts(unknown@) == fields(data@).filter(|name: Seq<char>| !is_modifier_name(name)),
    {
        let names = split_names(data);
        let ctrl = String::from_str("Crtl");
        let alt = String::from_str("Alt");
        let shift = String::from_str("Shift");
        let caps_lock = String::from_str("CapsLock");
        let logo = String::from_str("Logo");
        let num_lock = String::from_str("NumLock");
        let mut unknown: Vec<String> = Vec::new();
        let ghost all = texts(names@);
        let ghost passed_over = |name: Seq<char>| !is_modifier_name(name);
        let mut i: usize = 0;
        let n: usize = names.len();
        proof {
            reveal(Seq::filter);
            assert(all.subrange(0, 0) =~= Seq::<Seq<char>>::empty());
            assert(texts(unknown@) =~= Seq::<Seq<char>>::empty());
        }
        while i < n
            invariant
                i <= n,
                n == names.len(),
                all == texts(names@),
                ctrl@ == "Crtl"@,
                alt@ == "Alt"@,
                shift@ == "Shift"@,
                caps_lock@ == "CapsLock"@,
                logo@ == "Logo"@,
                num_lock@ == "NumLock"@,
                passed_over == |name: Seq<char>| !is_modifier_name(name),
                texts(unknown@) == all.subrange(0, i as int).filter(passed_over),
            decreases n - i,
        {
            proof {
                let seen = all.subrange(0, i as int);
                assert(all.subrange(0, i + 1) =~= seen.push(all[i as int]));
                seen.lemma_filter_push(all[i as int], passed_over);
            }
            let known = names[i] == ctrl || names[i] == alt || names[i] == shift || names[i]
                == caps_lock || names[i] == logo || names[i] == num_lock;
            if !known {
                let ghost before = texts(unknown@);
                unknown.push(names[i].clone());
                assert(texts(unknown@) =~= before.push(all[i as int]));
            }
            i += 1;
        }
        assert(all.subrange(0, n as int) =~= all);
        unknown
    }

    /// Builds the binding that a raw binding describes. `symbols` holds what
    /// the names of `KeyBinding::key_names` resolved to, `KEY_NO_SYMBOL` for
    /// a name that names no key. Unknown names, of keys and of modifiers,
    /// are passed over; the binding holds the rest.
    pub fn from_raw(raw: &RawKeyBinding, symbols: &Vec<Keysym>) -> (binding: KeyBinding)
        ensures
            binding@ == raw_binding(*raw, symbols@),
    {
        KeyBinding {
            description: raw.description.clone(),
            keys: KeyBinding::parse_keysyms(symbols),
            modifiers: KeyBinding::parse_modkeys(raw.mod_key.as_str()),
            command: raw.command.clone(),
        }
    }

    /// Whether the binding answers to `keysym` under `modifiers`.
    pub fn matches(&self, modifiers: ModifiersState, keysym: Keysym) -> (hit: bool)
        ensures
            hit == self@.matches(modifiers, keysym),
    {
        if self.modifiers != modifiers {
            return false;
        }
        let mut i: usize = 0;
        while i < self.keys.len()
            invariant
                i <= self.keys.len(),
                self.modifiers == modifiers,
                forall|j: int| 0 <= j < i ==> self.keys@[j] != keysym,
            decreases self.keys.len() - i,
        {
            if self.keys[i] == keysym {
                assert(self@.keys[i as int] == keysym);
                return true;
            }
            i += 1;
        }
        false
    }

    pub fn description(&self) -> (description: &String)
        ensures
            description@ == self@.description,
    {
        &self.description
    }

    pub fn keys(&self) -> (keys: &Vec<Keysym>)
        ensures
            keys@ == self@.keys,
    {
        &self.keys
    }

    pub fn modifiers(&self) -> (modifiers: ModifiersState)
        ensures
            modifiers == self@.modifiers,
    {
        self.modifiers
    }

    pub fn command(&self) -> (command: &String)
        ensures
            command@ == self@.command,
    {
        &self.command
    }
}

/// The bindings of the configuration, in the order in which they were given.
#[derive(PartialEq, Eq, Clone, Debug)]
pub struct KeyBindings {
    bindings: Vec<KeyBinding>,
}

impl View for KeyBindings {
    type V = Seq<BindingView>;

    closed spec fn view(&self) -> Seq<BindingView> {
        Seq::new(self.bindings@.len(), |i: int| self.bindings@[i]@)
    }
}

/// Whether binding `i` is the first of the list that answers to `keysym`
/// under `modifiers`.
pub open spec fn is_first_match(
    bindings: Seq<BindingView>,
    modifiers: ModifiersState,
    keysym: Keysym,
    i: int,
) -> bool {
    &&& 0 <= i < bindings.len()
    &&& bindings[i].matches(modifiers, keysym)
    &&& forall|j: int| 0 <= j < i ==> !(#[trigger] bindings[j]).matches(modifiers, keysym)
}

/// What the user's bindings make of a key: the command of the first binding
/// that answers, or `Forward` where none does.
pub open spec fn bound_action(
    bindings: Seq<BindingView>,
    modifiers: ModifiersState,
    keysym: Keysym,
) -> ActionView {
    if exists|i: int| is_first_match(bindings, modifiers, keysym, i) {
        ActionView::Run(
            bindings[choose|i: int| is_first_match(bindings, modifiers, keysym, i)].command,
        )
    } else {
        ActionView::Forward
    }
}

/// At most one binding is the first to answer.
pub proof fn lemma_first_match_unique(
    bindings: Seq<BindingView>,
    modifiers: ModifiersState,
    keysym: Keysym,
    i: int,
    j: int,
)
    requires
        is_first_match(bindings, modifiers, keysym, i),
        is_first_match(bindings, modifiers, keysym, j),
    ensures
        i == j,
{
    if i < j {
        assert(!bindings[i].matches(modifiers, keysym));
    }
    if j < i {
        assert(!bindings[j].matches(modifiers, keysym));
    }
}

impl KeyBindings {
    /// No bindings.
    pub fn new() -> (bindings: KeyBindings)
        ensures
            bindings@ == Seq::<BindingView>::empty(),
    {
        let bindings = KeyBindings { bindings: Vec::new() };
        assert(bindings@ =~= Seq::<BindingView>::empty());
        bindings
    }

    /// Builds the bindings that raw bindings describe, in their order.
    /// `symbols[i]` holds what the key names of `values[i]` resolved to; a
    /// binding for which it is missing has no keys.
    pub fn from_raw(values: &Vec<RawKeyBinding>, symbols: &Vec<Vec<Keysym>>) -> (bindings:
        KeyBindings)
        ensures
            bindings@.len() == values@.len(),
            forall|i: int|
                0 <= i < values@.len() ==> #[trigger] bindings@[i] == raw_binding(
                    values@[i],
                    if i < symbols@.len() {
                        symbols@[i]@
                    } else {
                        Seq::<Keysym>::empty()
                    },
                ),
    {
        let mut bindings = KeyBindings::new();
        let none: Vec<Keysym> = Vec::new();
        let mut i: usize = 0;
        while i < values.len()
            invariant
                i <= values@.len(),
                none@ == Seq::<Keysym>::empty(),
                bindings@.len() == i,
                forall|j: int|
                    0 <= j < i ==> #[trigger] bindings@[j] == raw_binding(
                        values@[j],
                        if j < symbols@.len() {
                            symbols@[j]@
                        } else {
                            Seq::<Keysym>::empty()
                        },
                    ),
            decreases values.len() - i,
        {
            let binding = if i < symbols.len() {
                KeyBinding::from_raw(&values[i], &symbols[i])
            } else {
                KeyBinding::from_raw(&values[i], &none)
            };
            bindings.add_keybinding(binding);
            i += 1;
        }
        bindings
    }

    /// Appends a binding: it answers only where no earlier one does.
    pub fn add_keybinding(&mut self, key_binding: KeyBinding)
        ensures
            final(self)@ == old(self)@.push(key_binding@),
    {
        self.bindings.push(key_binding);
        assert(self@ =~= old(self)@.push(key_binding@));
    }

    pub fn len(&self) -> (len: usize)
        ensures
            len == self@.len(),
    {
        self.bindings.len()
    }

    /// Resolves a key against the bindings, in list order. The first binding
    /// with exactly these modifiers and this key symbol among its keys gives
    /// `Run` with its command; where none answers the key is `Forward`ed.
    pub fn process_keyboard_shortcut(&self, modifiers: ModifiersState, keysym: Keysym) -> (action:
        KeyAction)
        ensures
            action@ == bound_action(self@, modifiers, keysym),
    {
        let mut i: usize = 0;
        while i < self.bindings.len()
            invariant
                i <= self.bindings.len(),
                forall|j: int| 0 <= j < i ==> !(#[trigger] self@[j]).matches(modifiers, keysym),
            decreases self.bindings.len() - i,
        {
            if self.bindings[i].matches(modifiers, keysym) {
                proof {
                    assert(self@[i as int] == self.bindings@[i as int]@);
                    assert(is_first_match(self@, modifiers, keysym, i as int));
                    let k = choose|k: int| is_first_match(self@, modifiers, keysym, k);
                    lemma_first_match_unique(self@, modifiers, keysym, i as int, k);
                }
                return KeyAction::Run(self.bindings[i].command.clone());
            }
            i += 1;
        }
        assert forall|k: int| !is_first_match(self@, modifiers, keysym, k) by {
            if 0 <= k < self@.len() {
                assert(!self@[k].matches(modifiers, keysym));
            }
        }
        KeyAction::Forward
    }
}

} // verus!
