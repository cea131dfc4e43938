use vstd::prelude::*;

verus! {

/// A modifier key held down as part of a keybinding.
#[derive(Clone, Copy, Debug, PartialEq, Eq, Structural)]
pub enum ModifierKey {
    Control,
    Alt,
    Command,
    Shift,
}

/// The order in which a palette lists its items.
#[derive(Clone, Copy, Debug, PartialEq, Eq, Structural)]
pub enum OrderMethod {
    Ascending,
    Descending,
    MostRecent,
}

impl Default for OrderMethod {
    fn default() -> (r: Self)
        ensures
            r == OrderMethod::Ascending,
    {
        OrderMethod::Ascending
    }
}

/// One entry of a palette: a label and, optionally, the key with modifiers
/// that triggers it.
#[derive(Clone, Debug)]
pub struct PaletteItem {
    pub label: &'static str,
    pub keybinding: Option<(String, Vec<ModifierKey>)>,
}

impl PaletteItem {
    /// An item with `label` and no keybinding.
    pub fn new(label: &'static str) -> (r: Self)
        ensures
            r.label == label,
            r.keybinding is None,
    {
        PaletteItem { label, keybinding: None }
    }

    /// The item with its label replaced.
    pub fn label(self, label: &'static str) -> (r: Self)
        ensures
            r.label == label,
            r.keybinding == self.keybinding,
    {
        PaletteItem { label, keybinding: self.keybinding }
    }

    /// The item with its keybinding replaced.
    pub fn keybinding(self, keybinding: Option<(String, Vec<ModifierKey>)>) -> (r: Self)
        ensures
            r.label == self.label,
            r.keybinding == keybinding,
    {
        PaletteItem { label: self.label, keybinding }
    }
}

/// The text shown in the input line of a new palette.
pub const DEFAULT_PLACEHOLDER: &'static str = "Find something...";

/// The text shown by a new palette that has no items.
pub const DEFAULT_EMPTY_STRING: &'static str = "No items found.";

/// A searchable list of commands.
#[derive(Clone, Debug)]
pub struct Palette {
    pub input_placeholder: &'static str,
    pub empty_string: &'static str,
    pub items: Vec<PaletteItem>,
    pub default_order: OrderMethod,
}

impl Palette {
    /// An empty palette with the default texts and order.
    pub fn new() -> (r: Self)
        ensures
            r.input_placeholder == DEFAULT_PLACEHOLDER,
            r.empty_string == DEFAULT_EMPTY_STRING,
            r.items@.len() == 0,
            r.default_order == OrderMethod::Ascending,
    {
        Palette {
            input_placeholder: DEFAULT_PLACEHOLDER,
            empty_string: DEFAULT_EMPTY_STRING,
            items: Vec::new(),
            default_order: OrderMethod::Ascending,
        }
    }

    /// The palette with its items replaced.
    pub fn items(self, items: Vec<PaletteItem>) -> (r: Self)
        ensures
            r.items == items,
            r.input_placeholder == self.input_placeholder,
            r.empty_string == self.empty_string,
            r.default_order == self.default_order,
    {
        Palette { items, ..self }
    }

    /// The palette with its input placeholder replaced.
    pub fn placeholder(self, input_placeholder: &'static str) -> (r: Self)
        ensures
            r.input_placeholder == input_placeholder,
            r.items == self.items,
            r.empty_string == self.empty_string,
            r.default_order == self.default_order,
    {
        Palette { input_placeholder, ..self }
    }

    /// The palette with the text it shows when it has no items replaced.
    pub fn empty_string(self, empty_string: &'static str) -> (r: Self)
        ensures
            r.empty_string == empty_string,
            r.items == self.items,
            r.input_placeholder == self.input_placeholder,
            r.default_order == self.default_order,
    {
        Palette { empty_string, ..self }
    }

    /// The palette with its default order replaced.
    pub fn default_order(self, default_order: OrderMethod) -> (r: Self)
        ensures
            r.default_order == default_order,
            r.items == self.items,
            r.input_placeholder == self.input_placeholder,
            r.empty_string == self.empty_string,
    {
        Palette { default_order, ..self }
    }

    /// The message row the palette shows: its empty string exactly when it
    /// has no items.
    pub fn empty_message(&self) -> (r: Option<&'static str>)
        ensures
            self.items@.len() == 0 ==> r == Some(self.empty_string),
            self.items@.len() > 0 ==> r is None,
    {
        if self.items.len() == 0 {
            Some(self.empty_string)
        } else {
            None
        }
    }
}

/// The labels of the commands listed by the example palette with items.
pub open spec fn story_labels() -> Seq<&'static str> {
    seq![
        "theme selector: toggle",
        "assistant: inline assist",
        "assistant: quote selection",
        "assistant: toggle focus",
        "auto update: check",
        "auto update: view release notes",
        "branches: open recent",
        "chat panel: toggle focus",
        "cli: install",
        "client: sign in",
        "client: sign out",
    ]
}

/// A gallery of example palettes.
#[derive(Clone, Copy, Debug, Default)]
pub struct PaletteStory {}

impl PaletteStory {
    /// The example palettes, each with its caption: a new palette, then one
    /// with a custom placeholder and a list of commands.
    pub fn examples(&self) -> (r: Vec<(&'static str, Palette)>)
        ensures
            r@.len() == 2,
            r@[0].0 == "Default",
            r@[0].1.items@.len() == 0,
            r@[0].1.input_placeholder == DEFAULT_PLACEHOLDER,
            r@[0].1.empty_string == DEFAULT_EMPTY_STRING,
            r@[1].0 == "With Items",
            r@[1].1.input_placeholder == "Execute a command...",
            r@[1].1.empty_string == DEFAULT_EMPTY_STRING,
            r@[1].1.items@.map_values(|i: PaletteItem| i.label) == story_labels(),
    {
        let items = vec![
            PaletteItem::new("theme selector: toggle"),
            PaletteItem::new("assistant: inline assist").keybinding(
                Some(("enter".to_owned(), vec![ModifierKey::Command])),
            ),
            PaletteItem::new("assistant: quote selection").keybinding(
                Some((">".to_owned(), vec![ModifierKey::Command])),
            ),
            PaletteItem::new("assistant: toggle focus").keybinding(
                Some(("?".to_owned(), vec![ModifierKey::Command])),
            ),
            PaletteItem::new("auto update: check"),
            PaletteItem::new("auto update: view release notes"),
            PaletteItem::new("branches: open recent").keybinding(
                Some(("b".to_owned(), vec![ModifierKey::Command, ModifierKey::Alt])),
            ),
            PaletteItem::new("chat panel: toggle focus"),
            PaletteItem::new("cli: install"),
            PaletteItem::new("client: sign in"),
            PaletteItem::new("client: sign out"),
        ];
        assert(items@.map_values(|i: PaletteItem| i.label) =~= story_labels());
        let with_items = Palette::new().placeholder("Execute a command...").items(items);
        vec![("Default", Palette::new()), ("With Items", with_items)]
    }
}

} // verus!
