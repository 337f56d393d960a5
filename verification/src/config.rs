//! User configuration: key bindings, colors, layout, and the context-menu
//! actions.
//!
//! Binding and color tables are association lists looked up by key; the
//! first entry wins.  Reading and writing the configuration file is the
//! caller's job — this module owns the defaults and every lookup rule,
//! including parsing `#rrggbb` color values.

use vstd::prelude::*;

verus! {

/// One entry of the user-defined context menu.
#[derive(Debug, Clone)]
pub struct ContextMenuAction {
    /// The text shown in the menu.
    pub label: String,
    /// The command template run when the entry is chosen; placeholders
    /// such as the container name are substituted first.
    pub command: String,
    /// The entry is offered when any of these match the target (all
    /// targets, when there are none).
    pub matchers: Vec<ContextMenuMatcher>,
    /// An extra condition ("running" or "stopped") on the target
    /// container's status.
    pub enabled_when: Option<String>,
}

/// When a context-menu entry applies.
#[derive(Debug, Clone)]
pub enum ContextMenuMatcher {
    /// The container name matches this regular expression.
    NamePattern { pattern: String },
    /// The container image matches this regular expression.
    ImagePattern { pattern: String },
    /// The container carries this runtime label (with this value, when one
    /// is given; with any non-empty value otherwise).
    LabelPattern { label: String, value: Option<String> },
    /// The target is a compose project.
    ComposeProject,
}

/// The abstract form of a context-menu matcher.
pub ghost enum MatcherView {
    NamePattern { pattern: Seq<char> },
    ImagePattern { pattern: Seq<char> },
    LabelPattern { label: Seq<char>, value: Option<Seq<char>> },
    ComposeProject,
}

impl View for ContextMenuMatcher {
    type V = MatcherView;

    open spec fn view(&self) -> MatcherView {
        match self {
            ContextMenuMatcher::NamePattern { pattern } => MatcherView::NamePattern {
                pattern: pattern@,
            },
            ContextMenuMatcher::ImagePattern { pattern } => MatcherView::ImagePattern {
                pattern: pattern@,
            },
            ContextMenuMatcher::LabelPattern { label, value } => MatcherView::LabelPattern {
                label: label@,
                value: match value {
                    Some(v) => Some(v@),
                    None => None,
                },
            },
            ContextMenuMatcher::ComposeProject => MatcherView::ComposeProject,
        }
    }
}

/// The abstract form of a context-menu action.
pub ghost struct ActionView {
    pub label: Seq<char>,
    pub command: Seq<char>,
    pub matchers: Seq<MatcherView>,
    pub enabled_when: Option<Seq<char>>,
}

impl View for ContextMenuAction {
    type V = ActionView;

    open spec fn view(&self) -> ActionView {
        ActionView {
            label: self.label@,
            command: self.command@,
            matchers: self.matchers@.map_values(|m: ContextMenuMatcher| m@),
            enabled_when: match self.enabled_when {
                Some(c) => Some(c@),
                None => None,
            },
        }
    }
}

impl ContextMenuMatcher {
    /// A copy with the same abstract value.
    pub fn duplicate(&self) -> (r: Self)
        ensures
            r@ == self@,
    {
        match self {
            ContextMenuMatcher::NamePattern { pattern } => ContextMenuMatcher::NamePattern {
                pattern: pattern.clone(),
            },
            ContextMenuMatcher::ImagePattern { pattern } => ContextMenuMatcher::ImagePattern {
                pattern: pattern.clone(),
            },
            ContextMenuMatcher::LabelPattern { label, value } => ContextMenuMatcher::LabelPattern {
                label: label.clone(),
                value: match value {
                    Some(v) => Some(v.clone()),
                    None => None,
                },
            },
            ContextMenuMatcher::ComposeProject => ContextMenuMatcher::ComposeProject,
        }
    }
}

impl ContextMenuAction {
    /// A copy with the same abstract value.
    pub fn duplicate(&self) -> (r: Self)
        ensures
            r@ == self@,
    {
        let n = self.matchers.len();
        let mut matchers: Vec<ContextMenuMatcher> = Vec::new();
        let mut i: usize = 0;
        while i < n
            invariant
                i <= n,
                n == self.matchers@.len(),
                matchers@.len() == i,
                forall|j: int| 0 <= j < i ==> (#[trigger] matchers@[j])@ == self.matchers@[j]@,
            decreases n - i,
        {
            matchers.push(self.matchers[i].duplicate());
            i += 1;
        }
        let r = Self {
            label: self.label.clone(),
            command: self.command.clone(),
            matchers,
            enabled_when: match &self.enabled_when {
                Some(c) => Some(c.clone()),
                None => None,
            },
        };
        proof {
            assert(r@.matchers =~= self@.matchers);
        }
        r
    }
}

/// The user-defined context menu.
#[derive(Debug, Clone)]
pub struct ContextMenuConfig {
    pub actions: Vec<ContextMenuAction>,
}

#[derive(Debug, Clone)]
pub struct GeneralConfig {
    pub tabular_mode: bool,
    /// Seconds between automatic refreshes; zero disables them.
    pub auto_refresh_interval: u64,
    pub max_history_items: usize,
    pub experimental_fx: bool,
}

/// Key bindings per mode, looked up by the key's textual name.
#[derive(Debug, Clone)]
pub struct KeyBindings {
    pub normal_mode: Vec<(String, String)>,
    pub visual_mode: Vec<(String, String)>,
    pub command_mode: Vec<(String, String)>,
}

#[derive(Debug, Clone)]
pub struct ColorConfig {
    pub theme: String,
    pub custom_colors: Vec<(String, String)>,
}

#[derive(Debug, Clone)]
pub struct LayoutConfig {
    pub show_headers: bool,
    pub column_widths: Vec<(String, u16)>,
    pub show_borders: bool,
}

#[derive(Debug, Clone)]
pub struct Config {
    pub general: GeneralConfig,
    pub keybindings: KeyBindings,
    pub colors: ColorConfig,
    pub layout: LayoutConfig,
    pub context_menu: ContextMenuConfig,
}

/// A color as the red, green and blue bytes of a `#rrggbb` value.
#[derive(Debug, Clone, Copy, PartialEq, Eq, Structural)]
pub struct Rgb {
    pub r: u8,
    pub g: u8,
    pub b: u8,
}

/// The value under `key` in an association list: the first entry with a
/// matching key wins.
pub open spec fn assoc_lookup(pairs: Seq<(String, String)>, key: Seq<char>) -> Option<Seq<char>>
    decreases pairs.len(),
{
    if pairs.len() == 0 {
        None
    } else if pairs[0].0@ == key {
        Some(pairs[0].1@)
    } else {
        assoc_lookup(pairs.drop_first(), key)
    }
}

/// Look up `key`, handing back a reference to the first matching value.
fn assoc_get<'a>(pairs: &'a Vec<(String, String)>, key: &str) -> (r: Option<&'a String>)
    ensures
        match r {
            Some(v) => assoc_lookup(pairs@, key@) == Some(v@),
            None => assoc_lookup(pairs@, key@) is None,
        },
{
    let n = pairs.len();
    proof {
        assert(pairs@.skip(0) =~= pairs@);
    }
    let mut i: usize = 0;
    while i < n
        invariant
            i <= n,
            n == pairs@.len(),
            assoc_lookup(pairs@, key@) == assoc_lookup(pairs@.skip(i as int), key@),
        decreases n - i,
    {
        proof {
            assert(pairs@.skip(i as int)[0] == pairs@[i as int]);
            assert(pairs@.skip(i as int).drop_first() =~= pairs@.skip(i as int + 1));
        }
        if crate::text::str_eq(pairs[i].0.as_str(), key) {
            return Some(&pairs[i].1);
        }
        i += 1;
    }
    proof {
        assert(pairs@.skip(n as int).len() == 0);
    }
    None
}

/// The value of one hexadecimal digit, or nothing.
pub open spec fn hex_val(c: char) -> Option<u8> {
    match c {
        '0' => Some(0u8),
        '1' => Some(1u8),
        '2' => Some(2u8),
        '3' => Some(3u8),
        '4' => Some(4u8),
        '5' => Some(5u8),
        '6' => Some(6u8),
        '7' => Some(7u8),
        '8' => Some(8u8),
        '9' => Some(9u8),
        'a' => Some(10u8),
        'b' => Some(11u8),
        'c' => Some(12u8),
        'd' => Some(13u8),
        'e' => Some(14u8),
        'f' => Some(15u8),
        'A' => Some(10u8),
        'B' => Some(11u8),
        'C' => Some(12u8),
        'D' => Some(13u8),
        'E' => Some(14u8),
        'F' => Some(15u8),
        _ => None,
    }
}

/// The byte written as the two hexadecimal digits `hi``lo`, if both are
/// digits.
pub open spec fn hex_byte(hi: char, lo: char) -> Option<u8> {
    match (hex_val(hi), hex_val(lo)) {
        (Some(h), Some(l)) => Some((h * 16 + l) as u8),
        _ => None,
    }
}

/// What a `#rrggbb` string denotes: exactly seven characters, a leading
/// hash, and three hexadecimal byte pairs.
pub open spec fn hex_color(s: Seq<char>) -> Option<Rgb> {
    if s.len() == 7 && s[0] == '#' {
        match (hex_byte(s[1], s[2]), hex_byte(s[3], s[4]), hex_byte(s[5], s[6])) {
            (Some(r), Some(g), Some(b)) => Some(Rgb { r, g, b }),
            _ => None,
        }
    } else {
        None
    }
}

fn hex_digit(c: char) -> (r: Option<u8>)
    ensures
        r == hex_val(c),
{
    match c {
        '0' => Some(0),
        '1' => Some(1),
        '2' => Some(2),
        '3' => Some(3),
        '4' => Some(4),
        '5' => Some(5),
        '6' => Some(6),
        '7' => Some(7),
        '8' => Some(8),
        '9' => Some(9),
        'a' => Some(10),
        'b' => Some(11),
        'c' => Some(12),
        'd' => Some(13),
        'e' => Some(14),
        'f' => Some(15),
        'A' => Some(10),
        'B' => Some(11),
        'C' => Some(12),
        'D' => Some(13),
        'E' => Some(14),
        'F' => Some(15),
        _ => None,
    }
}

fn hex_pair(hi: char, lo: char) -> (r: Option<u8>)
    ensures
        r == hex_byte(hi, lo),
{
    match (hex_digit(hi), hex_digit(lo)) {
        (Some(h), Some(l)) => Some(h * 16 + l),
        _ => None,
    }
}

impl Config {
    /// Parse a `#rrggbb` color value; anything else is rejected.
    pub fn hex_to_color(hex: &str) -> (r: Option<Rgb>)
        ensures
            r == hex_color(hex@),
    {
        if hex.unicode_len() == 7 && hex.get_char(0) == '#' {
            let red = hex_pair(hex.get_char(1), hex.get_char(2));
            let green = hex_pair(hex.get_char(3), hex.get_char(4));
            let blue = hex_pair(hex.get_char(5), hex.get_char(6));
            match (red, green, blue) {
                (Some(r), Some(g), Some(b)) => Some(Rgb { r, g, b }),
                _ => None,
            }
        } else {
            None
        }
    }

    /// The color configured under `key`, parsed; nothing when the key is
    /// unknown or its value is not a color (the caller then falls back to
    /// its default).
    pub fn get_color_rgb(&self, key: &str) -> (r: Option<Rgb>)
        ensures
            r == match assoc_lookup(self.colors.custom_colors@, key@) {
                Some(v) => hex_color(v),
                None => None::<Rgb>,
            },
    {
        match assoc_get(&self.colors.custom_colors, key) {
            Some(hex) => Self::hex_to_color(hex.as_str()),
            None => None,
        }
    }

    /// The action bound to `key` in the given mode ("normal", "visual" or
    /// "command").  A key bound to the empty string is unbound, and an
    /// unknown mode has no bindings.
    pub fn get_key_binding<'a>(&'a self, mode: &str, key: &str) -> (r: Option<&'a str>)
        ensures
            match r {
                Some(action) => action@.len() > 0 && match self.binding_table(mode@) {
                    Some(pairs) => assoc_lookup(pairs, key@) == Some(action@),
                    None => false,
                },
                None => match self.binding_table(mode@) {
                    Some(pairs) => match assoc_lookup(pairs, key@) {
                        Some(v) => v.len() == 0,
                        None => true,
                    },
                    None => true,
                },
            },
    {
        let bindings = if crate::text::str_eq(mode, "normal") {
            &self.keybindings.normal_mode
        } else if crate::text::str_eq(mode, "visual") {
            &self.keybindings.visual_mode
        } else if crate::text::str_eq(mode, "command") {
            &self.keybindings.command_mode
        } else {
            return None;
        };
        match assoc_get(bindings, key) {
            Some(action) => {
                if action.as_str().is_empty() {
                    None
                } else {
                    Some(action.as_str())
                }
            },
            None => None,
        }
    }

    /// The binding table of a mode, by the mode's name.
    pub open spec fn binding_table(&self, mode: Seq<char>) -> Option<Seq<(String, String)>> {
        if mode == "normal"@ {
            Some(self.keybindings.normal_mode@)
        } else if mode == "visual"@ {
            Some(self.keybindings.visual_mode@)
        } else if mode == "command"@ {
            Some(self.keybindings.command_mode@)
        } else {
            None
        }
    }

    /// Whether periodic refresh is switched on.
    pub fn should_auto_refresh(&self) -> (r: bool)
        ensures
            r == (self.general.auto_refresh_interval > 0),
    {
        self.general.auto_refresh_interval > 0
    }

    /// Seconds between automatic refreshes.
    pub fn auto_refresh_interval(&self) -> (r: u64)
        ensures
            r == self.general.auto_refresh_interval,
    {
        self.general.auto_refresh_interval
    }
}

fn pair(key: &str, value: &str) -> (r: (String, String))
    ensures
        r.0@ == key@,
        r.1@ == value@,
{
    (key.to_owned(), value.to_owned())
}

impl Default for Config {
    /// The built-in configuration: vim-like bindings, the default theme's
    /// colors, headers and borders shown, no automatic refresh, and no
    /// extra context-menu entries.
    fn default() -> (r: Self)
        ensures
            r.general.tabular_mode == false,
            r.general.auto_refresh_interval == 0,
            r.general.max_history_items == 100,
            r.general.experimental_fx == false,
            r.colors.theme@ == "default"@,
            r.layout.show_headers == true,
            r.layout.show_borders == true,
            r.keybindings.normal_mode@.len() == 22,
            r.keybindings.visual_mode@.len() == 5,
            r.keybindings.command_mode@.len() == 3,
            r.colors.custom_colors@.len() == 42,
            r.layout.column_widths@.len() == 5,
            r.context_menu.actions@.len() == 0,
            assoc_lookup(r.keybindings.normal_mode@, "j"@) == Some("SelectNext"@),
            assoc_lookup(r.keybindings.command_mode@, "Enter"@) == Some("ExecuteCommand"@),
    {
        let mut normal_mode: Vec<(String, String)> = Vec::new();
        normal_mode.push(pair("j", "SelectNext"));
        normal_mode.push(pair("k", "SelectPrevious"));
        normal_mode.push(pair("gg", "GoToFirst"));
        normal_mode.push(pair("G", "GoToLast"));
        normal_mode.push(pair("w", "WordNext"));
        normal_mode.push(pair("b", "WordPrevious"));
        normal_mode.push(pair("Ctrl+u", "HalfPageUp"));
        normal_mode.push(pair("Ctrl+d", "HalfPageDown"));
        normal_mode.push(pair("v", "EnterVisualMode"));
        normal_mode.push(pair(":", "EnterCommandMode"));
        normal_mode.push(pair("/", "EnterSearchForward"));
        normal_mode.push(pair("?", "EnterSearchBackward"));
        normal_mode.push(pair("n", "NextSearchResult"));
        normal_mode.push(pair("N", "PreviousSearchResult"));
        normal_mode.push(pair("s", "StopContainer"));
        normal_mode.push(pair("r", "RestartContainer"));
        normal_mode.push(pair("c", "CopyIp"));
        normal_mode.push(pair("o", "OpenBrowser"));
        normal_mode.push(pair("t", "ToggleTabular"));
        let mut more_normal: Vec<(String, String)> = Vec::new();
        more_normal.push(pair("f", "EnterFilterMode"));
        more_normal.push(pair("Escape", "ClearFilter"));
        more_normal.push(pair("q", "Quit"));

        let mut visual_mode: Vec<(String, String)> = Vec::new();
        visual_mode.push(pair("j", "ExtendSelectionNext"));
        visual_mode.push(pair("k", "ExtendSelectionPrevious"));
        visual_mode.push(pair("s", "StopSelectedContainers"));
        visual_mode.push(pair("r", "RestartSelectedContainers"));
        visual_mode.push(pair("Escape", "EnterNormalMode"));

        let mut command_mode: Vec<(String, String)> = Vec::new();
        command_mode.push(pair("Enter", "ExecuteCommand"));
        command_mode.push(pair("Escape", "CancelCommand"));
        command_mode.push(pair("Tab", "TabComplete"));

        let mut custom_colors: Vec<(String, String)> = Vec::new();
        custom_colors.push(pair("selected_bg", "#4a4af7"));
        custom_colors.push(pair("visual_bg", "#5D2F00"));
        custom_colors.push(pair("search_highlight", "#4D2D5F"));
        custom_colors.push(pair("container_name", "#00AA00"));
        custom_colors.push(pair("container_image", "#AAAA00"));
        custom_colors.push(pair("container_status", "#00AAAA"));
        custom_colors.push(pair("container_ip", "#0000AA"));
        custom_colors.push(pair("container_ports", "#AA00AA"));
        custom_colors.push(pair("container_image_tabular", "#00AAAA"));
        custom_colors.push(pair("container_status_tabular", "#0000AA"));
        custom_colors.push(pair("container_ip_tabular", "#AA00AA"));
        custom_colors.push(pair("container_ports_tabular", "#CCCCCC"));
        custom_colors.push(pair("mode_normal", "#00AA00"));
        custom_colors.push(pair("mode_visual", "#AAAA00"));
        custom_colors.push(pair("mode_command", "#0000AA"));
        custom_colors.push(pair("mode_search", "#AA00AA"));
        custom_colors.push(pair("hotkey_red", "#AA0000"));
        custom_colors.push(pair("hotkey_yellow", "#AAAA00"));
        custom_colors.push(pair("hotkey_green", "#00AA00"));
        custom_colors.push(pair("hotkey_blue", "#0000AA"));
        custom_colors.push(pair("hotkey_magenta", "#AA00AA"));
        custom_colors.push(pair("hotkey_cyan", "#00AAAA"));
        custom_colors.push(pair("hotkey_white", "#CCCCCC"));
        custom_colors.push(pair("hotkey_gray", "#666666"));
        custom_colors.push(pair("hotkey_light_blue", "#6699CC"));
        custom_colors.push(pair("background_main", "#000000"));
        custom_colors.push(pair("background_dark", "#0F0F0F"));
        custom_colors.push(pair("background_table", "#0F0F0F"));
        custom_colors.push(pair("background_selection", "#1F1F1F"));
        custom_colors.push(pair("background_alt", "#0F0F0F"));
        custom_colors.push(pair("background_selection_orange", "#2F1F0F"));
        custom_colors.push(pair("background_very_dark", "#0A0A0A"));
        custom_colors.push(pair("background_alt_dark", "#0A0A0A"));
        custom_colors.push(pair("border_main", "#00AAAA"));
        custom_colors.push(pair("border_light", "#4A9EFF"));
        custom_colors.push(pair("text_selection", "#8080FF"));
        custom_colors.push(pair("text_main", "#FFFFFF"));
        custom_colors.push(pair("message_error", "#AA0000"));
        custom_colors.push(pair("message_warning", "#AAAA00"));
        custom_colors.push(pair("message_success", "#00AA00"));
        custom_colors.push(pair("filter_text", "#FFFF00"));
        custom_colors.push(pair("filter_cursor", "#0000FF"));

        let mut column_widths: Vec<(String, u16)> = Vec::new();
        column_widths.push(("name".to_owned(), 25));
        column_widths.push(("image".to_owned(), 20));
        column_widths.push(("status".to_owned(), 15));
        column_widths.push(("ip".to_owned(), 15));
        column_widths.push(("ports".to_owned(), 20));

        let mut normal_all = normal_mode;
        normal_all.append(&mut more_normal);

        Self {
            general: GeneralConfig {
                tabular_mode: false,
                auto_refresh_interval: 0,
                max_history_items: 100,
                experimental_fx: false,
            },
            keybindings: KeyBindings {
                normal_mode: normal_all,
                visual_mode,
                command_mode,
            },
            colors: ColorConfig { theme: "default".to_owned(), custom_colors },
            layout: LayoutConfig { show_headers: true, column_widths, show_borders: true },
            context_menu: ContextMenuConfig { actions: Vec::new() },
        }
    }
}

} // verus!
