//! Colours, highlight definitions and the highlight table.

use std::collections::HashMap;
use vstd::prelude::*;

verus! {

/// The hexadecimal digit for `n`, in lower case.
pub open spec fn hex_digit(n: int) -> Seq<char> {
    if n == 0 {
        "0"@
    } else if n == 1 {
        "1"@
    } else if n == 2 {
        "2"@
    } else if n == 3 {
        "3"@
    } else if n == 4 {
        "4"@
    } else if n == 5 {
        "5"@
    } else if n == 6 {
        "6"@
    } else if n == 7 {
        "7"@
    } else if n == 8 {
        "8"@
    } else if n == 9 {
        "9"@
    } else if n == 10 {
        "a"@
    } else if n == 11 {
        "b"@
    } else if n == 12 {
        "c"@
    } else if n == 13 {
        "d"@
    } else if n == 14 {
        "e"@
    } else {
        "f"@
    }
}

fn hex_digit_text(n: u8) -> (text: &'static str)
    requires
        n < 16,
    ensures
        text@ == hex_digit(n as int),
{
    if n == 0 {
        "0"
    } else if n == 1 {
        "1"
    } else if n == 2 {
        "2"
    } else if n == 3 {
        "3"
    } else if n == 4 {
        "4"
    } else if n == 5 {
        "5"
    } else if n == 6 {
        "6"
    } else if n == 7 {
        "7"
    } else if n == 8 {
        "8"
    } else if n == 9 {
        "9"
    } else if n == 10 {
        "a"
    } else if n == 11 {
        "b"
    } else if n == 12 {
        "c"
    } else if n == 13 {
        "d"
    } else if n == 14 {
        "e"
    } else {
        "f"
    }
}

/// An RGB colour, one byte per channel.
#[derive(Clone, Copy, Debug, PartialEq, Eq, Structural)]
pub struct Color {
    pub r: u8,
    pub g: u8,
    pub b: u8,
}

impl Color {
    /// The colour as the number `0xRRGGBB`.
    pub open spec fn rgb(self) -> int {
        self.r as int * 0x10000 + self.g as int * 0x100 + self.b as int
    }

    /// The colour as six hexadecimal digits, red first.
    pub open spec fn spec_to_hex(&self) -> Seq<char> {
        hex_digit(self.r as int / 16) + hex_digit(self.r as int % 16) + hex_digit(
            self.g as int / 16,
        ) + hex_digit(self.g as int % 16) + hex_digit(self.b as int / 16) + hex_digit(
            self.b as int % 16,
        )
    }

    pub fn to_hex(&self) -> (hex: String)
        ensures
            hex@ == self.spec_to_hex(),
    {
        let mut hex = hex_digit_text(self.r / 16).to_owned();
        hex.push_str(hex_digit_text(self.r % 16));
        hex.push_str(hex_digit_text(self.g / 16));
        hex.push_str(hex_digit_text(self.g % 16));
        hex.push_str(hex_digit_text(self.b / 16));
        hex.push_str(hex_digit_text(self.b % 16));
        hex
    }

    /// Reads a colour from the low 24 bits of `v`, as the editor sends it.
    pub fn from_u64(v: u64) -> (c: Color)
        ensures
            c.rgb() == v as int % 0x1000000,
    {
        let r = ((v >> 16) & 0xff) as u8;
        let g = ((v >> 8) & 0xff) as u8;
        let b = (v & 0xff) as u8;
        assert(r as u64 * 0x10000 + g as u64 * 0x100 + b as u64 == v % 0x1000000) by (bit_vector)
            requires
                r == ((v >> 16) & 0xff) as u8,
                g == ((v >> 8) & 0xff) as u8,
                b == (v & 0xff) as u8,
        ;
        Color { r, g, b }
    }
}

/// One highlight definition: optional colours and attribute flags.
/// A colour that is absent stands for the table's default.
#[derive(Clone, Copy, Debug, PartialEq, Eq)]
pub struct Highlight {
    pub foreground: Option<Color>,
    pub background: Option<Color>,
    pub special: Option<Color>,
    pub reverse: bool,
    pub italic: bool,
    pub bold: bool,
    pub underline: bool,
    pub undercurl: bool,
}

impl Highlight {
    /// The definition with no colour and no attribute.
    pub open spec fn plain() -> Highlight {
        Highlight {
            foreground: None,
            background: None,
            special: None,
            reverse: false,
            italic: false,
            bold: false,
            underline: false,
            undercurl: false,
        }
    }

    pub fn new() -> (hl: Highlight)
        ensures
            hl == Highlight::plain(),
    {
        Highlight {
            foreground: None,
            background: None,
            special: None,
            reverse: false,
            italic: false,
            bold: false,
            underline: false,
            undercurl: false,
        }
    }

    /// This definition with its three colours set and `reverse` cleared:
    /// the shape of definition 0 under the given defaults.
    pub open spec fn with_defaults(self, fg: Color, bg: Color, sp: Color) -> Highlight {
        Highlight {
            foreground: Some(fg),
            background: Some(bg),
            special: Some(sp),
            reverse: false,
            ..self
        }
    }

    /// The colours and attributes this definition shows under the given
    /// defaults. `reverse` swaps foreground and background.
    pub open spec fn resolve(self, fg: Color, bg: Color, sp: Color) -> Style {
        let f = match self.foreground {
            Some(c) => c,
            None => fg,
        };
        let b = match self.background {
            Some(c) => c,
            None => bg,
        };
        let s = match self.special {
            Some(c) => c,
            None => sp,
        };
        Style {
            fg: if self.reverse { b } else { f },
            bg: if self.reverse { f } else { b },
            sp: s,
            italic: self.italic,
            bold: self.bold,
            underline: self.underline,
            undercurl: self.undercurl,
        }
    }

    pub fn resolved(&self, fg: Color, bg: Color, sp: Color) -> (style: Style)
        ensures
            style == self.resolve(fg, bg, sp),
    {
        let f = match self.foreground {
            Some(c) => c,
            None => fg,
        };
        let b = match self.background {
            Some(c) => c,
            None => bg,
        };
        let s = match self.special {
            Some(c) => c,
            None => sp,
        };
        Style {
            fg: if self.reverse { b } else { f },
            bg: if self.reverse { f } else { b },
            sp: s,
            italic: self.italic,
            bold: self.bold,
            underline: self.underline,
            undercurl: self.undercurl,
        }
    }
}

/// A highlight with every colour decided.
#[derive(Clone, Copy, Debug, PartialEq, Eq)]
pub struct Style {
    pub fg: Color,
    pub bg: Color,
    pub sp: Color,
    pub italic: bool,
    pub bold: bool,
    pub underline: bool,
    pub undercurl: bool,
}

/// The fixed-purpose groups that the auxiliary surfaces draw with.
#[derive(Clone, Copy, Debug, PartialEq, Eq, Structural)]
pub enum HlGroup {
    Pmenu,
    PmenuSel,
    Tabline,
    TablineSel,
    TablineFill,
    Cmdline,
    CmdlineBorder,
    Wildmenu,
    WildmenuSel,
}

/// Which definition each group points at. A group holds an id, never a
/// definition: redefining the id changes what the group shows.
#[derive(Clone, Copy, Debug, PartialEq, Eq)]
pub struct HlGroups {
    pub pmenu: Option<u64>,
    pub pmenu_sel: Option<u64>,
    pub tabline: Option<u64>,
    pub tabline_sel: Option<u64>,
    pub tabline_fill: Option<u64>,
    pub cmdline: Option<u64>,
    pub cmdline_border: Option<u64>,
    pub wildmenu: Option<u64>,
    pub wildmenu_sel: Option<u64>,
}

impl HlGroups {
    pub open spec fn unbound() -> HlGroups {
        HlGroups {
            pmenu: None,
            pmenu_sel: None,
            tabline: None,
            tabline_sel: None,
            tabline_fill: None,
            cmdline: None,
            cmdline_border: None,
            wildmenu: None,
            wildmenu_sel: None,
        }
    }

    pub open spec fn get(self, group: HlGroup) -> Option<u64> {
        match group {
            HlGroup::Pmenu => self.pmenu,
            HlGroup::PmenuSel => self.pmenu_sel,
            HlGroup::Tabline => self.tabline,
            HlGroup::TablineSel => self.tabline_sel,
            HlGroup::TablineFill => self.tabline_fill,
            HlGroup::Cmdline => self.cmdline,
            HlGroup::CmdlineBorder => self.cmdline_border,
            HlGroup::Wildmenu => self.wildmenu,
            HlGroup::WildmenuSel => self.wildmenu_sel,
        }
    }

    pub open spec fn set(self, group: HlGroup, id: u64) -> HlGroups {
        match group {
            HlGroup::Pmenu => HlGroups { pmenu: Some(id), ..self },
            HlGroup::PmenuSel => HlGroups { pmenu_sel: Some(id), ..self },
            HlGroup::Tabline => HlGroups { tabline: Some(id), ..self },
            HlGroup::TablineSel => HlGroups { tabline_sel: Some(id), ..self },
            HlGroup::TablineFill => HlGroups { tabline_fill: Some(id), ..self },
            HlGroup::Cmdline => HlGroups { cmdline: Some(id), ..self },
            HlGroup::CmdlineBorder => HlGroups { cmdline_border: Some(id), ..self },
            HlGroup::Wildmenu => HlGroups { wildmenu: Some(id), ..self },
            HlGroup::WildmenuSel => HlGroups { wildmenu_sel: Some(id), ..self },
        }
    }

    pub fn new() -> (groups: HlGroups)
        ensures
            groups == HlGroups::unbound(),
    {
        HlGroups {
            pmenu: None,
            pmenu_sel: None,
            tabline: None,
            tabline_sel: None,
            tabline_fill: None,
            cmdline: None,
            cmdline_border: None,
            wildmenu: None,
            wildmenu_sel: None,
        }
    }

    pub fn lookup(&self, group: HlGroup) -> (id: Option<u64>)
        ensures
            id == self.get(group),
    {
        match group {
            HlGroup::Pmenu => self.pmenu,
            HlGroup::PmenuSel => self.pmenu_sel,
            HlGroup::Tabline => self.tabline,
            HlGroup::TablineSel => self.tabline_sel,
            HlGroup::TablineFill => self.tabline_fill,
            HlGroup::Cmdline => self.cmdline,
            HlGroup::CmdlineBorder => self.cmdline_border,
            HlGroup::Wildmenu => self.wildmenu,
            HlGroup::WildmenuSel => self.wildmenu_sel,
        }
    }

    /// Points `group` at `id` and returns what it pointed at before.
    pub fn bind(&mut self, group: HlGroup, id: u64) -> (previous: Option<u64>)
        ensures
            *final(self) == old(self).set(group, id),
            previous == old(self).get(group),
    {
        let previous = self.lookup(group);
        match group {
            HlGroup::Pmenu => {
                self.pmenu = Some(id);
            },
            HlGroup::PmenuSel => {
                self.pmenu_sel = Some(id);
            },
            HlGroup::Tabline => {
                self.tabline = Some(id);
            },
            HlGroup::TablineSel => {
                self.tabline_sel = Some(id);
            },
            HlGroup::TablineFill => {
                self.tabline_fill = Some(id);
            },
            HlGroup::Cmdline => {
                self.cmdline = Some(id);
            },
            HlGroup::CmdlineBorder => {
                self.cmdline_border = Some(id);
            },
            HlGroup::Wildmenu => {
                self.wildmenu = Some(id);
            },
            HlGroup::WildmenuSel => {
                self.wildmenu_sel = Some(id);
            },
        }
        previous
    }
}

/// The highlight table as a mathematical value.
pub struct HlDefsView {
    pub default_fg: Color,
    pub default_bg: Color,
    pub default_sp: Color,
    pub defs: Map<u64, Highlight>,
    pub groups: HlGroups,
}

impl HlDefsView {
    /// Definition 0 exists and carries the default colours, unreversed.
    pub open spec fn wf(self) -> bool {
        &&& self.defs.dom().finite()
        &&& self.defs.contains_key(0)
        &&& self.defs[0].foreground == Some(self.default_fg)
        &&& self.defs[0].background == Some(self.default_bg)
        &&& self.defs[0].special == Some(self.default_sp)
        &&& !self.defs[0].reverse
    }

    /// The table before any event: white on black, red for special.
    pub open spec fn initial() -> HlDefsView {
        let fg = Color { r: 255, g: 255, b: 255 };
        let bg = Color { r: 0, g: 0, b: 0 };
        let sp = Color { r: 255, g: 0, b: 0 };
        HlDefsView {
            default_fg: fg,
            default_bg: bg,
            default_sp: sp,
            defs: Map::empty().insert(0u64, Highlight::plain().with_defaults(fg, bg, sp)),
            groups: HlGroups::unbound(),
        }
    }

    /// The definition stored under `id`; an id never defined is plain.
    pub open spec fn get(self, id: u64) -> Highlight {
        if self.defs.contains_key(id) {
            self.defs[id]
        } else {
            Highlight::plain()
        }
    }

    /// What a cell with highlight `id` looks like.
    pub open spec fn resolve(self, id: u64) -> Style {
        self.get(id).resolve(self.default_fg, self.default_bg, self.default_sp)
    }

    /// What `group` looks like: its definition, or definition 0 while the
    /// group points nowhere.
    pub open spec fn group_style(self, group: HlGroup) -> Style {
        match self.groups.get(group) {
            Some(id) => self.resolve(id),
            None => self.resolve(0),
        }
    }

    /// New default colours; definition 0 follows them.
    pub open spec fn set_defaults(self, fg: Color, bg: Color, sp: Color) -> HlDefsView {
        HlDefsView {
            default_fg: fg,
            default_bg: bg,
            default_sp: sp,
            defs: self.defs.insert(0, self.get(0).with_defaults(fg, bg, sp)),
            ..self
        }
    }

    /// Inserts or replaces one definition. Definition 0 keeps the default
    /// colours whatever is written to it.
    pub open spec fn define(self, id: u64, hl: Highlight) -> HlDefsView {
        let stored = if id == 0 {
            hl.with_defaults(self.default_fg, self.default_bg, self.default_sp)
        } else {
            hl
        };
        HlDefsView { defs: self.defs.insert(id, stored), ..self }
    }

    /// Points `group` at `id`.
    pub open spec fn bind(self, group: HlGroup, id: u64) -> HlDefsView {
        HlDefsView { groups: self.groups.set(group, id), ..self }
    }
}

/// The highlight table: default colours, the definitions by id, and the
/// group bindings.
pub struct HlDefs {
    pub default_fg: Color,
    pub default_bg: Color,
    pub default_sp: Color,
    pub defs: HashMap<u64, Highlight>,
    pub groups: HlGroups,
}

impl View for HlDefs {
    type V = HlDefsView;

    open spec fn view(&self) -> HlDefsView {
        HlDefsView {
            default_fg: self.default_fg,
            default_bg: self.default_bg,
            default_sp: self.default_sp,
            defs: self.defs@,
            groups: self.groups,
        }
    }
}

impl HlDefs {
    pub fn new() -> (table: HlDefs)
        ensures
            table@ == HlDefsView::initial(),
            table@.wf(),
    {
        broadcast use vstd::std_specs::hash::group_hash_axioms;

        let fg = Color { r: 255, g: 255, b: 255 };
        let bg = Color { r: 0, g: 0, b: 0 };
        let sp = Color { r: 255, g: 0, b: 0 };
        let mut defs: HashMap<u64, Highlight> = HashMap::new();
        let mut zero = Highlight::new();
        zero.foreground = Some(fg);
        zero.background = Some(bg);
        zero.special = Some(sp);
        defs.insert(0, zero);
        HlDefs { default_fg: fg, default_bg: bg, default_sp: sp, defs, groups: HlGroups::new() }
    }

    /// Whether definition 0 exists and carries the default colours.
    pub fn is_well_formed(&self) -> (ok: bool)
        ensures
            ok == self@.wf(),
    {
        broadcast use vstd::std_specs::hash::group_hash_axioms;

        match self.defs.get(&0) {
            Some(zero) => {
                let fg = match zero.foreground {
                    Some(c) => c == self.default_fg,
                    None => false,
                };
                let bg = match zero.background {
                    Some(c) => c == self.default_bg,
                    None => false,
                };
                let sp = match zero.special {
                    Some(c) => c == self.default_sp,
                    None => false,
                };
                fg && bg && sp && !zero.reverse
            },
            None => false,
        }
    }

    /// The definition under `id`, plain if there is none.
    pub fn get(&self, id: u64) -> (hl: Highlight)
        ensures
            hl == self@.get(id),
    {
        broadcast use vstd::std_specs::hash::group_hash_axioms;

        match self.defs.get(&id) {
            Some(hl) => *hl,
            None => Highlight::new(),
        }
    }

    pub fn resolve(&self, id: u64) -> (style: Style)
        ensures
            style == self@.resolve(id),
    {
        self.get(id).resolved(self.default_fg, self.default_bg, self.default_sp)
    }

    pub fn group_style(&self, group: HlGroup) -> (style: Style)
        ensures
            style == self@.group_style(group),
    {
        match self.groups.lookup(group) {
            Some(id) => self.resolve(id),
            None => self.resolve(0),
        }
    }

    pub fn set_defaults(&mut self, fg: Color, bg: Color, sp: Color)
        requires
            old(self)@.wf(),
        ensures
            final(self)@ == old(self)@.set_defaults(fg, bg, sp),
            final(self)@.wf(),
    {
        broadcast use vstd::std_specs::hash::group_hash_axioms;

        let mut zero = self.get(0);
        zero.foreground = Some(fg);
        zero.background = Some(bg);
        zero.special = Some(sp);
        zero.reverse = false;
        self.default_fg = fg;
        self.default_bg = bg;
        self.default_sp = sp;
        self.defs.insert(0, zero);
    }

    pub fn insert(&mut self, id: u64, hl: Highlight)
        requires
            old(self)@.wf(),
        ensures
            final(self)@ == old(self)@.define(id, hl),
            final(self)@.wf(),
    {
        broadcast use vstd::std_specs::hash::group_hash_axioms;

        let mut stored = hl;
        if id == 0 {
            stored.foreground = Some(self.default_fg);
            stored.background = Some(self.default_bg);
            stored.special = Some(self.default_sp);
            stored.reverse = false;
        }
        self.defs.insert(id, stored);
    }

    /// Points `group` at `id` and returns what it pointed at before.
    pub fn set_hl_group(&mut self, group: HlGroup, id: u64) -> (previous: Option<u64>)
        ensures
            final(self)@ == old(self)@.bind(group, id),
            previous == old(self)@.groups.get(group),
    {
        self.groups.bind(group, id)
    }
}

/// Definition 0 always shows the default colours.
pub proof fn lemma_zero_resolves_to_defaults(table: HlDefsView)
    requires
        table.wf(),
    ensures
        table.resolve(0).fg == table.default_fg,
        table.resolve(0).bg == table.default_bg,
        table.resolve(0).sp == table.default_sp,
{
}

/// Redefining an id changes what every group pointing at it shows, with no
/// change to the bindings.
pub proof fn lemma_group_follows_definition(table: HlDefsView, group: HlGroup, id: u64, hl: Highlight)
    requires
        table.groups.get(group) == Some(id),
    ensures
        table.define(id, hl).groups == table.groups,
        table.define(id, hl).group_style(group) == table.define(id, hl).resolve(id),
{
}

} // verus!
