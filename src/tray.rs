//! StatusNotifierItem tray: item records, the assembly of an item from the
//! properties its peer reported, and the choices made when showing one.

use vstd::prelude::*;
use crate::pixmap::{first_of, first_pixmap, opt_pixmap_view, pixmap_fits, PixmapView};
use crate::pixmap::{argb_as_rgba, argb_to_rgba};
use crate::text::{contains_text, occurs_in, owned, same_text};

verus! {

/// Object path of an item whose watcher address names only a bus.
pub const DEFAULT_ITEM_PATH: &'static str = "/StatusNotifierItem";

/// Tooltip of a tray item: icon name, icon pixmaps, title and description.
pub struct ToolTip {
    pub icon_name: String,
    pub icon_pixmap: Vec<(i32, i32, Vec<u8>)>,
    pub title: String,
    pub description: String,
}

impl ToolTip {
    pub fn new(
        icon_name: String,
        icon_pixmap: Vec<(i32, i32, Vec<u8>)>,
        title: String,
        description: String,
    ) -> (r: Self)
        ensures
            r.icon_name == icon_name,
            r.icon_pixmap == icon_pixmap,
            r.title == title,
            r.description == description,
    {
        ToolTip { icon_name, icon_pixmap, title, description }
    }

    /// The tooltip an item gets when its peer reports none.
    pub fn empty() -> (r: Self)
        ensures
            r.is_empty(),
    {
        ToolTip {
            icon_name: String::new(),
            icon_pixmap: Vec::new(),
            title: String::new(),
            description: String::new(),
        }
    }

    pub open spec fn is_empty(&self) -> bool {
        &&& self.icon_name@.len() == 0
        &&& self.icon_pixmap@.len() == 0
        &&& self.title@.len() == 0
        &&& self.description@.len() == 0
    }

    pub fn icon_name(&self) -> (r: &str)
        ensures
            r@ == self.icon_name@,
    {
        self.icon_name.as_str()
    }

    pub fn icon_pixmap(&self) -> (r: &Vec<(i32, i32, Vec<u8>)>)
        ensures
            *r == self.icon_pixmap,
    {
        &self.icon_pixmap
    }

    pub fn title(&self) -> (r: &str)
        ensures
            r@ == self.title@,
    {
        self.title.as_str()
    }

    pub fn description(&self) -> (r: &str)
        ensures
            r@ == self.description@,
    {
        self.description.as_str()
    }
}

/// Icon data of a tray item.
pub struct TrayIcon {
    pub name: Option<String>,
    pub pixmap: Option<(i32, i32, Vec<u8>)>,
    pub attention_name: Option<String>,
    pub overlay_name: Option<String>,
    pub icon_paths: Vec<String>,
}

#[derive(Clone, Copy, Debug, PartialEq, Eq, Structural)]
pub enum TrayItemStatus {
    Passive,
    Active,
    NeedsAttention,
}

pub open spec fn status_of(s: Seq<char>) -> TrayItemStatus {
    if s == "Active"@ {
        TrayItemStatus::Active
    } else if s == "NeedsAttention"@ {
        TrayItemStatus::NeedsAttention
    } else {
        TrayItemStatus::Passive
    }
}

impl TrayItemStatus {
    /// Reads a `Status` property value; anything unknown is `Passive`.
    pub fn from_text(s: &str) -> (r: Self)
        ensures
            r == status_of(s@),
    {
        if same_text(s, "Active") {
            TrayItemStatus::Active
        } else if same_text(s, "NeedsAttention") {
            TrayItemStatus::NeedsAttention
        } else {
            TrayItemStatus::Passive
        }
    }
}

impl<'a> From<&'a str> for TrayItemStatus {
    fn from(s: &'a str) -> (r: Self) {
        TrayItemStatus::from_text(s)
    }
}

impl<'a> vstd::std_specs::convert::FromSpecImpl<&'a str> for TrayItemStatus {
    open spec fn obeys_from_spec() -> bool {
        true
    }

    open spec fn from_spec(s: &'a str) -> Self {
        status_of(s@)
    }
}

/// One registered tray item. Its identity is `(bus_name, object_path)`.
pub struct TrayItem {
    pub id: String,
    pub title: String,
    pub status: TrayItemStatus,
    pub category: String,
    pub icon: TrayIcon,
    pub tooltip: ToolTip,
    pub menu_path: Option<String>,
    pub is_menu: bool,
    pub window_id: u32,
    pub bus_name: String,
    pub object_path: String,
}

/// The properties read from an item's peer. `None` marks a property whose
/// read failed.
pub struct ItemProperties {
    pub id: Option<String>,
    pub title: Option<String>,
    pub status: Option<String>,
    pub category: Option<String>,
    pub icon_name: Option<String>,
    pub attention_icon_name: Option<String>,
    pub overlay_icon_name: Option<String>,
    pub icon_pixmap: Option<Vec<(i32, i32, Vec<u8>)>>,
    pub attention_icon_pixmap: Option<Vec<(i32, i32, Vec<u8>)>>,
    pub overlay_icon_pixmap: Option<Vec<(i32, i32, Vec<u8>)>>,
    pub menu: Option<String>,
    pub item_is_menu: Option<bool>,
    pub window_id: Option<u32>,
    pub tool_tip: Option<ToolTip>,
}

pub open spec fn text_or_empty(s: Option<String>) -> Seq<char> {
    match s {
        Some(t) => t@,
        None => Seq::empty(),
    }
}

impl ItemProperties {
    pub open spec fn id_text(&self) -> Seq<char> {
        text_or_empty(self.id)
    }

    pub open spec fn title_text(&self) -> Seq<char> {
        text_or_empty(self.title)
    }

    pub open spec fn status_text(&self) -> Seq<char> {
        text_or_empty(self.status)
    }

    /// The key under which the item's icon files are looked up: the icon
    /// name, else a non-empty id, else a non-empty title.
    pub open spec fn icon_key(&self) -> Option<Seq<char>> {
        match self.icon_name {
            Some(n) => Some(n@),
            None => if self.id_text().len() > 0 {
                Some(self.id_text())
            } else if self.title_text().len() > 0 {
                Some(self.title_text())
            } else {
                None
            },
        }
    }

    /// The first icon pixmap, else the first pixmap of the tooltip.
    pub open spec fn base_pixmap(&self) -> Option<PixmapView> {
        let own = match self.icon_pixmap {
            Some(ps) => first_pixmap(ps@),
            None => None,
        };
        if own is Some {
            own
        } else {
            match self.tool_tip {
                Some(t) => first_pixmap(t.icon_pixmap@),
                None => None,
            }
        }
    }

    /// The pixmap shown for the item: an item that needs attention shows the
    /// first attention pixmap when it has one.
    pub open spec fn shown_pixmap(&self) -> Option<PixmapView> {
        if status_of(self.status_text()) == TrayItemStatus::NeedsAttention {
            match self.attention_icon_pixmap {
                Some(ps) if ps@.len() > 0 => first_pixmap(ps@),
                _ => self.base_pixmap(),
            }
        } else {
            self.base_pixmap()
        }
    }

    /// The key to hand to the icon resolver, as `icon_key` states it.
    pub fn icon_lookup_key(&self) -> (r: Option<String>)
        ensures
            r matches Some(k) ==> self.icon_key() == Some(k@),
            r is None ==> self.icon_key() is None,
    {
        match &self.icon_name {
            Some(n) => Some(owned(n.as_str())),
            None => {
                let id_empty = match &self.id {
                    Some(s) => s.as_str().unicode_len() == 0,
                    None => true,
                };
                if !id_empty {
                    match &self.id {
                        Some(s) => Some(owned(s.as_str())),
                        None => None,
                    }
                } else {
                    let title_empty = match &self.title {
                        Some(s) => s.as_str().unicode_len() == 0,
                        None => true,
                    };
                    if !title_empty {
                        match &self.title {
                            Some(s) => Some(owned(s.as_str())),
                            None => None,
                        }
                    } else {
                        None
                    }
                }
            }
        }
    }

    fn pick_pixmap(&self) -> (r: Option<(i32, i32, Vec<u8>)>)
        ensures
            opt_pixmap_view(r) == self.shown_pixmap(),
    {
        let own = match &self.icon_pixmap {
            Some(ps) => first_of(ps),
            None => None,
        };
        let base = if own.is_some() {
            own
        } else {
            match &self.tool_tip {
                Some(t) => first_of(&t.icon_pixmap),
                None => None,
            }
        };
        let status = match &self.status {
            Some(s) => TrayItemStatus::from_text(s.as_str()),
            None => TrayItemStatus::Passive,
        };
        proof {
            if self.status is None {
                assert(self.status_text() == Seq::<char>::empty());
                reveal_strlit("Active");
                reveal_strlit("NeedsAttention");
            }
        }
        if status == TrayItemStatus::NeedsAttention {
            match &self.attention_icon_pixmap {
                Some(ps) if ps.len() > 0 => first_of(ps),
                _ => base,
            }
        } else {
            base
        }
    }
}

fn text_or_new(s: Option<String>) -> (r: String)
    ensures
        r@ == text_or_empty(s),
{
    match s {
        Some(t) => t,
        None => String::new(),
    }
}

/// Splits a watcher address, `"bus_name/object/path"` or a bare
/// `"bus_name"`, into bus name and object path. The object path keeps its
/// leading `/`; a bare bus name gets the default item path.
pub fn split_address(raw: &str) -> (r: (String, String))
    ensures
        (forall|i: int| 0 <= i < raw@.len() ==> raw@[i] != '/') ==> r.0@ == raw@ && r.1@
            == DEFAULT_ITEM_PATH@,
        (exists|i: int| 0 <= i < raw@.len() && raw@[i] == '/') ==> exists|i: int|
            0 <= i < raw@.len() && raw@[i] == '/' && (forall|j: int| 0 <= j < i ==> raw@[j] != '/')
                && r.0@ == raw@.subrange(0, i) && r.1@ == raw@.subrange(i, raw@.len() as int),
        r.1@.len() > 0,
        r.1@[0] == '/',
{
    let n = raw.unicode_len();
    let mut i: usize = 0;
    while i < n
        invariant
            n == raw@.len(),
            i <= n,
            forall|j: int| 0 <= j < i ==> raw@[j] != '/',
        decreases n - i,
    {
        if raw.get_char(i) == '/' {
            let bus = owned(raw.substring_char(0, i));
            let path = owned(raw.substring_char(i, n));
            assert(path@[0] == raw@[i as int]);
            return (bus, path);
        }
        i = i + 1;
    }
    proof {
        reveal_strlit("/StatusNotifierItem");
    }
    (owned(raw), owned(DEFAULT_ITEM_PATH))
}

impl TrayItem {
    /// Builds the item from the properties its peer reported. A failed text
    /// read gives an empty text, a failed flag `false`, a failed window id
    /// `0` and a failed tooltip an empty one; `icon_paths` are the files
    /// found for `props.icon_key()`.
    pub fn from_properties(
        props: ItemProperties,
        bus_name: String,
        object_path: String,
        icon_paths: Vec<String>,
    ) -> (r: Self)
        ensures
            r.id@ == props.id_text(),
            r.title@ == props.title_text(),
            r.status == status_of(props.status_text()),
            r.category@ == text_or_empty(props.category),
            r.icon.name == props.icon_name,
            r.icon.attention_name == props.attention_icon_name,
            r.icon.overlay_name == props.overlay_icon_name,
            opt_pixmap_view(r.icon.pixmap) == props.shown_pixmap(),
            r.icon.icon_paths == icon_paths,
            props.tool_tip matches Some(t) ==> r.tooltip == t,
            props.tool_tip is None ==> r.tooltip.is_empty(),
            r.menu_path == props.menu,
            r.is_menu == (props.item_is_menu == Some(true)),
            r.window_id == (match props.window_id {
                Some(w) => w,
                None => 0u32,
            }),
            r.bus_name == bus_name,
            r.object_path == object_path,
    {
        let pixmap = props.pick_pixmap();
        let status = match &props.status {
            Some(s) => TrayItemStatus::from_text(s.as_str()),
            None => TrayItemStatus::Passive,
        };
        proof {
            if props.status is None {
                assert(props.status_text() == Seq::<char>::empty());
                reveal_strlit("Active");
                reveal_strlit("NeedsAttention");
            }
        }
        let ItemProperties {
            id,
            title,
            status: _,
            category,
            icon_name,
            attention_icon_name,
            overlay_icon_name,
            icon_pixmap: _,
            attention_icon_pixmap: _,
            overlay_icon_pixmap: _,
            menu,
            item_is_menu,
            window_id,
            tool_tip,
        } = props;
        let tooltip = match tool_tip {
            Some(t) => t,
            None => ToolTip::empty(),
        };
        let is_menu = match item_is_menu {
            Some(b) => b,
            None => false,
        };
        let window_id = match window_id {
            Some(w) => w,
            None => 0,
        };
        TrayItem {
            id: text_or_new(id),
            title: text_or_new(title),
            status,
            category: text_or_new(category),
            icon: TrayIcon {
                name: icon_name,
                pixmap,
                attention_name: attention_icon_name,
                overlay_name: overlay_icon_name,
                icon_paths,
            },
            tooltip,
            menu_path: menu,
            is_menu,
            window_id,
            bus_name,
            object_path,
        }
    }
}

/// The uppercase form of a character, as `char::to_uppercase` gives it.
pub uninterp spec fn upper_of(c: char) -> Seq<char>;

/// Relies on `char::to_uppercase`: the result depends on the character
/// alone and holds one character or more.
#[verifier::external_body]
fn uppercase_char(c: char) -> (r: String)
    ensures
        r@ == upper_of(c),
        r@.len() >= 1,
{
    c.to_uppercase().to_string()
}

/// How an item's icon is drawn.
pub enum IconSource {
    /// An icon file.
    File(String),
    /// Pixels in RGBA order.
    Pixels { width: i32, height: i32, rgba: Vec<u8> },
    /// A letter standing for the item.
    Letter(String),
}

impl TrayItem {
    /// The text that names the item: its title, else its tooltip's title,
    /// else its id.
    pub open spec fn label_source(&self) -> Seq<char> {
        if self.title@.len() > 0 {
            self.title@
        } else if self.tooltip.title@.len() > 0 {
            self.tooltip.title@
        } else {
            self.id@
        }
    }

    /// The letter shown for an item without a usable icon: the first
    /// character of its name, uppercased; empty for an item with no name.
    pub open spec fn letter_of(&self) -> Seq<char> {
        if self.label_source().len() > 0 {
            upper_of(self.label_source()[0])
        } else {
            Seq::empty()
        }
    }

    /// The item's tooltip text.
    pub fn tooltip_text(&self) -> (r: String)
        ensures
            r@ == self.label_source(),
    {
        if self.title.as_str().unicode_len() > 0 {
            owned(self.title.as_str())
        } else if self.tooltip.title.as_str().unicode_len() > 0 {
            owned(self.tooltip.title.as_str())
        } else {
            owned(self.id.as_str())
        }
    }

    /// The letter shown in place of an icon.
    pub fn fallback_letter(&self) -> (r: String)
        ensures
            r@ == self.letter_of(),
    {
        let name = self.tooltip_text();
        if name.as_str().unicode_len() > 0 {
            uppercase_char(name.as_str().get_char(0))
        } else {
            String::new()
        }
    }

    /// How the item's icon is drawn: its first icon file when that file
    /// exists, else its pixmap when the pixmap's bytes cover its sides, else
    /// a letter.
    pub fn icon_source(&self, first_path_exists: bool) -> (r: IconSource)
        ensures
            self.icon.icon_paths@.len() > 0 && first_path_exists ==> (r matches IconSource::File(p)
                && p@ == self.icon.icon_paths@[0]@),
            !(self.icon.icon_paths@.len() > 0 && first_path_exists) ==> match self.icon.pixmap {
                Some(px) => if pixmap_fits(px.0 as int, px.1 as int, px.2@.len() as int) {
                    r matches IconSource::Pixels { width, height, rgba } && width == px.0 && height
                        == px.1 && rgba@ == argb_as_rgba(px.2@)
                } else {
                    r matches IconSource::Letter(l) && l@ == self.letter_of()
                },
                None => r matches IconSource::Letter(l) && l@ == self.letter_of(),
            },
    {
        if self.icon.icon_paths.len() > 0 && first_path_exists {
            return IconSource::File(owned(self.icon.icon_paths[0].as_str()));
        }
        match &self.icon.pixmap {
            Some(px) => match argb_to_rgba(px.0, px.1, &px.2) {
                Some(rgba) => IconSource::Pixels { width: px.0, height: px.1, rgba },
                None => IconSource::Letter(self.fallback_letter()),
            },
            None => IconSource::Letter(self.fallback_letter()),
        }
    }
}

/// Whether a property error says that the property is absent, which many
/// tray peers do for optional properties.
pub open spec fn missing_property(msg: Seq<char>) -> bool {
    occurs_in(msg, "No such property"@) || occurs_in(msg, "UnknownProperty"@) || occurs_in(
        msg,
        "InvalidArgs"@,
    ) || (occurs_in(msg, "Property"@) && occurs_in(msg, "was not found"@))
}

/// Whether an error reading an optional property is worth reporting: not
/// when it says the property is absent, nor, for a property some peers
/// send with another type, when it says the type is wrong.
pub fn should_report_property_error(message: &str, type_may_differ: bool) -> (r: bool)
    ensures
        r == !(missing_property(message@) || (type_may_differ && occurs_in(
            message@,
            "incorrect type"@,
        ))),
{
    let missing = contains_text(message, "No such property") || contains_text(message, "UnknownProperty")
        || contains_text(message, "InvalidArgs") || (contains_text(message, "Property") && contains_text(
        message,
        "was not found",
    ));
    let mismatch = type_may_differ && contains_text(message, "incorrect type");
    !(missing || mismatch)
}

} // verus!
