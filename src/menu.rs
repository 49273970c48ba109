//! DBusMenu layouts: the tagged value type the layout reply is read into,
//! the menu tree built from it, and what the shown menu holds.

use vstd::prelude::*;
use crate::text::{owned, same_text};
use crate::tray::TrayItem;

verus! {

/// Deepest menu nesting that is read; deeper nodes are dropped.
pub const MAX_MENU_DEPTH: u32 = 32;

/// A D-Bus value as the menu logic reads it.
pub enum Variant {
    Str(String),
    Bool(bool),
    Int(i64),
    Array(Vec<Variant>),
    Struct(Vec<Variant>),
    Dict(Vec<(String, Variant)>),
    Other,
}

pub enum VariantView {
    Str(Seq<char>),
    Bool(bool),
    Int(int),
    Array(Seq<VariantView>),
    Struct(Seq<VariantView>),
    Dict(Seq<(Seq<char>, VariantView)>),
    Other,
}

impl Variant {
    pub open spec fn deep(&self) -> VariantView
        decreases self,
    {
        match self {
            Variant::Str(s) => VariantView::Str(s@),
            Variant::Bool(b) => VariantView::Bool(*b),
            Variant::Int(i) => VariantView::Int(*i as int),
            Variant::Array(vs) => VariantView::Array(
                Seq::new(
                    vs.len() as nat,
                    |i: int|
                        if 0 <= i < vs.len() {
                            vs[i].deep()
                        } else {
                            VariantView::Other
                        },
                ),
            ),
            Variant::Struct(vs) => VariantView::Struct(
                Seq::new(
                    vs.len() as nat,
                    |i: int|
                        if 0 <= i < vs.len() {
                            vs[i].deep()
                        } else {
                            VariantView::Other
                        },
                ),
            ),
            Variant::Dict(es) => VariantView::Dict(
                Seq::new(
                    es.len() as nat,
                    |i: int|
                        if 0 <= i < es.len() {
                            (es[i].0@, es[i].1.deep())
                        } else {
                            (Seq::empty(), VariantView::Other)
                        },
                ),
            ),
            Variant::Other => VariantView::Other,
        }
    }
}

pub open spec fn entries_view(es: Vec<(String, Variant)>) -> Seq<(Seq<char>, VariantView)> {
    Seq::new(es.len() as nat, |i: int| (es[i].0@, es[i].1.deep()))
}

/// A menu node: its id, its properties and its children in order.
pub struct MenuNode {
    pub id: i32,
    pub props: Vec<(String, Variant)>,
    pub children: Vec<MenuNode>,
}

pub struct MenuNodeView {
    pub id: i32,
    pub props: Seq<(Seq<char>, VariantView)>,
    pub children: Seq<MenuNodeView>,
}

impl MenuNode {
    pub open spec fn deep(&self) -> MenuNodeView
        decreases self,
    {
        MenuNodeView {
            id: self.id,
            props: entries_view(self.props),
            children: Seq::new(
                self.children.len() as nat,
                |i: int|
                    if 0 <= i < self.children.len() {
                        self.children[i].deep()
                    } else {
                        MenuNodeView { id: 0, props: Seq::empty(), children: Seq::empty() }
                    },
            ),
        }
    }
}

pub open spec fn opt_node_view(n: Option<MenuNode>) -> Option<MenuNodeView> {
    match n {
        Some(x) => Some(x.deep()),
        None => None,
    }
}

/// A layout node `(id, properties, children)` read with `depth` levels
/// left; `None` when it has another shape or no level is left.
pub open spec fn layout_node(v: VariantView, depth: nat) -> Option<MenuNodeView>
    decreases depth, 0nat,
{
    if depth == 0 {
        None
    } else {
        match v {
            VariantView::Struct(fs) => if fs.len() == 3 {
                match (fs[0], fs[1], fs[2]) {
                    (VariantView::Int(id), VariantView::Dict(props), VariantView::Array(cs)) => {
                        if i32::MIN <= id <= i32::MAX {
                            Some(
                                MenuNodeView {
                                    id: id as i32,
                                    props,
                                    children: layout_children(cs, (depth - 1) as nat),
                                },
                            )
                        } else {
                            None
                        }
                    },
                    _ => None,
                }
            } else {
                None
            },
            _ => None,
        }
    }
}

/// The children that read as layout nodes, in order; the others are
/// dropped.
pub open spec fn layout_children(cs: Seq<VariantView>, depth: nat) -> Seq<MenuNodeView>
    decreases depth, cs.len(),
{
    if cs.len() == 0 {
        Seq::empty()
    } else {
        let init = layout_children(cs.drop_last(), depth);
        match layout_node(cs.last(), depth) {
            Some(n) => init.push(n),
            None => init,
        }
    }
}

/// Reads a `GetLayout` node into a menu tree, `depth` levels deep at most.
/// A child that does not read is dropped and its siblings are kept.
pub fn parse_layout(v: Variant, depth: u32) -> (r: Option<MenuNode>)
    ensures
        opt_node_view(r) == layout_node(v.deep(), depth as nat),
    decreases depth, 0nat,
{
    if depth == 0 {
        return None;
    }
    let ghost vd = v.deep();
    match v {
        Variant::Struct(mut fs) => {
            if fs.len() != 3 {
                return None;
            }
            let ghost fs0 = fs@;
            assert(vd matches VariantView::Struct(s) && s.len() == 3 && s[0] == fs0[0].deep()
                && s[1] == fs0[1].deep() && s[2] == fs0[2].deep());
            let third = fs.pop().unwrap();
            let second = fs.pop().unwrap();
            let first = fs.pop().unwrap();
            assert(first == fs0[0] && second == fs0[1] && third == fs0[2]);
            match (first, second, third) {
                (Variant::Int(id), Variant::Dict(props), Variant::Array(cs)) => {
                    if id < i32::MIN as i64 || id > i32::MAX as i64 {
                        return None;
                    }
                    let ghost csd = Seq::new(
                        cs.len() as nat,
                        |i: int|
                            if 0 <= i < cs.len() {
                                cs[i].deep()
                            } else {
                                VariantView::Other
                            },
                    );
                    let children = parse_children(cs, depth - 1);
                    let node = MenuNode { id: id as i32, props, children };
                    assert(node.deep().children =~= layout_children(csd, (depth - 1) as nat));
                    assert(node.deep().props =~= entries_view(node.props));
                    assert(fs0[1].deep() matches VariantView::Dict(p) && p =~= entries_view(node.props));
                    assert(fs0[2].deep() matches VariantView::Array(a) && a =~= csd);
                    assert(layout_node(vd, depth as nat) == Some(node.deep()));
                    Some(node)
                },
                _ => None,
            }
        },
        _ => None,
    }
}

fn parse_children(cs: Vec<Variant>, depth: u32) -> (r: Vec<MenuNode>)
    ensures
        Seq::new(r.len() as nat, |i: int| r[i].deep()) == layout_children(
            Seq::new(cs.len() as nat, |i: int| if 0 <= i < cs.len() { cs[i].deep() } else { VariantView::Other }),
            depth as nat,
        ),
    decreases depth, 1nat,
{
    let ghost orig = cs@;
    let ghost od = Seq::new(cs.len() as nat, |i: int| if 0 <= i < cs.len() { cs[i].deep() } else { VariantView::Other });
    let mut rest = cs;
    let mut out: Vec<MenuNode> = Vec::new();
    let mut i: usize = 0;
    let n = rest.len();
    while i < n
        invariant
            n == orig.len(),
            od.len() == n,
            forall|k: int| 0 <= k < n ==> od[k] == #[trigger] orig[k].deep(),
            i <= n,
            rest@ == orig.subrange(i as int, n as int),
            Seq::new(out.len() as nat, |k: int| out[k].deep()) == layout_children(od.subrange(0, i as int), depth as nat),
        decreases n - i,
    {
        let c = rest.remove(0);
        assert(c == orig[i as int]);
        let ghost before = Seq::new(out.len() as nat, |k: int| out[k].deep());
        let parsed = parse_layout(c, depth);
        assert(od.subrange(0, i + 1).drop_last() =~= od.subrange(0, i as int));
        assert(od.subrange(0, i + 1).last() == od[i as int]);
        match parsed {
            Some(node) => {
                out.push(node);
                assert(Seq::new(out.len() as nat, |k: int| out[k].deep()) =~= before.push(out[out.len() - 1].deep()));
            },
            None => {},
        }
        assert(rest@ =~= orig.subrange(i + 1, n as int));
        i = i + 1;
    }
    assert(od.subrange(0, n as int) =~= od);
    out
}

/// The first value stored under `key`.
pub open spec fn prop_of(ps: Seq<(Seq<char>, VariantView)>, key: Seq<char>) -> Option<VariantView>
    decreases ps.len(),
{
    if ps.len() == 0 {
        None
    } else if ps[0].0 == key {
        Some(ps[0].1)
    } else {
        prop_of(ps.drop_first(), key)
    }
}

/// A text property; empty when absent or not text.
pub open spec fn text_prop(ps: Seq<(Seq<char>, VariantView)>, key: Seq<char>) -> Seq<char> {
    match prop_of(ps, key) {
        Some(VariantView::Str(s)) => s,
        _ => Seq::empty(),
    }
}

pub open spec fn is_separator(n: MenuNodeView) -> bool {
    text_prop(n.props, "type"@) == "separator"@
}

/// Whether the item can be activated: the `enabled` flag, `true` when
/// absent or not a flag.
pub open spec fn enabled_of(n: MenuNodeView) -> bool {
    match prop_of(n.props, "enabled"@) {
        Some(VariantView::Bool(b)) => b,
        _ => true,
    }
}

/// How many children a menu shows: all but a trailing separator.
pub open spec fn shown_count(n: MenuNodeView) -> nat {
    if n.children.len() > 0 && is_separator(n.children.last()) {
        (n.children.len() - 1) as nat
    } else {
        n.children.len()
    }
}

/// One line of a shown menu.
pub enum MenuEntry {
    Separator { id: i32 },
    Submenu { label: String, entries: Vec<MenuEntry> },
    Action { id: i32, label: String, enabled: bool },
}

pub enum MenuEntryView {
    Separator { id: i32 },
    Submenu { label: Seq<char>, entries: Seq<MenuEntryView> },
    Action { id: i32, label: Seq<char>, enabled: bool },
}

impl MenuEntry {
    pub open spec fn deep(&self) -> MenuEntryView
        decreases self,
    {
        match self {
            MenuEntry::Separator { id } => MenuEntryView::Separator { id: *id },
            MenuEntry::Submenu { label, entries } => MenuEntryView::Submenu {
                label: label@,
                entries: Seq::new(
                    entries.len() as nat,
                    |i: int|
                        if 0 <= i < entries.len() {
                            entries[i].deep()
                        } else {
                            MenuEntryView::Separator { id: 0 }
                        },
                ),
            },
            MenuEntry::Action { id, label, enabled } => MenuEntryView::Action {
                id: *id,
                label: label@,
                enabled: *enabled,
            },
        }
    }
}

pub open spec fn entries_deep(es: Seq<MenuEntry>) -> Seq<MenuEntryView> {
    Seq::new(es.len(), |i: int| es[i].deep())
}

/// The entries a node's menu shows, in order: a separator child is a
/// separator (none at the end), a child with children a submenu labelled by
/// its `label`, any other child an action.
pub open spec fn shown_entries(n: MenuNodeView) -> Seq<MenuEntryView>
    decreases n,
{
    Seq::new(
        shown_count(n),
        |i: int|
            if 0 <= i < n.children.len() {
                let c = n.children[i];
                if is_separator(c) {
                    MenuEntryView::Separator { id: c.id }
                } else if c.children.len() > 0 {
                    MenuEntryView::Submenu {
                        label: text_prop(c.props, "label"@),
                        entries: shown_entries(c),
                    }
                } else {
                    MenuEntryView::Action {
                        id: c.id,
                        label: text_prop(c.props, "label"@),
                        enabled: enabled_of(c),
                    }
                }
            } else {
                MenuEntryView::Separator { id: 0 }
            },
    )
}

fn find_prop<'a>(ps: &'a Vec<(String, Variant)>, key: &str) -> (r: Option<&'a Variant>)
    ensures
        match r {
            Some(v) => prop_of(entries_view(*ps), key@) == Some(v.deep()),
            None => prop_of(entries_view(*ps), key@) is None,
        },
{
    let ghost all = entries_view(*ps);
    assert(all.subrange(0, all.len() as int) =~= all);
    let mut i: usize = 0;
    while i < ps.len()
        invariant
            all == entries_view(*ps),
            i <= ps@.len(),
            prop_of(all, key@) == prop_of(all.subrange(i as int, all.len() as int), key@),
        decreases ps@.len() - i,
    {
        let ghost rest = all.subrange(i as int, all.len() as int);
        if same_text(ps[i].0.as_str(), key) {
            return Some(&ps[i].1);
        }
        assert(rest.drop_first() =~= all.subrange(i + 1, all.len() as int));
        i = i + 1;
    }
    None
}

fn text_prop_of(ps: &Vec<(String, Variant)>, key: &str) -> (r: String)
    ensures
        r@ == text_prop(entries_view(*ps), key@),
{
    match find_prop(ps, key) {
        Some(Variant::Str(s)) => owned(s.as_str()),
        _ => String::new(),
    }
}

fn separator_node(n: &MenuNode) -> (r: bool)
    ensures
        r == is_separator(n.deep()),
{
    let t = text_prop_of(&n.props, "type");
    same_text(t.as_str(), "separator")
}

fn enabled_node(n: &MenuNode) -> (r: bool)
    ensures
        r == enabled_of(n.deep()),
{
    match find_prop(&n.props, "enabled") {
        Some(Variant::Bool(b)) => *b,
        _ => true,
    }
}

/// The entries the menu of `node` shows, as `shown_entries` states them.
pub fn menu_entries(node: &MenuNode) -> (r: Vec<MenuEntry>)
    ensures
        entries_deep(r@) == shown_entries(node.deep()),
    decreases node,
{
    let ghost nd = node.deep();
    let len = node.children.len();
    let shown = if len > 0 && separator_node(&node.children[len - 1]) {
        len - 1
    } else {
        len
    };
    assert(len > 0 ==> nd.children.last() == node.children[len - 1].deep());
    assert(shown == shown_count(nd));
    let mut out: Vec<MenuEntry> = Vec::new();
    let mut i: usize = 0;
    while i < shown
        invariant
            nd == node.deep(),
            shown == shown_count(nd),
            shown <= len,
            len == node.children.len(),
            i <= shown,
            entries_deep(out@) == shown_entries(nd).subrange(0, i as int),
        decreases shown - i,
    {
        let c = &node.children[i];
        assert(nd.children[i as int] == c.deep());
        let ghost before = entries_deep(out@);
        let entry = if separator_node(c) {
            MenuEntry::Separator { id: c.id }
        } else if c.children.len() > 0 {
            let sub = menu_entries(c);
            let e = MenuEntry::Submenu { label: text_prop_of(&c.props, "label"), entries: sub };
            assert(e.deep() matches MenuEntryView::Submenu { entries, .. } && entries =~= entries_deep(sub@));
            e
        } else {
            MenuEntry::Action {
                id: c.id,
                label: text_prop_of(&c.props, "label"),
                enabled: enabled_node(c),
            }
        };
        out.push(entry);
        assert(entries_deep(out@) =~= before.push(entry.deep()));
        assert(shown_entries(nd).subrange(0, i + 1) =~= shown_entries(nd).subrange(0, i as int).push(
            shown_entries(nd)[i as int],
        ));
        i = i + 1;
    }
    assert(shown_entries(nd).subrange(0, shown as int) =~= shown_entries(nd));
    out
}

/// A request to tell a tray item's peer that a menu entry was activated.
pub struct MenuActivation {
    pub bus_name: String,
    pub menu_path: String,
    pub id: i32,
    pub event_id: String,
    pub timestamp: u32,
}

impl TrayItem {
    /// The object path to ask for the item's menu; none when the item has
    /// no menu path or its path is empty or `/`.
    pub open spec fn menu_target(&self) -> Option<Seq<char>> {
        match self.menu_path {
            Some(p) => if p@.len() == 0 || p@ == "/"@ {
                None
            } else {
                Some(p@)
            },
            None => None,
        }
    }

    pub fn menu_request_path(&self) -> (r: Option<String>)
        ensures
            r matches Some(p) ==> self.menu_target() == Some(p@),
            r is None ==> self.menu_target() is None,
    {
        match &self.menu_path {
            Some(p) => {
                if p.as_str().unicode_len() == 0 || same_text(p.as_str(), "/") {
                    None
                } else {
                    Some(owned(p.as_str()))
                }
            },
            None => None,
        }
    }

    /// The `clicked` event for menu entry `id`, sent at `timestamp` (Unix
    /// seconds) to the item's menu object; none when the item has no menu.
    pub fn activation(&self, id: i32, timestamp: u32) -> (r: Option<MenuActivation>)
        ensures
            r is Some <==> self.menu_target() is Some,
            r matches Some(a) ==> {
                &&& Some(a.menu_path@) == self.menu_target()
                &&& a.bus_name@ == self.bus_name@
                &&& a.id == id
                &&& a.event_id@ == "clicked"@
                &&& a.timestamp == timestamp
            },
    {
        match self.menu_request_path() {
            Some(path) => Some(
                MenuActivation {
                    bus_name: owned(self.bus_name.as_str()),
                    menu_path: path,
                    id,
                    event_id: owned("clicked"),
                    timestamp,
                },
            ),
            None => None,
        }
    }
}

} // verus!
