//! Compositor workspaces and their windows, grouped into one snapshot.

use vstd::prelude::*;
use crate::desktop::{opt_text, DesktopFile};
use crate::text::{decimal, decimal_text, owned, signed_decimal, signed_decimal_text};

verus! {

/// A window as the bar shows it.
pub struct HyprlandClient {
    pub class: String,
    pub title: String,
    pub initial_title: String,
    pub workspace_id: i32,
    pub icons: Vec<String>,
    pub desktop_file: Option<DesktopFile>,
}

/// A workspace as the compositor lists it.
pub struct WorkspaceInfo {
    pub id: i32,
    pub monitor: String,
    pub monitor_id: Option<i128>,
}

/// A workspace with its windows, in the order the compositor listed them.
pub struct HyprWorkspace {
    pub id: i32,
    pub monitor: String,
    pub monitor_id: Option<i128>,
    pub clients: Vec<HyprlandClient>,
}

/// A snapshot of the compositor: its workspaces by ascending id, and the
/// focused one.
pub struct HyprWorkspaces {
    pub map: Vec<HyprWorkspace>,
    pub active_id: Option<i32>,
}

pub open spec fn ids_ascending(ws: Seq<HyprWorkspace>) -> bool {
    forall|i: int, j: int| 0 <= i < j < ws.len() ==> #[trigger] ws[i].id < #[trigger] ws[j].id
}

/// The windows of `cs` that are on workspace `id`, in order.
pub open spec fn clients_on(cs: Seq<HyprlandClient>, id: i32) -> Seq<HyprlandClient>
    decreases cs.len(),
{
    if cs.len() == 0 {
        Seq::empty()
    } else if cs.last().workspace_id == id {
        clients_on(cs.drop_last(), id).push(cs.last())
    } else {
        clients_on(cs.drop_last(), id)
    }
}

pub open spec fn lists_id(infos: Seq<WorkspaceInfo>, id: i32) -> bool {
    exists|j: int| 0 <= j < infos.len() && infos[j].id == id
}

/// `w` carries the monitor of the last listing of its id.
pub open spec fn from_last_listing(infos: Seq<WorkspaceInfo>, w: HyprWorkspace) -> bool {
    exists|j: int|
        0 <= j < infos.len() && infos[j].id == w.id && infos[j].monitor == w.monitor
            && infos[j].monitor_id == w.monitor_id && (forall|k: int|
            j < k < infos.len() ==> infos[k].id != w.id)
}

fn position_of(ws: &Vec<HyprWorkspace>, id: i32) -> (r: (usize, bool))
    requires
        ids_ascending(ws@),
    ensures
        r.0 <= ws@.len(),
        r.1 ==> r.0 < ws@.len() && ws@[r.0 as int].id == id,
        !r.1 ==> (forall|i: int| 0 <= i < r.0 ==> ws@[i].id < id) && (forall|i: int|
            r.0 <= i < ws@.len() ==> ws@[i].id > id),
{
    let mut i: usize = 0;
    while i < ws.len()
        invariant
            ids_ascending(ws@),
            i <= ws@.len(),
            forall|k: int| 0 <= k < i ==> ws@[k].id < id,
        decreases ws@.len() - i,
    {
        if ws[i].id == id {
            return (i, true);
        }
        if ws[i].id > id {
            assert forall|j: int| i <= j < ws@.len() implies ws@[j].id > id by {
                if j > i {
                    assert(ws@[i as int].id < ws@[j].id);
                }
            }
            return (i, false);
        }
        i = i + 1;
    }
    (i, false)
}

impl HyprWorkspaces {
    /// Groups the compositor's windows under its workspaces. Every listed
    /// workspace appears once, under the monitor of its last listing; a
    /// window goes to the workspace whose id it names, in the order given,
    /// and a window on an unlisted workspace is left out.
    pub fn init(workspaces: Vec<WorkspaceInfo>, clients: Vec<HyprlandClient>, active_id: Option<i32>) -> (r:
        Self)
        ensures
            ids_ascending(r.map@),
            forall|id: i32|
                (exists|i: int| 0 <= i < r.map@.len() && r.map@[i].id == id) <==> lists_id(
                    workspaces@,
                    id,
                ),
            forall|i: int| 0 <= i < r.map@.len() ==> from_last_listing(workspaces@, #[trigger] r.map@[i]),
            forall|i: int|
                0 <= i < r.map@.len() ==> (#[trigger] r.map@[i]).clients@ == clients_on(
                    clients@,
                    r.map@[i].id,
                ),
            r.active_id == active_id,
    {
        let ghost infos = workspaces@;
        let mut map: Vec<HyprWorkspace> = Vec::new();
        let n = workspaces.len();
        let mut rest = workspaces;
        let mut k: usize = 0;
        while rest.len() > 0
            invariant
                n == infos.len(),
                k + rest@.len() == n,
                rest@ == infos.subrange(k as int, n as int),
                ids_ascending(map@),
                forall|id: i32|
                    (exists|i: int| 0 <= i < map@.len() && map@[i].id == id) <==> lists_id(
                        infos.subrange(0, k as int),
                        id,
                    ),
                forall|i: int| 0 <= i < map@.len() ==> from_last_listing(infos.subrange(0, k as int), #[trigger] map@[i]),
                forall|i: int| 0 <= i < map@.len() ==> (#[trigger] map@[i]).clients@.len() == 0,
            decreases rest@.len(),
        {
            let info = rest.remove(0);
            assert(info == infos[k as int]);
            let ghost pre = infos.subrange(0, k as int);
            let ghost post = infos.subrange(0, k + 1);
            assert(post =~= pre.push(info));
            let (p, found) = position_of(&map, info.id);
            let ghost old_map = map@;
            let w = HyprWorkspace {
                id: info.id,
                monitor: info.monitor,
                monitor_id: info.monitor_id,
                clients: Vec::new(),
            };
            assert(from_last_listing(post, w)) by {
                assert(post[k as int] == info);
            }
            if found {
                map.remove(p);
                map.insert(p, w);
                assert(map@ =~= old_map.update(p as int, w));
            } else {
                map.insert(p, w);
            }
            assert forall|id: i32|
                (exists|i: int| 0 <= i < map@.len() && map@[i].id == id) <==> lists_id(post, id) by {
                if lists_id(post, id) {
                    let j = choose|j: int| 0 <= j < post.len() && post[j].id == id;
                    if j < k {
                        assert(lists_id(pre, id));
                        let i = choose|i: int| 0 <= i < old_map.len() && old_map[i].id == id;
                        if found {
                            assert(map@[i].id == id);
                        } else if i < p {
                            assert(map@[i].id == id);
                        } else {
                            assert(map@[i + 1].id == id);
                        }
                    } else {
                        assert(map@[p as int].id == id);
                    }
                }
                if exists|i: int| 0 <= i < map@.len() && map@[i].id == id {
                    let i = choose|i: int| 0 <= i < map@.len() && map@[i].id == id;
                    if id == info.id {
                        assert(post[k as int].id == id);
                    } else {
                        let i0 = if found || i < p { i } else { i - 1 };
                        assert(old_map[i0].id == id);
                        let j = choose|j: int| 0 <= j < pre.len() && pre[j].id == id;
                        assert(post[j].id == id);
                    }
                }
            }
            assert forall|i: int| 0 <= i < map@.len() implies from_last_listing(post, #[trigger] map@[i]) by {
                if map@[i].id != info.id {
                    let i0 = if found || i < p { i } else { i - 1 };
                    assert(map@[i] == old_map[i0]);
                    assert(from_last_listing(pre, old_map[i0]));
                    let j = choose|j: int|
                        0 <= j < pre.len() && pre[j].id == old_map[i0].id && pre[j].monitor
                            == old_map[i0].monitor && pre[j].monitor_id == old_map[i0].monitor_id
                            && (forall|k2: int| j < k2 < pre.len() ==> pre[k2].id != old_map[i0].id);
                    assert(post[j] == pre[j]);
                    assert forall|k2: int| j < k2 < post.len() implies post[k2].id != map@[i].id by {
                        if k2 < pre.len() {
                            assert(post[k2] == pre[k2]);
                        }
                    }
                } else {
                    assert(map@[i] == w);
                }
            }
            assert(rest@ =~= infos.subrange(k + 1, n as int));
            k = k + 1;
        }
        assert(infos.subrange(0, n as int) =~= infos);
        let ghost cl = clients@;
        let cn = clients.len();
        let mut crest = clients;
        let mut c: usize = 0;
        assert forall|i: int| 0 <= i < map@.len() implies (#[trigger] map@[i]).clients@ == clients_on(
            cl.subrange(0, 0),
            map@[i].id,
        ) by {
            assert(map@[i].clients@ =~= Seq::<HyprlandClient>::empty());
        }
        while crest.len() > 0
            invariant
                cn == cl.len(),
                c + crest@.len() == cn,
                crest@ == cl.subrange(c as int, cn as int),
                ids_ascending(map@),
                forall|id: i32|
                    (exists|i: int| 0 <= i < map@.len() && map@[i].id == id) <==> lists_id(infos, id),
                forall|i: int| 0 <= i < map@.len() ==> from_last_listing(infos, #[trigger] map@[i]),
                forall|i: int|
                    0 <= i < map@.len() ==> (#[trigger] map@[i]).clients@ == clients_on(
                        cl.subrange(0, c as int),
                        map@[i].id,
                    ),
            decreases crest@.len(),
        {
            let client = crest.remove(0);
            assert(client == cl[c as int]);
            let ghost pre = cl.subrange(0, c as int);
            let ghost post = cl.subrange(0, c + 1);
            assert(post.drop_last() =~= pre);
            assert(post.last() == client);
            let ghost old_map = map@;
            let (p, found) = position_of(&map, client.workspace_id);
            if found {
                let mut w = map.remove(p);
                w.clients.push(client);
                map.insert(p, w);
                assert(map@ =~= old_map.update(p as int, w));
            }
            assert(map@.len() == old_map.len());
            assert forall|i: int| 0 <= i < map@.len() implies map@[i].id == old_map[i].id by {}
            assert forall|id: i32|
                (exists|i: int| 0 <= i < map@.len() && map@[i].id == id) <==> lists_id(infos, id) by {
                if exists|i: int| 0 <= i < map@.len() && map@[i].id == id {
                    let i = choose|i: int| 0 <= i < map@.len() && map@[i].id == id;
                    assert(old_map[i].id == id);
                }
                if lists_id(infos, id) {
                    let i = choose|i: int| 0 <= i < old_map.len() && old_map[i].id == id;
                    assert(map@[i].id == id);
                }
            }
            assert forall|i: int| 0 <= i < map@.len() implies (#[trigger] map@[i]).clients@ == clients_on(
                post,
                map@[i].id,
            ) by {
                assert(map@[i].id == old_map[i].id);
                if found && i == p {
                } else {
                    assert(map@[i] == old_map[i]);
                    if found {
                        assert(old_map[i].id != old_map[p as int].id);
                    }
                }
            }
            assert(crest@ =~= cl.subrange(c + 1, cn as int));
            c = c + 1;
        }
        assert(cl.subrange(0, cn as int) =~= cl);
        HyprWorkspaces { map, active_id }
    }
}

/// A workspace as the bar lists it: its id and whether it has the focus.
#[derive(Clone, Copy, Debug, PartialEq, Eq, Structural)]
pub struct WorkspaceRow {
    pub id: i32,
    pub active: bool,
}

impl HyprWorkspaces {
    pub open spec fn well_formed(&self) -> bool {
        ids_ascending(self.map@)
    }

    /// The workspaces in the order they are shown, strictly ascending by
    /// id, with the focused one marked: exactly one is marked when the
    /// focused id is listed, none otherwise.
    pub fn rows(&self) -> (r: Vec<WorkspaceRow>)
        requires
            self.well_formed(),
        ensures
            r@.len() == self.map@.len(),
            forall|i: int|
                0 <= i < r@.len() ==> (#[trigger] r@[i]).id == self.map@[i].id && r@[i].active == (
                self.active_id == Some(self.map@[i].id)),
            forall|i: int, j: int| 0 <= i < j < r@.len() ==> #[trigger] r@[i].id < #[trigger] r@[j].id,
            forall|i: int, j: int|
                0 <= i < r@.len() && 0 <= j < r@.len() && (#[trigger] r@[i]).active && (#[trigger] r@[j]).active
                    ==> i == j,
            (exists|i: int| 0 <= i < r@.len() && r@[i].active) <==> (self.active_id matches Some(a)
                && exists|i: int| 0 <= i < self.map@.len() && self.map@[i].id == a),
    {
        let mut out: Vec<WorkspaceRow> = Vec::new();
        let mut i: usize = 0;
        while i < self.map.len()
            invariant
                i <= self.map@.len(),
                out@.len() == i,
                forall|k: int|
                    0 <= k < i ==> (#[trigger] out@[k]).id == self.map@[k].id && out@[k].active == (
                    self.active_id == Some(self.map@[k].id)),
            decreases self.map@.len() - i,
        {
            let id = self.map[i].id;
            let active = match self.active_id {
                Some(a) => a == id,
                None => false,
            };
            out.push(WorkspaceRow { id, active });
            i = i + 1;
        }
        assert forall|i: int, j: int| 0 <= i < j < out@.len() implies #[trigger] out@[i].id < #[trigger] out@[j].id by {
            assert(self.map@[i].id < self.map@[j].id);
        }
        assert forall|i: int, j: int|
            0 <= i < out@.len() && 0 <= j < out@.len() && (#[trigger] out@[i]).active && (#[trigger] out@[j]).active
                implies i == j by {
            if i < j {
                assert(self.map@[i].id < self.map@[j].id);
            } else if j < i {
                assert(self.map@[j].id < self.map@[i].id);
            }
        }
        proof {
            if self.active_id is Some {
                let a = self.active_id->Some_0;
                if exists|i: int| 0 <= i < self.map@.len() && self.map@[i].id == a {
                    let i = choose|i: int| 0 <= i < self.map@.len() && self.map@[i].id == a;
                    assert(out@[i].active);
                }
            }
        }
        out
    }
}

impl HyprWorkspace {
    /// A one-line description for logs: id, monitor, monitor id and the
    /// number of windows.
    pub fn describe(&self) -> (r: String)
        ensures
            r@ == "Workspace {id: "@ + signed_decimal(self.id as int) + ", monitor("@ + self.monitor@ + "): "@
                + (match self.monitor_id {
                Some(m) => signed_decimal(m as int),
                None => "None"@,
            }) + ", clients: "@ + decimal(self.clients@.len()) + "}"@,
    {
        let mut s = owned("Workspace {id: ");
        s.append(signed_decimal_text(self.id as i128).as_str());
        s.append(", monitor(");
        s.append(self.monitor.as_str());
        s.append("): ");
        match self.monitor_id {
            Some(m) => {
                s.append(signed_decimal_text(m).as_str());
            },
            None => {
                s.append("None");
            },
        }
        s.append(", clients: ");
        s.append(decimal_text(self.clients.len() as u128).as_str());
        s.append("}");
        s
    }
}

/// The key a window's icon files are looked up by: the `Icon` of its
/// desktop entry when it has one, else its class.
pub open spec fn client_icon_key_of(class: Seq<char>, desktop_file: Option<DesktopFile>) -> Seq<char> {
    match desktop_file {
        Some(d) => match opt_text(d.icon) {
            Some(i) => i,
            None => class,
        },
        None => class,
    }
}

pub fn client_icon_key(class: &str, desktop_file: &Option<DesktopFile>) -> (r: String)
    ensures
        r@ == client_icon_key_of(class@, *desktop_file),
{
    match desktop_file {
        Some(d) => match &d.icon {
            Some(i) => owned(i.as_str()),
            None => owned(class),
        },
        None => owned(class),
    }
}

} // verus!
