//! Properties that hold across the controller's operations.
use vstd::prelude::*;

use crate::controller::ControllerView;
use crate::handlers::gui::{
    first_add_failure, first_remove_failure, gui_add_step, gui_crash_step, gui_remove_step, gui_spawn_step,
    gui_step,
};
use crate::handlers::drone::drone_event_step;
use crate::handlers::routing::{flood_roster, flooding, init_flooding, shortcut_step};
use crate::messages::{
    plain, Action, ChatClientCommand, CommunicationServerCommand, ContentServerCommand, Delivery, Dispatch,
    DroneEvent, GUICommands, MediaClientCommand, Rejection,
};
use crate::network::{spec_pdr_in_range, ChannelRef, NodeId, NodeKind, NodeType, Packet, Pdr};
use crate::seq_util::{lemma_without_contains, lemma_without_absent, lemma_without_len, lemma_without_not_contains, lemma_without_push, without};
use crate::support::{add_route, crash_fold, crash_step, spawn_step, spawnable, crash_route, link_back, link_step, unlink_step};
use crate::verify::{min_links, spec_check_add, spec_check_remove, spec_node_type};

verus! {

proof fn lemma_unlink_keeps_endpoints(s: ControllerView, kind: NodeKind, target: NodeId, n: NodeId)
    ensures
        unlink_step(s, kind, target, n).0.same_endpoints(s),
{
}

proof fn lemma_link_keeps_endpoints(s: ControllerView, kind: NodeKind, target: NodeId, n: NodeId, ch: ChannelRef)
    ensures
        link_step(s, kind, target, n, ch).0.same_endpoints(s),
{
}

proof fn lemma_crash_fold_keeps_endpoints(s: ControllerView, drone: NodeId, ns: Seq<NodeId>)
    ensures
        crash_fold(s, drone, ns).0.same_endpoints(s),
    decreases ns.len(),
{
    if ns.len() > 0 {
        lemma_crash_fold_keeps_endpoints(s, drone, ns.drop_last());
        let prev = crash_fold(s, drone, ns.drop_last()).0;
        lemma_unlink_keeps_endpoints(prev, crate::support::crash_route(prev, ns.last()), ns.last(), drone);
    }
}

proof fn lemma_link_back_keeps_endpoints(s: ControllerView, ns: Seq<NodeId>, id: NodeId)
    ensures
        link_back(s, ns, id).same_endpoints(s),
    decreases ns.len(),
{
    if ns.len() > 0 {
        lemma_link_back_keeps_endpoints(s, ns.drop_last(), id);
    }
}

proof fn lemma_gui_spawn_keeps_endpoints(s: ControllerView, id: NodeId, ns: Seq<NodeId>, pdr: Pdr, factory: usize)
    ensures
        gui_spawn_step(s, id, ns, pdr, factory).0.same_endpoints(s),
{
    lemma_link_back_keeps_endpoints(s.with_drone(id).with_neighbors(id, ns), ns, id);
}

proof fn lemma_gui_crash_keeps_endpoints(s: ControllerView, drone: NodeId)
    ensures
        gui_crash_step(s, drone).0.same_endpoints(s),
{
    if s.has_entry(drone) {
        lemma_crash_fold_keeps_endpoints(s, drone, s.neighbor[drone]);
    }
}

proof fn lemma_gui_remove_keeps_endpoints(s: ControllerView, a: NodeId, b: NodeId)
    ensures
        gui_remove_step(s, a, b).0.same_endpoints(s),
{
    if s.route(b) is Some {
        lemma_unlink_keeps_endpoints(s, s.route(b).unwrap(), b, a);
    }
}

proof fn lemma_gui_add_keeps_endpoints(s: ControllerView, a: NodeId, b: NodeId)
    ensures
        gui_add_step(s, a, b).0.same_endpoints(s),
{
    if add_route(s, b) is Some {
        let ch = ChannelRef { kind: crash_route(s, a), owner: a };
        lemma_link_keeps_endpoints(s, add_route(s, b).unwrap(), b, a, ch);
    }
}

/// A GUI request never changes which clients and servers are registered, so it never
/// changes who a global flooding reaches: a flooding decided during a request and carried
/// out after it asks the same nodes.
pub proof fn law_gui_keeps_flooding_targets(s: ControllerView, command: GUICommands, factory: usize)
    ensures
        gui_step(s, command, factory).0.same_endpoints(s),
        flooding(gui_step(s, command, factory).0) == flooding(s),
{
    match command {
        GUICommands::Spawn(id, ns, pdr) => lemma_gui_spawn_keeps_endpoints(s, id, ns@, pdr, factory),
        GUICommands::Crash(drone) => lemma_gui_crash_keeps_endpoints(s, drone),
        GUICommands::RemoveSender(a, b) => lemma_gui_remove_keeps_endpoints(s, a, b),
        GUICommands::AddSender(a, b) => lemma_gui_add_keeps_endpoints(s, a, b),
        _ => {},
    }
}

/// Linking two drones and then unlinking them restores the state: when neither lists
/// the other and each has at least one neighbor, a GUI `AddSender` followed by a GUI
/// `RemoveSender` between the same two drones is accepted both times and leaves every
/// roster and neighbor list as it was.
pub proof fn law_add_then_remove_restores(s: ControllerView, a: NodeId, b: NodeId, k1: usize, k2: usize)
    requires
        a != b,
        s.drones.contains(a),
        s.drones.contains(b),
        s.has_entry(a),
        s.has_entry(b),
        !s.neighbor[a].contains(b),
        !s.neighbor[b].contains(a),
        s.neighbor[a].len() > 0,
        s.neighbor[b].len() > 0,
    ensures
        gui_step(s, GUICommands::AddSender(a, b), k1).2 is None,
        gui_step(gui_step(s, GUICommands::AddSender(a, b), k1).0, GUICommands::RemoveSender(a, b), k2).2 is None,
        gui_step(gui_step(s, GUICommands::AddSender(a, b), k1).0, GUICommands::RemoveSender(a, b), k2).0 == s,
{
    let t = gui_step(s, GUICommands::AddSender(a, b), k1).0;
    assert(t == s.linked(b, a).linked(a, b));
    lemma_without_push(s.neighbor[b], a, a);
    lemma_without_absent(s.neighbor[b], a);
    lemma_without_push(s.neighbor[a], b, b);
    lemma_without_absent(s.neighbor[a], b);
    assert(t.neighbor[a].contains(b)) by {
        assert(t.neighbor[a][t.neighbor[a].len() - 1] == b);
    }
    let u = gui_step(t, GUICommands::RemoveSender(a, b), k2).0;
    assert(u == t.unlinked(b, a).unlinked(a, b));
    assert(u.neighbor =~= s.neighbor);
}

/// Telling a neighbor of a crashed drone to drop it edits that neighbor's list when the
/// neighbor is registered somewhere, and nothing otherwise.
proof fn lemma_crash_unlink(s: ControllerView, n: NodeId, d: NodeId)
    ensures
        unlink_step(s, crash_route(s, n), n, d).0 == if s.is_known(n) { s.unlinked(n, d) } else { s },
{
}

proof fn lemma_crash_fold_effect(s: ControllerView, d: NodeId, ns: Seq<NodeId>)
    ensures
        crash_fold(s, d, ns).0.drones == s.drones,
        crash_fold(s, d, ns).0.same_endpoints(s),
        crash_fold(s, d, ns).0.neighbor.dom() == s.neighbor.dom(),
        forall|m: NodeId| !ns.contains(m) && s.has_entry(m)
            ==> crash_fold(s, d, ns).0.neighbor[m] == s.neighbor[m],
        forall|m: NodeId| #[trigger] ns.contains(m) && s.is_known(m) && s.has_entry(m)
            ==> crash_fold(s, d, ns).0.neighbor[m] == without(s.neighbor[m], d),
        forall|m: NodeId| #[trigger] ns.contains(m) && !s.is_known(m) && m != d && s.has_entry(m)
            ==> crash_fold(s, d, ns).0.neighbor[m] == s.neighbor[m],
    decreases ns.len(),
{
    if ns.len() > 0 {
        let init = ns.drop_last();
        let last = ns.last();
        lemma_crash_fold_effect(s, d, init);
        let prev = crash_fold(s, d, init).0;
        lemma_crash_unlink(prev, last, d);
        let next = crash_fold(s, d, ns).0;
        assert(next.neighbor.dom() =~= s.neighbor.dom());
        assert forall|m: NodeId| #[trigger] ns.contains(m) && s.is_known(m) && s.has_entry(m)
            implies next.neighbor[m] == without(s.neighbor[m], d) by {
            if m == last {
                assert(prev.is_known(last));
                assert(prev.neighbor.dom().contains(last));
                assert(next.neighbor[last] == without(prev.neighbor[last], d));
                if init.contains(m) {
                    lemma_without_not_contains(s.neighbor[m], d);
                    lemma_without_absent(without(s.neighbor[m], d), d);
                } else {
                    assert(prev.neighbor[m] == s.neighbor[m]);
                }
            } else {
                let i = choose|i: int| 0 <= i < ns.len() && ns[i] == m;
                assert(i < ns.len() - 1);
                assert(init[i] == m);
                assert(init.contains(m));
                assert(next.neighbor[m] == prev.neighbor[m]);
            }
        }
        assert forall|m: NodeId| #[trigger] ns.contains(m) && !s.is_known(m) && m != d && s.has_entry(m)
            implies next.neighbor[m] == s.neighbor[m] by {
            if m != last {
                let i = choose|i: int| 0 <= i < ns.len() && ns[i] == m;
                assert(i < ns.len() - 1);
                assert(init[i] == m);
                assert(init.contains(m));
            } else if init.contains(m) {
            } else {
                assert(prev.neighbor[m] == s.neighbor[m]);
            }
        }
        assert forall|m: NodeId| !ns.contains(m) && s.has_entry(m)
            implies next.neighbor[m] == s.neighbor[m] by {
            assert(!init.contains(m)) by {
                if init.contains(m) {
                    let i = choose|i: int| 0 <= i < init.len() && init[i] == m;
                    assert(ns[i] == m);
                }
            }
            assert(m != last) by {
                assert(ns[ns.len() - 1] == last);
            }
        }
    }
}

/// An accepted crash takes the drone out of the topology: it is no longer a drone, it
/// has no neighbor list, and no registered node that it listed as a neighbor lists it any
/// more. Every other neighbor list is left as it was.
pub proof fn law_crash_removes_drone(s: ControllerView, d: NodeId, factory: usize)
    requires
        gui_step(s, GUICommands::Crash(d), factory).2 is None,
    ensures
        !gui_step(s, GUICommands::Crash(d), factory).0.drones.contains(d),
        !gui_step(s, GUICommands::Crash(d), factory).0.has_entry(d),
        forall|n: NodeId| #[trigger] s.neighbor[d].contains(n) && n != d && s.is_known(n) && s.has_entry(n)
            ==> gui_step(s, GUICommands::Crash(d), factory).0.has_entry(n)
                && !gui_step(s, GUICommands::Crash(d), factory).0.neighbor[n].contains(d),
        forall|m: NodeId| m != d && !s.neighbor[d].contains(m) && s.has_entry(m)
            ==> gui_step(s, GUICommands::Crash(d), factory).0.has_entry(m)
                && gui_step(s, GUICommands::Crash(d), factory).0.neighbor[m] == s.neighbor[m],
{
    let ns = s.neighbor[d];
    lemma_crash_fold_effect(s, d, ns);
    let r1 = crash_fold(s, d, ns).0;
    lemma_without_not_contains(s.drones, d);
    assert forall|n: NodeId| #[trigger] s.neighbor[d].contains(n) && n != d && s.is_known(n) && s.has_entry(n)
        implies !r1.neighbor[n].contains(d) by {
        lemma_without_not_contains(s.neighbor[n], d);
    }
    let r = gui_step(s, GUICommands::Crash(d), factory).0;
    assert(r == r1.without_drone(d).without_entry(d));
}

proof fn lemma_flood_roster(ids: Seq<NodeId>, k: NodeKind)
    requires
        ids.no_duplicates(),
        k != NodeKind::Drone,
    ensures
        flood_roster(ids, k).len() == ids.len(),
        forall|i: int| 0 <= i < ids.len() ==> #[trigger] flood_roster(ids, k)[i] == plain(init_flooding(k, ids[i])),
        flood_roster(ids, k).no_duplicates(),
{
    let f = flood_roster(ids, k);
    assert forall|i: int, j: int| 0 <= i < f.len() && 0 <= j < f.len() && i != j implies f[i] != f[j] by {
        assert(ids[i] != ids[j]);
    }
}

proof fn lemma_concat_no_duplicates(a: Seq<Dispatch>, b: Seq<Dispatch>)
    requires
        a.no_duplicates(),
        b.no_duplicates(),
        forall|i: int, j: int| 0 <= i < a.len() && 0 <= j < b.len() ==> a[i] != b[j],
    ensures
        (a + b).no_duplicates(),
{
    let c = a + b;
    assert forall|i: int, j: int| 0 <= i < c.len() && 0 <= j < c.len() && i != j implies c[i] != c[j] by {
        if i < a.len() && j >= a.len() {
            assert(c[j] == b[j - a.len()]);
        } else if j < a.len() && i >= a.len() {
            assert(c[i] == b[i - a.len()]);
        }
    }
}

/// The roster whose flooding request a dispatch is, if it is one.
pub open spec fn flood_kind(d: Dispatch) -> Option<NodeKind> {
    match d.action {
        Action::ChatClient(_, ChatClientCommand::InitFlooding) => Some(NodeKind::ChatClient),
        Action::MediaClient(_, MediaClientCommand::InitFlooding) => Some(NodeKind::MediaClient),
        Action::TextServer(_, ContentServerCommand::InitFlooding) => Some(NodeKind::TextServer),
        Action::MediaServer(_, ContentServerCommand::InitFlooding) => Some(NodeKind::MediaServer),
        Action::CommunicationServer(_, CommunicationServerCommand::InitFlooding) => Some(NodeKind::CommunicationServer),
        _ => None,
    }
}

/// A global flooding asks every registered client and server exactly once, and no
/// other node: it holds one request per node of the chat client, media client, text
/// server, media server and communication server rosters, and no request twice.
pub proof fn law_flooding_asks_each_endpoint_once(s: ControllerView)
    requires
        s.wf(),
    ensures
        flooding(s).no_duplicates(),
        flooding(s).len() == s.cclients.len() + s.mclients.len() + s.text_servers.len()
            + s.media_servers.len() + s.comm_servers.len(),
        forall|k: NodeKind, id: NodeId| k != NodeKind::Drone && #[trigger] s.is_in(k, id)
            ==> flooding(s).contains(plain(init_flooding(k, id))),
        forall|i: int| 0 <= i < flooding(s).len() ==> #[trigger] flood_kind(flooding(s)[i]) is Some,
{
    let a = flood_roster(s.cclients, NodeKind::ChatClient);
    let b = flood_roster(s.mclients, NodeKind::MediaClient);
    let c = flood_roster(s.text_servers, NodeKind::TextServer);
    let d = flood_roster(s.media_servers, NodeKind::MediaServer);
    let e = flood_roster(s.comm_servers, NodeKind::CommunicationServer);
    lemma_flood_roster(s.cclients, NodeKind::ChatClient);
    lemma_flood_roster(s.mclients, NodeKind::MediaClient);
    lemma_flood_roster(s.text_servers, NodeKind::TextServer);
    lemma_flood_roster(s.media_servers, NodeKind::MediaServer);
    lemma_flood_roster(s.comm_servers, NodeKind::CommunicationServer);
    assert forall|i: int| 0 <= i < a.len() implies flood_kind(#[trigger] a[i]) == Some(NodeKind::ChatClient) by {}
    assert forall|i: int| 0 <= i < b.len() implies flood_kind(#[trigger] b[i]) == Some(NodeKind::MediaClient) by {}
    assert forall|i: int| 0 <= i < c.len() implies flood_kind(#[trigger] c[i]) == Some(NodeKind::TextServer) by {}
    assert forall|i: int| 0 <= i < d.len() implies flood_kind(#[trigger] d[i]) == Some(NodeKind::MediaServer) by {}
    assert forall|i: int| 0 <= i < e.len() implies flood_kind(#[trigger] e[i]) == Some(NodeKind::CommunicationServer) by {}
    let ab = a + b;
    lemma_concat_no_duplicates(a, b);
    assert forall|i: int| 0 <= i < ab.len() implies #[trigger] flood_kind(ab[i]) == Some(NodeKind::ChatClient)
        || flood_kind(ab[i]) == Some(NodeKind::MediaClient) by {
        if i >= a.len() {
            assert(ab[i] == b[i - a.len()]);
        }
    }
    let abc = ab + c;
    lemma_concat_no_duplicates(ab, c);
    assert forall|i: int| 0 <= i < abc.len() implies #[trigger] flood_kind(abc[i]) == Some(NodeKind::ChatClient)
        || flood_kind(abc[i]) == Some(NodeKind::MediaClient) || flood_kind(abc[i]) == Some(NodeKind::TextServer) by {
        if i >= ab.len() {
            assert(abc[i] == c[i - ab.len()]);
        }
    }
    let abcd = abc + d;
    lemma_concat_no_duplicates(abc, d);
    assert forall|i: int| 0 <= i < abcd.len() implies #[trigger] flood_kind(abcd[i]) != Some(NodeKind::CommunicationServer)
        && flood_kind(abcd[i]) is Some by {
        if i >= abc.len() {
            assert(abcd[i] == d[i - abc.len()]);
        }
    }
    lemma_concat_no_duplicates(abcd, e);
    let all = abcd + e;
    assert(all == flooding(s));
    assert forall|i: int| 0 <= i < all.len() implies #[trigger] flood_kind(all[i]) is Some by {
        if i >= abcd.len() {
            assert(all[i] == e[i - abcd.len()]);
        }
    }
    assert forall|k: NodeKind, id: NodeId| k != NodeKind::Drone && #[trigger] s.is_in(k, id)
        implies all.contains(plain(init_flooding(k, id))) by {
        let r = s.roster(k);
        let j = choose|j: int| 0 <= j < r.len() && r[j] == id;
        let off: int = match k {
            NodeKind::ChatClient => 0,
            NodeKind::MediaClient => a.len() as int,
            NodeKind::TextServer => ab.len() as int,
            NodeKind::MediaServer => abc.len() as int,
            _ => abcd.len() as int,
        };
        assert(all[off + j] == plain(init_flooding(k, id)));
    }
}

proof fn lemma_link_back_effect(s: ControllerView, ns: Seq<NodeId>, id: NodeId)
    requires
        forall|i: int| 0 <= i < ns.len() ==> s.has_entry(#[trigger] ns[i]),
    ensures
        link_back(s, ns, id).drones == s.drones,
        link_back(s, ns, id).same_endpoints(s),
        link_back(s, ns, id).neighbor.dom() == s.neighbor.dom(),
        forall|m: NodeId| s.has_entry(m) ==> without(#[trigger] link_back(s, ns, id).neighbor[m], id) == without(s.neighbor[m], id),
        forall|m: NodeId| !ns.contains(m) && s.has_entry(m) ==> link_back(s, ns, id).neighbor[m] == s.neighbor[m],
        forall|m: NodeId| #[trigger] ns.contains(m) ==> link_back(s, ns, id).neighbor[m].len() > s.neighbor[m].len(),
        forall|m: NodeId| ns.contains(m) ==> #[trigger] link_back(s, ns, id).neighbor[m].contains(id),
    decreases ns.len(),
{
    if ns.len() > 0 {
        let init = ns.drop_last();
        let last = ns.last();
        assert forall|i: int| 0 <= i < init.len() implies s.has_entry(#[trigger] init[i]) by {
            assert(init[i] == ns[i]);
        }
        lemma_link_back_effect(s, init, id);
        let prev = link_back(s, init, id);
        let next = link_back(s, ns, id);
        assert(s.has_entry(ns[ns.len() - 1]));
        assert(next == prev.with_neighbors(last, prev.neighbor[last].push(id)));
        lemma_without_push(prev.neighbor[last], id, id);
        assert(next.neighbor.dom() =~= s.neighbor.dom());
        assert forall|m: NodeId| s.has_entry(m) implies without(#[trigger] next.neighbor[m], id) == without(s.neighbor[m], id) by {
            if m != last {
                assert(next.neighbor[m] == prev.neighbor[m]);
            }
        }
        assert forall|m: NodeId| !ns.contains(m) && s.has_entry(m) implies next.neighbor[m] == s.neighbor[m] by {
            assert(m != last) by {
                assert(ns[ns.len() - 1] == last);
            }
            assert(!init.contains(m)) by {
                if init.contains(m) {
                    let i = choose|i: int| 0 <= i < init.len() && init[i] == m;
                    assert(ns[i] == m);
                }
            }
        }
        assert forall|m: NodeId| #[trigger] ns.contains(m) implies next.neighbor[m].len() > s.neighbor[m].len() by {
            if m == last {
                if !init.contains(m) {
                    assert(prev.neighbor[m] == s.neighbor[m]);
                }
            } else {
                let i = choose|i: int| 0 <= i < ns.len() && ns[i] == m;
                assert(i < ns.len() - 1);
                assert(init[i] == m);
                assert(init.contains(m));
            }
        }
        assert forall|m: NodeId| ns.contains(m) implies #[trigger] next.neighbor[m].contains(id) by {
            if m == last {
                let l = next.neighbor[m];
                assert(l == prev.neighbor[last].push(id));
                assert(l[l.len() - 1] == id);
            } else {
                let i = choose|i: int| 0 <= i < ns.len() && ns[i] == m;
                assert(i < ns.len() - 1);
                assert(init[i] == m);
                assert(init.contains(m));
                assert(next.neighbor[m] == prev.neighbor[m]);
            }
        }
    }
}

proof fn lemma_no_add_failure(s: ControllerView, ns: Seq<NodeId>)
    requires
        forall|i: int| 0 <= i < ns.len() ==> spec_check_add(s, #[trigger] ns[i]) is Ok,
    ensures
        first_add_failure(s, ns) is None,
    decreases ns.len(),
{
    if ns.len() > 0 {
        assert(spec_check_add(s, ns[0]) is Ok);
        assert forall|i: int| 0 <= i < ns.drop_first().len() implies spec_check_add(s, #[trigger] ns.drop_first()[i]) is Ok by {
            assert(ns.drop_first()[i] == ns[i + 1]);
        }
        lemma_no_add_failure(s, ns.drop_first());
    }
}

proof fn lemma_no_remove_failure(s: ControllerView, ns: Seq<NodeId>)
    requires
        forall|i: int| 0 <= i < ns.len() ==> spec_check_remove(s, #[trigger] ns[i]) is Ok,
    ensures
        first_remove_failure(s, ns) is None,
    decreases ns.len(),
{
    if ns.len() > 0 {
        assert(spec_check_remove(s, ns[0]) is Ok);
        assert forall|i: int| 0 <= i < ns.drop_first().len() implies spec_check_remove(s, #[trigger] ns.drop_first()[i]) is Ok by {
            assert(ns.drop_first()[i] == ns[i + 1]);
        }
        lemma_no_remove_failure(s, ns.drop_first());
    }
}

/// Crashing a freshly spawned drone restores the state: when the new id is neither a
/// drone nor has a neighbor list, and the spawn links it to other drones that each have
/// at least one neighbor and do not list it yet, a GUI spawn followed by a GUI crash of the
/// new drone is accepted both times and leaves every roster and neighbor list as it was.
pub proof fn law_spawn_then_crash_restores(s: ControllerView, id: NodeId, links: Vec<NodeId>, pdr: Pdr, k1: usize, k2: usize)
    requires
        !s.drones.contains(id),
        !s.has_entry(id),
        spec_pdr_in_range(pdr.bits),
        forall|i: int| 0 <= i < links@.len() ==> {
            let n = #[trigger] links@[i];
            &&& n != id
            &&& s.drones.contains(n)
            &&& s.has_entry(n)
            &&& s.neighbor[n].len() > 0
            &&& !s.neighbor[n].contains(id)
        },
    ensures
        gui_step(s, GUICommands::Spawn(id, links, pdr), k1).2 is None,
        gui_step(gui_step(s, GUICommands::Spawn(id, links, pdr), k1).0, GUICommands::Crash(id), k2).2 is None,
        gui_step(gui_step(s, GUICommands::Spawn(id, links, pdr), k1).0, GUICommands::Crash(id), k2).0 == s,
{
    let ns = links@;
    assert forall|i: int| 0 <= i < ns.len() implies spec_check_add(s, #[trigger] ns[i]) is Ok by {
        assert(s.drones.contains(ns[i]));
    }
    lemma_no_add_failure(s, ns);
    let s1 = s.with_drone(id).with_neighbors(id, ns);
    assert forall|i: int| 0 <= i < ns.len() implies s1.has_entry(#[trigger] ns[i]) by {
        assert(s.has_entry(ns[i]));
    }
    lemma_link_back_effect(s1, ns, id);
    let t = link_back(s1, ns, id);
    assert(gui_step(s, GUICommands::Spawn(id, links, pdr), k1).0 == t);
    assert(!ns.contains(id)) by {
        if ns.contains(id) {
            let i = choose|i: int| 0 <= i < ns.len() && ns[i] == id;
        }
    }
    assert(t.neighbor[id] == ns);
    assert(t.drones.contains(id)) by {
        assert(s.drones.push(id)[s.drones.len() as int] == id);
    }
    assert forall|i: int| 0 <= i < ns.len() implies spec_check_remove(t, #[trigger] ns[i]) is Ok by {
        let n = ns[i];
        assert(ns.contains(n));
        let j = choose|j: int| 0 <= j < s.drones.len() && s.drones[j] == n;
        assert(s.drones.push(id)[j] == n);
        assert(t.drones.contains(n));
        assert(s1.neighbor[n] == s.neighbor[n]);
    }
    lemma_no_remove_failure(t, t.neighbor[id]);
    lemma_crash_fold_effect(t, id, ns);
    let r1 = crash_fold(t, id, ns).0;
    let r = gui_step(t, GUICommands::Crash(id), k2).0;
    assert(r == r1.without_drone(id).without_entry(id));
    lemma_without_push(s.drones, id, id);
    lemma_without_absent(s.drones, id);
    assert(r.drones == s.drones);
    assert forall|m: NodeId| #[trigger] s.neighbor.contains_key(m) implies r.neighbor[m] == s.neighbor[m] by {
        if ns.contains(m) {
            let i = choose|i: int| 0 <= i < ns.len() && ns[i] == m;
            assert(s.drones.contains(m));
            let j = choose|j: int| 0 <= j < s.drones.len() && s.drones[j] == m;
            assert(s.drones.push(id)[j] == m);
            assert(t.drones.contains(m));
            assert(t.is_known(m));
            lemma_without_absent(s.neighbor[m], id);
        }
    }
    assert(r.neighbor =~= s.neighbor);
}

/// The topology rules hold across a removal: after an accepted GUI `RemoveSender`, each
/// end keeps its neighbor list and at least the fewest neighbors its type allows (one for
/// a client or a drone, two for a server), provided its list holds no node twice.
pub proof fn law_remove_keeps_minimum(s: ControllerView, a: NodeId, b: NodeId, factory: usize)
    requires
        gui_step(s, GUICommands::RemoveSender(a, b), factory).2 is None,
        s.has_entry(a) ==> s.neighbor[a].no_duplicates(),
        s.has_entry(b) ==> s.neighbor[b].no_duplicates(),
    ensures
        gui_step(s, GUICommands::RemoveSender(a, b), factory).0.has_entry(a),
        gui_step(s, GUICommands::RemoveSender(a, b), factory).0.has_entry(b),
        gui_step(s, GUICommands::RemoveSender(a, b), factory).0.neighbor[a].len() >= min_links(spec_node_type(s, a)),
        gui_step(s, GUICommands::RemoveSender(a, b), factory).0.neighbor[b].len() >= min_links(spec_node_type(s, b)),
{
    let r = gui_step(s, GUICommands::RemoveSender(a, b), factory).0;
    lemma_crash_unlink(s, b, a);
    let r1 = s.unlinked(b, a);
    assert(s.route(b) is Some);
    assert(crash_route(s, b) == s.route(b).unwrap());
    lemma_without_len(s.neighbor[b], a);
    lemma_without_len(s.neighbor[a], b);
    if a == b {
        lemma_without_not_contains(s.neighbor[a], a);
        lemma_without_absent(without(s.neighbor[a], a), a);
    }
    assert(r == r1.unlinked(a, b) || r == r1);
}

/// The topology rules hold across a new link: after an accepted GUI `AddSender`, an end
/// that is a client has at most two neighbors.
pub proof fn law_add_keeps_client_maximum(s: ControllerView, a: NodeId, b: NodeId, factory: usize)
    requires
        gui_step(s, GUICommands::AddSender(a, b), factory).2 is None,
    ensures
        spec_node_type(s, a) == NodeType::Client ==> gui_step(s, GUICommands::AddSender(a, b), factory).0.neighbor[a].len() <= 2,
        spec_node_type(s, b) == NodeType::Client ==> gui_step(s, GUICommands::AddSender(a, b), factory).0.neighbor[b].len() <= 2,
{
}

/// Two clients are never linked, whatever their kinds: a GUI `AddSender` between two
/// nodes registered as chat or media clients, neither a drone, leaves the state as it
/// was.
pub proof fn law_clients_stay_apart(s: ControllerView, a: NodeId, b: NodeId, factory: usize)
    requires
        !s.drones.contains(a),
        !s.drones.contains(b),
        s.cclients.contains(a) || s.mclients.contains(a),
        s.cclients.contains(b) || s.mclients.contains(b),
    ensures
        gui_step(s, GUICommands::AddSender(a, b), factory).0 == s,
{
}

/// `a` has a neighbor list, and it names `b`.
pub open spec fn lists(s: ControllerView, a: NodeId, b: NodeId) -> bool {
    s.has_entry(a) && s.neighbor[a].contains(b)
}

/// Every link listed by one node is listed by the other node too.
pub open spec fn symmetric(s: ControllerView) -> bool {
    forall|a: NodeId, b: NodeId| #[trigger] lists(s, a, b) ==> lists(s, b, a)
}

/// Spawning keeps the neighbor relation symmetric: when it was symmetric and the new id
/// had no neighbor list or an empty one, afterwards the new drone is linked exactly to the nodes named,
/// each of them lists it, no other link changed, and the relation is still symmetric.
pub proof fn law_spawn_keeps_links_symmetric(s: ControllerView, id: NodeId, ns: Seq<NodeId>, pdr: Pdr, factory: usize)
    requires
        symmetric(s),
        !s.has_entry(id) || s.neighbor[id].len() == 0,
        spawnable(s, id, ns),
    ensures
        spawn_step(s, id, ns, pdr, factory).0.has_entry(id),
        forall|y: NodeId| #[trigger] spawn_step(s, id, ns, pdr, factory).0.neighbor[id].contains(y) <==> ns.contains(y),
        forall|x: NodeId, y: NodeId| x != id && y != id ==>
            (#[trigger] lists(spawn_step(s, id, ns, pdr, factory).0, x, y) <==> lists(s, x, y)),
        symmetric(spawn_step(s, id, ns, pdr, factory).0),
{
    let s1 = s.with_drone(id).with_neighbors(id, ns);
    assert forall|i: int| 0 <= i < ns.len() implies s1.has_entry(#[trigger] ns[i]) by {
        if ns[i] != id {
            assert(s.has_entry(ns[i]));
        }
    }
    lemma_link_back_effect(s1, ns, id);
    let r = link_back(s1, ns, id);
    assert(r == spawn_step(s, id, ns, pdr, factory).0);
    // nothing listed the new id before
    assert forall|x: NodeId| s.has_entry(x) implies !s.neighbor[x].contains(id) by {
        if s.neighbor[x].contains(id) {
            lemma_symmetric_pair(s, x, id);
            assert(s.neighbor[id].contains(x));
        }
    }
    assert forall|x: NodeId, y: NodeId| y != id && r.has_entry(x) implies
        (r.neighbor[x].contains(y) <==> s1.neighbor[x].contains(y)) by {
        lemma_without_contains(r.neighbor[x], id, y);
        lemma_without_contains(s1.neighbor[x], id, y);
    }
    assert forall|y: NodeId| #[trigger] r.neighbor[id].contains(y) <==> ns.contains(y) by {
        if y == id {
            if !ns.contains(id) {
                assert(r.neighbor[id] == ns);
            }
        }
    }
    assert forall|x: NodeId, y: NodeId| x != id && y != id implies (#[trigger] lists(r, x, y) <==> lists(s, x, y)) by {
        assert(r.has_entry(x) == s.has_entry(x));
    }
    assert forall|a: NodeId, b: NodeId| #[trigger] lists(r, a, b) implies lists(r, b, a) by {
        if a == id {
            assert(ns.contains(b));
            if b != id {
                let i = choose|i: int| 0 <= i < ns.len() && ns[i] == b;
                assert(s.has_entry(ns[i]));
            }
        } else if b == id {
            if !ns.contains(a) {
                assert(r.neighbor[a] == s.neighbor[a]);
                lemma_symmetric_pair(s, a, id);
            }
        } else {
            assert(s1.neighbor[a] == s.neighbor[a]);
            assert(r.neighbor[a].contains(b) <==> s1.neighbor[a].contains(b));
            assert(s.has_entry(a) && s.neighbor[a].contains(b));
            lemma_symmetric_pair(s, a, b);
            assert(s1.neighbor[b] == s.neighbor[b]);
            assert(r.has_entry(b));
            assert(r.neighbor[b].contains(a) <==> s1.neighbor[b].contains(a));
        }
    }
    assert(symmetric(r));
}

proof fn lemma_symmetric_pair(s: ControllerView, a: NodeId, b: NodeId)
    requires
        symmetric(s),
        s.has_entry(a),
        s.neighbor[a].contains(b),
    ensures
        lists(s, b, a),
{
    assert(lists(s, a, b));
}

/// What crashing a drone does to the neighbor lists (`crash`, before the drone itself is
/// taken off): every neighbor it lists that is registered in some roster loses every link
/// to it; a listed neighbor registered nowhere, and every node it does not list, keeps
/// its list; the rosters and the set of nodes with a neighbor list stay as they were.
pub proof fn law_crash_unlinks_each_neighbor(s: ControllerView, d: NodeId)
    requires
        s.has_entry(d),
    ensures
        crash_step(s, d).0.drones == s.drones,
        crash_step(s, d).0.same_endpoints(s),
        crash_step(s, d).0.neighbor.dom() == s.neighbor.dom(),
        forall|m: NodeId| #[trigger] s.neighbor[d].contains(m) && s.is_known(m) && s.has_entry(m)
            ==> crash_step(s, d).0.neighbor[m] == without(s.neighbor[m], d),
        forall|m: NodeId| #[trigger] s.neighbor[d].contains(m) && !s.is_known(m) && m != d && s.has_entry(m)
            ==> crash_step(s, d).0.neighbor[m] == s.neighbor[m],
        forall|m: NodeId| !s.neighbor[d].contains(m) && s.has_entry(m)
            ==> crash_step(s, d).0.neighbor[m] == s.neighbor[m],
{
    lemma_crash_fold_effect(s, d, s.neighbor[d]);
}

proof fn lemma_first_remove_failure_none(s: ControllerView, ns: Seq<NodeId>)
    ensures
        first_remove_failure(s, ns) is None <==> forall|i: int| 0 <= i < ns.len() ==> spec_check_remove(s, #[trigger] ns[i]) is Ok,
    decreases ns.len(),
{
    if ns.len() > 0 {
        lemma_first_remove_failure_none(s, ns.drop_first());
        assert forall|i: int| 0 < i < ns.len() implies #[trigger] ns[i] == ns.drop_first()[i - 1] by {}
        if first_remove_failure(s, ns) is None {
            assert forall|i: int| 0 <= i < ns.len() implies spec_check_remove(s, #[trigger] ns[i]) is Ok by {
                if i > 0 {
                    assert(ns[i] == ns.drop_first()[i - 1]);
                }
            }
        } else if spec_check_remove(s, ns[0]) is Ok {
            let j = choose|j: int| 0 <= j < ns.drop_first().len() && !(spec_check_remove(s, #[trigger] ns.drop_first()[j]) is Ok);
            assert(ns[j + 1] == ns.drop_first()[j]);
        }
    }
}

/// A GUI crash of a registered drone with a neighbor list is carried out exactly when
/// every node it lists may lose a link (keeps at least its minimum); when it is turned
/// down, nothing is sent and no state changes.
pub proof fn law_crash_checks_every_neighbor(s: ControllerView, d: NodeId, factory: usize)
    requires
        s.drones.contains(d),
        s.has_entry(d),
    ensures
        gui_step(s, GUICommands::Crash(d), factory).2 is None
            <==> forall|n: NodeId| #[trigger] s.neighbor[d].contains(n) ==> spec_check_remove(s, n) is Ok,
        gui_step(s, GUICommands::Crash(d), factory).2 is Some ==> gui_step(s, GUICommands::Crash(d), factory).0 == s
            && gui_step(s, GUICommands::Crash(d), factory).1.len() == 0,
{
    let ns = s.neighbor[d];
    lemma_first_remove_failure_none(s, ns);
    if forall|n: NodeId| #[trigger] ns.contains(n) ==> spec_check_remove(s, n) is Ok {
        assert forall|i: int| 0 <= i < ns.len() implies spec_check_remove(s, #[trigger] ns[i]) is Ok by {
            assert(ns.contains(ns[i]));
        }
    } else {
        let n = choose|n: NodeId| #[trigger] ns.contains(n) && !(spec_check_remove(s, n) is Ok);
        let i = choose|i: int| 0 <= i < ns.len() && ns[i] == n;
        assert(!(spec_check_remove(s, ns[i]) is Ok));
    }
}

/// A GUI spawn with a drop rate outside `[0.0, 1.0]` is turned down, with nothing sent
/// and no state changed; for an id that is not yet a drone the reason is the drop rate.
pub proof fn law_spawn_refuses_rate_out_of_range(s: ControllerView, id: NodeId, ns: Vec<NodeId>, pdr: Pdr, factory: usize)
    requires
        !spec_pdr_in_range(pdr.bits),
    ensures
        gui_step(s, GUICommands::Spawn(id, ns, pdr), factory).0 == s,
        gui_step(s, GUICommands::Spawn(id, ns, pdr), factory).1.len() == 0,
        gui_step(s, GUICommands::Spawn(id, ns, pdr), factory).2 is Some,
        !s.drones.contains(id) ==> gui_step(s, GUICommands::Spawn(id, ns, pdr), factory).2 == Some(Rejection::PdrOutOfRange),
{
}

/// Whether `id` is registered as a chat or media client.
pub open spec fn is_client(s: ControllerView, id: NodeId) -> bool {
    s.cclients.contains(id) || s.mclients.contains(id)
}

/// A new link from the GUI is made on both sides: after an accepted `AddSender(a, b)`,
/// where `a` is a drone, a client or a communication server, `b` has a neighbor list and
/// the two are not both clients, `a` lists `b` and `b` lists `a`.
pub proof fn law_add_links_both_sides(s: ControllerView, a: NodeId, b: NodeId, factory: usize)
    requires
        s.drones.contains(a) || is_client(s, a) || s.comm_servers.contains(a),
        s.has_entry(b),
        !(is_client(s, a) && is_client(s, b)),
        gui_step(s, GUICommands::AddSender(a, b), factory).2 is None,
    ensures
        lists(gui_step(s, GUICommands::AddSender(a, b), factory).0, a, b),
        lists(gui_step(s, GUICommands::AddSender(a, b), factory).0, b, a),
{
    let ch = ChannelRef { kind: crash_route(s, a), owner: a };
    let k = add_route(s, b).unwrap();
    let r1 = link_step(s, k, b, a, ch);
    lemma_link_keeps_endpoints(s, k, b, a, ch);
    lemma_linked_lists(s, b, a);
    assert(r1.0 == s.linked(b, a));
    let ch2 = ChannelRef { kind: r1.0.route(b).unwrap(), owner: b };
    let r2 = gui_step(s, GUICommands::AddSender(a, b), factory).0;
    lemma_linked_lists(r1.0, a, b);
    assert(r2 == r1.0.linked(a, b));
}

proof fn lemma_linked_lists(s: ControllerView, x: NodeId, y: NodeId)
    ensures
        s.has_entry(x) ==> lists(s.linked(x, y), x, y),
        forall|u: NodeId, v: NodeId| #[trigger] lists(s, u, v) ==> lists(s.linked(x, y), u, v),
        s.linked(x, y).same_endpoints(s),
        s.linked(x, y).drones == s.drones,
        s.linked(x, y).neighbor.dom() == s.neighbor.dom(),
{
    if s.has_entry(x) {
        let l = s.neighbor[x].push(y);
        assert(l[l.len() - 1] == y);
        assert(s.linked(x, y).neighbor.dom() =~= s.neighbor.dom());
        assert forall|u: NodeId, v: NodeId| #[trigger] lists(s, u, v) implies lists(s.linked(x, y), u, v) by {
            if u == x {
                let i = choose|i: int| 0 <= i < s.neighbor[x].len() && s.neighbor[x][i] == v;
                assert(l[i] == v);
            }
        }
    }
}

/// A link removed from the GUI is gone on both sides: after an accepted
/// `RemoveSender(a, b)`, where `a` is a drone, a client or a communication server, neither
/// `a` lists `b` nor `b` lists `a`.
pub proof fn law_remove_unlinks_both_sides(s: ControllerView, a: NodeId, b: NodeId, factory: usize)
    requires
        s.drones.contains(a) || is_client(s, a) || s.comm_servers.contains(a),
        gui_step(s, GUICommands::RemoveSender(a, b), factory).2 is None,
    ensures
        !lists(gui_step(s, GUICommands::RemoveSender(a, b), factory).0, a, b),
        !lists(gui_step(s, GUICommands::RemoveSender(a, b), factory).0, b, a),
{
    let k = s.route(b).unwrap();
    let r1 = unlink_step(s, k, b, a);
    lemma_unlink_keeps_endpoints(s, k, b, a);
    if r1.0.has_entry(b) {
        lemma_without_not_contains(s.neighbor[b], a);
        assert(!r1.0.neighbor[b].contains(a));
    }
    assert(r1.0.has_entry(a));
    lemma_without_not_contains(r1.0.neighbor[a], b);
    if a != b && r1.0.has_entry(b) {
        assert(gui_step(s, GUICommands::RemoveSender(a, b), factory).0.neighbor[b] == r1.0.neighbor[b]);
    }
}

/// A packet handed to the controller that is not a message fragment, whose route ends at
/// a node `d` registered in some roster, is forwarded to `d` alone, over the channel of
/// the first roster holding `d`, with the delivery mode asked for.
pub proof fn law_shortcut_forwards_to_last_hop(s: ControllerView, p: Packet, delivery: Delivery)
    requires
        !(p.pack_type is MsgFragment),
        p.routing_header.hops@.len() > 0,
        s.route(p.routing_header.hops@.last()) is Some,
    ensures
        shortcut_step(s, p, delivery) == seq![plain(Action::Forward(
            ChannelRef { kind: s.route(p.routing_header.hops@.last()).unwrap(), owner: p.routing_header.hops@.last() },
            delivery,
        ))],
        drone_event_step(s, DroneEvent::ControllerShortcut(p)) == seq![plain(Action::Forward(
            ChannelRef { kind: s.route(p.routing_header.hops@.last()).unwrap(), owner: p.routing_header.hops@.last() },
            Delivery::Lenient,
        ))],
{
}

proof fn lemma_first_add_failure_none(s: ControllerView, ns: Seq<NodeId>)
    ensures
        first_add_failure(s, ns) is None <==> forall|i: int| 0 <= i < ns.len() ==> spec_check_add(s, #[trigger] ns[i]) is Ok,
    decreases ns.len(),
{
    if ns.len() > 0 {
        lemma_first_add_failure_none(s, ns.drop_first());
        if first_add_failure(s, ns) is None {
            assert forall|i: int| 0 <= i < ns.len() implies spec_check_add(s, #[trigger] ns[i]) is Ok by {
                if i > 0 {
                    assert(ns[i] == ns.drop_first()[i - 1]);
                }
            }
        } else if spec_check_add(s, ns[0]) is Ok {
            let j = choose|j: int| 0 <= j < ns.drop_first().len() && !(spec_check_add(s, #[trigger] ns.drop_first()[j]) is Ok);
            assert(ns[j + 1] == ns.drop_first()[j]);
        }
    }
}

/// A GUI spawn is carried out exactly when the id is not yet a drone, the drop rate lies
/// in `[0.0, 1.0]` and every node named may gain a link. Once carried out, the id is a
/// drone, a drone is built with that id and rate, and each node named that has a neighbor
/// list is linked to the new drone on both sides.
pub proof fn law_spawn_accepts_exactly_and_links_both_sides(s: ControllerView, id: NodeId, ns: Vec<NodeId>, pdr: Pdr, factory: usize)
    ensures
        gui_step(s, GUICommands::Spawn(id, ns, pdr), factory).2 is None <==> (!s.drones.contains(id)
            && spec_pdr_in_range(pdr.bits)
            && forall|i: int| 0 <= i < ns@.len() ==> spec_check_add(s, #[trigger] ns@[i]) is Ok),
        gui_step(s, GUICommands::Spawn(id, ns, pdr), factory).2 is None ==> {
            let r = gui_step(s, GUICommands::Spawn(id, ns, pdr), factory);
            &&& r.0.drones.contains(id)
            &&& r.1.contains(plain(Action::CreateDrone(id, factory, pdr)))
            &&& forall|n: NodeId| #[trigger] ns@.contains(n) && (n == id || s.has_entry(n))
                ==> lists(r.0, id, n) && lists(r.0, n, id)
        },
{
    lemma_first_add_failure_none(s, ns@);
    if gui_step(s, GUICommands::Spawn(id, ns, pdr), factory).2 is None {
        let r = gui_step(s, GUICommands::Spawn(id, ns, pdr), factory);
        let s1 = s.with_drone(id).with_neighbors(id, ns@);
        assert(r.0 == link_back(s1, ns@, id));
        assert(r.1[0] == plain(Action::CreateDrone(id, factory, pdr)));
        assert(r.1.len() > 0);
        lemma_link_back_lists(s1, ns@, id);
        assert forall|n: NodeId| #[trigger] ns@.contains(n) && (n == id || s.has_entry(n))
            implies lists(r.0, id, n) && lists(r.0, n, id) by {
            assert(s1.has_entry(n));
        }
        assert(s.drones.push(id)[s.drones.len() as int] == id);
        assert(r.0.drones.contains(id));
        assert(r.1.contains(plain(Action::CreateDrone(id, factory, pdr))));
    }
}

proof fn lemma_link_back_lists(s: ControllerView, ns: Seq<NodeId>, id: NodeId)
    requires
        s.has_entry(id),
        s.neighbor[id] == ns,
    ensures
        link_back(s, ns, id).drones == s.drones,
        link_back(s, ns, id).neighbor.dom() == s.neighbor.dom(),
        forall|n: NodeId| #[trigger] ns.contains(n) && s.has_entry(n)
            ==> lists(link_back(s, ns, id), id, n) && lists(link_back(s, ns, id), n, id),
{
    lemma_link_back_grows(s, ns, ns, id);
    assert forall|n: NodeId| #[trigger] ns.contains(n) && s.has_entry(n)
        implies lists(link_back(s, ns, id), id, n) && lists(link_back(s, ns, id), n, id) by {
        assert(lists(s, id, n));
    }
}

proof fn lemma_link_back_grows(s: ControllerView, all: Seq<NodeId>, ns: Seq<NodeId>, id: NodeId)
    requires
        s.has_entry(id),
        s.neighbor[id] == all,
    ensures
        link_back(s, ns, id).drones == s.drones,
        link_back(s, ns, id).neighbor.dom() == s.neighbor.dom(),
        forall|u: NodeId, v: NodeId| #[trigger] lists(s, u, v) ==> lists(link_back(s, ns, id), u, v),
        forall|n: NodeId| #[trigger] ns.contains(n) && s.has_entry(n) ==> lists(link_back(s, ns, id), n, id),
    decreases ns.len(),
{
    if ns.len() > 0 {
        let init = ns.drop_last();
        lemma_link_back_grows(s, all, init, id);
        let prev = link_back(s, init, id);
        lemma_linked_lists(prev, ns.last(), id);
        assert forall|n: NodeId| #[trigger] ns.contains(n) && s.has_entry(n) implies lists(link_back(s, ns, id), n, id) by {
            if n != ns.last() {
                let i = choose|i: int| 0 <= i < ns.len() && ns[i] == n;
                assert(init[i] == n);
                assert(init.contains(n));
            }
        }
    }
}

/// A GUI change of a drop rate outside `[0.0, 1.0]` is turned down with nothing sent and
/// no state changed; one inside it is passed to the drone, when registered, and changes
/// no state.
pub proof fn law_set_pdr_checks_range(s: ControllerView, d: NodeId, pdr: Pdr, factory: usize)
    ensures
        gui_step(s, GUICommands::SetPDR(d, pdr), factory).0 == s,
        !spec_pdr_in_range(pdr.bits) ==> gui_step(s, GUICommands::SetPDR(d, pdr), factory).2 == Some(Rejection::PdrOutOfRange)
            && gui_step(s, GUICommands::SetPDR(d, pdr), factory).1.len() == 0,
        spec_pdr_in_range(pdr.bits) ==> gui_step(s, GUICommands::SetPDR(d, pdr), factory).2 is None
            && gui_step(s, GUICommands::SetPDR(d, pdr), factory).1 == (if s.drones.contains(d) {
                seq![plain(Action::Drone(d, crate::messages::DroneCommand::SetPacketDropRate(pdr)))]
            } else {
                Seq::empty()
            }),
{
}

/// A new link from the GUI is made only between two nodes that may each gain a link,
/// where `a` has a neighbor list that does not yet name `b`.
pub proof fn law_add_needs_both_ends(s: ControllerView, a: NodeId, b: NodeId, factory: usize)
    requires
        gui_step(s, GUICommands::AddSender(a, b), factory).2 is None,
    ensures
        spec_check_add(s, a) is Ok,
        spec_check_add(s, b) is Ok,
        s.has_entry(a) && !s.neighbor[a].contains(b),
{
}

/// A link is removed from the GUI only between two nodes that may each lose a link,
/// where `a` lists `b`.
pub proof fn law_remove_needs_both_ends(s: ControllerView, a: NodeId, b: NodeId, factory: usize)
    requires
        gui_step(s, GUICommands::RemoveSender(a, b), factory).2 is None,
    ensures
        spec_check_remove(s, a) is Ok,
        spec_check_remove(s, b) is Ok,
        lists(s, a, b),
{
}

} // verus!
