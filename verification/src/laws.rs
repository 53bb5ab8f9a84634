//! Global laws of the session, proved over whole event sequences.

use vstd::prelude::*;

use crate::session::{EventView, Session};

verus! {

/// Whether `ev` is a global announcement of `interface`.
pub open spec fn announces_spec(ev: EventView, interface: Seq<char>) -> bool {
    ev matches EventView::Global { interface: announced, .. } && announced == interface
}

/// Whether `interface` is announced at least once in `evs`.
pub open spec fn seen_spec(evs: Seq<EventView>, interface: Seq<char>) -> bool {
    exists|i: int| 0 <= i < evs.len() && announces_spec(evs[i], interface)
}

/// An interface is seen in a non-empty sequence iff it is seen before
/// the last event or announced by the last event.
pub proof fn lemma_seen_unfold(evs: Seq<EventView>, interface: Seq<char>)
    requires
        evs.len() > 0,
    ensures
        seen_spec(evs, interface) <==> (seen_spec(evs.drop_last(), interface) || announces_spec(
            evs.last(),
            interface,
        )),
{
    if seen_spec(evs, interface) {
        let i = choose|i: int| 0 <= i < evs.len() && announces_spec(evs[i], interface);
        if i < evs.len() - 1 {
            assert(evs.drop_last()[i] == evs[i]);
            assert(seen_spec(evs.drop_last(), interface));
        } else {
            assert(evs.last() == evs[i]);
        }
    }
    if seen_spec(evs.drop_last(), interface) {
        let i = choose|i: int|
            0 <= i < evs.drop_last().len() && announces_spec(evs.drop_last()[i], interface);
        assert(evs[i] == evs.drop_last()[i]);
        assert(seen_spec(evs, interface));
    }
    if announces_spec(evs.last(), interface) {
        assert(announces_spec(evs[evs.len() - 1], interface));
        assert(seen_spec(evs, interface));
    }
}

/// After draining any event sequence, each capability role is bound iff
/// it was bound before or its interface name was announced somewhere in
/// the sequence.
pub proof fn lemma_drain_roles(s: Session, evs: Seq<EventView>)
    ensures
        s.drain_spec(evs).registry.compositor is Some <==> (s.registry.compositor is Some
            || seen_spec(evs, "wl_compositor"@)),
        s.drain_spec(evs).registry.output is Some <==> (s.registry.output is Some || seen_spec(
            evs,
            "wl_output"@,
        )),
        s.drain_spec(evs).registry.shm is Some <==> (s.registry.shm is Some || seen_spec(
            evs,
            "wl_shm"@,
        )),
        s.drain_spec(evs).registry.screencopy_manager is Some <==> (
        s.registry.screencopy_manager is Some || seen_spec(evs, "zwlr_screencopy_manager_v1"@)),
    decreases evs.len(),
{
    reveal_strlit("wl_compositor");
    reveal_strlit("wl_output");
    reveal_strlit("wl_shm");
    reveal_strlit("zwlr_screencopy_manager_v1");
    assert("wl_compositor"@.len() == 13);
    assert("wl_output"@.len() == 9);
    assert("wl_shm"@.len() == 6);
    assert("zwlr_screencopy_manager_v1"@.len() == 26);
    if evs.len() > 0 {
        lemma_drain_roles(s, evs.drop_last());
        lemma_seen_unfold(evs, "wl_compositor"@);
        lemma_seen_unfold(evs, "wl_output"@);
        lemma_seen_unfold(evs, "wl_shm"@);
        lemma_seen_unfold(evs, "zwlr_screencopy_manager_v1"@);
        let pre = s.drain_spec(evs.drop_last());
        let last = evs.last();
        assert(s.drain_spec(evs) == pre.step_spec(last));
        match last {
            EventView::Global { name, interface, version } => {
                let stepped = pre.registry.record_spec(name, interface);
                assert(pre.step_spec(last).registry == stepped);
                assert(stepped.compositor is Some <==> (pre.registry.compositor is Some
                    || interface == "wl_compositor"@));
                assert(stepped.output is Some <==> (pre.registry.output is Some || interface
                    == "wl_output"@));
                assert(stepped.shm is Some <==> (pre.registry.shm is Some || interface
                    == "wl_shm"@));
                assert(stepped.screencopy_manager is Some <==> (
                pre.registry.screencopy_manager is Some || interface
                    == "zwlr_screencopy_manager_v1"@));
            },
            EventView::Frame(fe) => {
                assert(pre.step_spec(last).registry == pre.registry);
            },
            EventView::Ignored => {},
        }
    }
}

/// Law: from a fresh session, for any order of global announcements,
/// readiness holds after the drain iff all four required interface
/// names were announced at least once.
pub proof fn lemma_ready_iff_all_roles_seen(evs: Seq<EventView>)
    ensures
        Session::init_spec().drain_spec(evs).registry.ready_spec() <==> {
            &&& seen_spec(evs, "wl_compositor"@)
            &&& seen_spec(evs, "wl_output"@)
            &&& seen_spec(evs, "wl_shm"@)
            &&& seen_spec(evs, "zwlr_screencopy_manager_v1"@)
        },
{
    lemma_drain_roles(Session::init_spec(), evs);
}

/// Law: once an output is bound, no later event rebinds it — the
/// first-bound output is the one every later step retains.
pub proof fn lemma_first_output_retained(s: Session, evs: Seq<EventView>)
    requires
        s.registry.output is Some,
    ensures
        s.drain_spec(evs).registry.output == s.registry.output,
    decreases evs.len(),
{
    if evs.len() > 0 {
        lemma_first_output_retained(s, evs.drop_last());
    }
}

} // verus!
