use vstd::prelude::*;
use std::collections::HashMap;
use wayland_client::Proxy;
use wayland_client::protocol::wl_seat::WlSeat;

verus! {

broadcast use vstd::std_specs::hash::group_hash_axioms;

/// The data with which the event loop registers the compositor connection.
pub const WAYLAND_EVENT: u64 = 0;

/// The data with which the event loop registers the termination signals.
pub const SIGNAL_EVENT: u64 = 1;

/// What the event loop does with one ready source.
#[derive(PartialEq, Eq, Structural, Debug, Clone, Copy)]
pub enum PollAction {
    /// Read from the compositor and dispatch what arrived.
    Wayland,
    /// A termination signal arrived: leave the loop.
    Stop,
    /// Not a source of ours.
    Ignore,
}

/// A registry event, by what the logic reads of it.
pub enum RegistryEvent {
    Global { name: u32, interface: String, version: u32 },
    GlobalRemove { name: u32 },
    Other,
}

/// What a registry event does to the seats.
#[derive(PartialEq, Eq, Structural, Debug, Clone, Copy)]
pub enum SeatChange {
    /// Bind the seat and give it a fresh input method.
    Bind { name: u32, version: u32 },
    /// Drop the seat's input method, if it has one.
    Remove { name: u32 },
    Ignore,
}

/// The seat change for a registry event: a new global whose interface is the
/// seat interface is bound, a removed global is dropped, the rest is ignored.
pub open spec fn seat_change_of(event: RegistryEvent, seat_interface: Seq<char>) -> SeatChange {
    match event {
        RegistryEvent::Global { name, interface, version } => if interface@ == seat_interface {
            SeatChange::Bind { name, version }
        } else {
            SeatChange::Ignore
        },
        RegistryEvent::GlobalRemove { name } => SeatChange::Remove { name },
        RegistryEvent::Other => SeatChange::Ignore,
    }
}

/// What the event loop does with a ready source, by the data it was registered with.
pub fn poll_action(data: u64) -> (action: PollAction)
    ensures
        action == if data == WAYLAND_EVENT {
            PollAction::Wayland
        } else if data == SIGNAL_EVENT {
            PollAction::Stop
        } else {
            PollAction::Ignore
        },
{
    if data == WAYLAND_EVENT {
        PollAction::Wayland
    } else if data == SIGNAL_EVENT {
        PollAction::Stop
    } else {
        PollAction::Ignore
    }
}

/// `wayland_client`'s `WlSeat::interface()`, by its name. The claim: the name is
/// `wl_seat`, as the interface's generated description takes it from the core
/// protocol file.
#[verifier::external_body]
fn seat_interface_name() -> (name: String)
    ensures
        name@ == "wl_seat"@,
{
    WlSeat::interface().name.to_string()
}

/// The seat change for a registry event; see `seat_change_of`. The seat
/// interface is the one that `wayland_client` describes.
pub fn registry_change(event: &RegistryEvent) -> (change: SeatChange)
    ensures
        change == seat_change_of(*event, "wl_seat"@),
{
    match event {
        RegistryEvent::Global { name, interface, version } => {
            let seat_interface = seat_interface_name();
            if interface.eq(&seat_interface) {
                SeatChange::Bind { name: *name, version: *version }
            } else {
                SeatChange::Ignore
            }
        },
        RegistryEvent::GlobalRemove { name } => SeatChange::Remove { name: *name },
        RegistryEvent::Other => SeatChange::Ignore,
    }
}

/// Puts a seat's new input method in place of any old one, or, with none,
/// removes the seat's entry.
pub fn update_im_map<V>(im_map: &mut HashMap<u32, V>, name: u32, potential_im: Option<V>)
    ensures
        final(im_map)@ == match potential_im {
            Some(im) => old(im_map)@.insert(name, im),
            None => old(im_map)@.remove(name),
        },
{
    match potential_im {
        Some(im) => {
            im_map.insert(name, im);
        },
        None => {
            im_map.remove(&name);
        },
    }
}

/// A seat that was bound and then removed has no input method left, and the
/// other seats keep theirs.
pub proof fn lemma_bind_then_remove<V>(m: Map<u32, V>, name: u32, im: V)
    ensures
        m.insert(name, im).remove(name) == m.remove(name),
        !m.insert(name, im).remove(name).contains_key(name),
{
    assert(m.insert(name, im).remove(name) =~= m.remove(name));
}

} // verus!
