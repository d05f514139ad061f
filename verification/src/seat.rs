//! Seats and the input devices bound on them.
use smithay_client_toolkit::reexports::client::protocol::wl_keyboard::WlKeyboard;
use smithay_client_toolkit::reexports::client::protocol::wl_pointer::WlPointer;
use smithay_client_toolkit::reexports::client::protocol::wl_touch::WlTouch;
use smithay_client_toolkit::reexports::protocols::unstable::relative_pointer::v1::client::zwp_relative_pointer_v1::ZwpRelativePointerV1;
use vstd::prelude::*;
use vstd::string::*;

verus! {

/// Whether a device bound at this interface version is released explicitly
/// when it is dropped: the `release` request exists from version 3 on.
pub fn releases_device(version: u32) -> (release: bool)
    ensures
        release == (version >= 3),
{
    version >= 3
}

/// What the compositor reports about a seat.
#[derive(Clone, Copy, Debug, PartialEq, Eq, Hash, Structural)]
pub struct SeatCapabilities {
    pub has_pointer: bool,
    pub has_keyboard: bool,
    pub has_touch: bool,
    /// The seat was removed from the registry.
    pub defunct: bool,
}

/// Creates the devices of a seat, with the handlers that feed their events to
/// the loop.
pub trait SeatDeviceFactory {
    fn create_pointer(&mut self) -> WlPointer;

    /// The relative motion events of `pointer`, through the compositor's
    /// relative-pointer manager.
    fn create_relative_pointer(&mut self, pointer: &WlPointer) -> ZwpRelativePointerV1;

    fn create_keyboard(&mut self) -> WlKeyboard;

    fn create_touch(&mut self) -> WlTouch;
}

/// The devices a seat holds.
pub struct SeatDevices {
    pub pointer: Option<WlPointer>,
    pub relative_pointer: Option<ZwpRelativePointerV1>,
    pub keyboard: Option<WlKeyboard>,
    pub touch: Option<WlTouch>,
}

/// How a device slot follows a report: a device the seat no longer has is
/// gone, a device the seat still has is kept as the same object, and a device
/// the seat gained is a new one.
pub open spec fn device_follows<P>(old: Option<P>, new: Option<P>, present: bool) -> bool {
    if !present {
        new is None
    } else if old is Some {
        new == old
    } else {
        new is Some
    }
}

/// The devices a seat gave up, handed back by value for the caller to release
/// (when `releases_device` says so for the version of each) or to drop.
pub struct SeatRemovals {
    pub pointer: Option<WlPointer>,
    pub keyboard: Option<WlKeyboard>,
    pub touch: Option<WlTouch>,
}

/// The device `old` held, when it went away (`gone`); nothing otherwise.
pub open spec fn removed_device<P>(old: Option<P>, gone: bool) -> Option<P> {
    if gone {
        old
    } else {
        None
    }
}

/// `removed` holds exactly the devices of `old` that went away, given which
/// devices the seat still has.
pub open spec fn removals_follow(
    removed: SeatRemovals,
    old: SeatDevices,
    has_pointer: bool,
    has_keyboard: bool,
    has_touch: bool,
) -> bool {
    &&& removed.pointer == removed_device(old.pointer, !has_pointer)
    &&& removed.keyboard == removed_device(old.keyboard, !has_keyboard)
    &&& removed.touch == removed_device(old.touch, !has_touch)
}

/// The input devices bound on one seat.
pub struct SeatData {
    pointer: Option<WlPointer>,
    relative_pointer: Option<ZwpRelativePointerV1>,
    keyboard: Option<WlKeyboard>,
    touch: Option<WlTouch>,
}

impl View for SeatData {
    type V = SeatDevices;

    closed spec fn view(&self) -> SeatDevices {
        SeatDevices {
            pointer: self.pointer,
            relative_pointer: self.relative_pointer,
            keyboard: self.keyboard,
            touch: self.touch,
        }
    }
}

impl SeatData {
    /// The devices of a new seat, as the compositor reports it. The seat must
    /// not be defunct.
    pub fn new<F: SeatDeviceFactory>(
        caps: SeatCapabilities,
        relative_pointer_manager: bool,
        factory: &mut F,
    ) -> (seat: SeatData)
        requires
            !caps.defunct,
        ensures
            seat@.pointer is Some == caps.has_pointer,
            seat@.keyboard is Some == caps.has_keyboard,
            seat@.touch is Some == caps.has_touch,
            seat@.relative_pointer is Some == (caps.has_pointer && relative_pointer_manager),
    {
        let mut seat = SeatData { pointer: None, relative_pointer: None, keyboard: None, touch: None };
        let _ = seat.receive(caps, relative_pointer_manager, factory);
        seat
    }

    /// Follows a new report of the compositor about the seat: devices that
    /// are gone are handed back, new ones are created, and the others are kept
    /// as they are. A new pointer gets a relative pointer exactly when the
    /// compositor has a relative-pointer manager. The seat must not be defunct.
    pub fn receive<F: SeatDeviceFactory>(
        &mut self,
        caps: SeatCapabilities,
        relative_pointer_manager: bool,
        factory: &mut F,
    ) -> (removed: SeatRemovals)
        requires
            !caps.defunct,
        ensures
            device_follows(old(self)@.pointer, final(self)@.pointer, caps.has_pointer),
            device_follows(old(self)@.keyboard, final(self)@.keyboard, caps.has_keyboard),
            device_follows(old(self)@.touch, final(self)@.touch, caps.has_touch),
            caps.has_pointer && old(self)@.pointer is None ==> (final(self)@.relative_pointer is Some
                == relative_pointer_manager),
            !(caps.has_pointer && old(self)@.pointer is None) ==> final(self)@.relative_pointer
                == old(self)@.relative_pointer,
            removals_follow(removed, old(self)@, caps.has_pointer, caps.has_keyboard, caps.has_touch),
    {
        let mut removed = SeatRemovals { pointer: None, keyboard: None, touch: None };
        if !caps.has_pointer {
            removed.pointer = self.pointer.take();
        } else if self.pointer.is_none() {
            let pointer = factory.create_pointer();
            self.relative_pointer = if relative_pointer_manager {
                Some(factory.create_relative_pointer(&pointer))
            } else {
                None
            };
            self.pointer = Some(pointer);
        }
        if !caps.has_keyboard {
            removed.keyboard = self.keyboard.take();
        } else if self.keyboard.is_none() {
            self.keyboard = Some(factory.create_keyboard());
        }
        if !caps.has_touch {
            removed.touch = self.touch.take();
        } else if self.touch.is_none() {
            self.touch = Some(factory.create_touch());
        }
        removed
    }

    /// Gives up the pointer, keyboard and touchscreen of the seat, as when the
    /// seat goes away: they are handed back for the caller to release.
    pub fn release_devices(&mut self) -> (removed: SeatRemovals)
        ensures
            final(self)@.pointer is None,
            final(self)@.keyboard is None,
            final(self)@.touch is None,
            final(self)@.relative_pointer == old(self)@.relative_pointer,
            removals_follow(removed, old(self)@, false, false, false),
    {
        SeatRemovals { pointer: self.pointer.take(), keyboard: self.keyboard.take(), touch: self.touch.take() }
    }
}

/// A seat and its name.
struct SeatEntry {
    name: String,
    data: SeatData,
}

/// The seats known to the loop, each under its own name.
pub struct SeatManager {
    seats: Vec<SeatEntry>,
}

/// No name occurs twice.
pub open spec fn distinct_names(names: Seq<Seq<char>>) -> bool {
    forall|i: int, j: int| 0 <= i < j < names.len() ==> names[i] != names[j]
}

impl SeatManager {
    /// The names of the seats, in the order they were added.
    pub closed spec fn names(&self) -> Seq<Seq<char>> {
        Seq::new(self.seats@.len(), |i: int| self.seats@[i].name@)
    }

    /// The devices of the seats, in the same order as their names.
    pub closed spec fn devices(&self) -> Seq<SeatDevices> {
        Seq::new(self.seats@.len(), |i: int| self.seats@[i].data@)
    }

    /// Names are distinct, and there is one device set per name.
    pub open spec fn wf(&self) -> bool {
        &&& distinct_names(self.names())
        &&& self.devices().len() == self.names().len()
    }

    pub fn new() -> (manager: SeatManager)
        ensures
            manager.wf(),
            manager.names() == Seq::<Seq<char>>::empty(),
    {
        let manager = SeatManager { seats: Vec::new() };
        assert(manager.names() =~= Seq::<Seq<char>>::empty());
        manager
    }

    /// Whether a seat of this name is known.
    pub fn contains(&self, name: &str) -> (found: bool)
        requires
            self.wf(),
        ensures
            found == self.names().contains(name@),
    {
        let key = String::from_str(name);
        let mut i: usize = 0;
        while i < self.seats.len()
            invariant
                i <= self.seats.len(),
                key@ == name@,
                forall|j: int| 0 <= j < i ==> self.names()[j] != key@,
            decreases self.seats.len() - i,
        {
            if self.seats[i].name == key {
                assert(self.names()[i as int] == name@);
                return true;
            }
            i = i + 1;
        }
        false
    }

    /// Adds a seat that the compositor announced, with its devices. The name
    /// must be new, and the seat not defunct.
    pub fn add_seat<F: SeatDeviceFactory>(
        &mut self,
        name: String,
        caps: SeatCapabilities,
        relative_pointer_manager: bool,
        factory: &mut F,
    )
        requires
            old(self).wf(),
            !old(self).names().contains(name@),
            !caps.defunct,
        ensures
            final(self).wf(),
            final(self).names() == old(self).names().push(name@),
            final(self).devices().drop_last() == old(self).devices(),
            final(self).devices().last().pointer is Some == caps.has_pointer,
            final(self).devices().last().keyboard is Some == caps.has_keyboard,
            final(self).devices().last().touch is Some == caps.has_touch,
    {
        let data = SeatData::new(caps, relative_pointer_manager, factory);
        self.seats.push(SeatEntry { name, data });
        assert(self.names() =~= old(self).names().push(name@));
        assert(self.devices().drop_last() =~= old(self).devices());
    }

    /// Removes the seat of this name, if there is one, and hands back its
    /// devices for the caller to release, as when a seat goes away.
    pub fn remove_seat(&mut self, name: &str) -> (released: Option<SeatRemovals>)
        requires
            old(self).wf(),
        ensures
            final(self).wf(),
            !final(self).names().contains(name@),
            old(self).names().contains(name@) ==> exists|i: int|
                0 <= i < old(self).names().len() && old(self).names()[i] == name@
                    && final(self).names() == old(self).names().remove(i)
                    && final(self).devices() == old(self).devices().remove(i)
                    && (released matches Some(r) && removals_follow(
                        r,
                        old(self).devices()[i],
                        false,
                        false,
                        false,
                    )),
            !old(self).names().contains(name@) ==> final(self).names() == old(self).names()
                && final(self).devices() == old(self).devices() && released is None,
    {
        let key = String::from_str(name);
        let mut i: usize = 0;
        while i < self.seats.len()
            invariant
                i <= self.seats.len(),
                self.seats@ == old(self).seats@,
                old(self).wf(),
                key@ == name@,
                forall|j: int| 0 <= j < i ==> self.names()[j] != key@,
            decreases self.seats.len() - i,
        {
            if self.seats[i].name == key {
                let mut entry = self.seats.remove(i);
                let r = entry.data.release_devices();
                proof {
                    let old_names = old(self).names();
                    assert(old_names[i as int] == name@);
                    assert(self.names() =~= old_names.remove(i as int));
                    assert(self.devices() =~= old(self).devices().remove(i as int));
                    assert forall|a: int, b: int|
                        0 <= a < b < self.names().len() implies self.names()[a] != self.names()[b] by {
                        let oa = if a < i { a } else { a + 1 };
                        let ob = if b < i { b } else { b + 1 };
                        assert(old_names[oa] != old_names[ob]);
                    }
                    assert forall|k: int| 0 <= k < self.names().len() implies self.names()[k] != key@ by {
                        let ok = if k < i { k } else { k + 1 };
                        assert(old_names[ok] != old_names[i as int]);
                    }
                    assert(old(self).devices()[i as int] == old(self).seats@[i as int].data@);
                }
                return Some(r);
            }
            i = i + 1;
        }
        None
    }

    /// Takes the pointer, keyboard and touchscreen of every seat, as when the
    /// seats go away with the loop, and hands them back, seat by seat, for the
    /// caller to release.
    pub fn release_all(&mut self) -> (released: Vec<SeatRemovals>)
        requires
            old(self).wf(),
        ensures
            final(self).wf(),
            final(self).names() == old(self).names(),
            released@.len() == old(self).names().len(),
            forall|k: int|
                0 <= k < old(self).names().len() ==> {
                    let before = #[trigger] old(self).devices()[k];
                    let after = final(self).devices()[k];
                    &&& after.pointer is None
                    &&& after.keyboard is None
                    &&& after.touch is None
                    &&& after.relative_pointer == before.relative_pointer
                    &&& removals_follow(released@[k], before, false, false, false)
                },
    {
        let mut released: Vec<SeatRemovals> = Vec::new();
        let mut k: usize = 0;
        while k < self.seats.len()
            invariant
                k <= self.seats.len(),
                self.seats@.len() == old(self).seats@.len(),
                old(self).wf(),
                forall|j: int| 0 <= j < self.seats@.len() ==> (#[trigger] self.seats@[j]).name
                    == old(self).seats@[j].name,
                forall|j: int| k <= j < self.seats@.len() ==> (#[trigger] self.seats@[j]).data@
                    == old(self).seats@[j].data@,
                released@.len() == k,
                forall|j: int|
                    0 <= j < k ==> {
                        let before = #[trigger] old(self).seats@[j].data@;
                        let after = self.seats@[j].data@;
                        &&& after.pointer is None
                        &&& after.keyboard is None
                        &&& after.touch is None
                        &&& after.relative_pointer == before.relative_pointer
                        &&& removals_follow(released@[j], before, false, false, false)
                    },
            decreases self.seats.len() - k,
        {
            let mut entry = self.seats.remove(k);
            let r = entry.data.release_devices();
            self.seats.insert(k, entry);
            released.push(r);
            k = k + 1;
        }
        proof {
            assert(self.names() =~= old(self).names());
            assert forall|k: int| 0 <= k < old(self).names().len() implies {
                let before = #[trigger] old(self).devices()[k];
                let after = self.devices()[k];
                &&& after.pointer is None
                &&& after.keyboard is None
                &&& after.touch is None
                &&& after.relative_pointer == before.relative_pointer
                &&& removals_follow(released@[k], before, false, false, false)
            } by {
                assert(old(self).devices()[k] == old(self).seats@[k].data@);
                assert(self.devices()[k] == self.seats@[k].data@);
            }
        }
        released
    }

    /// Follows what the compositor reports about the seat `name`: a defunct
    /// seat is removed, any other is added. A seat that is not defunct must
    /// not be known yet.
    pub fn update_seat<F: SeatDeviceFactory>(
        &mut self,
        name: String,
        caps: SeatCapabilities,
        relative_pointer_manager: bool,
        factory: &mut F,
    ) -> (released: Option<SeatRemovals>)
        requires
            old(self).wf(),
            !caps.defunct ==> !old(self).names().contains(name@),
        ensures
            final(self).wf(),
            caps.defunct ==> !final(self).names().contains(name@),
            !caps.defunct ==> final(self).names() == old(self).names().push(name@),
            !caps.defunct ==> final(self).devices().drop_last() == old(self).devices(),
            !caps.defunct ==> final(self).devices().last().pointer is Some == caps.has_pointer
                && final(self).devices().last().keyboard is Some == caps.has_keyboard
                && final(self).devices().last().touch is Some == caps.has_touch,
            !caps.defunct ==> released is None,
            caps.defunct && !old(self).names().contains(name@) ==> final(self).names() == old(self).names()
                && final(self).devices() == old(self).devices() && released is None,
            caps.defunct && old(self).names().contains(name@) ==> exists|i: int|
                0 <= i < old(self).names().len() && old(self).names()[i] == name@
                    && final(self).names() == old(self).names().remove(i)
                    && final(self).devices() == old(self).devices().remove(i)
                    && (released matches Some(r) && removals_follow(
                        r,
                        old(self).devices()[i],
                        false,
                        false,
                        false,
                    )),
    {
        if !caps.defunct {
            self.add_seat(name, caps, relative_pointer_manager, factory);
            None
        } else {
            self.remove_seat(name.as_str())
        }
    }
}


/// A second report with the same capabilities keeps every device the seat
/// holds as the same object: the second report creates and hands back nothing.
pub proof fn lemma_same_report_keeps_devices<P>(
    old: Option<P>,
    first: Option<P>,
    second: Option<P>,
    present: bool,
)
    requires
        device_follows(old, first, present),
        device_follows(first, second, present),
    ensures
        second == first,
        removed_device(first, !present) is None,
{
}

/// Adding a seat and then removing it by its name leaves the names and devices
/// of the other seats as they were.
pub proof fn lemma_add_then_remove(
    names: Seq<Seq<char>>,
    devices: Seq<SeatDevices>,
    name: Seq<char>,
    added: SeatDevices,
    i: int,
)
    requires
        distinct_names(names.push(name)),
        0 <= i < names.len() + 1,
        names.push(name)[i] == name,
        devices.len() == names.len(),
    ensures
        names.push(name).remove(i) == names,
        devices.push(added).remove(i) == devices,
{
    if i < names.len() {
        assert(names.push(name)[i] == names.push(name)[names.len() as int]);
    }
    assert(names.push(name).remove(i) =~= names);
    assert(devices.push(added).remove(i) =~= devices);
}

} // verus!
