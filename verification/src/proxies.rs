//! Wayland protocol objects that the library holds but never looks into.
use vstd::prelude::*;

verus! {

/// A surface of the compositor (`wl_surface`).
#[verifier::external_type_specification]
#[verifier::external_body]
pub struct ExWlSurface(smithay_client_toolkit::reexports::client::protocol::wl_surface::WlSurface);

/// A pointer lock obtained from the pointer-constraints protocol.
#[verifier::external_type_specification]
#[verifier::external_body]
pub struct ExZwpLockedPointerV1(
    smithay_client_toolkit::reexports::protocols::unstable::pointer_constraints::v1::client::zwp_locked_pointer_v1::ZwpLockedPointerV1,
);

/// The pointer-constraints global of the compositor, from which pointer locks are obtained.
#[verifier::external_type_specification]
#[verifier::external_body]
pub struct ExZwpPointerConstraintsV1(
    smithay_client_toolkit::reexports::protocols::unstable::pointer_constraints::v1::client::zwp_pointer_constraints_v1::ZwpPointerConstraintsV1,
);

/// A lock of std (`std::sync::Mutex`), which the library only carries.
#[verifier::external_type_specification]
#[verifier::external_body]
#[verifier::reject_recursive_types(T)]
pub struct ExMutex<T: ?Sized>(std::sync::Mutex<T>);

/// An output of the compositor (`wl_output`).
#[verifier::external_type_specification]
#[verifier::external_body]
pub struct ExWlOutput(smithay_client_toolkit::reexports::client::protocol::wl_output::WlOutput);

/// A pointer device of a seat (`wl_pointer`).
#[verifier::external_type_specification]
#[verifier::external_body]
pub struct ExWlPointer(smithay_client_toolkit::reexports::client::protocol::wl_pointer::WlPointer);

/// A keyboard of a seat (`wl_keyboard`).
#[verifier::external_type_specification]
#[verifier::external_body]
pub struct ExWlKeyboard(smithay_client_toolkit::reexports::client::protocol::wl_keyboard::WlKeyboard);

/// A touchscreen of a seat (`wl_touch`).
#[verifier::external_type_specification]
#[verifier::external_body]
pub struct ExWlTouch(smithay_client_toolkit::reexports::client::protocol::wl_touch::WlTouch);

/// The relative motion events of a pointer (`zwp_relative_pointer_v1`).
#[verifier::external_type_specification]
#[verifier::external_body]
pub struct ExZwpRelativePointerV1(
    smithay_client_toolkit::reexports::protocols::unstable::relative_pointer::v1::client::zwp_relative_pointer_v1::ZwpRelativePointerV1,
);

} // verus!
