//! Type-erased storage for channels, and the type keys that index it.
use std::any::Any;
use std::any::TypeId;
use vstd::prelude::*;

use crate::{ChannelInfo, Erasable};

verus! {

/// A boxed channel whose concrete type has been erased.
///
/// Trusted: the struct is hidden from Verus because its one field is a
/// `Box<dyn Any>`, a trait object that Verus cannot represent.  Nothing is
/// known of a value of this type beyond its identity.
#[verifier::external_body]
pub struct AnyBox {
    inner: Box<dyn Any>,
}

/// A channel whose concrete type has been erased, as the broker stores it,
/// with what is known of the channel inside.
///
/// The fields are private to this module, and the only code that builds a
/// value is `erase`, which records the info of the channel it boxes.  The
/// info changes only through `downcast_mut`, which keeps it equal to the
/// info of the boxed channel.  So the recorded info is always that of the
/// channel in the box.
pub struct ErasedChannel {
    boxed: AnyBox,
    info: Ghost<ChannelInfo>,
}

impl ErasedChannel {
    /// What is known of the channel in the box.
    pub closed spec fn info(&self) -> ChannelInfo {
        self.info@
    }
}

/// Calls `std::any::TypeId::of::<K>()`.
///
/// Trusted, with no postcondition: the identifier depends on the type `K`
/// alone, but a type cannot be the argument of a contract here, so nothing
/// ties the result to `K`.
#[verifier::external_body]
pub(crate) fn type_key<K: 'static>() -> (r: TypeId) {
    TypeId::of::<K>()
}

/// Moves `channel` into a `Box<dyn Any>` (std's unsizing coercion of `Box::new`).
///
/// Trusted, with no postcondition: which concrete type the box holds is a
/// type-level fact that no contract here can state.
#[verifier::external_body]
fn box_channel<C: 'static>(channel: C) -> (r: AnyBox) {
    AnyBox { inner: Box::new(channel) }
}

/// Erases the type of `channel`, recording what is known of it.
pub(crate) fn erase<C: Erasable + 'static>(channel: C) -> (r: ErasedChannel)
    ensures
        r.info() == channel.info(),
{
    let ghost info = channel.info();
    ErasedChannel { boxed: box_channel(channel), info: Ghost(info) }
}

/// Calls `<dyn Any>::downcast_ref::<C>()` on the stored box.
///
/// Trusted: std returns the boxed value itself when it has type `C`, and
/// the info recorded beside the box is that value's info (see
/// `ErasedChannel`).  Whether the cast succeeds (std returns `Some` exactly
/// when the boxed value has type `C`) no contract here can state.
#[verifier::external_body]
pub(crate) fn downcast_ref<C: Erasable + 'static>(erased: &ErasedChannel) -> (r: Option<&C>)
    ensures
        r matches Some(c) ==> c.info() == erased.info(),
{
    erased.boxed.inner.downcast_ref::<C>()
}

/// Calls `<dyn Any>::downcast_mut::<C>()` on the stored box.
///
/// Trusted: when std finds another type in the box it returns `None` and
/// hands out no reference, so the erased value is left as it was.  When it
/// finds a `C` it returns the boxed value itself, whose info is the one
/// recorded (see `ErasedChannel`); whatever the caller then leaves in it is
/// what the box holds afterwards, and the recorded info follows it.  Whether
/// the cast succeeds is not stated, for the reason given at `downcast_ref`.
#[verifier::external_body]
pub(crate) fn downcast_mut<C: Erasable + 'static>(erased: &mut ErasedChannel) -> (r: Option<&mut C>)
    ensures
        r is None ==> *final(erased) == *old(erased),
        r matches Some(c) ==> c.info() == old(erased).info(),
        r matches Some(c) ==> final(erased).info() == final(c).info(),
{
    erased.boxed.inner.downcast_mut::<C>()
}

} // verus!
