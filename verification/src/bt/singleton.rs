//! A once-at-a-time owner of a Bluetooth profile together with its event callback.
use vstd::prelude::*;

use core::marker::PhantomData;

use crate::esp_error::{EspError, ESP_ERR_INVALID_STATE};

verus! {

/// Tracks whether a Bluetooth profile has been taken, and holds the callback
/// that its events are delivered to. Events that arrive with no callback
/// subscribed are answered with `default_result`.
pub struct BtSingleton<A, R, F> {
    initialized: bool,
    callback: Option<F>,
    default_result: R,
    _arg: PhantomData<A>,
}

impl<A, R, F> BtSingleton<A, R, F> {
    /// Whether the profile is currently taken.
    pub closed spec fn is_initialized(&self) -> bool {
        self.initialized
    }

    /// The subscribed callback, if any.
    pub closed spec fn callback(&self) -> Option<F> {
        self.callback
    }

    /// The answer given to events while no callback is subscribed.
    pub closed spec fn default_result(&self) -> R {
        self.default_result
    }

    /// The state after `take`, and whether `take` succeeds: it succeeds
    /// exactly when the profile was free, and leaves it taken either way.
    pub closed spec fn spec_take(self) -> (Self, bool) {
        (BtSingleton { initialized: true, ..self }, !self.initialized)
    }

    /// The state after `release`, and whether `release` succeeds: the
    /// callback is always dropped; it succeeds exactly when the profile was
    /// taken, and leaves it free either way.
    pub closed spec fn spec_release(self) -> (Self, bool) {
        (BtSingleton { initialized: false, callback: None, ..self }, self.initialized)
    }

    /// The state after `subscribe(callback)`.
    pub closed spec fn spec_subscribe(self, callback: F) -> Self {
        BtSingleton { callback: Some(callback), ..self }
    }

    /// A free profile with no callback.
    pub fn new(default_result: R) -> (r: Self)
        ensures
            !r.is_initialized(),
            r.callback() is None,
            r.default_result() == default_result,
    {
        BtSingleton { initialized: false, callback: None, default_result, _arg: PhantomData }
    }

    /// Frees the profile and drops its callback; fails with
    /// `ESP_ERR_INVALID_STATE` when the profile was not taken.
    pub fn release(&mut self) -> (r: Result<(), EspError>)
        ensures
            *final(self) == old(self).spec_release().0,
            r is Ok <==> old(self).spec_release().1,
            r is Ok <==> old(self).is_initialized(),
            !final(self).is_initialized(),
            final(self).callback() is None,
            final(self).default_result() == old(self).default_result(),
            r matches Err(e) ==> e.spec_code() == ESP_ERR_INVALID_STATE,
    {
        self.unsubscribe();
        if self.initialized {
            self.initialized = false;
            Ok(())
        } else {
            Err(EspError::invalid_state())
        }
    }

    /// Takes the profile; fails with `ESP_ERR_INVALID_STATE` when it is
    /// already taken.
    pub fn take(&mut self) -> (r: Result<(), EspError>)
        ensures
            *final(self) == old(self).spec_take().0,
            r is Ok <==> old(self).spec_take().1,
            r is Ok <==> !old(self).is_initialized(),
            final(self).is_initialized(),
            final(self).callback() == old(self).callback(),
            final(self).default_result() == old(self).default_result(),
            r matches Err(e) ==> e.spec_code() == ESP_ERR_INVALID_STATE,
    {
        if self.initialized {
            Err(EspError::invalid_state())
        } else {
            self.initialized = true;
            Ok(())
        }
    }

    /// Makes `callback` the receiver of the profile's events.
    pub fn subscribe(&mut self, callback: F)
        ensures
            *final(self) == old(self).spec_subscribe(callback),
            final(self).callback() == Some(callback),
            final(self).is_initialized() == old(self).is_initialized(),
            final(self).default_result() == old(self).default_result(),
    {
        self.callback = Some(callback);
    }

    /// Drops the callback, if any.
    pub fn unsubscribe(&mut self)
        ensures
            final(self).callback() is None,
            final(self).is_initialized() == old(self).is_initialized(),
            final(self).default_result() == old(self).default_result(),
    {
        self.callback = None;
    }

    /// Delivers an event: the subscribed callback's answer, or a clone of
    /// the default answer when no callback is subscribed.
    pub fn call(&self, arg: A) -> (r: R) where F: Fn(A) -> R, R: Clone
        requires
            self.callback() matches Some(f) ==> call_requires(f, (arg,)),
        ensures
            self.callback() matches Some(f) ==> call_ensures(f, (arg,), r),
            self.callback() is None ==> cloned(self.default_result(), r),
    {
        match &self.callback {
            Some(callback) => callback(arg),
            None => self.default_result.clone(),
        }
    }
}

/// While the profile is taken, every further `take` fails: ownership is exclusive.
pub proof fn lemma_take_is_exclusive<A, R, F>(s: BtSingleton<A, R, F>)
    ensures
        s.spec_take().0.is_initialized(),
        !s.spec_take().0.spec_take().1,
{
}

/// Taking a free profile, subscribing a callback and releasing it again all
/// succeed and leave the profile free with no callback.
pub proof fn lemma_take_then_release<A, R, F>(s: BtSingleton<A, R, F>, callback: F)
    requires
        !s.is_initialized(),
    ensures
        s.spec_take().1,
        s.spec_take().0.spec_subscribe(callback).spec_release().1,
        !s.spec_take().0.spec_subscribe(callback).spec_release().0.is_initialized(),
        s.spec_take().0.spec_subscribe(callback).spec_release().0.callback() is None,
        s.spec_take().0.spec_subscribe(callback).spec_release().0.default_result()
            == s.default_result(),
{
}

/// Releasing a profile that is not taken fails, and so does releasing twice.
pub proof fn lemma_release_requires_take<A, R, F>(s: BtSingleton<A, R, F>)
    ensures
        !s.is_initialized() ==> !s.spec_release().1,
        !s.spec_release().0.spec_release().1,
{
}

} // verus!
