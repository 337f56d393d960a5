//! Short-lived notification messages shown as an overlay.
//!
//! A `Toast` is one message with a lifetime in milliseconds; the
//! `ToastManager` holds at most one toast and drops it once it has
//! outlived its duration.  Whether a toast is expired is decided by the
//! pure `expired_at` rule; reading the wall clock is the only unverified
//! step, and it happens through the trusted [`crate::clock`] bridge.

use vstd::prelude::*;

verus! {

/// The abstract state of a toast.
pub ghost struct ToastView {
    pub message: Seq<char>,
    pub duration_ms: u64,
    pub created_at_ms: u64,
}

pub struct Toast {
    pub message: String,
    pub duration_ms: u64,
    pub created_at_ms: u64,
}

impl View for Toast {
    type V = ToastView;

    open spec fn view(&self) -> ToastView {
        ToastView {
            message: self.message@,
            duration_ms: self.duration_ms,
            created_at_ms: self.created_at_ms,
        }
    }
}

impl ToastView {
    /// A toast is expired at wall-clock time `now_ms` once more than its
    /// duration has passed since it was created; a clock that sits before
    /// the creation time counts as no time passed.
    pub open spec fn expired_at(self, now_ms: u64) -> bool {
        now_ms - self.created_at_ms > self.duration_ms
    }
}

impl Toast {
    /// A toast created now, shown for `duration_ms` milliseconds.
    pub fn new(message: &str, duration_ms: u64) -> (r: Self)
        ensures
            r@.message == message@,
            r@.duration_ms == duration_ms,
    {
        Self { message: message.to_owned(), duration_ms, created_at_ms: crate::clock::now_millis() }
    }

    /// The expiry rule applied at an explicit wall-clock time.
    pub fn is_expired_at(&self, now_ms: u64) -> (r: bool)
        ensures
            r == self@.expired_at(now_ms),
    {
        now_ms > self.created_at_ms && now_ms - self.created_at_ms > self.duration_ms
    }

    /// The expiry rule applied at the current wall-clock time.  Which
    /// instant the clock reports is outside the contract; whatever it
    /// reports, the answer follows `expired_at`.
    pub fn is_expired(&self) -> (r: bool)
        ensures
            exists|now_ms: u64| r == self@.expired_at(now_ms),
    {
        let now_ms = crate::clock::now_millis();
        self.is_expired_at(now_ms)
    }
}

pub struct ToastManager {
    toast: Option<Toast>,
}

impl View for ToastManager {
    type V = Option<ToastView>;

    closed spec fn view(&self) -> Option<ToastView> {
        match self.toast {
            Some(t) => Some(t@),
            None => None,
        }
    }
}

impl ToastManager {
    /// A manager showing nothing.
    pub fn new() -> (r: Self)
        ensures
            r@ is None,
    {
        Self { toast: None }
    }

    /// Replace whatever is shown with a fresh toast for `message`.
    pub fn show(&mut self, message: &str, duration_ms: u64)
        ensures
            match final(self)@ {
                Some(t) => t.message == message@ && t.duration_ms == duration_ms,
                None => false,
            },
    {
        self.toast = Some(Toast::new(message, duration_ms));
    }

    /// Drop the current toast, shown or not.
    pub fn clear(&mut self)
        ensures
            final(self)@ is None,
    {
        self.toast = None;
    }

    /// Drop the current toast once it is expired.  The clock decides when
    /// that happens; whatever it reports, the toast is either kept exactly
    /// as it was or removed, and removal follows the `expired_at` rule.
    pub fn check_expired(&mut self)
        ensures
            final(self)@ == old(self)@ || final(self)@ is None,
            old(self)@ is None ==> final(self)@ is None,
            match old(self)@ {
                Some(t) => exists|now_ms: u64|
                    final(self)@ == if t.expired_at(now_ms) {
                        None
                    } else {
                        old(self)@
                    },
                None => true,
            },
    {
        let now_ms = crate::clock::now_millis();
        let expired = match &self.toast {
            Some(toast) => toast.is_expired_at(now_ms),
            None => false,
        };
        if expired {
            self.toast = None;
        }
        proof {
            if let Some(t) = old(self)@ {
                assert(final(self)@ == if t.expired_at(now_ms) {
                    None
                } else {
                    old(self)@
                });
            }
        }
    }

    /// The toast currently shown, if any.
    pub fn get_toast(&self) -> (r: Option<&Toast>)
        ensures
            match r {
                Some(t) => self@ == Some(t@),
                None => self@ is None,
            },
    {
        self.toast.as_ref()
    }
}

impl Default for ToastManager {
    /// Same as `new`: a manager showing nothing.
    fn default() -> (r: Self)
        ensures
            r@ is None,
    {
        Self::new()
    }
}

} // verus!
