//! Removal of labels: each one leaves the page once its lifetime is over.
use vstd::prelude::*;

verus! {

/// How long a label stays on the page, in milliseconds.
pub const LABEL_LIFETIME_MILLIS: u64 = 20000;

/// The removal armed for one label: when it was armed, for how long, and
/// whether the label has been taken off the page.
#[derive(Clone, Copy, Debug, PartialEq, Eq, Structural)]
pub struct Expiry {
    pub scheduled_at: u64,
    pub lifetime: u64,
    pub removed: bool,
}

impl Expiry {
    /// The removal armed at `t0` for `lifetime`, not yet done.
    pub open spec fn spec_scheduled(t0: u64, lifetime: u64) -> Expiry {
        Expiry { scheduled_at: t0, lifetime, removed: false }
    }

    /// The time at which the label leaves the page.
    pub open spec fn due(&self) -> int {
        self.scheduled_at + self.lifetime
    }

    /// Whether the label is on the page at time `now`.
    pub open spec fn present_at(&self, now: int) -> bool {
        now < self.due()
    }

    /// The removal as it stands after its timer fires at `now`, and whether the
    /// label is to be taken off the page then.
    pub open spec fn fire_at(&self, now: int) -> (Expiry, bool) {
        let take = !self.removed && now >= self.due();
        (Expiry { removed: self.removed || take, ..*self }, take)
    }

    /// Arms the removal of a label at time `now`, after `lifetime` milliseconds.
    pub fn schedule(now: u64, lifetime: u64) -> (r: Expiry)
        ensures
            r == Expiry::spec_scheduled(now, lifetime),
    {
        Expiry { scheduled_at: now, lifetime, removed: false }
    }

    /// Whether the label is on the page at time `now`.
    pub fn is_present(&self, now: u64) -> (r: bool)
        ensures
            r == self.present_at(now as int),
    {
        now < self.scheduled_at || now - self.scheduled_at < self.lifetime
    }

    /// Milliseconds from `now` until the label is due to leave, at most
    /// `u64::MAX`; none once it is due.
    pub fn remaining(&self, now: u64) -> (r: u64)
        ensures
            !self.present_at(now as int) ==> r == 0,
            self.present_at(now as int) && self.due() - now <= u64::MAX ==> r == self.due() - now,
            self.present_at(now as int) && self.due() - now > u64::MAX ==> r == u64::MAX,
    {
        if now < self.scheduled_at {
            let ahead = self.scheduled_at - now;
            if ahead > u64::MAX - self.lifetime {
                u64::MAX
            } else {
                ahead + self.lifetime
            }
        } else if now - self.scheduled_at < self.lifetime {
            self.lifetime - (now - self.scheduled_at)
        } else {
            0
        }
    }

    /// The timer fired at `now`: whether the label is to be taken off the page.
    /// This is so exactly once, at the first firing at or after the due time.
    pub fn fire(&mut self, now: u64) -> (take: bool)
        ensures
            (*final(self), take) == old(self).fire_at(now as int),
    {
        let take = !self.removed && !self.is_present(now);
        if take {
            self.removed = true;
        }
        take
    }
}

/// A label whose removal was armed at `t0` for `lifetime` is on the page for
/// every time before `t0 + lifetime` and off it for every time at or after it;
/// the first firing from then on takes it off, and no later firing does again.
pub proof fn lemma_present_until_due(t0: u64, lifetime: u64, query: int, first: int, later: int)
    ensures
        Expiry::spec_scheduled(t0, lifetime).present_at(query) <==> query < t0 + lifetime,
        first >= t0 + lifetime ==> Expiry::spec_scheduled(t0, lifetime).fire_at(first).1,
        first < t0 + lifetime ==> !Expiry::spec_scheduled(t0, lifetime).fire_at(first).1,
        first >= t0 + lifetime ==> !Expiry::spec_scheduled(t0, lifetime).fire_at(first).0.fire_at(
            later,
        ).1,
{
}

} // verus!
