//! Sponsor ads: eligibility for the rotation and the view cap.

use vstd::prelude::*;
use crate::v2ray::{parse_url, url_parses};

verus! {

/// A sponsor ad: a forwarded message shown with capped impressions.
#[derive(Debug)]
pub struct Flyer {
    pub id: i64,
    pub label: String,
    pub link: Option<String>,
    /// the stored sponsor message
    pub mid: i64,
    pub views: i64,
    /// -1 (or any negative value) for no cap
    pub max_views: i64,
    pub disabled: bool,
}

/// The ad has used up its views: it is capped and has reached the cap.
pub open spec fn over_cap(views: i64, max_views: i64) -> bool {
    max_views > -1 && views >= max_views
}

/// The ad as it is written back: disabled once it is over its cap.
pub open spec fn settled(f: Flyer) -> Flyer {
    Flyer { disabled: f.disabled || over_cap(f.views, f.max_views), ..f }
}

/// The ad after one delivery attempt: a failed one disables it, a
/// successful one counts a view; then the cap applies.
pub open spec fn after_delivery(f: Flyer, ok: bool) -> Flyer {
    if ok {
        settled(Flyer { views: (f.views + 1) as i64, ..f })
    } else {
        settled(Flyer { disabled: true, ..f })
    }
}

impl Flyer {
    /// An enabled, uncapped ad with no views and no link.
    pub fn default() -> (r: Flyer)
        ensures
            r.id == 0 && r.label@.len() == 0 && r.link is None && r.mid == 0 && r.views == 0 && r.max_views
                == -1 && !r.disabled,
    {
        Flyer { id: 0, label: String::new(), link: None, mid: 0, views: 0, max_views: -1, disabled: false }
    }

    /// A new ad for the stored message `mid`.
    pub fn new(label: String, mid: i64) -> (r: Flyer)
        ensures
            r.label == label && r.mid == mid && r.id == 0 && r.link is None && r.views == 0 && r.max_views
                == -1 && !r.disabled,
    {
        Flyer { label, mid, ..Flyer::default() }
    }

    /// Whether the rotation may show this ad: enabled and not over its cap.
    pub fn eligible(&self) -> (r: bool)
        ensures
            r == (!self.disabled && !over_cap(self.views, self.max_views)),
    {
        !self.disabled && !(self.max_views > -1 && self.views >= self.max_views)
    }

    /// Whether the rotation may show this ad as a link button.
    pub fn eligible_link(&self) -> (r: bool)
        ensures
            r == (self.link is Some && !self.disabled && !over_cap(self.views, self.max_views)),
    {
        self.link.is_some() && self.eligible()
    }

    /// Applies the view cap before the record is written back.
    pub fn settle(&mut self)
        ensures
            *final(self) == settled(*old(self)),
    {
        if self.max_views > -1 && self.views >= self.max_views {
            self.disabled = true;
        }
    }

    /// Records one delivery attempt of the ad.
    pub fn delivered(&mut self, ok: bool)
        requires
            ok ==> old(self).views < i64::MAX,
        ensures
            *final(self) == after_delivery(*old(self), ok),
    {
        if ok {
            self.views = self.views + 1;
        } else {
            self.disabled = true;
        }
        self.settle();
    }

    /// Sets the view cap; anything below -1 means no cap and is kept as -1.
    pub fn set_max_views(&mut self, max_views: i64)
        ensures
            *final(self) == (Flyer { max_views: if max_views < -1 { -1i64 } else { max_views }, ..*old(self) }),
    {
        self.max_views = if max_views < -1 {
            -1
        } else {
            max_views
        };
    }

    /// Switches the ad on or off by hand.
    pub fn toggle_disabled(&mut self)
        ensures
            *final(self) == (Flyer { disabled: !old(self).disabled, ..*old(self) }),
    {
        self.disabled = !self.disabled;
    }

    /// Starts counting the ad's views from zero again.
    pub fn reset_views(&mut self)
        ensures
            *final(self) == (Flyer { views: 0, ..*old(self) }),
    {
        self.views = 0;
    }

    /// Removes the ad's link.
    pub fn drop_link(&mut self)
        ensures
            *final(self) == (Flyer { link: None, ..*old(self) }),
    {
        self.link = None;
    }

    /// Keeps the link only if it is a usable URL (`valid`), and says so.
    pub fn check_link(&mut self, valid: bool) -> (r: bool)
        ensures
            r == (old(self).link is Some && valid),
            r ==> *final(self) == *old(self),
            !r ==> *final(self) == (Flyer { link: None, ..*old(self) }),
    {
        if self.link.is_some() && valid {
            true
        } else {
            self.link = None;
            false
        }
    }

    /// Keeps the link only if the URL parser accepts it, and says whether
    /// the ad can be shown as a link button.
    pub fn link_button(&mut self) -> (r: bool)
        ensures
            r == (old(self).link is Some && url_parses(old(self).link->0@)),
            r ==> *final(self) == *old(self),
            !r ==> *final(self) == (Flyer { link: None, ..*old(self) }),
    {
        let valid = match &self.link {
            Some(l) => parse_url(l.as_str()).is_some(),
            None => false,
        };
        self.check_link(valid)
    }
}

/// An ad at or over a cap of `max_views >= 0` is disabled when it is written
/// back, and an ad without a cap is never disabled for its views.
pub proof fn lemma_view_cap(f: Flyer)
    ensures
        f.max_views >= 0 && f.views >= f.max_views ==> settled(f).disabled,
        f.max_views == -1 ==> settled(f).disabled == f.disabled,
        f.max_views == -1 && f.views < i64::MAX ==> after_delivery(f, true).disabled == f.disabled,
{
}

} // verus!
