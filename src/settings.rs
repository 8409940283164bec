//! The global settings record and its caps.

use vstd::prelude::*;
use crate::session::SettingField;

verus! {

/// Seconds between two announcements in the channel.
pub const ANNOUNCE_EVERY: i64 = 10800;

/// The global tunable economics and rate-limit stamps.
#[derive(Debug, Clone)]
pub struct Settings {
    pub id: i64,
    pub invite_points: i64,
    pub star_point_price: i64,
    pub free_point_delay: i64,
    pub free_points: i64,
    pub proxy_cost: i64,
    pub v2ray_cost: i64,
    pub vip_cost: i64,
    pub vip_views: i64,
    pub vip_max_views: i64,
    pub vip_msg: Option<i64>,
    pub donate_msg: Option<i64>,
    pub ch_last_sent: i64,
    pub total_stars: i64,
    pub v2ray_last_auto_update: i64,
}

pub open spec fn default_settings() -> Settings {
    Settings {
        id: 1,
        invite_points: 100,
        star_point_price: 2,
        free_point_delay: 43200,
        free_points: 100,
        proxy_cost: 100,
        v2ray_cost: 100,
        vip_cost: 200,
        vip_views: 0,
        vip_max_views: 100,
        vip_msg: None,
        donate_msg: None,
        ch_last_sent: 0,
        total_stars: 0,
        v2ray_last_auto_update: 0,
    }
}

/// The settings as they are written back: a capped VIP message shown more
/// often than its cap is dropped and its view count restarts.
pub open spec fn settings_settled(s: Settings) -> Settings {
    if s.vip_max_views > -1 && s.vip_views > s.vip_max_views {
        Settings { vip_msg: None, vip_views: 0, ..s }
    } else {
        s
    }
}

impl Settings {
    /// The settings of a fresh installation.
    pub fn default() -> (r: Settings)
        ensures
            r == default_settings(),
    {
        Settings {
            id: 1,
            invite_points: 100,
            star_point_price: 2,
            free_point_delay: 43200,
            free_points: 100,
            proxy_cost: 100,
            v2ray_cost: 100,
            vip_cost: 200,
            vip_views: 0,
            vip_max_views: 100,
            vip_msg: None,
            donate_msg: None,
            ch_last_sent: 0,
            total_stars: 0,
            v2ray_last_auto_update: 0,
        }
    }

    /// Applies the VIP view cap before the record is written back.
    pub fn settle(&mut self)
        ensures
            *final(self) == settings_settled(*old(self)),
    {
        if self.vip_max_views > -1 && self.vip_views > self.vip_max_views {
            self.vip_msg = None;
            self.vip_views = 0;
        }
    }

    /// Sets one numeric field from an administrator's input.
    pub fn set_field(&mut self, field: SettingField, v: i64)
        ensures
            *final(self) == match field {
                SettingField::VipCost => Settings { vip_cost: v, ..*old(self) },
                SettingField::ProxyCost => Settings { proxy_cost: v, ..*old(self) },
                SettingField::V2rayCost => Settings { v2ray_cost: v, ..*old(self) },
                SettingField::InvitePoints => Settings { invite_points: v, ..*old(self) },
                SettingField::FreePoints => Settings { free_points: v, ..*old(self) },
                SettingField::FreePointDelay => Settings { free_point_delay: v, ..*old(self) },
                SettingField::StarPointPrice => Settings { star_point_price: v, ..*old(self) },
                SettingField::VipMaxViews => Settings { vip_max_views: v, ..*old(self) },
            },
    {
        match field {
            SettingField::VipCost => self.vip_cost = v,
            SettingField::ProxyCost => self.proxy_cost = v,
            SettingField::V2rayCost => self.v2ray_cost = v,
            SettingField::InvitePoints => self.invite_points = v,
            SettingField::FreePoints => self.free_points = v,
            SettingField::FreePointDelay => self.free_point_delay = v,
            SettingField::StarPointPrice => self.star_point_price = v,
            SettingField::VipMaxViews => self.vip_max_views = v,
        }
    }

    /// Counts one view of the VIP message, then applies its cap.
    pub fn vip_shown(&mut self)
        ensures
            *final(self) == settings_settled(
                Settings {
                    vip_views: if old(self).vip_views < i64::MAX {
                        (old(self).vip_views + 1) as i64
                    } else {
                        old(self).vip_views
                    },
                    ..*old(self)
                },
            ),
    {
        if self.vip_views < i64::MAX {
            self.vip_views = self.vip_views + 1;
        }
        self.settle();
    }

    /// The points that `stars` stars buy at the current price, if they fit.
    pub fn star_points(&self, stars: u32) -> (r: Option<i64>)
        ensures
            r is Some <==> i64::MIN <= stars * self.star_point_price <= i64::MAX,
            r matches Some(p) ==> p == stars * self.star_point_price,
    {
        (stars as i64).checked_mul(self.star_point_price)
    }

    /// Whether a channel announcement is due at `now` (three hours after the
    /// last one); when it is, `now` becomes the last announcement.
    pub fn announce_due(&mut self, now: i64) -> (r: bool)
        ensures
            r == (old(self).ch_last_sent + ANNOUNCE_EVERY <= now),
            r ==> *final(self) == (Settings { ch_last_sent: now, ..*old(self) }),
            !r ==> *final(self) == *old(self),
    {
        if (self.ch_last_sent as i128) + (ANNOUNCE_EVERY as i128) > now as i128 {
            return false;
        }
        self.ch_last_sent = now;
        true
    }
}

} // verus!
