//! The topology description: what the cluster is made of, as read from the
//! configuration file.
use vstd::prelude::*;

use crate::text::{i64_text, int_text, nat_text, usize_text};

verus! {

/// The whole topology of one server cluster.
#[derive(Clone, Debug, PartialEq, Eq)]
pub struct Config {
    /// Names the cluster; its lower-cased form selects the shared binaries.
    pub server_name: String,
    pub auth: Auth,
    pub channels: Channels,
    pub common: Common,
    pub db: Db,
    pub adminpage_ips: AdminpageIps,
    pub databases: Databases,
}

#[derive(Clone, Debug, PartialEq, Eq)]
pub struct AdminpageIps {
    pub adminpage_ip: String,
    pub adminpage_ip1: String,
    pub adminpage_ip2: String,
    pub adminpage_ip3: String,
    pub password: String,
}

/// The authentication gateways: one instance per entry of `ports`.
#[derive(Clone, Debug, PartialEq, Eq)]
pub struct Auth {
    pub auth_server: String,
    pub traffic_profile: i64,
    pub ports: Vec<Port>,
}

#[derive(Clone, Debug, PartialEq, Eq)]
pub struct Port {
    pub port: i64,
    pub p2p_port: i64,
}

/// The channels, and the map groups that a channel uses unless it overrides them.
#[derive(Clone, Debug, PartialEq, Eq)]
pub struct Channels {
    pub common_maps: Vec<Vec<i64>>,
    pub settings: Vec<Setting>,
}

/// One channel. Each of its map groups becomes one part.
#[derive(Clone, Debug, PartialEq, Eq)]
pub struct Setting {
    /// Replaces both the derived directory name and the derived executable name.
    pub rename: Option<String>,
    pub channel_id: i64,
    pub port: i64,
    pub p2p_port: i64,
    /// Replaces `Channels::common_maps` for this channel alone.
    pub override_maps: Option<Vec<Vec<i64>>>,
}

#[derive(Clone, Debug, PartialEq, Eq)]
pub struct Common {
    pub table_postfix: String,
    pub passes_per_sec: i64,
    pub db_ip: String,
    pub db_port: i64,
    pub save_event_second_cycle: i64,
    pub ping_event_second_cycle: i64,
    pub view_range: i64,
    pub locale_service: String,
    pub speedhack_limit_count: i64,
    pub speedhack_limit_bonus: i64,
    pub pk_protect_level: i64,
    pub mall_url: String,
    pub traffic_profile: i64,
    pub test_server: i64,
    pub max_level: i64,
    pub disable_item_bonus_change_time: i64,
}

/// Connection descriptors of the databases the processes talk to.
#[derive(Clone, Debug, PartialEq, Eq)]
pub struct Databases {
    pub player: Database,
    pub common: Database,
    pub log: Database,
    pub account: Database,
    pub hotbackup: Database,
}

#[derive(Clone, Debug, PartialEq, Eq)]
pub struct Database {
    pub ip: String,
    pub port: String,
    pub database: String,
    pub user: String,
    pub password: String,
    pub sock: String,
}

#[derive(Clone, Debug, PartialEq, Eq)]
pub struct Db {
    pub bind_port: i64,
    pub db_sleep_msec: i64,
    pub client_heart_fps: i64,
    pub hash_player_life_sec: i64,
    pub player_delete_level_limit: i64,
    pub player_id_start: i64,
    pub item_id_range: ItemIdRange,
    pub test_server: i64,
}

#[derive(Clone, Debug, PartialEq, Eq)]
pub struct ItemIdRange {
    pub start: i64,
    pub end: i64,
}

impl Setting {
    /// The channel's directory: the rename if there is one, else `channel<id>`.
    pub open spec fn dir_name(&self) -> Seq<char> {
        match self.rename {
            Some(name) => name@,
            None => "channel"@ + int_text(self.channel_id as int),
        }
    }

    /// The executable of one part: the rename if there is one, else `game<id>_<part>`.
    pub open spec fn exe_name(&self, part: nat) -> Seq<char> {
        match self.rename {
            Some(name) => name@,
            None => "game"@ + int_text(self.channel_id as int) + "_"@ + nat_text(part),
        }
    }

    /// The map groups that apply to this channel: its override when present,
    /// else the shared default.
    pub open spec fn effective_maps(&self, channels: Channels) -> Seq<Seq<i64>> {
        match self.override_maps {
            Some(maps) => maps.deep_view(),
            None => channels.common_maps.deep_view(),
        }
    }

    pub fn channel_dir_name(&self) -> (r: String)
        ensures
            r@ == self.dir_name(),
    {
        match &self.rename {
            Some(name) => name.clone(),
            None => {
                let mut s = String::from_str("channel");
                s.append(i64_text(self.channel_id).as_str());
                s
            },
        }
    }

    pub fn executable_name(&self, part: usize) -> (r: String)
        ensures
            r@ == self.exe_name(part as nat),
    {
        match &self.rename {
            Some(name) => name.clone(),
            None => {
                let mut s = String::from_str("game");
                s.append(i64_text(self.channel_id).as_str());
                s.append("_");
                s.append(usize_text(part).as_str());
                s
            },
        }
    }

    pub fn get_map_ids(&self, channels: &Channels) -> (r: Vec<Vec<i64>>)
        ensures
            r.deep_view() == self.effective_maps(*channels),
    {
        match &self.override_maps {
            Some(maps) => maps.clone(),
            None => channels.common_maps.clone(),
        }
    }
}

} // verus!
