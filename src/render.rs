//! The configuration files of the three roles, rendered line by line from the
//! topology by literal substitution.
use vstd::prelude::*;

use crate::config::{Common, Config, Database, Setting};
use crate::text::{
    i64_text, int_text, join_lines, lemma_int_text_injective, nat_text, quote, usize_text, LineWriter,
};

verus! {

/// Position of the `VIEW_RANGE` line in a channel part's configuration.
pub const VIEW_RANGE_LINE: usize = 14;

/// A connection descriptor as the game processes read it:
/// address, user, password, database, port, socket.
pub open spec fn game_sql(d: Database) -> Seq<char> {
    d.ip@ + " "@ + d.user@ + " "@ + d.password@ + " "@ + d.database@ + " "@ + d.port@ + " "@ + d.sock@
}

/// A connection descriptor as the database role reads it:
/// address, database, user, password, port, socket.
pub open spec fn db_sql(d: Database) -> Seq<char> {
    d.ip@ + " "@ + d.database@ + " "@ + d.user@ + " "@ + d.password@ + " "@ + d.port@ + " "@ + d.sock@
}

/// Map ids, each one preceded by a single space.
pub open spec fn map_allow(ids: Seq<i64>) -> Seq<char>
    decreases ids.len(),
{
    if ids.len() == 0 {
        Seq::empty()
    } else {
        map_allow(ids.drop_last()) + " "@ + int_text(ids.last() as int)
    }
}

/// The lines of `CONFIG` for authentication instance `x` (1-based).
pub open spec fn auth_lines(cfg: Config, x: nat) -> Seq<Seq<char>> {
    let port = cfg.auth.ports@[x - 1];
    Seq::empty()
        .push("CHANNEL: "@ + nat_text(x))
        .push("HOSTNAME: auth"@ + nat_text(x))
        .push("PORT: "@ + int_text(port.port as int))
        .push("P2P_PORT: "@ + int_text(port.p2p_port as int))
        .push("DB_ADDR: "@ + cfg.common.db_ip@)
        .push("DB_PORT: "@ + int_text(cfg.common.db_port as int))
        .push("PLAYER_SQL: "@ + game_sql(cfg.databases.account))
        .push("COMMON_SQL: "@ + game_sql(cfg.databases.common))
        .push("LOG_SQL: "@ + game_sql(cfg.databases.log))
        .push("TABLE_POSTFIX: "@ + cfg.common.table_postfix@)
        .push("PASSES_PER_SEC: "@ + int_text(cfg.common.passes_per_sec as int))
        .push("PING_EVENT_SECOND_CYCLE: "@ + int_text(cfg.common.ping_event_second_cycle as int))
        .push("ADMINPAGE_PASSWORD: "@ + cfg.adminpage_ips.password@)
        .push("adminpage_ip: "@ + cfg.adminpage_ips.adminpage_ip@)
        .push("adminpage_ip1: "@ + cfg.adminpage_ips.adminpage_ip1@)
        .push("adminpage_ip2: "@ + cfg.adminpage_ips.adminpage_ip2@)
        .push("adminpage_ip3: "@ + cfg.adminpage_ips.adminpage_ip3@)
        .push("AUTH_SERVER: "@ + cfg.auth.auth_server@)
        .push("TRAFFIC_PROFILE: "@ + int_text(cfg.auth.traffic_profile as int))
}

/// The lines of `CONFIG` for part `part` of channel `s`, serving map ids `ids`.
pub open spec fn part_lines(cfg: Config, s: Setting, part: nat, ids: Seq<i64>) -> Seq<Seq<char>> {
    Seq::empty()
        .push("CHANNEL: "@ + int_text(s.channel_id as int))
        .push("HOSTNAME: part"@ + nat_text(part))
        .push("PORT: "@ + int_text(s.port as int))
        .push("P2P_PORT: "@ + int_text(s.p2p_port as int))
        .push("DB_ADDR: "@ + cfg.common.db_ip@)
        .push("DB_PORT: "@ + int_text(cfg.common.db_port as int))
        .push("PLAYER_SQL: "@ + game_sql(cfg.databases.player))
        .push("COMMON_SQL: "@ + game_sql(cfg.databases.common))
        .push("LOG_SQL: "@ + game_sql(cfg.databases.log))
        .push("TABLE_POSTFIX: "@ + cfg.common.table_postfix@)
        .push("MAP_ALLOW: "@ + map_allow(ids))
        .push("PASSES_PER_SEC: "@ + int_text(cfg.common.passes_per_sec as int))
        .push("SAVE_EVENT_SECOND_CYCLE: "@ + int_text(cfg.common.save_event_second_cycle as int))
        .push("PING_EVENT_SECOND_CYCLE: "@ + int_text(cfg.common.ping_event_second_cycle as int))
        .push("VIEW_RANGE: "@ + int_text(cfg.common.view_range as int))
        .push("CHECK_MULTIHACK: 0"@)
        .push("LOCALE_SERVICE: "@ + cfg.common.locale_service@)
        .push("ADMINPAGE_PASSWORD: "@ + cfg.adminpage_ips.password@)
        .push("adminpage_ip: "@ + cfg.adminpage_ips.adminpage_ip@)
        .push("adminpage_ip1: "@ + cfg.adminpage_ips.adminpage_ip1@)
        .push("adminpage_ip2: "@ + cfg.adminpage_ips.adminpage_ip2@)
        .push("adminpage_ip3: "@ + cfg.adminpage_ips.adminpage_ip3@)
        .push("SPEEDHACK_LIMIT_COUNT: "@ + int_text(cfg.common.speedhack_limit_count as int))
        .push("SPEEDHACK_LIMIT_BONUS: "@ + int_text(cfg.common.speedhack_limit_bonus as int))
        .push("PK_PROTECT_LEVEL: "@ + int_text(cfg.common.pk_protect_level as int))
        .push("MALL_URL: "@ + cfg.common.mall_url@)
        .push("TRAFFIC_PROFILE: "@ + int_text(cfg.common.traffic_profile as int))
        .push("TEST_SERVER: "@ + int_text(cfg.common.test_server as int))
        .push("MAX_LEVEL: "@ + int_text(cfg.common.max_level as int))
        .push("g_bDisableItemBonusChangeTime: "@ + int_text(cfg.common.disable_item_bonus_change_time as int))
}

/// The lines of the database role's `conf.txt`.
pub open spec fn db_lines(cfg: Config) -> Seq<Seq<char>> {
    Seq::empty()
        .push("BIND_PORT = "@ + int_text(cfg.db.bind_port as int))
        .push("SQL_ACCOUNT = "@ + quote(db_sql(cfg.databases.account)))
        .push("SQL_COMMON = "@ + quote(db_sql(cfg.databases.common)))
        .push("SQL_HOTBACKUP = "@ + quote(db_sql(cfg.databases.hotbackup)))
        .push("SQL_PLAYER = "@ + quote(db_sql(cfg.databases.player)))
        .push("TABLE_POSTFIX = "@ + quote(cfg.common.table_postfix@))
        .push("DB_SLEEP_MSEC = "@ + int_text(cfg.db.db_sleep_msec as int))
        .push("CLIENT_HEART_FPS = "@ + int_text(cfg.db.client_heart_fps as int))
        .push("HASH_PLAYER_LIFE_SEC = "@ + int_text(cfg.db.hash_player_life_sec as int))
        .push("PLAYER_DELETE_LEVEL_LIMIT = "@ + int_text(cfg.db.player_delete_level_limit as int))
        .push("PLAYER_ID_START = "@ + int_text(cfg.db.player_id_start as int))
        .push("BACKUP_LIMIT_SEC = 3600"@)
        .push("WELCOME_MSG = "@ + quote("DB Server has been started"@))
        .push(
            "ITEM_ID_RANGE = "@ + (int_text(cfg.db.item_id_range.start as int) + " "@ + int_text(
                cfg.db.item_id_range.end as int,
            )),
        )
        .push("TEST_SERVER = "@ + int_text(cfg.db.test_server as int))
}

fn game_sql_text(d: &Database) -> (r: String)
    ensures
        r@ == game_sql(*d),
{
    let mut s = d.ip.clone();
    s.append(" ");
    s.append(d.user.as_str());
    s.append(" ");
    s.append(d.password.as_str());
    s.append(" ");
    s.append(d.database.as_str());
    s.append(" ");
    s.append(d.port.as_str());
    s.append(" ");
    s.append(d.sock.as_str());
    s
}

fn db_sql_text(d: &Database) -> (r: String)
    ensures
        r@ == db_sql(*d),
{
    let mut s = d.ip.clone();
    s.append(" ");
    s.append(d.database.as_str());
    s.append(" ");
    s.append(d.user.as_str());
    s.append(" ");
    s.append(d.password.as_str());
    s.append(" ");
    s.append(d.port.as_str());
    s.append(" ");
    s.append(d.sock.as_str());
    s
}

/// Map ids as the `MAP_ALLOW` value writes them: ` 101 102`.
pub fn map_allow_text(ids: &Vec<i64>) -> (r: String)
    ensures
        r@ == map_allow(ids@),
{
    let mut s = String::new();
    let mut i: usize = 0;
    while i < ids.len()
        invariant
            i <= ids@.len(),
            s@ == map_allow(ids@.subrange(0, i as int)),
        decreases ids@.len() - i,
    {
        s.append(" ");
        s.append(i64_text(ids[i]).as_str());
        i = i + 1;
        assert(ids@.subrange(0, i as int).drop_last() =~= ids@.subrange(0, i - 1));
    }
    assert(ids@.subrange(0, ids@.len() as int) =~= ids@);
    s
}

/// The `CONFIG` file of authentication instance `x`.
pub fn auth_config(cfg: &Config, x: usize) -> (r: String)
    requires
        1 <= x <= cfg.auth.ports@.len(),
    ensures
        r@ == join_lines(auth_lines(*cfg, x as nat)),
{
    let port = &cfg.auth.ports[x - 1];
    let mut w = LineWriter::new();
    w.entry("CHANNEL: ", usize_text(x).as_str());
    w.entry("HOSTNAME: auth", usize_text(x).as_str());
    w.entry("PORT: ", i64_text(port.port).as_str());
    w.entry("P2P_PORT: ", i64_text(port.p2p_port).as_str());
    w.entry("DB_ADDR: ", cfg.common.db_ip.as_str());
    w.entry("DB_PORT: ", i64_text(cfg.common.db_port).as_str());
    w.entry("PLAYER_SQL: ", game_sql_text(&cfg.databases.account).as_str());
    w.entry("COMMON_SQL: ", game_sql_text(&cfg.databases.common).as_str());
    w.entry("LOG_SQL: ", game_sql_text(&cfg.databases.log).as_str());
    w.entry("TABLE_POSTFIX: ", cfg.common.table_postfix.as_str());
    w.entry("PASSES_PER_SEC: ", i64_text(cfg.common.passes_per_sec).as_str());
    w.entry("PING_EVENT_SECOND_CYCLE: ", i64_text(cfg.common.ping_event_second_cycle).as_str());
    w.entry("ADMINPAGE_PASSWORD: ", cfg.adminpage_ips.password.as_str());
    w.entry("adminpage_ip: ", cfg.adminpage_ips.adminpage_ip.as_str());
    w.entry("adminpage_ip1: ", cfg.adminpage_ips.adminpage_ip1.as_str());
    w.entry("adminpage_ip2: ", cfg.adminpage_ips.adminpage_ip2.as_str());
    w.entry("adminpage_ip3: ", cfg.adminpage_ips.adminpage_ip3.as_str());
    w.entry("AUTH_SERVER: ", cfg.auth.auth_server.as_str());
    w.entry("TRAFFIC_PROFILE: ", i64_text(cfg.auth.traffic_profile).as_str());
    w.finish()
}

/// The `CONFIG` file of part `part` of channel `s`, serving `map_ids`.
pub fn part_config(cfg: &Config, s: &Setting, part: usize, map_ids: &Vec<i64>) -> (r: String)
    ensures
        r@ == join_lines(part_lines(*cfg, *s, part as nat, map_ids@)),
{
    let c = &cfg.common;
    let a = &cfg.adminpage_ips;
    let mut w = LineWriter::new();
    w.entry("CHANNEL: ", i64_text(s.channel_id).as_str());
    w.entry("HOSTNAME: part", usize_text(part).as_str());
    w.entry("PORT: ", i64_text(s.port).as_str());
    w.entry("P2P_PORT: ", i64_text(s.p2p_port).as_str());
    w.entry("DB_ADDR: ", c.db_ip.as_str());
    w.entry("DB_PORT: ", i64_text(c.db_port).as_str());
    w.entry("PLAYER_SQL: ", game_sql_text(&cfg.databases.player).as_str());
    w.entry("COMMON_SQL: ", game_sql_text(&cfg.databases.common).as_str());
    w.entry("LOG_SQL: ", game_sql_text(&cfg.databases.log).as_str());
    w.entry("TABLE_POSTFIX: ", c.table_postfix.as_str());
    w.entry("MAP_ALLOW: ", map_allow_text(map_ids).as_str());
    w.entry("PASSES_PER_SEC: ", i64_text(c.passes_per_sec).as_str());
    w.entry("SAVE_EVENT_SECOND_CYCLE: ", i64_text(c.save_event_second_cycle).as_str());
    w.entry("PING_EVENT_SECOND_CYCLE: ", i64_text(c.ping_event_second_cycle).as_str());
    w.entry("VIEW_RANGE: ", i64_text(c.view_range).as_str());
    w.line("CHECK_MULTIHACK: 0");
    w.entry("LOCALE_SERVICE: ", c.locale_service.as_str());
    w.entry("ADMINPAGE_PASSWORD: ", a.password.as_str());
    w.entry("adminpage_ip: ", a.adminpage_ip.as_str());
    w.entry("adminpage_ip1: ", a.adminpage_ip1.as_str());
    w.entry("adminpage_ip2: ", a.adminpage_ip2.as_str());
    w.entry("adminpage_ip3: ", a.adminpage_ip3.as_str());
    w.entry("SPEEDHACK_LIMIT_COUNT: ", i64_text(c.speedhack_limit_count).as_str());
    w.entry("SPEEDHACK_LIMIT_BONUS: ", i64_text(c.speedhack_limit_bonus).as_str());
    w.entry("PK_PROTECT_LEVEL: ", i64_text(c.pk_protect_level).as_str());
    w.entry("MALL_URL: ", c.mall_url.as_str());
    w.entry("TRAFFIC_PROFILE: ", i64_text(c.traffic_profile).as_str());
    w.entry("TEST_SERVER: ", i64_text(c.test_server).as_str());
    w.entry("MAX_LEVEL: ", i64_text(c.max_level).as_str());
    w.entry("g_bDisableItemBonusChangeTime: ", i64_text(c.disable_item_bonus_change_time).as_str());
    w.finish()
}

/// The database role's `conf.txt`.
pub fn db_config(cfg: &Config) -> (r: String)
    ensures
        r@ == join_lines(db_lines(*cfg)),
{
    let d = &cfg.db;
    let mut w = LineWriter::new();
    w.entry("BIND_PORT = ", i64_text(d.bind_port).as_str());
    w.quoted("SQL_ACCOUNT = ", db_sql_text(&cfg.databases.account).as_str());
    w.quoted("SQL_COMMON = ", db_sql_text(&cfg.databases.common).as_str());
    w.quoted("SQL_HOTBACKUP = ", db_sql_text(&cfg.databases.hotbackup).as_str());
    w.quoted("SQL_PLAYER = ", db_sql_text(&cfg.databases.player).as_str());
    w.quoted("TABLE_POSTFIX = ", cfg.common.table_postfix.as_str());
    w.entry("DB_SLEEP_MSEC = ", i64_text(d.db_sleep_msec).as_str());
    w.entry("CLIENT_HEART_FPS = ", i64_text(d.client_heart_fps).as_str());
    w.entry("HASH_PLAYER_LIFE_SEC = ", i64_text(d.hash_player_life_sec).as_str());
    w.entry("PLAYER_DELETE_LEVEL_LIMIT = ", i64_text(d.player_delete_level_limit).as_str());
    w.entry("PLAYER_ID_START = ", i64_text(d.player_id_start).as_str());
    w.line("BACKUP_LIMIT_SEC = 3600");
    w.quoted("WELCOME_MSG = ", "DB Server has been started");
    let mut range = i64_text(d.item_id_range.start);
    range.append(" ");
    range.append(i64_text(d.item_id_range.end).as_str());
    w.entry("ITEM_ID_RANGE = ", range.as_str());
    w.entry("TEST_SERVER = ", i64_text(d.test_server).as_str());
    w.finish()
}

/// Rendering substitutes each field on its own line: two topologies that
/// differ only in their view range give channel-part configurations that
/// agree on every line but the `VIEW_RANGE` one, and that line tells the two
/// view ranges apart.
pub proof fn lemma_view_range_line(c1: Config, c2: Config, s: Setting, part: nat, ids: Seq<i64>)
    requires
        c2 == (Config { common: Common { view_range: c2.common.view_range, ..c1.common }, ..c1 }),
    ensures
        ({
            let l1 = part_lines(c1, s, part, ids);
            let l2 = part_lines(c2, s, part, ids);
            &&& l1.len() == l2.len()
            &&& VIEW_RANGE_LINE < l1.len()
            &&& forall|i: int| 0 <= i < l1.len() && i != VIEW_RANGE_LINE ==> #[trigger] l1[i] == l2[i]
            &&& l1[VIEW_RANGE_LINE as int] == "VIEW_RANGE: "@ + int_text(c1.common.view_range as int)
            &&& l2[VIEW_RANGE_LINE as int] == "VIEW_RANGE: "@ + int_text(c2.common.view_range as int)
            &&& (l1[VIEW_RANGE_LINE as int] == l2[VIEW_RANGE_LINE as int] <==> c1.common.view_range
                == c2.common.view_range)
        }),
{
    let l1 = part_lines(c1, s, part, ids);
    let l2 = part_lines(c2, s, part, ids);
    let head = "VIEW_RANGE: "@;
    let t1 = int_text(c1.common.view_range as int);
    let t2 = int_text(c2.common.view_range as int);
    assert(l2 =~= l1.update(VIEW_RANGE_LINE as int, head + t2));
    if l1[VIEW_RANGE_LINE as int] == l2[VIEW_RANGE_LINE as int] {
        assert((head + t1).subrange(head.len() as int, (head + t1).len() as int) =~= t1);
        assert((head + t2).subrange(head.len() as int, (head + t2).len() as int) =~= t2);
        lemma_int_text_injective(c1.common.view_range as int, c2.common.view_range as int);
    }
}

} // verus!
