use server_maker::config::{
    AdminpageIps, Auth, Channels, Common, Config, Database, Databases, Db, ItemIdRange, Port, Setting,
};
use server_maker::error::MakerError;
use server_maker::expand::{expand, EmissionUnit};
use server_maker::guard::{Entry, EntryKind};
use server_maker::maker::{FsOp, Maker};
use server_maker::render::{auth_config, db_config, map_allow_text, part_config, VIEW_RANGE_LINE};
use server_maker::text::{i64_text, usize_text};

fn database(name: &str) -> Database {
    Database {
        ip: format!("{}-host", name),
        port: "3306".to_string(),
        database: format!("{}_db", name),
        user: format!("{}_user", name),
        password: format!("{}_pw", name),
        sock: format!("/tmp/{}.sock", name),
    }
}

fn setting(channel_id: i64, rename: Option<&str>, override_maps: Option<Vec<Vec<i64>>>) -> Setting {
    Setting {
        rename: rename.map(|r| r.to_string()),
        channel_id,
        port: 13000 + channel_id,
        p2p_port: 14000 + channel_id,
        override_maps,
    }
}

fn sample(auth_ports: usize, settings: Vec<Setting>, common_maps: Vec<Vec<i64>>) -> Config {
    Config {
        server_name: "Metin".to_string(),
        auth: Auth {
            auth_server: "master".to_string(),
            traffic_profile: 1,
            ports: (0..auth_ports as i64).map(|i| Port { port: 11000 + i, p2p_port: 12000 + i }).collect(),
        },
        channels: Channels { common_maps, settings },
        common: Common {
            table_postfix: "".to_string(),
            passes_per_sec: 25,
            db_ip: "127.0.0.1".to_string(),
            db_port: 15000,
            save_event_second_cycle: 180,
            ping_event_second_cycle: 180,
            view_range: 5000,
            locale_service: "europe".to_string(),
            speedhack_limit_count: 300,
            speedhack_limit_bonus: 80,
            pk_protect_level: 15,
            mall_url: "http://mall".to_string(),
            traffic_profile: 0,
            test_server: 0,
            max_level: 120,
            disable_item_bonus_change_time: 1,
        },
        db: Db {
            bind_port: 15000,
            db_sleep_msec: 10,
            client_heart_fps: 60,
            hash_player_life_sec: 600,
            player_delete_level_limit: 70,
            player_id_start: 100,
            item_id_range: ItemIdRange { start: 2000000000, end: 2100000000 },
            test_server: 0,
        },
        adminpage_ips: AdminpageIps {
            adminpage_ip: "10.0.0.1".to_string(),
            adminpage_ip1: "10.0.0.2".to_string(),
            adminpage_ip2: "10.0.0.3".to_string(),
            adminpage_ip3: "10.0.0.4".to_string(),
            password: "secret".to_string(),
        },
        databases: Databases {
            player: database("player"),
            common: database("common"),
            log: database("log"),
            account: database("account"),
            hotbackup: database("hotbackup"),
        },
    }
}

#[test]
fn decimal_text_matches_formatting() {
    for n in [0i64, 7, 10, 99, 100, 5000, -1, -42, i64::MAX, i64::MIN] {
        assert_eq!(i64_text(n), format!("{}", n));
    }
    for n in [0usize, 9, 10, 12345, usize::MAX] {
        assert_eq!(usize_text(n), format!("{}", n));
    }
}

#[test]
fn map_allow_prefixes_each_id_with_a_space() {
    assert_eq!(map_allow_text(&vec![101, 102]), " 101 102");
    assert_eq!(map_allow_text(&vec![201]), " 201");
    assert_eq!(map_allow_text(&vec![]), "");
    assert_eq!(map_allow_text(&vec![-3, 0]), " -3 0");
}

#[test]
fn channel_names_use_rename_or_id() {
    let plain = setting(5, None, None);
    assert_eq!(plain.channel_dir_name(), "channel5");
    assert_eq!(plain.executable_name(2), "game5_2");
    let renamed = setting(5, Some("event"), None);
    assert_eq!(renamed.channel_dir_name(), "event");
    assert_eq!(renamed.executable_name(2), "event");
}

#[test]
fn effective_maps_prefer_the_override() {
    let cfg = sample(1, vec![], vec![vec![1, 2], vec![3]]);
    let plain = setting(1, None, None);
    assert_eq!(plain.get_map_ids(&cfg.channels), vec![vec![1, 2], vec![3]]);
    let overriding = setting(2, None, Some(vec![vec![9]]));
    assert_eq!(overriding.get_map_ids(&cfg.channels), vec![vec![9]]);
    let emptied = setting(3, None, Some(vec![]));
    assert_eq!(emptied.get_map_ids(&cfg.channels), Vec::<Vec<i64>>::new());
}

#[test]
fn expansion_orders_auth_parts_then_db() {
    let cfg = sample(
        2,
        vec![setting(1, None, None), setting(2, None, Some(vec![vec![7], vec![8], vec![9]])), setting(3, None, Some(vec![]))],
        vec![vec![101, 102], vec![201]],
    );
    let units = expand(&cfg);
    assert_eq!(
        units,
        vec![
            EmissionUnit::AuthInstance { index: 1 },
            EmissionUnit::AuthInstance { index: 2 },
            EmissionUnit::ChannelPart { channel: 0, part: 1, map_ids: vec![101, 102] },
            EmissionUnit::ChannelPart { channel: 0, part: 2, map_ids: vec![201] },
            EmissionUnit::ChannelPart { channel: 1, part: 1, map_ids: vec![7] },
            EmissionUnit::ChannelPart { channel: 1, part: 2, map_ids: vec![8] },
            EmissionUnit::ChannelPart { channel: 1, part: 3, map_ids: vec![9] },
            EmissionUnit::DbRole,
        ]
    );
}

#[test]
fn parts_of_a_channel_are_numbered_from_one() {
    let cfg = sample(0, vec![setting(4, None, Some(vec![vec![1], vec![2], vec![3], vec![4]]))], vec![]);
    let parts: Vec<usize> = expand(&cfg)
        .into_iter()
        .filter_map(|u| match u {
            EmissionUnit::ChannelPart { channel: 0, part, .. } => Some(part),
            _ => None,
        })
        .collect();
    assert_eq!(parts, vec![1, 2, 3, 4]);
}

#[test]
fn auth_config_text() {
    let cfg = sample(2, vec![], vec![]);
    let text = auth_config(&cfg, 2);
    let lines: Vec<&str> = text.lines().collect();
    assert_eq!(lines[0], "CHANNEL: 2");
    assert_eq!(lines[1], "HOSTNAME: auth2");
    assert_eq!(lines[2], "PORT: 11001");
    assert_eq!(lines[3], "P2P_PORT: 12001");
    assert_eq!(lines[6], "PLAYER_SQL: account-host account_user account_pw account_db 3306 /tmp/account.sock");
    assert_eq!(lines[17], "AUTH_SERVER: master");
    assert_eq!(lines[18], "TRAFFIC_PROFILE: 1");
    assert_eq!(lines.len(), 19);
    assert!(text.ends_with("TRAFFIC_PROFILE: 1\n"));
}

#[test]
fn part_config_text() {
    let cfg = sample(0, vec![setting(5, None, None)], vec![vec![101, 102]]);
    let text = part_config(&cfg, &cfg.channels.settings[0], 1, &vec![101, 102]);
    let lines: Vec<&str> = text.lines().collect();
    assert_eq!(lines[0], "CHANNEL: 5");
    assert_eq!(lines[1], "HOSTNAME: part1");
    assert_eq!(lines[2], "PORT: 13005");
    assert_eq!(lines[6], "PLAYER_SQL: player-host player_user player_pw player_db 3306 /tmp/player.sock");
    assert_eq!(lines[10], "MAP_ALLOW:  101 102");
    assert_eq!(lines[VIEW_RANGE_LINE], "VIEW_RANGE: 5000");
    assert_eq!(lines[15], "CHECK_MULTIHACK: 0");
    assert_eq!(lines[29], "g_bDisableItemBonusChangeTime: 1");
    assert_eq!(lines.len(), 30);
}

#[test]
fn db_config_text() {
    let cfg = sample(0, vec![], vec![]);
    let text = db_config(&cfg);
    let lines: Vec<&str> = text.lines().collect();
    assert_eq!(lines[0], "BIND_PORT = 15000");
    assert_eq!(lines[1], "SQL_ACCOUNT = \"account-host account_db account_user account_pw 3306 /tmp/account.sock\"");
    assert_eq!(lines[3], "SQL_HOTBACKUP = \"hotbackup-host hotbackup_db hotbackup_user hotbackup_pw 3306 /tmp/hotbackup.sock\"");
    assert_eq!(lines[5], "TABLE_POSTFIX = \"\"");
    assert_eq!(lines[11], "BACKUP_LIMIT_SEC = 3600");
    assert_eq!(lines[12], "WELCOME_MSG = \"DB Server has been started\"");
    assert_eq!(lines[13], "ITEM_ID_RANGE = 2000000000 2100000000");
    assert_eq!(lines[14], "TEST_SERVER = 0");
    assert_eq!(lines.len(), 15);
}

#[test]
fn view_range_changes_only_its_line() {
    let first = sample(0, vec![setting(5, None, None)], vec![vec![101]]);
    let mut second = sample(0, vec![setting(5, None, None)], vec![vec![101]]);
    second.common.view_range = 6000;
    let a = part_config(&first, &first.channels.settings[0], 1, &vec![101]);
    let b = part_config(&second, &second.channels.settings[0], 1, &vec![101]);
    let la: Vec<&str> = a.lines().collect();
    let lb: Vec<&str> = b.lines().collect();
    assert_eq!(la.len(), lb.len());
    for i in 0..la.len() {
        if i == VIEW_RANGE_LINE {
            assert_eq!(la[i], "VIEW_RANGE: 5000");
            assert_eq!(lb[i], "VIEW_RANGE: 6000");
        } else {
            assert_eq!(la[i], lb[i]);
        }
    }
}

fn dirs(ops: &[FsOp]) -> Vec<String> {
    ops.iter()
        .filter_map(|o| match o {
            FsOp::CreateDir { path } => Some(path.clone()),
            _ => None,
        })
        .collect()
}

fn written<'a>(ops: &'a [FsOp], wanted: &str) -> Option<&'a str> {
    ops.iter().find_map(|o| match o {
        FsOp::WriteFile { path, contents } if path == wanted => Some(contents.as_str()),
        _ => None,
    })
}

fn links(ops: &[FsOp]) -> Vec<(String, String)> {
    ops.iter()
        .filter_map(|o| match o {
            FsOp::Symlink { original, link } => Some((original.clone(), link.clone())),
            _ => None,
        })
        .collect()
}

#[test]
fn end_to_end_layout() {
    let cfg = sample(2, vec![setting(5, None, None)], vec![vec![101, 102], vec![201]]);
    let ops = Maker::new(cfg, vec![], "maker".to_string()).make();
    assert_eq!(
        dirs(&ops),
        vec![
            "auth",
            "./auth/1",
            "./auth/1/log",
            "./auth/2",
            "./auth/2/log",
            "./channel5",
            "./channel5/part1",
            "./channel5/part1/log",
            "./channel5/part1/mark",
            "./channel5/part2",
            "./channel5/part2/log",
            "./channel5/part2/mark",
            "db",
        ]
    );
    assert!(written(&ops, "./auth/1/CONFIG").is_some());
    assert!(written(&ops, "./auth/2/CONFIG").is_some());
    let part1 = written(&ops, "./channel5/part1/CONFIG").unwrap();
    assert!(part1.lines().any(|l| l == "MAP_ALLOW:  101 102"));
    let part2 = written(&ops, "./channel5/part2/CONFIG").unwrap();
    assert!(part2.lines().any(|l| l == "MAP_ALLOW:  201"));
    assert!(written(&ops, "./db/conf.txt").is_some());
    let script = written(&ops, "./start.sh").unwrap();
    assert_eq!(
        script,
        "#!/bin/sh\n\
         cd /home/Metin/db && ./db_Metin\n\
         sleep 3\n\
         cd /home/Metin/channel5/part1 && ./game5_1\n\
         cd /home/Metin/channel5/part2 && ./game5_2\n\
         cd /home/Metin/auth/1/ && ./auth1\n\
         cd /home/Metin/auth/2/ && ./auth2\n\
         cd ../..\n"
    );
    match ops.last().unwrap() {
        FsOp::WriteFile { path, .. } => assert_eq!(path, "./start.sh"),
        other => panic!("unexpected last operation {:?}", other),
    }
}

#[test]
fn shared_binaries_use_the_lower_case_server_name() {
    let cfg = sample(1, vec![setting(1, Some("event"), None)], vec![vec![1]]);
    let ops = Maker::new(cfg, vec![], "maker".to_string()).make();
    let all = links(&ops);
    assert!(all.contains(&("../../share/game_metin".to_string(), "./auth/1/auth1".to_string())));
    assert!(all.contains(&("../../share/game_metin".to_string(), "./event/part1/event".to_string())));
    assert!(all.contains(&("../share/db_metin".to_string(), "./db/db_metin".to_string())));
}

#[test]
fn links_into_the_shared_directory() {
    let cfg = sample(1, vec![setting(3, None, None)], vec![vec![1]]);
    let ops = Maker::new(cfg, vec![], "maker".to_string()).plan("key");
    let all = links(&ops);
    let expected: Vec<(&str, &str)> = vec![
        ("../../share/data", "./auth/1/data"),
        ("../../share/locale", "./auth/1/locale"),
        ("../../share/game_key", "./auth/1/auth1"),
        ("../../share/data", "./channel3/part1/data"),
        ("../../share/package", "./channel3/part1/package"),
        ("../../share/CMD", "./channel3/part1/CMD"),
        ("../../share/locale", "./channel3/part1/locale"),
        ("../../share/game_key", "./channel3/part1/game3_1"),
        ("../share/data", "./db/data"),
        ("../share/package", "./db/package"),
        ("../share/locale", "./db/locale"),
        ("../share/item_proto.txt", "./db/item_proto.txt"),
        ("../share/item_names.txt", "./db/item_names.txt"),
        ("../share/mob_proto.txt", "./db/mob_proto.txt"),
        ("../share/mob_names.txt", "./db/mob_names.txt"),
        ("../share/db_key", "./db/db_key"),
    ];
    let expected: Vec<(String, String)> = expected.into_iter().map(|(a, b)| (a.to_string(), b.to_string())).collect();
    assert_eq!(all, expected);
}

#[test]
fn channel_without_maps_gets_only_its_directory() {
    let cfg = sample(0, vec![setting(7, None, Some(vec![]))], vec![vec![1]]);
    let ops = Maker::new(cfg, vec![], "maker".to_string()).plan("k");
    assert_eq!(dirs(&ops), vec!["auth", "./channel7", "db"]);
    let script = written(&ops, "./start.sh").unwrap();
    assert_eq!(script, "#!/bin/sh\ncd /home/Metin/db && ./db_Metin\nsleep 3\ncd ../..\n");
}

#[test]
fn failed_operations_report_their_paths() {
    let mk = FsOp::CreateDir { path: "./auth/1".to_string() };
    assert_eq!(mk.failure(), MakerError::CreateDirectory { path: "./auth/1".to_string() });
    let ln = FsOp::Symlink { original: "../share/data".to_string(), link: "./db/data".to_string() };
    assert_eq!(
        ln.failure(),
        MakerError::CreateSymlink { original: "../share/data".to_string(), link: "./db/data".to_string() }
    );
    let wr = FsOp::WriteFile { path: "./start.sh".to_string(), contents: "x".to_string() };
    assert_eq!(wr.failure(), MakerError::CreateFile { path: "./start.sh".to_string() });
}

#[test]
fn maker_guards_the_listed_directory() {
    let cfg = sample(1, vec![], vec![]);
    let entries = vec![
        Entry { path: "./share".to_string(), kind: EntryKind::Directory },
        Entry { path: "./tool".to_string(), kind: EntryKind::File },
        Entry { path: "./stray".to_string(), kind: EntryKind::File },
    ];
    let maker = Maker::new(cfg, entries, "tool".to_string());
    assert_eq!(
        maker.check_current_directory(false),
        Err(MakerError::NotEmpty { entries: vec!["./stray".to_string()] })
    );
    assert_eq!(
        maker.check_current_directory(true),
        Ok(vec![Entry { path: "./stray".to_string(), kind: EntryKind::File }])
    );
}
