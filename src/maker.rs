//! The generator: every filesystem operation that materialises a topology, in
//! order, and the aggregate start script.
//!
//! Operations are meant to run one after the other and to stop at the first
//! failure. Nothing is rolled back: what was created before the failure stays
//! on disk, and a new run then needs the guard's `force` or a manual cleanup.
use vstd::prelude::*;

use crate::config::{Config, Setting};
use crate::error::MakerError;
use crate::expand::{
    auth_units, channel_maps, expand, expansion, lemma_expansion_units, part_units, EmissionUnit,
    UnitView,
};
use crate::guard::{check_entries, foreign, paths, Entry};
use crate::render::{auth_config, auth_lines, db_config, db_lines, part_config, part_lines};
use crate::text::{concat, join_lines, lower_of, lowercase, nat_text, usize_text, LineWriter};

verus! {

/// One filesystem operation.
#[derive(Clone, Debug, PartialEq, Eq)]
pub enum FsOp {
    CreateDir { path: String },
    /// A symbolic link at `link` whose target is `original`.
    Symlink { original: String, link: String },
    WriteFile { path: String, contents: String },
}

/// The mathematical form of an [`FsOp`].
pub enum FsStep {
    CreateDir { path: Seq<char> },
    Symlink { original: Seq<char>, link: Seq<char> },
    WriteFile { path: Seq<char>, contents: Seq<char> },
}

impl View for FsOp {
    type V = FsStep;

    open spec fn view(&self) -> FsStep {
        match self {
            FsOp::CreateDir { path } => FsStep::CreateDir { path: path@ },
            FsOp::Symlink { original, link } => FsStep::Symlink { original: original@, link: link@ },
            FsOp::WriteFile { path, contents } => FsStep::WriteFile { path: path@, contents: contents@ },
        }
    }
}

impl FsOp {
    /// The error that reports a failure of this operation, with its paths.
    pub fn failure(&self) -> (r: MakerError)
        ensures
            r == (match *self {
                FsOp::CreateDir { path } => MakerError::CreateDirectory { path },
                FsOp::Symlink { original, link } => MakerError::CreateSymlink { original, link },
                FsOp::WriteFile { path, contents } => MakerError::CreateFile { path },
            }),
    {
        match self {
            FsOp::CreateDir { path } => MakerError::CreateDirectory { path: path.clone() },
            FsOp::Symlink { original, link } => MakerError::CreateSymlink {
                original: original.clone(),
                link: link.clone(),
            },
            FsOp::WriteFile { path, .. } => MakerError::CreateFile { path: path.clone() },
        }
    }
}

pub open spec fn steps(ops: Seq<FsOp>) -> Seq<FsStep> {
    ops.map_values(|o: FsOp| o@)
}

/// Shared entries that an authentication instance links to.
pub open spec fn auth_links() -> Seq<Seq<char>> {
    Seq::empty().push("data"@).push("locale"@)
}

/// Shared entries that a channel part links to.
pub open spec fn part_links() -> Seq<Seq<char>> {
    Seq::empty().push("data"@).push("package"@).push("CMD"@).push("locale"@)
}

/// Shared entries that the database role links to.
pub open spec fn db_links() -> Seq<Seq<char>> {
    Seq::empty().push("data"@).push("package"@).push("locale"@).push("item_proto.txt"@).push(
        "item_names.txt"@,
    ).push("mob_proto.txt"@).push("mob_names.txt"@)
}

/// One link `dir/name` to `share/name` per name, `share` being the relative
/// path of the shared directory as seen from `dir`.
pub open spec fn link_steps(share: Seq<char>, dir: Seq<char>, names: Seq<Seq<char>>) -> Seq<FsStep>
    decreases names.len(),
{
    if names.len() == 0 {
        Seq::empty()
    } else {
        link_steps(share, dir, names.drop_last()).push(
            FsStep::Symlink { original: share + names.last(), link: dir + "/"@ + names.last() },
        )
    }
}

pub open spec fn auth_dir(x: nat) -> Seq<char> {
    "./auth/"@ + nat_text(x)
}

pub open spec fn part_dir(s: Setting, part: nat) -> Seq<char> {
    "./"@ + s.dir_name() + "/part"@ + nat_text(part)
}

/// Authentication instance `x`; `key` is the lower-cased server name.
pub open spec fn auth_steps(cfg: Config, key: Seq<char>, x: nat) -> Seq<FsStep> {
    let d = auth_dir(x);
    Seq::empty().push(FsStep::CreateDir { path: d }).push(FsStep::CreateDir { path: d + "/log"@ })
        + link_steps("../../share/"@, d, auth_links()) + Seq::empty().push(
        FsStep::Symlink { original: "../../share/game_"@ + key, link: d + "/auth"@ + nat_text(x) },
    ).push(FsStep::WriteFile { path: d + "/CONFIG"@, contents: join_lines(auth_lines(cfg, x)) })
}

/// Part `part` of channel `s`, serving map ids `ids`.
pub open spec fn part_steps(cfg: Config, key: Seq<char>, s: Setting, part: nat, ids: Seq<i64>) -> Seq<FsStep> {
    let d = part_dir(s, part);
    Seq::empty().push(FsStep::CreateDir { path: d }).push(FsStep::CreateDir { path: d + "/log"@ }).push(
        FsStep::CreateDir { path: d + "/mark"@ },
    ) + link_steps("../../share/"@, d, part_links()) + Seq::empty().push(
        FsStep::Symlink { original: "../../share/game_"@ + key, link: d + "/"@ + s.exe_name(part) },
    ).push(
        FsStep::WriteFile { path: d + "/CONFIG"@, contents: join_lines(part_lines(cfg, s, part, ids)) },
    )
}

/// The database role.
pub open spec fn db_steps(cfg: Config, key: Seq<char>) -> Seq<FsStep> {
    Seq::empty().push(FsStep::CreateDir { path: "db"@ }) + link_steps("../share/"@, "./db"@, db_links())
        + Seq::empty().push(
        FsStep::Symlink { original: "../share/db_"@ + key, link: "./db/db_"@ + key },
    ).push(FsStep::WriteFile { path: "./db/conf.txt"@, contents: join_lines(db_lines(cfg)) })
}

/// What emitting one unit does.
pub open spec fn unit_steps(cfg: Config, key: Seq<char>, u: UnitView) -> Seq<FsStep> {
    match u {
        UnitView::AuthInstance { index } => auth_steps(cfg, key, index),
        UnitView::ChannelPart { channel, part, map_ids } => part_steps(
            cfg,
            key,
            cfg.channels.settings@[channel as int],
            part,
            map_ids,
        ),
        UnitView::DbRole => db_steps(cfg, key),
    }
}

/// Whether a unit refers to an existing instance or channel of `cfg`.
pub open spec fn unit_fits(cfg: Config, u: UnitView) -> bool {
    match u {
        UnitView::AuthInstance { index } => 1 <= index <= cfg.auth.ports@.len(),
        UnitView::ChannelPart { channel, .. } => channel < cfg.channels.settings@.len(),
        UnitView::DbRole => true,
    }
}

/// Emitting some units one after the other.
pub open spec fn units_steps(cfg: Config, key: Seq<char>, us: Seq<UnitView>) -> Seq<FsStep>
    decreases us.len(),
{
    if us.len() == 0 {
        Seq::empty()
    } else {
        units_steps(cfg, key, us.drop_last()) + unit_steps(cfg, key, us.last())
    }
}

/// The first `k` channels: each one's directory, then its parts.
pub open spec fn channel_section(cfg: Config, key: Seq<char>, k: nat) -> Seq<FsStep>
    decreases k,
{
    if k == 0 {
        Seq::empty()
    } else {
        let c = (k - 1) as nat;
        channel_section(cfg, key, c) + Seq::empty().push(
            FsStep::CreateDir { path: "./"@ + cfg.channels.settings@[c as int].dir_name() },
        ) + units_steps(cfg, key, part_units(c, channel_maps(cfg, c), channel_maps(cfg, c).len()))
    }
}

pub open spec fn script_header(cfg: Config) -> Seq<Seq<char>> {
    let name = cfg.server_name@;
    Seq::empty().push("#!/bin/sh"@).push("cd /home/"@ + name + "/db && ./db_"@ + name).push("sleep 3"@)
}

pub open spec fn part_start_line(cfg: Config, s: Setting, part: nat) -> Seq<char> {
    "cd /home/"@ + cfg.server_name@ + "/"@ + s.dir_name() + "/part"@ + nat_text(part) + " && ./"@
        + s.exe_name(part)
}

pub open spec fn auth_start_line(cfg: Config, x: nat) -> Seq<char> {
    "cd /home/"@ + cfg.server_name@ + "/auth/"@ + nat_text(x) + "/ && ./auth"@ + nat_text(x)
}

/// One start line per channel part among `us`, in order.
pub open spec fn part_script(cfg: Config, us: Seq<UnitView>) -> Seq<Seq<char>>
    decreases us.len(),
{
    if us.len() == 0 {
        Seq::empty()
    } else {
        let prev = part_script(cfg, us.drop_last());
        match us.last() {
            UnitView::ChannelPart { channel, part, .. } => prev.push(
                part_start_line(cfg, cfg.channels.settings@[channel as int], part),
            ),
            _ => prev,
        }
    }
}

/// One start line per authentication instance among `us`, in order.
pub open spec fn auth_script(cfg: Config, us: Seq<UnitView>) -> Seq<Seq<char>>
    decreases us.len(),
{
    if us.len() == 0 {
        Seq::empty()
    } else {
        let prev = auth_script(cfg, us.drop_last());
        match us.last() {
            UnitView::AuthInstance { index } => prev.push(auth_start_line(cfg, index)),
            _ => prev,
        }
    }
}

/// The start script: the database role first, then every channel part, then
/// every authentication instance, then back to the parent directory.
pub open spec fn script_lines(cfg: Config, us: Seq<UnitView>) -> Seq<Seq<char>> {
    script_header(cfg) + part_script(cfg, us) + auth_script(cfg, us) + Seq::empty().push("cd ../.."@)
}

/// Every operation of a run, in order; `key` is the lower-cased server name.
pub open spec fn plan_steps(cfg: Config, key: Seq<char>) -> Seq<FsStep> {
    Seq::empty().push(FsStep::CreateDir { path: "auth"@ }) + units_steps(
        cfg,
        key,
        auth_units(cfg.auth.ports@.len()),
    ) + channel_section(cfg, key, cfg.channels.settings@.len()) + db_steps(cfg, key) + Seq::empty().push(
        FsStep::WriteFile {
            path: "./start.sh"@,
            contents: join_lines(script_lines(cfg, expansion(cfg))),
        },
    )
}

fn push_op(ops: &mut Vec<FsOp>, op: FsOp)
    ensures
        steps(final(ops)@) == steps(old(ops)@).push(op@),
{
    ops.push(op);
    assert(steps(final(ops)@) =~= steps(old(ops)@).push(op@));
}

fn push_links(ops: &mut Vec<FsOp>, share: &str, dir: &str, names: &Vec<&str>)
    ensures
        steps(final(ops)@) == steps(old(ops)@) + link_steps(share@, dir@, names@.map_values(|n: &str| n@)),
{
    let ghost start = steps(ops@);
    let mut i: usize = 0;
    while i < names.len()
        invariant
            i <= names@.len(),
            steps(ops@) == start + link_steps(share@, dir@, names@.subrange(0, i as int).map_values(|n: &str| n@)),
        decreases names@.len() - i,
    {
        let name = names[i];
        let mut link = concat(dir, "/");
        link.append(name);
        push_op(ops, FsOp::Symlink { original: concat(share, name), link });
        assert(names@.subrange(0, i + 1).map_values(|n: &str| n@).drop_last() =~= names@.subrange(
            0,
            i as int,
        ).map_values(|n: &str| n@));
        i = i + 1;
    }
    assert(names@.subrange(0, names@.len() as int) =~= names@);
}

fn auth_link_names() -> (r: Vec<&'static str>)
    ensures
        r@.map_values(|n: &str| n@) == auth_links(),
{
    let mut v: Vec<&'static str> = Vec::new();
    v.push("data");
    v.push("locale");
    assert(v@.map_values(|n: &str| n@) =~= auth_links());
    v
}

fn part_link_names() -> (r: Vec<&'static str>)
    ensures
        r@.map_values(|n: &str| n@) == part_links(),
{
    let mut v: Vec<&'static str> = Vec::new();
    v.push("data");
    v.push("package");
    v.push("CMD");
    v.push("locale");
    assert(v@.map_values(|n: &str| n@) =~= part_links());
    v
}

fn db_link_names() -> (r: Vec<&'static str>)
    ensures
        r@.map_values(|n: &str| n@) == db_links(),
{
    let mut v: Vec<&'static str> = Vec::new();
    v.push("data");
    v.push("package");
    v.push("locale");
    v.push("item_proto.txt");
    v.push("item_names.txt");
    v.push("mob_proto.txt");
    v.push("mob_names.txt");
    assert(v@.map_values(|n: &str| n@) =~= db_links());
    v
}

fn emit_auth(cfg: &Config, key: &str, x: usize, ops: &mut Vec<FsOp>)
    requires
        1 <= x <= cfg.auth.ports@.len(),
    ensures
        steps(final(ops)@) == steps(old(ops)@) + auth_steps(*cfg, key@, x as nat),
{
    let d = concat("./auth/", usize_text(x).as_str());
    push_op(ops, FsOp::CreateDir { path: d.clone() });
    push_op(ops, FsOp::CreateDir { path: concat(d.as_str(), "/log") });
    push_links(ops, "../../share/", d.as_str(), &auth_link_names());
    let mut link = concat(d.as_str(), "/auth");
    link.append(usize_text(x).as_str());
    push_op(ops, FsOp::Symlink { original: concat("../../share/game_", key), link });
    push_op(ops, FsOp::WriteFile { path: concat(d.as_str(), "/CONFIG"), contents: auth_config(cfg, x) });
    assert(steps(ops@) =~= steps(old(ops)@) + auth_steps(*cfg, key@, x as nat));
}

fn emit_part(cfg: &Config, key: &str, s: &Setting, part: usize, ids: &Vec<i64>, ops: &mut Vec<FsOp>)
    ensures
        steps(final(ops)@) == steps(old(ops)@) + part_steps(*cfg, key@, *s, part as nat, ids@),
{
    let mut d = concat("./", s.channel_dir_name().as_str());
    d.append("/part");
    d.append(usize_text(part).as_str());
    push_op(ops, FsOp::CreateDir { path: d.clone() });
    push_op(ops, FsOp::CreateDir { path: concat(d.as_str(), "/log") });
    push_op(ops, FsOp::CreateDir { path: concat(d.as_str(), "/mark") });
    push_links(ops, "../../share/", d.as_str(), &part_link_names());
    let mut link = concat(d.as_str(), "/");
    link.append(s.executable_name(part).as_str());
    push_op(ops, FsOp::Symlink { original: concat("../../share/game_", key), link });
    push_op(
        ops,
        FsOp::WriteFile { path: concat(d.as_str(), "/CONFIG"), contents: part_config(cfg, s, part, ids) },
    );
    assert(steps(ops@) =~= steps(old(ops)@) + part_steps(*cfg, key@, *s, part as nat, ids@));
}

fn emit_db(cfg: &Config, key: &str, ops: &mut Vec<FsOp>)
    ensures
        steps(final(ops)@) == steps(old(ops)@) + db_steps(*cfg, key@),
{
    push_op(ops, FsOp::CreateDir { path: String::from_str("db") });
    push_links(ops, "../share/", "./db", &db_link_names());
    push_op(ops, FsOp::Symlink { original: concat("../share/db_", key), link: concat("./db/db_", key) });
    push_op(ops, FsOp::WriteFile { path: String::from_str("./db/conf.txt"), contents: db_config(cfg) });
    assert(steps(ops@) =~= steps(old(ops)@) + db_steps(*cfg, key@));
}

/// Appends the operations that emit one unit: its directories, its links into
/// the shared directory, and its configuration file. `key` is the lower-cased
/// server name, which selects the shared binaries.
pub fn emit(cfg: &Config, key: &str, unit: &EmissionUnit, ops: &mut Vec<FsOp>)
    requires
        unit_fits(*cfg, unit@),
    ensures
        steps(final(ops)@) == steps(old(ops)@) + unit_steps(*cfg, key@, unit@),
{
    match unit {
        EmissionUnit::AuthInstance { index } => emit_auth(cfg, key, *index, ops),
        EmissionUnit::ChannelPart { channel, part, map_ids } => emit_part(
            cfg,
            key,
            &cfg.channels.settings[*channel],
            *part,
            map_ids,
            ops,
        ),
        EmissionUnit::DbRole => emit_db(cfg, key, ops),
    }
}

/// The aggregate start script for `units`, which come from [`expand`].
pub fn start_script(cfg: &Config, units: &Vec<EmissionUnit>) -> (r: String)
    requires
        forall|i: int| 0 <= i < units@.len() ==> unit_fits(*cfg, #[trigger] units@[i]@),
    ensures
        r@ == join_lines(script_lines(*cfg, units@.map_values(|u: EmissionUnit| u@))),
{
    let ghost us = units@.map_values(|u: EmissionUnit| u@);
    let name = cfg.server_name.as_str();
    let mut w = LineWriter::new();
    w.line("#!/bin/sh");
    let mut head = concat("cd /home/", name);
    head.append("/db && ./db_");
    head.append(name);
    w.line(head.as_str());
    w.line("sleep 3");
    let ghost header = w.lines();
    let mut i: usize = 0;
    while i < units.len()
        invariant
            i <= units@.len(),
            us == units@.map_values(|u: EmissionUnit| u@),
            forall|j: int| 0 <= j < units@.len() ==> unit_fits(*cfg, #[trigger] units@[j]@),
            header == script_header(*cfg),
            name@ == cfg.server_name@,
            w.wf(),
            w.lines() == header + part_script(*cfg, us.subrange(0, i as int)),
        decreases units@.len() - i,
    {
        assert(us.subrange(0, i + 1).drop_last() =~= us.subrange(0, i as int));
        assert(us.subrange(0, i + 1).last() == units@[i as int]@);
        assert(unit_fits(*cfg, units@[i as int]@));
        match &units[i] {
            EmissionUnit::ChannelPart { channel, part, .. } => {
                let s = &cfg.channels.settings[*channel];
                let mut l = concat("cd /home/", name);
                l.append("/");
                l.append(s.channel_dir_name().as_str());
                l.append("/part");
                l.append(usize_text(*part).as_str());
                l.append(" && ./");
                l.append(s.executable_name(*part).as_str());
                w.line(l.as_str());
            },
            _ => {},
        }
        i = i + 1;
    }
    assert(us.subrange(0, units@.len() as int) =~= us);
    let ghost parts = w.lines();
    let mut i: usize = 0;
    while i < units.len()
        invariant
            i <= units@.len(),
            us == units@.map_values(|u: EmissionUnit| u@),
            name@ == cfg.server_name@,
            w.wf(),
            w.lines() == parts + auth_script(*cfg, us.subrange(0, i as int)),
        decreases units@.len() - i,
    {
        assert(us.subrange(0, i + 1).drop_last() =~= us.subrange(0, i as int));
        assert(us.subrange(0, i + 1).last() == units@[i as int]@);
        match &units[i] {
            EmissionUnit::AuthInstance { index } => {
                let x = usize_text(*index);
                let mut l = concat("cd /home/", name);
                l.append("/auth/");
                l.append(x.as_str());
                l.append("/ && ./auth");
                l.append(x.as_str());
                w.line(l.as_str());
            },
            _ => {},
        }
        i = i + 1;
    }
    assert(us.subrange(0, units@.len() as int) =~= us);
    w.line("cd ../..");
    assert(w.lines() =~= script_lines(*cfg, us));
    w.finish()
}

/// A generation run: the topology, and the working directory as it was
/// listed once before anything changes.
pub struct Maker {
    config: Config,
    entries: Vec<Entry>,
    exe_name: String,
}

impl Maker {
    pub closed spec fn topology(&self) -> Config {
        self.config
    }

    /// The working directory's entries, as listed.
    pub closed spec fn listed(&self) -> Seq<Entry> {
        self.entries@
    }

    /// The file name of the running executable.
    pub closed spec fn exe(&self) -> Seq<char> {
        self.exe_name@
    }

    pub fn new(config: Config, entries: Vec<Entry>, exe_name: String) -> (r: Maker)
        ensures
            r.topology() == config,
            r.listed() == entries@,
            r.exe() == exe_name@,
    {
        Maker { config, entries, exe_name }
    }

    /// The guard on the listed working directory: `Ok` with the foreign
    /// entries to remove (none when there are none), or `NotEmpty` naming all
    /// of them when there are some and `force` is off.
    pub fn check_current_directory(&self, force: bool) -> (r: Result<Vec<Entry>, MakerError>)
        ensures
            r is Ok <==> (force || foreign(self.listed(), self.exe()).len() == 0),
            r is Ok ==> r->Ok_0@ == foreign(self.listed(), self.exe()),
            r is Err ==> (r->Err_0 matches MakerError::NotEmpty { entries: names } && names@.map_values(
                |s: String| s@,
            ) == paths(foreign(self.listed(), self.exe()))),
    {
        check_entries(&self.entries, self.exe_name.as_str(), force)
    }

    fn make_auth(&self, key: &str, ops: &mut Vec<FsOp>)
        ensures
            steps(final(ops)@) == steps(old(ops)@) + Seq::empty().push(FsStep::CreateDir { path: "auth"@ })
                + units_steps(self.config, key@, auth_units(self.config.auth.ports@.len())),
    {
        let cfg = &self.config;
        push_op(ops, FsOp::CreateDir { path: String::from_str("auth") });
        let ghost start = steps(ops@);
        let n = cfg.auth.ports.len();
        let mut x: usize = 0;
        assert(units_steps(*cfg, key@, auth_units(0)) =~= Seq::<FsStep>::empty());
        while x < n
            invariant
                x <= n,
                n == cfg.auth.ports@.len(),
                steps(ops@) == start + units_steps(*cfg, key@, auth_units(x as nat)),
            decreases n - x,
        {
            let unit = EmissionUnit::AuthInstance { index: x + 1 };
            emit(cfg, key, &unit, ops);
            x = x + 1;
            assert(auth_units(x as nat).drop_last() =~= auth_units((x - 1) as nat));
        }
        assert(steps(ops@) =~= steps(old(ops)@) + Seq::empty().push(FsStep::CreateDir { path: "auth"@ })
            + units_steps(*cfg, key@, auth_units(n as nat)));
    }

    /// The parts of the channel at position `c`.
    fn make_parts(&self, key: &str, c: usize, ops: &mut Vec<FsOp>)
        requires
            c < self.config.channels.settings@.len(),
        ensures
            steps(final(ops)@) == steps(old(ops)@) + units_steps(
                self.config,
                key@,
                part_units(c as nat, channel_maps(self.config, c as nat), channel_maps(self.config, c as nat).len()),
            ),
    {
        let cfg = &self.config;
        let ghost start = steps(ops@);
        let maps = cfg.channels.settings[c].get_map_ids(&cfg.channels);
        let ghost cm = channel_maps(*cfg, c as nat);
        let mut p: usize = 0;
        assert(start + units_steps(*cfg, key@, part_units(c as nat, cm, 0)) =~= start);
        while p < maps.len()
            invariant
                p <= maps@.len(),
                c < cfg.channels.settings@.len(),
                maps.deep_view() == cm,
                cm == channel_maps(*cfg, c as nat),
                steps(ops@) == start + units_steps(*cfg, key@, part_units(c as nat, cm, p as nat)),
            decreases maps@.len() - p,
        {
            let ids = maps[p].clone();
            assert(ids@ =~= cm[p as int]);
            let unit = EmissionUnit::ChannelPart { channel: c, part: p + 1, map_ids: ids };
            emit(cfg, key, &unit, ops);
            p = p + 1;
            assert(part_units(c as nat, cm, p as nat).drop_last() =~= part_units(c as nat, cm, (p - 1) as nat));
            assert(part_units(c as nat, cm, p as nat).last() == unit@);
            assert(steps(ops@) =~= start + units_steps(*cfg, key@, part_units(c as nat, cm, p as nat)));
        }
    }

    fn make_channels(&self, key: &str, ops: &mut Vec<FsOp>)
        ensures
            steps(final(ops)@) == steps(old(ops)@) + channel_section(
                self.config,
                key@,
                self.config.channels.settings@.len(),
            ),
    {
        let ghost start = steps(ops@);
        let k = self.config.channels.settings.len();
        let mut c: usize = 0;
        assert(start + channel_section(self.config, key@, 0) =~= start);
        while c < k
            invariant
                c <= k,
                k == self.config.channels.settings@.len(),
                steps(ops@) == start + channel_section(self.config, key@, c as nat),
            decreases k - c,
        {
            let ghost before = steps(ops@);
            let s = &self.config.channels.settings[c];
            push_op(ops, FsOp::CreateDir { path: concat("./", s.channel_dir_name().as_str()) });
            let ghost opened = steps(ops@);
            self.make_parts(key, c, ops);
            let ghost parts = units_steps(
                self.config,
                key@,
                part_units(c as nat, channel_maps(self.config, c as nat), channel_maps(self.config, c as nat).len()),
            );
            let ghost dir = FsStep::CreateDir { path: "./"@ + self.config.channels.settings@[c as int].dir_name() };
            assert(channel_section(self.config, key@, (c + 1) as nat) == channel_section(self.config, key@, c as nat)
                + Seq::empty().push(dir) + parts);
            assert(steps(ops@) == before.push(dir) + parts);
            assert(steps(ops@) =~= start + channel_section(self.config, key@, (c + 1) as nat));
            c = c + 1;
        }
    }

    fn make_db(&self, key: &str, ops: &mut Vec<FsOp>)
        ensures
            steps(final(ops)@) == steps(old(ops)@) + db_steps(self.config, key@),
    {
        emit(&self.config, key, &EmissionUnit::DbRole, ops);
    }

    fn make_start_script(&self) -> (r: String)
        ensures
            r@ == join_lines(script_lines(self.config, expansion(self.config))),
    {
        let units = expand(&self.config);
        proof {
            assert forall|i: int| 0 <= i < units@.len() implies unit_fits(self.config, #[trigger] units@[i]@) by {
                lemma_expansion_units(self.config, i);
            }
        }
        start_script(&self.config, &units)
    }

    /// Every operation of the run, in order, for the given lower-cased server
    /// name: the authentication instances, the channels and their parts, the
    /// database role, and last the start script.
    pub fn plan(&self, share_key: &str) -> (r: Vec<FsOp>)
        ensures
            steps(r@) == plan_steps(self.topology(), share_key@),
    {
        let mut ops: Vec<FsOp> = Vec::new();
        self.make_auth(share_key, &mut ops);
        self.make_channels(share_key, &mut ops);
        self.make_db(share_key, &mut ops);
        push_op(&mut ops, FsOp::WriteFile { path: String::from_str("./start.sh"), contents: self.make_start_script() });
        assert(steps(ops@) =~= plan_steps(self.config, share_key@));
        ops
    }

    /// Every operation of the run, in order; the shared binaries are selected
    /// by the lower-cased server name.
    pub fn make(&self) -> (r: Vec<FsOp>)
        ensures
            steps(r@) == plan_steps(self.topology(), lower_of(self.topology().server_name@)),
    {
        let key = lowercase(self.config.server_name.as_str());
        self.plan(key.as_str())
    }
}

} // verus!
