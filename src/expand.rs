//! Expansion of a topology into emission units: one per authentication
//! instance, one per channel part, and one for the database role.
use vstd::prelude::*;

use crate::config::Config;

verus! {

/// One directory-and-configuration bundle to be generated.
#[derive(Clone, Debug, PartialEq, Eq)]
pub enum EmissionUnit {
    /// The authentication instance with this 1-based index.
    AuthInstance { index: usize },
    /// Part `part` (1-based) of the channel at position `channel` of the
    /// settings, serving the given map ids.
    ChannelPart { channel: usize, part: usize, map_ids: Vec<i64> },
    DbRole,
}

/// The mathematical form of an [`EmissionUnit`].
pub enum UnitView {
    AuthInstance { index: nat },
    ChannelPart { channel: nat, part: nat, map_ids: Seq<i64> },
    DbRole,
}

impl View for EmissionUnit {
    type V = UnitView;

    open spec fn view(&self) -> UnitView {
        match self {
            EmissionUnit::AuthInstance { index } => UnitView::AuthInstance { index: *index as nat },
            EmissionUnit::ChannelPart { channel, part, map_ids } => UnitView::ChannelPart {
                channel: *channel as nat,
                part: *part as nat,
                map_ids: map_ids@,
            },
            EmissionUnit::DbRole => UnitView::DbRole,
        }
    }
}

/// Authentication units `1..=n`, in order.
pub open spec fn auth_units(n: nat) -> Seq<UnitView>
    decreases n,
{
    if n == 0 {
        Seq::empty()
    } else {
        auth_units((n - 1) as nat).push(UnitView::AuthInstance { index: n })
    }
}

/// Parts `1..=p` of channel `c`, part `q` serving `maps[q - 1]`.
pub open spec fn part_units(c: nat, maps: Seq<Seq<i64>>, p: nat) -> Seq<UnitView>
    decreases p,
{
    if p == 0 {
        Seq::empty()
    } else {
        part_units(c, maps, (p - 1) as nat).push(
            UnitView::ChannelPart { channel: c, part: p, map_ids: maps[p - 1] },
        )
    }
}

/// The map groups of the channel at position `c`.
pub open spec fn channel_maps(cfg: Config, c: nat) -> Seq<Seq<i64>> {
    cfg.channels.settings@[c as int].effective_maps(cfg.channels)
}

/// The parts of the first `k` channels, channel by channel.
pub open spec fn channel_units(cfg: Config, k: nat) -> Seq<UnitView>
    decreases k,
{
    if k == 0 {
        Seq::empty()
    } else {
        let c = (k - 1) as nat;
        channel_units(cfg, c) + part_units(c, channel_maps(cfg, c), channel_maps(cfg, c).len())
    }
}

/// How many parts the first `k` channels have together.
pub open spec fn parts_before(cfg: Config, k: nat) -> nat
    decreases k,
{
    if k == 0 {
        0
    } else {
        parts_before(cfg, (k - 1) as nat) + channel_maps(cfg, (k - 1) as nat).len()
    }
}

/// Every unit of a topology: authentication instances, then the parts of each
/// channel in declaration order, then the database role.
pub open spec fn expansion(cfg: Config) -> Seq<UnitView> {
    auth_units(cfg.auth.ports@.len()) + channel_units(cfg, cfg.channels.settings@.len())
        + seq![UnitView::DbRole]
}

proof fn lemma_auth_units(n: nat)
    ensures
        auth_units(n).len() == n,
        forall|i: int| 0 <= i < n ==> #[trigger] auth_units(n)[i] == (UnitView::AuthInstance { index: (i + 1) as nat }),
    decreases n,
{
    if n > 0 {
        lemma_auth_units((n - 1) as nat);
    }
}

proof fn lemma_part_units(c: nat, maps: Seq<Seq<i64>>, p: nat)
    ensures
        part_units(c, maps, p).len() == p,
        forall|j: int|
            0 <= j < p ==> #[trigger] part_units(c, maps, p)[j] == (UnitView::ChannelPart {
                channel: c,
                part: (j + 1) as nat,
                map_ids: maps[j],
            }),
    decreases p,
{
    if p > 0 {
        lemma_part_units(c, maps, (p - 1) as nat);
    }
}

proof fn lemma_parts_before_monotone(cfg: Config, a: nat, b: nat)
    requires
        a <= b,
    ensures
        parts_before(cfg, a) <= parts_before(cfg, b),
    decreases b,
{
    if a < b {
        lemma_parts_before_monotone(cfg, a, (b - 1) as nat);
    }
}

proof fn lemma_channel_units(cfg: Config, k: nat)
    ensures
        channel_units(cfg, k).len() == parts_before(cfg, k),
        forall|i: int|
            0 <= i < parts_before(cfg, k) ==> (#[trigger] channel_units(cfg, k)[i] is ChannelPart
                && channel_units(cfg, k)[i]->channel < k),
        forall|c: nat, j: int|
            c < k && 0 <= j < channel_maps(cfg, c).len() ==> #[trigger] channel_units(cfg, k)[parts_before(cfg, c) + j]
                == (UnitView::ChannelPart { channel: c, part: (j + 1) as nat, map_ids: channel_maps(cfg, c)[j] }),
        forall|i: int|
            0 <= i < parts_before(cfg, k) ==> parts_before(cfg, (#[trigger] channel_units(cfg, k)[i])->channel) <= i
                < parts_before(cfg, channel_units(cfg, k)[i]->channel) + channel_maps(
                cfg,
                channel_units(cfg, k)[i]->channel,
            ).len(),
    decreases k,
{
    if k > 0 {
        let last = (k - 1) as nat;
        let maps = channel_maps(cfg, last);
        lemma_channel_units(cfg, last);
        lemma_part_units(last, maps, maps.len());
        let prev = channel_units(cfg, last);
        let all = channel_units(cfg, k);
        assert(all == prev + part_units(last, maps, maps.len()));
        assert forall|c: nat, j: int| c < k && 0 <= j < channel_maps(cfg, c).len() implies #[trigger] all[parts_before(cfg, c) + j]
            == (UnitView::ChannelPart { channel: c, part: (j + 1) as nat, map_ids: channel_maps(cfg, c)[j] }) by {
            if c < last {
                lemma_parts_before_monotone(cfg, c + 1, last);
                assert(parts_before(cfg, (c + 1) as nat) == parts_before(cfg, c) + channel_maps(cfg, c).len());
                assert(all[parts_before(cfg, c) + j] == prev[parts_before(cfg, c) + j]);
            } else {
                assert(all[parts_before(cfg, c) + j] == part_units(last, maps, maps.len())[j]);
            }
        }
        assert forall|i: int| 0 <= i < parts_before(cfg, k) implies parts_before(cfg, (#[trigger] all[i])->channel) <= i
            < parts_before(cfg, all[i]->channel) + channel_maps(cfg, all[i]->channel).len() by {
            if i < parts_before(cfg, last) {
                assert(all[i] == prev[i]);
            } else {
                assert(all[i] == part_units(last, maps, maps.len())[i - parts_before(cfg, last)]);
            }
        }
        assert forall|i: int| 0 <= i < parts_before(cfg, k) implies (#[trigger] all[i] is ChannelPart && all[i]->channel < k) by {
            if i < parts_before(cfg, last) {
                assert(all[i] == prev[i]);
            } else {
                assert(all[i] == part_units(last, maps, maps.len())[i - parts_before(cfg, last)]);
            }
        }
    }
}

/// Within the expansion of a topology, the parts of channel `c` are exactly
/// parts `1..=len(effective maps of c)`, contiguous and in order, part `p`
/// serving the `p`-th map group; no other unit belongs to that channel.
pub proof fn lemma_channel_parts(cfg: Config, c: nat)
    requires
        c < cfg.channels.settings@.len(),
    ensures
        ({
            let units = expansion(cfg);
            let maps = channel_maps(cfg, c);
            let start = cfg.auth.ports@.len() + parts_before(cfg, c);
            &&& start + maps.len() <= units.len()
            &&& forall|p: int|
                0 <= p < maps.len() ==> #[trigger] units[start + p] == (UnitView::ChannelPart {
                    channel: c,
                    part: (p + 1) as nat,
                    map_ids: maps[p],
                })
            &&& forall|i: int|
                0 <= i < units.len() && (#[trigger] units[i] is ChannelPart) && units[i]->channel == c
                    ==> start <= i < start + maps.len()
        }),
{
    let n = cfg.auth.ports@.len();
    let k = cfg.channels.settings@.len();
    let units = expansion(cfg);
    let maps = channel_maps(cfg, c);
    let start = n + parts_before(cfg, c);
    lemma_auth_units(n);
    lemma_channel_units(cfg, k);
    lemma_parts_before_monotone(cfg, c + 1, k);
    assert(parts_before(cfg, (c + 1) as nat) == parts_before(cfg, c) + maps.len());
    let chans = channel_units(cfg, k);
    assert forall|p: int| 0 <= p < maps.len() implies #[trigger] units[start + p] == (UnitView::ChannelPart {
        channel: c,
        part: (p + 1) as nat,
        map_ids: maps[p],
    }) by {
        assert(units[start + p] == chans[parts_before(cfg, c) + p]);
    }
    assert forall|i: int| 0 <= i < units.len() && (#[trigger] units[i] is ChannelPart) && units[i]->channel == c implies start <= i
        < start + maps.len() by {
        if i < n {
            assert(units[i] == auth_units(n)[i]);
        } else if i < n + parts_before(cfg, k) {
            assert(units[i] == chans[i - n]);
            assert(chans[i - n]->channel == c);
        } else {
            assert(units[i] == UnitView::DbRole);
        }
    }
}

/// The units of a topology, in emission order.
pub fn expand(cfg: &Config) -> (r: Vec<EmissionUnit>)
    ensures
        r@.map_values(|u: EmissionUnit| u@) == expansion(*cfg),
{
    let mut units: Vec<EmissionUnit> = Vec::new();
    let n = cfg.auth.ports.len();
    let mut i: usize = 0;
    while i < n
        invariant
            i <= n,
            n == cfg.auth.ports@.len(),
            units@.map_values(|u: EmissionUnit| u@) == auth_units(i as nat),
        decreases n - i,
    {
        units.push(EmissionUnit::AuthInstance { index: i + 1 });
        i = i + 1;
        assert(units@.map_values(|u: EmissionUnit| u@) =~= auth_units(i as nat));
    }
    let k = cfg.channels.settings.len();
    let mut c: usize = 0;
    assert(auth_units(n as nat) + channel_units(*cfg, 0) =~= auth_units(n as nat));
    while c < k
        invariant
            c <= k,
            n == cfg.auth.ports@.len(),
            k == cfg.channels.settings@.len(),
            units@.map_values(|u: EmissionUnit| u@) == auth_units(n as nat) + channel_units(*cfg, c as nat),
        decreases k - c,
    {
        let maps = cfg.channels.settings[c].get_map_ids(&cfg.channels);
        let ghost prefix = auth_units(n as nat) + channel_units(*cfg, c as nat);
        let mut p: usize = 0;
        assert(prefix + part_units(c as nat, channel_maps(*cfg, c as nat), 0) =~= prefix);
        while p < maps.len()
            invariant
                p <= maps@.len(),
                c < k,
                n == cfg.auth.ports@.len(),
                k == cfg.channels.settings@.len(),
                maps.deep_view() == channel_maps(*cfg, c as nat),
                prefix == auth_units(n as nat) + channel_units(*cfg, c as nat),
                units@.map_values(|u: EmissionUnit| u@) == prefix + part_units(
                    c as nat,
                    channel_maps(*cfg, c as nat),
                    p as nat,
                ),
            decreases maps@.len() - p,
        {
            let ids = maps[p].clone();
            assert(ids@ =~= channel_maps(*cfg, c as nat)[p as int]);
            let ghost before = units@;
            let unit = EmissionUnit::ChannelPart { channel: c, part: p + 1, map_ids: ids };
            assert(unit@ == UnitView::ChannelPart {
                channel: c as nat,
                part: (p + 1) as nat,
                map_ids: channel_maps(*cfg, c as nat)[p as int],
            });
            units.push(unit);
            assert(units@.map_values(|u: EmissionUnit| u@) =~= before.map_values(|u: EmissionUnit| u@).push(unit@));
            p = p + 1;
            assert(units@.map_values(|u: EmissionUnit| u@) =~= prefix + part_units(
                c as nat,
                channel_maps(*cfg, c as nat),
                p as nat,
            ));
        }
        c = c + 1;
        assert(units@.map_values(|u: EmissionUnit| u@) =~= auth_units(n as nat) + channel_units(*cfg, c as nat));
    }
    units.push(EmissionUnit::DbRole);
    assert(units@.map_values(|u: EmissionUnit| u@) =~= expansion(*cfg));
    units
}

/// Every unit of the expansion refers to an existing authentication instance
/// or channel.
pub proof fn lemma_expansion_units(cfg: Config, i: int)
    requires
        0 <= i < expansion(cfg).len(),
    ensures
        match expansion(cfg)[i] {
            UnitView::AuthInstance { index } => 1 <= index <= cfg.auth.ports@.len(),
            UnitView::ChannelPart { channel, .. } => channel < cfg.channels.settings@.len(),
            UnitView::DbRole => true,
        },
{
    let n = cfg.auth.ports@.len();
    let k = cfg.channels.settings@.len();
    lemma_auth_units(n);
    lemma_channel_units(cfg, k);
    if i < n {
        assert(expansion(cfg)[i] == auth_units(n)[i]);
    } else if i < n + parts_before(cfg, k) {
        assert(expansion(cfg)[i] == channel_units(cfg, k)[i - n]);
    }
}

} // verus!
