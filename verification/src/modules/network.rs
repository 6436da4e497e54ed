//! Network status module: which interface the bar shows, when to poll, and
//! the text of the interface popup. Reading `/sys/class/net` and
//! `/proc/net/wireless` is done by the application runtime, which hands the
//! snapshots back here.

use vstd::prelude::*;
use crate::find::{first_match, lemma_filter_take_step, lemma_first_match_is, lemma_first_match_none};
use crate::module::DisplayMode;
use crate::modules::weather::elapsed_ms;
use crate::text::{
    chars_of, matches_literal, nat_digits, opt_text, parse_i32, parse_i32_spec, split_at_first,
    split_first, substring, trim, trim_bounds, u64_to_string, words, words_of,
};

verus! {

/// Configuration for the network status module.
#[derive(Debug, Default, Clone, PartialEq, Eq)]
pub struct NetworkConfig {
    /// `icon` — square icon only; `verbose` — icon left half + readout right half.
    pub display: DisplayMode,
    /// Network interface to monitor; auto-detected if absent.
    pub interface: Option<String>,
    /// Poll interval in seconds.
    pub poll_secs: u64,
}

/// Poll interval used when the configuration names none.
pub fn default_poll_secs() -> (r: u64)
    ensures
        r == 5,
{
    5
}

/// What one poll learned about an interface.
#[derive(Debug, Default, PartialEq, Eq)]
pub struct NetworkSnapshot {
    pub is_connected: bool,
    pub is_wireless: bool,
    pub interface_name: String,
    pub ip_address: Option<String>,
    /// WiFi signal level in dBm (negative). `None` for wired or unknown.
    pub signal_dbm: Option<i32>,
    /// Link speed in Mbps for wired interfaces. `None` for wireless or unknown.
    pub link_speed_mbps: Option<u64>,
}

/// Content of a [`NetworkSnapshot`].
pub struct SnapshotModel {
    pub is_connected: bool,
    pub is_wireless: bool,
    pub interface_name: Seq<char>,
    pub ip_address: Option<Seq<char>>,
    pub signal_dbm: Option<i32>,
    pub link_speed_mbps: Option<u64>,
}

impl View for NetworkSnapshot {
    type V = SnapshotModel;

    open spec fn view(&self) -> SnapshotModel {
        SnapshotModel {
            is_connected: self.is_connected,
            is_wireless: self.is_wireless,
            interface_name: self.interface_name@,
            ip_address: opt_text(self.ip_address),
            signal_dbm: self.signal_dbm,
            link_speed_mbps: self.link_speed_mbps,
        }
    }
}

/// Contents of a list of snapshots.
pub open spec fn snapshots_view(s: Seq<NetworkSnapshot>) -> Seq<SnapshotModel> {
    s.map_values(|x: NetworkSnapshot| x@)
}

fn clone_opt_string(o: &Option<String>) -> (r: Option<String>)
    ensures
        opt_text(r) == opt_text(*o),
{
    match o {
        Some(s) => Some(s.clone()),
        None => None,
    }
}

impl Clone for NetworkSnapshot {
    fn clone(&self) -> (r: Self)
        ensures
            r@ == self@,
    {
        NetworkSnapshot {
            is_connected: self.is_connected,
            is_wireless: self.is_wireless,
            interface_name: self.interface_name.clone(),
            ip_address: clone_opt_string(&self.ip_address),
            signal_dbm: self.signal_dbm,
            link_speed_mbps: self.link_speed_mbps,
        }
    }
}

fn same_opt_string(a: &Option<String>, b: &Option<String>) -> (r: bool)
    ensures
        r == (opt_text(*a) == opt_text(*b)),
{
    match (a, b) {
        (Some(x), Some(y)) => *x == *y,
        (None, None) => true,
        _ => false,
    }
}

/// Do two snapshots hold the same information?
pub fn same_snapshot(a: &NetworkSnapshot, b: &NetworkSnapshot) -> (r: bool)
    ensures
        r == (a@ == b@),
{
    a.is_connected == b.is_connected && a.is_wireless == b.is_wireless && a.interface_name
        == b.interface_name && same_opt_string(&a.ip_address, &b.ip_address) && a.signal_dbm
        == b.signal_dbm && a.link_speed_mbps == b.link_speed_mbps
}

/// Do two snapshot lists hold the same information, in the same order?
pub fn same_snapshots(a: &Vec<NetworkSnapshot>, b: &Vec<NetworkSnapshot>) -> (r: bool)
    ensures
        r == (snapshots_view(a@) == snapshots_view(b@)),
{
    if a.len() != b.len() {
        assert(snapshots_view(a@).len() != snapshots_view(b@).len());
        return false;
    }
    let mut i: usize = 0;
    while i < a.len()
        invariant
            a@.len() == b@.len(),
            i <= a@.len(),
            forall|j: int| 0 <= j < i ==> a@[j]@ == #[trigger] b@[j]@,
        decreases a@.len() - i,
    {
        if !same_snapshot(&a[i], &b[i]) {
            assert(snapshots_view(a@)[i as int] != snapshots_view(b@)[i as int]);
            return false;
        }
        i += 1;
    }
    assert(snapshots_view(a@) =~= snapshots_view(b@));
    true
}

/// Predicate "is a wireless interface".
pub open spec fn is_wireless_snap() -> spec_fn(SnapshotModel) -> bool {
    |s: SnapshotModel| s.is_wireless
}

/// Predicate "is a wired interface".
pub open spec fn is_wired_snap() -> spec_fn(SnapshotModel) -> bool {
    |s: SnapshotModel| !s.is_wireless
}

/// Predicate "is the interface called `name`".
pub open spec fn snap_named(name: Seq<char>) -> spec_fn(SnapshotModel) -> bool {
    |s: SnapshotModel| s.interface_name == name
}

/// The snapshots with every wireless interface first, each group in its
/// original order (a stable sort on "is wired").
pub open spec fn wireless_first(s: Seq<SnapshotModel>) -> Seq<SnapshotModel> {
    s.filter(is_wireless_snap()) + s.filter(is_wired_snap())
}

/// Order polled interfaces WiFi first, then wired, keeping the order within
/// each group.
pub fn wifi_first(snapshots: &Vec<NetworkSnapshot>) -> (r: Vec<NetworkSnapshot>)
    ensures
        snapshots_view(r@) == wireless_first(snapshots_view(snapshots@)),
{
    let ghost s = snapshots_view(snapshots@);
    let mut wireless: Vec<NetworkSnapshot> = Vec::new();
    let mut wired: Vec<NetworkSnapshot> = Vec::new();
    let mut i: usize = 0;
    while i < snapshots.len()
        invariant
            i <= snapshots@.len(),
            s == snapshots_view(snapshots@),
            snapshots_view(wireless@) == s.take(i as int).filter(is_wireless_snap()),
            snapshots_view(wired@) == s.take(i as int).filter(is_wired_snap()),
        decreases snapshots@.len() - i,
    {
        proof {
            lemma_filter_take_step(s, is_wireless_snap(), i as int);
            lemma_filter_take_step(s, is_wired_snap(), i as int);
        }
        let x = snapshots[i].clone();
        if x.is_wireless {
            wireless.push(x);
            assert(snapshots_view(wireless@) =~= s.take(i as int + 1).filter(is_wireless_snap()));
            assert(snapshots_view(wired@) =~= s.take(i as int + 1).filter(is_wired_snap()));
        } else {
            wired.push(x);
            assert(snapshots_view(wired@) =~= s.take(i as int + 1).filter(is_wired_snap()));
            assert(snapshots_view(wireless@) =~= s.take(i as int + 1).filter(is_wireless_snap()));
        }
        i += 1;
    }
    assert(s.take(s.len() as int) =~= s);
    let ghost front = snapshots_view(wireless@);
    let mut k: usize = 0;
    let n = wired.len();
    while k < n
        invariant
            n == wired@.len(),
            k <= n,
            snapshots_view(wireless@) == front + snapshots_view(wired@).take(k as int),
        decreases n - k,
    {
        let x = wired[k].clone();
        let ghost before = wireless@;
        wireless.push(x);
        assert(snapshots_view(wireless@) =~= snapshots_view(before).push(x@));
        assert(snapshots_view(wired@).take(k as int + 1) =~= snapshots_view(wired@).take(
            k as int,
        ).push(x@));
        assert(snapshots_view(wireless@) =~= front + snapshots_view(wired@).take(k as int + 1));
        k += 1;
    }
    assert(snapshots_view(wired@).take(n as int) =~= snapshots_view(wired@));
    wireless
}

/// Which snapshot becomes the primary (bar icon) interface.
#[derive(Debug, Clone, Copy, PartialEq, Eq, Structural)]
pub enum PrimaryPick {
    /// The snapshot at this index of the polled list.
    Listed(usize),
    /// The configured interface is not among the active ones: poll it by name.
    PollConfigured,
    /// Nothing is active and nothing is configured: an empty snapshot.
    Empty,
}

/// The primary interface: the configured one when set, else the first
/// wireless one, else the first one.
pub open spec fn pick_primary_spec(interface: Option<Seq<char>>, all: Seq<SnapshotModel>) -> PrimaryPick {
    match interface {
        Some(name) => match first_match(all, snap_named(name)) {
            Some(i) => PrimaryPick::Listed(i as usize),
            None => PrimaryPick::PollConfigured,
        },
        None => match first_match(all, is_wireless_snap()) {
            Some(i) => PrimaryPick::Listed(i as usize),
            None => if all.len() > 0 {
                PrimaryPick::Listed(0)
            } else {
                PrimaryPick::Empty
            },
        },
    }
}

/// Choose the primary interface among the polled ones.
pub fn pick_primary(interface: &Option<String>, all: &Vec<NetworkSnapshot>) -> (r: PrimaryPick)
    ensures
        r == pick_primary_spec(opt_text(*interface), snapshots_view(all@)),
        r matches PrimaryPick::Listed(i) ==> i < all@.len(),
{
    let ghost s = snapshots_view(all@);
    match interface {
        Some(name) => {
            let mut i: usize = 0;
            while i < all.len()
                invariant
                    i <= all@.len(),
                    s == snapshots_view(all@),
                    opt_text(*interface) == Some(name@),
                    forall|j: int| 0 <= j < i ==> !snap_named(name@)(#[trigger] s[j]),
                decreases all@.len() - i,
            {
                if all[i].interface_name == *name {
                    proof {
                        lemma_first_match_is(s, snap_named(name@), i as int);
                    }
                    return PrimaryPick::Listed(i);
                }
                i += 1;
            }
            proof {
                lemma_first_match_none(s, snap_named(name@));
            }
            PrimaryPick::PollConfigured
        },
        None => {
            let mut i: usize = 0;
            while i < all.len()
                invariant
                    i <= all@.len(),
                    s == snapshots_view(all@),
                    opt_text(*interface) is None,
                    forall|j: int| 0 <= j < i ==> !is_wireless_snap()(#[trigger] s[j]),
                decreases all@.len() - i,
            {
                if all[i].is_wireless {
                    proof {
                        lemma_first_match_is(s, is_wireless_snap(), i as int);
                    }
                    return PrimaryPick::Listed(i);
                }
                i += 1;
            }
            proof {
                lemma_first_match_none(s, is_wireless_snap());
            }
            if all.len() > 0 {
                PrimaryPick::Listed(0)
            } else {
                PrimaryPick::Empty
            }
        },
    }
}

/// Runtime state for the network indicator module.
#[derive(Debug)]
pub struct NetworkModule {
    pub config: NetworkConfig,
    /// Primary interface shown in the bar icon.
    pub snapshot: NetworkSnapshot,
    /// All active interfaces, used by the popup.
    pub all_interfaces: Vec<NetworkSnapshot>,
    /// Clock reading (milliseconds) of the last poll.
    pub last_poll_ms: Option<u64>,
}

/// A poll is due when none was made yet or `poll_secs` have passed.
pub open spec fn should_poll_spec(m: NetworkModule, now: u64) -> bool {
    match m.last_poll_ms {
        None => true,
        Some(t) => elapsed_ms(t, now) >= m.config.poll_secs * 1000,
    }
}

impl NetworkModule {
    /// A module that has not polled yet and shows an empty, disconnected snapshot.
    pub fn new(config: NetworkConfig) -> (r: Self)
        ensures
            r.config == config,
            !r.snapshot.is_connected,
            r.snapshot@.ip_address is None,
            r.all_interfaces@.len() == 0,
            r.last_poll_ms is None,
    {
        NetworkModule {
            config,
            snapshot: NetworkSnapshot {
                is_connected: false,
                is_wireless: false,
                interface_name: String::new(),
                ip_address: None,
                signal_dbm: None,
                link_speed_mbps: None,
            },
            all_interfaces: Vec::new(),
            last_poll_ms: None,
        }
    }

    /// Stable module identifier.
    pub fn id(&self) -> (r: &'static str)
        ensures
            r@ == "network"@,
    {
        "network"
    }

    /// Is a poll due at `now_ms`?
    pub fn should_poll(&self, now_ms: u64) -> (r: bool)
        ensures
            r == should_poll_spec(*self, now_ms),
    {
        match self.last_poll_ms {
            None => true,
            Some(t) => {
                let elapsed = if now_ms >= t { now_ms - t } else { 0 };
                elapsed / 1000 >= self.config.poll_secs
            },
        }
    }

    /// Start a poll if one is due: stamp the time and say so.
    pub fn begin_poll(&mut self, now_ms: u64) -> (r: bool)
        ensures
            r == should_poll_spec(*old(self), now_ms),
            final(self).last_poll_ms == (if r { Some(now_ms) } else { old(self).last_poll_ms }),
            final(self).config == old(self).config,
            final(self).snapshot@ == old(self).snapshot@,
            snapshots_view(final(self).all_interfaces@) == snapshots_view(old(self).all_interfaces@),
    {
        if !self.should_poll(now_ms) {
            return false;
        }
        self.last_poll_ms = Some(now_ms);
        true
    }

    /// Store the result of a poll; true when the primary interface or the
    /// list of active interfaces changed.
    pub fn finish_poll(&mut self, primary: NetworkSnapshot, all: Vec<NetworkSnapshot>) -> (r: bool)
        ensures
            r == (primary@ != old(self).snapshot@ || snapshots_view(all@) != snapshots_view(
                old(self).all_interfaces@,
            )),
            r ==> final(self).snapshot@ == primary@ && snapshots_view(final(self).all_interfaces@)
                == snapshots_view(all@),
            !r ==> final(self).snapshot@ == old(self).snapshot@ && snapshots_view(
                final(self).all_interfaces@,
            ) == snapshots_view(old(self).all_interfaces@),
            final(self).config == old(self).config,
            final(self).last_poll_ms == old(self).last_poll_ms,
    {
        let changed = !same_snapshot(&primary, &self.snapshot) || !same_snapshots(
            &all,
            &self.all_interfaces,
        );
        if changed {
            self.snapshot = primary;
            self.all_interfaces = all;
        }
        changed
    }
}

/// Signal-strength bars (1–4) for a WiFi level; unknown shows three.
pub open spec fn signal_bars_spec(dbm: Option<i32>) -> u8 {
    match dbm {
        None => 3,
        Some(v) => if v >= -55 {
            4
        } else if v >= -67 {
            3
        } else if v >= -80 {
            2
        } else {
            1
        },
    }
}

/// Signal-strength bars (1–4) for a WiFi level; unknown shows three.
pub fn signal_bars(dbm: Option<i32>) -> (r: u8)
    ensures
        r == signal_bars_spec(dbm),
{
    match dbm {
        None => 3,
        Some(v) => if v >= -55 {
            4
        } else if v >= -67 {
            3
        } else if v >= -80 {
            2
        } else {
            1
        },
    }
}

/// Compact link speed when it is a whole number: `<n>Mb` below a gigabit,
/// `<n>Gb` for whole gigabits; `None` for a fractional gigabit speed, which
/// needs one decimal place.
pub open spec fn whole_link_speed_spec(mbps: u64) -> Option<Seq<char>> {
    if mbps < 1000 {
        Some(nat_digits(mbps as nat) + "Mb"@)
    } else if mbps % 1000 == 0 {
        Some(nat_digits((mbps / 1000) as nat) + "Gb"@)
    } else {
        None
    }
}

/// Compact link speed when it is a whole number (see [`whole_link_speed_spec`]).
pub fn whole_link_speed(mbps: u64) -> (r: Option<String>)
    ensures
        opt_text(r) == whole_link_speed_spec(mbps),
{
    if mbps < 1000 {
        let mut s = u64_to_string(mbps);
        s.append("Mb");
        Some(s)
    } else if mbps % 1000 == 0 {
        let mut s = u64_to_string(mbps / 1000);
        s.append("Gb");
        Some(s)
    } else {
        None
    }
}

/// Per-interface data shown in the popup.
#[derive(Debug)]
pub struct IfaceRow {
    pub interface: String,
    pub ip_address: String,
    pub is_wifi: bool,
    pub signal_dbm: Option<i32>,
    pub speed_label: String,
}

/// Popup speed label: whole gigabits as `<n> Gbps` (rounded down), else
/// `<n> Mbps`; empty when unknown.
pub open spec fn speed_label_spec(mbps: Option<u64>) -> Seq<char> {
    match mbps {
        Some(m) => if m >= 1000 {
            nat_digits((m / 1000) as nat) + " Gbps"@
        } else {
            nat_digits(m as nat) + " Mbps"@
        },
        None => Seq::empty(),
    }
}

/// The popup row of a snapshot.
pub open spec fn row_of(s: SnapshotModel, r: IfaceRow) -> bool {
    &&& r.interface@ == s.interface_name
    &&& r.ip_address@ == match s.ip_address {
        Some(ip) => ip,
        None => Seq::empty(),
    }
    &&& r.is_wifi == s.is_wireless
    &&& r.signal_dbm == s.signal_dbm
    &&& r.speed_label@ == speed_label_spec(s.link_speed_mbps)
}

/// The placeholder row shown when nothing is connected.
pub open spec fn is_placeholder_row(r: IfaceRow) -> bool {
    &&& r.interface@.len() == 0
    &&& r.ip_address@.len() == 0
    &&& !r.is_wifi
    &&& r.signal_dbm is None
    &&& r.speed_label@.len() == 0
}

impl IfaceRow {
    /// The popup row describing one interface.
    pub fn from_snapshot(snap: &NetworkSnapshot) -> (r: Self)
        ensures
            row_of(snap@, r),
    {
        let speed_label = match snap.link_speed_mbps {
            Some(mbps) => if mbps >= 1000 {
                let mut s = u64_to_string(mbps / 1000);
                s.append(" Gbps");
                s
            } else {
                let mut s = u64_to_string(mbps);
                s.append(" Mbps");
                s
            },
            None => String::new(),
        };
        let ip_address = match &snap.ip_address {
            Some(ip) => ip.clone(),
            None => String::new(),
        };
        IfaceRow {
            interface: snap.interface_name.clone(),
            ip_address,
            is_wifi: snap.is_wireless,
            signal_dbm: snap.signal_dbm,
            speed_label,
        }
    }
}

/// Popup content for the network module — one row per active interface.
#[derive(Debug)]
pub struct NetworkPopup {
    pub rows: Vec<IfaceRow>,
}

impl NetworkPopup {
    /// One row per interface, in order; a single placeholder row when there
    /// are none.
    pub fn new(interfaces: &Vec<NetworkSnapshot>) -> (r: Self)
        ensures
            interfaces@.len() == 0 ==> r.rows@.len() == 1 && is_placeholder_row(r.rows@[0]),
            interfaces@.len() > 0 ==> r.rows@.len() == interfaces@.len() && forall|i: int|
                0 <= i < interfaces@.len() ==> row_of(interfaces@[i]@, #[trigger] r.rows@[i]),
    {
        let mut rows: Vec<IfaceRow> = Vec::new();
        if interfaces.len() == 0 {
            rows.push(
                IfaceRow {
                    interface: String::new(),
                    ip_address: String::new(),
                    is_wifi: false,
                    signal_dbm: None,
                    speed_label: String::new(),
                },
            );
            return NetworkPopup { rows };
        }
        let mut i: usize = 0;
        while i < interfaces.len()
            invariant
                i <= interfaces@.len(),
                rows@.len() == i,
                forall|j: int| 0 <= j < i ==> row_of(interfaces@[j]@, #[trigger] rows@[j]),
            decreases interfaces@.len() - i,
        {
            let row = IfaceRow::from_snapshot(&interfaces[i]);
            rows.push(row);
            i += 1;
        }
        NetworkPopup { rows }
    }
}

} // verus!

verus! {

/// Splitting a list by a predicate and its negation keeps every element.
proof fn lemma_split_keeps_all(s: Seq<SnapshotModel>)
    ensures
        s.filter(is_wireless_snap()).to_multiset().add(s.filter(is_wired_snap()).to_multiset())
            == s.to_multiset(),
    decreases s.len(),
{
    broadcast use vstd::seq_lib::group_to_multiset_ensures;
    if s.len() == 0 {
        assert(s.filter(is_wireless_snap()) =~= Seq::<SnapshotModel>::empty());
        assert(s.filter(is_wired_snap()) =~= Seq::<SnapshotModel>::empty());
        assert(s.filter(is_wireless_snap()).to_multiset().add(s.filter(is_wired_snap()).to_multiset())
            =~= s.to_multiset());
    } else {
        let n = s.len() - 1;
        let t = s.take(n);
        lemma_split_keeps_all(t);
        lemma_filter_take_step(s, is_wireless_snap(), n);
        lemma_filter_take_step(s, is_wired_snap(), n);
        assert(s.take(n + 1) =~= s);
        assert(s =~= t.push(s[n]));
        assert(s.filter(is_wireless_snap()).to_multiset().add(s.filter(is_wired_snap()).to_multiset())
            =~= s.to_multiset());
    }
}

/// WiFi-first ordering keeps every polled interface exactly once, puts all
/// wireless ones before all wired ones, and keeps the order within each group.
pub proof fn law_wifi_first_is_a_stable_partition(s: Seq<SnapshotModel>)
    ensures
        wireless_first(s).to_multiset() == s.to_multiset(),
        forall|i: int, j: int|
            0 <= i < j < wireless_first(s).len() && !(#[trigger] wireless_first(s)[i]).is_wireless
                ==> !(#[trigger] wireless_first(s)[j]).is_wireless,
        wireless_first(s).take(s.filter(is_wireless_snap()).len() as int) == s.filter(is_wireless_snap()),
{
    let a = s.filter(is_wireless_snap());
    let b = s.filter(is_wired_snap());
    lemma_split_keeps_all(s);
    vstd::seq_lib::lemma_multiset_commutative(a, b);
    crate::find::lemma_filter_all(s, is_wireless_snap());
    crate::find::lemma_filter_all(s, is_wired_snap());
    let w = wireless_first(s);
    assert forall|i: int, j: int|
        0 <= i < j < w.len() && !(#[trigger] w[i]).is_wireless implies !(#[trigger] w[j]).is_wireless by {
        if i < a.len() {
            assert(w[i] == a[i]);
            assert(is_wireless_snap()(a[i]));
        }
        assert(w[j] == b[j - a.len()]);
        assert(is_wired_snap()(b[j - a.len()]));
    }
    assert(w.take(a.len() as int) =~= a);
}

} // verus!

verus! {

/// `s` without its trailing `c` characters (`str::trim_end_matches`).
pub open spec fn trim_end_char(s: Seq<char>, c: char) -> Seq<char>
    decreases s.len(),
{
    if s.len() > 0 && s.last() == c {
        trim_end_char(s.drop_last(), c)
    } else {
        s
    }
}

/// `s` begins with `prefix`.
pub open spec fn starts_with(s: Seq<char>, prefix: Seq<char>) -> bool {
    s.len() >= prefix.len() && s.subrange(0, prefix.len() as int) == prefix
}

/// What one trimmed line of `/proc/net/wireless` says about `iface`:
/// nothing for a line of another interface or with an unreadable level
/// (keep looking); a missing `:` or fewer than three fields ends the search
/// without a level; otherwise the third field, its trailing dots dropped,
/// is the level in dBm.
pub open spec fn wifi_line(line: Seq<char>, iface: Seq<char>) -> Option<Option<i32>> {
    if !starts_with(line, iface) {
        None
    } else {
        match split_first(line, ':').1 {
            None => Some(None),
            Some(rest) => {
                let fields = words(rest);
                if fields.len() < 3 {
                    Some(None)
                } else {
                    match parse_i32_spec(trim_end_char(fields[2], '.')) {
                        Some(v) => Some(Some(v)),
                        None => None,
                    }
                }
            },
        }
    }
}

/// The first answer given by the complete lines of `s`, and the line
/// being read.
pub open spec fn wifi_scan(s: Seq<char>, iface: Seq<char>) -> (Option<Option<i32>>, Seq<char>)
    decreases s.len(),
{
    if s.len() == 0 {
        (None, Seq::empty())
    } else {
        let (d, line) = wifi_scan(s.drop_last(), iface);
        if s.last() == '\n' {
            (if d is Some {
                d
            } else {
                wifi_line(trim(line), iface)
            }, Seq::empty())
        } else {
            (d, line.push(s.last()))
        }
    }
}

/// WiFi signal level of `iface` in the text of `/proc/net/wireless`: the
/// answer of the first line that gives one (the last line needs no line
/// ending), none if no line does.
pub open spec fn wifi_signal_spec(text: Seq<char>, iface: Seq<char>) -> Option<i32> {
    let (d, line) = wifi_scan(text, iface);
    let answer = if d is Some {
        d
    } else {
        wifi_line(trim(line), iface)
    };
    match answer {
        Some(level) => level,
        None => None,
    }
}

/// Once a line has answered, later text does not change the answer.
proof fn lemma_wifi_answer_stays(s: Seq<char>, iface: Seq<char>, k: int)
    requires
        0 <= k <= s.len(),
        wifi_scan(s.take(k), iface).0 is Some,
    ensures
        wifi_scan(s, iface).0 == wifi_scan(s.take(k), iface).0,
    decreases s.len() - k,
{
    if k < s.len() {
        let n = s.len() - 1;
        assert(s.drop_last() =~= s.take(n));
        assert(s.take(n).take(k) =~= s.take(k));
        lemma_wifi_answer_stays(s.take(n), iface, k);
    } else {
        assert(s.take(k) =~= s);
    }
}

fn trim_end_char_bound(v: &Vec<char>, c: char) -> (r: usize)
    ensures
        r <= v@.len(),
        v@.subrange(0, r as int) == trim_end_char(v@, c),
{
    let mut e = v.len();
    assert(v@.subrange(0, e as int) =~= v@);
    while e > 0 && v[e - 1] == c
        invariant
            e <= v@.len(),
            trim_end_char(v@.subrange(0, e as int), c) == trim_end_char(v@, c),
        decreases e,
    {
        assert(v@.subrange(0, e as int).drop_last() =~= v@.subrange(0, e as int - 1));
        e -= 1;
    }
    e
}

/// The answer of line `v[lo..hi]` of `text` (see [`wifi_line`]).
fn wifi_line_exec(text: &str, v: &Vec<char>, lo: usize, hi: usize, iface: &str) -> (r: Option<Option<i32>>)
    requires
        v@ == text@,
        lo <= hi <= v@.len(),
    ensures
        r == wifi_line(trim(v@.subrange(lo as int, hi as int)), iface@),
{
    let (a, b) = trim_bounds(v, lo, hi);
    let ghost line = v@.subrange(a as int, b as int);
    let m = iface.unicode_len();
    if b - a < m || !matches_literal(v, a, a + m, iface) {
        proof {
            if b - a >= m {
                assert(line.subrange(0, m as int) =~= v@.subrange(a as int, a + m));
            }
        }
        return None;
    }
    assert(line.subrange(0, m as int) =~= v@.subrange(a as int, a + m));
    let (_key_end, rest) = split_at_first(v, a, b, ':');
    match rest {
        None => Some(None),
        Some(rs) => {
            let rest_text = substring(text, rs, b);
            let fields = words_of(rest_text.as_str());
            if fields.len() < 3 {
                return Some(None);
            }
            let fv = chars_of(fields[2].as_str());
            let end = trim_end_char_bound(&fv, '.');
            match parse_i32(&fv, 0, end) {
                Some(level) => Some(Some(level)),
                None => None,
            }
        },
    }
}

/// WiFi signal level of `iface` from the text of `/proc/net/wireless`
/// (see [`wifi_signal_spec`]).
pub fn parse_wifi_signal(text: &str, iface: &str) -> (r: Option<i32>)
    ensures
        r == wifi_signal_spec(text@, iface@),
{
    let v = chars_of(text);
    let mut start: usize = 0;
    let mut i: usize = 0;
    while i < v.len()
        invariant
            v@ == text@,
            start <= i <= v@.len(),
            wifi_scan(v@.take(i as int), iface@).0 is None,
            wifi_scan(v@.take(i as int), iface@).1 == v@.subrange(start as int, i as int),
        decreases v@.len() - i,
    {
        assert(v@.take(i as int + 1).drop_last() =~= v@.take(i as int));
        if v[i] == '\n' {
            let answer = wifi_line_exec(text, &v, start, i, iface);
            match answer {
                Some(level) => {
                    proof {
                        lemma_wifi_answer_stays(v@, iface@, i as int + 1);
                    }
                    return level;
                },
                None => {},
            }
            start = i + 1;
            assert(v@.subrange(start as int, i as int + 1) =~= Seq::<char>::empty());
        } else {
            assert(v@.subrange(start as int, i as int + 1) =~= v@.subrange(start as int, i as int).push(
                v@[i as int],
            ));
        }
        i += 1;
    }
    assert(v@.take(v@.len() as int) =~= v@);
    match wifi_line_exec(text, &v, start, v.len(), iface) {
        Some(level) => level,
        None => None,
    }
}

} // verus!
