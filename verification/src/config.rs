//! Configuration: what a file may set, what the command line may override,
//! and the effective settings that come of both.
//!
//! Addresses are held as numbers: an IPv4 address as the `u32`, an IPv6
//! address as the `u128`, whose big-endian bytes are the address.

use vstd::prelude::*;

verus! {

/// The address 127.0.0.1.
pub const LOOPBACK_V4: u32 = 0x7f00_0001;

/// The settings as a configuration file gives them; each may be absent.
#[derive(Debug, Clone)]
pub struct FileConfig {
    /// Name hint for the virtual interface.
    pub tun_name: Option<String>,
    /// MTU of the virtual interface.
    pub mtu: Option<u16>,
    /// IPv4 address of the interface.
    pub tun_v4_addr: Option<u32>,
    /// IPv4 address of the interface's peer.
    pub tun_v4_peer: Option<u32>,
    /// IPv4 netmask of the interface.
    pub tun_v4_mask: Option<u32>,
    /// IPv6 address of the interface.
    pub tun_v6_addr: Option<u128>,
    /// IPv6 address of the interface's peer.
    pub tun_v6_peer: Option<u128>,
    /// IPv4 address of the remote end of the tunnel.
    pub raw_remote_v4: Option<u32>,
    /// Local IPv4 address to bind the transport to.
    pub raw_bind_v4: Option<u32>,
    /// IP protocol number of the outer datagrams.
    pub ip_protocol: Option<u8>,
    /// MTU of the path that the outer datagrams take.
    pub outer_mtu: Option<u16>,
    /// Whether packets predicted to exceed `outer_mtu` are dropped.
    pub drop_if_exceeds: Option<bool>,
    /// Log verbosity.
    pub log_level: Option<String>,
    /// Shell commands to run once the interface is up.
    pub post_up: Option<Vec<String>>,
    /// Shell commands to run before the interface goes down.
    pub post_down: Option<Vec<String>>,
}

/// The effective settings of a session.
#[derive(Debug, Clone)]
pub struct Config {
    /// Name hint for the virtual interface.
    pub tun_name: Option<String>,
    /// MTU of the virtual interface.
    pub mtu: u16,
    /// IPv4 address of the interface.
    pub tun_v4_addr: Option<u32>,
    /// IPv4 address of the interface's peer.
    pub tun_v4_peer: Option<u32>,
    /// IPv4 netmask of the interface.
    pub tun_v4_mask: Option<u32>,
    /// IPv6 address of the interface.
    pub tun_v6_addr: Option<u128>,
    /// IPv6 address of the interface's peer.
    pub tun_v6_peer: Option<u128>,
    /// IPv4 address of the remote end of the tunnel.
    pub raw_remote_v4: u32,
    /// Local IPv4 address to bind the transport to.
    pub raw_bind_v4: Option<u32>,
    /// IP protocol number of the outer datagrams.
    pub ip_protocol: u8,
    /// MTU of the path that the outer datagrams take.
    pub outer_mtu: u16,
    /// Whether packets predicted to exceed `outer_mtu` are dropped.
    pub drop_if_exceeds: bool,
    /// Log verbosity.
    pub log_level: String,
    /// Shell commands to run once the interface is up.
    pub post_up: Vec<String>,
    /// Shell commands to run before the interface goes down.
    pub post_down: Vec<String>,
}

/// The settings that the command line may override; each may be absent.
#[derive(Debug, Default, Clone)]
pub struct CliOverrides {
    /// Name hint for the virtual interface.
    pub tun_name: Option<String>,
    /// MTU of the virtual interface.
    pub mtu: Option<u16>,
    /// IPv4 address of the remote end of the tunnel.
    pub raw_remote_v4: Option<u32>,
    /// Local IPv4 address to bind the transport to.
    pub raw_bind_v4: Option<u32>,
    /// IP protocol number of the outer datagrams.
    pub ip_protocol: Option<u8>,
    /// MTU of the path that the outer datagrams take.
    pub outer_mtu: Option<u16>,
    /// Whether packets predicted to exceed `outer_mtu` are dropped.
    pub drop_if_exceeds: Option<bool>,
    /// Log verbosity.
    pub log_level: Option<String>,
}

/// A [`FileConfig`] with its strings as sequences of characters.
pub struct FileConfigView {
    pub tun_name: Option<Seq<char>>,
    pub mtu: Option<u16>,
    pub tun_v4_addr: Option<u32>,
    pub tun_v4_peer: Option<u32>,
    pub tun_v4_mask: Option<u32>,
    pub tun_v6_addr: Option<u128>,
    pub tun_v6_peer: Option<u128>,
    pub raw_remote_v4: Option<u32>,
    pub raw_bind_v4: Option<u32>,
    pub ip_protocol: Option<u8>,
    pub outer_mtu: Option<u16>,
    pub drop_if_exceeds: Option<bool>,
    pub log_level: Option<Seq<char>>,
    pub post_up: Option<Seq<Seq<char>>>,
    pub post_down: Option<Seq<Seq<char>>>,
}

/// A [`Config`] with its strings as sequences of characters.
pub struct ConfigView {
    pub tun_name: Option<Seq<char>>,
    pub mtu: u16,
    pub tun_v4_addr: Option<u32>,
    pub tun_v4_peer: Option<u32>,
    pub tun_v4_mask: Option<u32>,
    pub tun_v6_addr: Option<u128>,
    pub tun_v6_peer: Option<u128>,
    pub raw_remote_v4: u32,
    pub raw_bind_v4: Option<u32>,
    pub ip_protocol: u8,
    pub outer_mtu: u16,
    pub drop_if_exceeds: bool,
    pub log_level: Seq<char>,
    pub post_up: Seq<Seq<char>>,
    pub post_down: Seq<Seq<char>>,
}

/// A [`CliOverrides`] with its strings as sequences of characters.
pub struct CliOverridesView {
    pub tun_name: Option<Seq<char>>,
    pub mtu: Option<u16>,
    pub raw_remote_v4: Option<u32>,
    pub raw_bind_v4: Option<u32>,
    pub ip_protocol: Option<u8>,
    pub outer_mtu: Option<u16>,
    pub drop_if_exceeds: Option<bool>,
    pub log_level: Option<Seq<char>>,
}

impl View for FileConfig {
    type V = FileConfigView;

    open spec fn view(&self) -> FileConfigView {
        FileConfigView {
            tun_name: self.tun_name.deep_view(),
            mtu: self.mtu,
            tun_v4_addr: self.tun_v4_addr,
            tun_v4_peer: self.tun_v4_peer,
            tun_v4_mask: self.tun_v4_mask,
            tun_v6_addr: self.tun_v6_addr,
            tun_v6_peer: self.tun_v6_peer,
            raw_remote_v4: self.raw_remote_v4,
            raw_bind_v4: self.raw_bind_v4,
            ip_protocol: self.ip_protocol,
            outer_mtu: self.outer_mtu,
            drop_if_exceeds: self.drop_if_exceeds,
            log_level: self.log_level.deep_view(),
            post_up: self.post_up.deep_view(),
            post_down: self.post_down.deep_view(),
        }
    }
}

impl View for Config {
    type V = ConfigView;

    open spec fn view(&self) -> ConfigView {
        ConfigView {
            tun_name: self.tun_name.deep_view(),
            mtu: self.mtu,
            tun_v4_addr: self.tun_v4_addr,
            tun_v4_peer: self.tun_v4_peer,
            tun_v4_mask: self.tun_v4_mask,
            tun_v6_addr: self.tun_v6_addr,
            tun_v6_peer: self.tun_v6_peer,
            raw_remote_v4: self.raw_remote_v4,
            raw_bind_v4: self.raw_bind_v4,
            ip_protocol: self.ip_protocol,
            outer_mtu: self.outer_mtu,
            drop_if_exceeds: self.drop_if_exceeds,
            log_level: self.log_level@,
            post_up: self.post_up.deep_view(),
            post_down: self.post_down.deep_view(),
        }
    }
}

impl View for CliOverrides {
    type V = CliOverridesView;

    open spec fn view(&self) -> CliOverridesView {
        CliOverridesView {
            tun_name: self.tun_name.deep_view(),
            mtu: self.mtu,
            raw_remote_v4: self.raw_remote_v4,
            raw_bind_v4: self.raw_bind_v4,
            ip_protocol: self.ip_protocol,
            outer_mtu: self.outer_mtu,
            drop_if_exceeds: self.drop_if_exceeds,
            log_level: self.log_level.deep_view(),
        }
    }
}

/// The setting that wins where `upper` may set it and `lower` is what holds
/// otherwise.
pub open spec fn prefer<T>(upper: Option<T>, lower: T) -> T {
    match upper {
        Some(v) => v,
        None => lower,
    }
}

/// As [`prefer`], for a setting that may stay absent.
pub open spec fn prefer_some<T>(upper: Option<T>, lower: Option<T>) -> Option<T> {
    match upper {
        Some(v) => Some(v),
        None => lower,
    }
}

/// The settings of a session for which nothing was configured.
pub open spec fn default_config() -> ConfigView {
    ConfigView {
        tun_name: None,
        mtu: 1300,
        tun_v4_addr: None,
        tun_v4_peer: None,
        tun_v4_mask: None,
        tun_v6_addr: None,
        tun_v6_peer: None,
        raw_remote_v4: LOOPBACK_V4,
        raw_bind_v4: None,
        ip_protocol: 222,
        outer_mtu: 1500,
        drop_if_exceeds: true,
        log_level: seq!['i', 'n', 'f', 'o'],
        post_up: Seq::empty(),
        post_down: Seq::empty(),
    }
}

/// `base`, with every setting that the file gives put in its place.
pub open spec fn with_file(base: ConfigView, file: FileConfigView) -> ConfigView {
    ConfigView {
        tun_name: prefer_some(file.tun_name, base.tun_name),
        mtu: prefer(file.mtu, base.mtu),
        tun_v4_addr: prefer_some(file.tun_v4_addr, base.tun_v4_addr),
        tun_v4_peer: prefer_some(file.tun_v4_peer, base.tun_v4_peer),
        tun_v4_mask: prefer_some(file.tun_v4_mask, base.tun_v4_mask),
        tun_v6_addr: prefer_some(file.tun_v6_addr, base.tun_v6_addr),
        tun_v6_peer: prefer_some(file.tun_v6_peer, base.tun_v6_peer),
        raw_remote_v4: prefer(file.raw_remote_v4, base.raw_remote_v4),
        raw_bind_v4: prefer_some(file.raw_bind_v4, base.raw_bind_v4),
        ip_protocol: prefer(file.ip_protocol, base.ip_protocol),
        outer_mtu: prefer(file.outer_mtu, base.outer_mtu),
        drop_if_exceeds: prefer(file.drop_if_exceeds, base.drop_if_exceeds),
        log_level: prefer(file.log_level, base.log_level),
        post_up: prefer(file.post_up, base.post_up),
        post_down: prefer(file.post_down, base.post_down),
    }
}

/// `base`, with every setting that the command line gives put in its place.
pub open spec fn with_cli(base: ConfigView, cli: CliOverridesView) -> ConfigView {
    ConfigView {
        tun_name: prefer_some(cli.tun_name, base.tun_name),
        mtu: prefer(cli.mtu, base.mtu),
        tun_v4_addr: base.tun_v4_addr,
        tun_v4_peer: base.tun_v4_peer,
        tun_v4_mask: base.tun_v4_mask,
        tun_v6_addr: base.tun_v6_addr,
        tun_v6_peer: base.tun_v6_peer,
        raw_remote_v4: prefer(cli.raw_remote_v4, base.raw_remote_v4),
        raw_bind_v4: prefer_some(cli.raw_bind_v4, base.raw_bind_v4),
        ip_protocol: prefer(cli.ip_protocol, base.ip_protocol),
        outer_mtu: prefer(cli.outer_mtu, base.outer_mtu),
        drop_if_exceeds: prefer(cli.drop_if_exceeds, base.drop_if_exceeds),
        log_level: prefer(cli.log_level, base.log_level),
        post_up: base.post_up,
        post_down: base.post_down,
    }
}

/// The effective settings: the defaults, overlaid with the file where there
/// is one, overlaid with the command line.
pub open spec fn merged(file: Option<FileConfigView>, cli: CliOverridesView) -> ConfigView {
    let below = match file {
        Some(f) => with_file(default_config(), f),
        None => default_config(),
    };
    with_cli(below, cli)
}

/// The command line has the last word: each setting that it gives is the
/// effective one, whatever the file says.
pub proof fn lemma_cli_wins(file: Option<FileConfigView>, cli: CliOverridesView)
    ensures
        cli.tun_name is Some ==> merged(file, cli).tun_name == cli.tun_name,
        cli.mtu matches Some(v) ==> merged(file, cli).mtu == v,
        cli.raw_remote_v4 matches Some(v) ==> merged(file, cli).raw_remote_v4 == v,
        cli.raw_bind_v4 is Some ==> merged(file, cli).raw_bind_v4 == cli.raw_bind_v4,
        cli.ip_protocol matches Some(v) ==> merged(file, cli).ip_protocol == v,
        cli.outer_mtu matches Some(v) ==> merged(file, cli).outer_mtu == v,
        cli.drop_if_exceeds matches Some(v) ==> merged(file, cli).drop_if_exceeds == v,
        cli.log_level matches Some(v) ==> merged(file, cli).log_level == v,
{
}

/// Where the command line is silent the file decides, and where both are
/// silent the default stands.
pub proof fn lemma_file_then_default(file: Option<FileConfigView>, cli: CliOverridesView)
    ensures
        cli.mtu is None ==> merged(file, cli).mtu == match file {
            Some(f) => prefer(f.mtu, 1300),
            None => 1300,
        },
        cli.raw_remote_v4 is None ==> merged(file, cli).raw_remote_v4 == match file {
            Some(f) => prefer(f.raw_remote_v4, LOOPBACK_V4),
            None => LOOPBACK_V4,
        },
        cli.ip_protocol is None ==> merged(file, cli).ip_protocol == match file {
            Some(f) => prefer(f.ip_protocol, 222),
            None => 222,
        },
        cli.outer_mtu is None ==> merged(file, cli).outer_mtu == match file {
            Some(f) => prefer(f.outer_mtu, 1500),
            None => 1500,
        },
        cli.drop_if_exceeds is None ==> merged(file, cli).drop_if_exceeds == match file {
            Some(f) => prefer(f.drop_if_exceeds, true),
            None => true,
        },
        cli.log_level is None ==> merged(file, cli).log_level == match file {
            Some(f) => prefer(f.log_level, seq!['i', 'n', 'f', 'o']),
            None => seq!['i', 'n', 'f', 'o'],
        },
        cli.tun_name is None ==> merged(file, cli).tun_name == match file {
            Some(f) => f.tun_name,
            None => None,
        },
        cli.raw_bind_v4 is None ==> merged(file, cli).raw_bind_v4 == match file {
            Some(f) => f.raw_bind_v4,
            None => None,
        },
{
}

impl Default for Config {
    /// The settings of a session for which nothing was configured.
    fn default() -> (c: Self)
        ensures
            c@ == default_config(),
    {
        proof {
            reveal_strlit("info");
        }
        let c = Config {
            tun_name: None,
            mtu: 1300,
            tun_v4_addr: None,
            tun_v4_peer: None,
            tun_v4_mask: None,
            tun_v6_addr: None,
            tun_v6_peer: None,
            raw_remote_v4: LOOPBACK_V4,
            raw_bind_v4: None,
            ip_protocol: 222,
            outer_mtu: 1500,
            drop_if_exceeds: true,
            log_level: "info".to_owned(),
            post_up: Vec::new(),
            post_down: Vec::new(),
        };
        assert(c.log_level@ =~= seq!['i', 'n', 'f', 'o']);
        assert(c.post_up.deep_view() =~= Seq::<Seq<char>>::empty());
        assert(c.post_down.deep_view() =~= Seq::<Seq<char>>::empty());
        c
    }
}

/// `upper`'s value where it has one, else `lower`.
fn value_or<T>(upper: Option<T>, lower: T) -> (r: T)
    ensures
        r == prefer(upper, lower),
{
    match upper {
        Some(v) => v,
        None => lower,
    }
}

/// `upper` where it has a value, else `lower`.
fn first_some<T>(upper: Option<T>, lower: Option<T>) -> (r: Option<T>)
    ensures
        r == prefer_some(upper, lower),
{
    match upper {
        Some(v) => Some(v),
        None => lower,
    }
}

impl Config {
    /// Puts every setting that `file` gives in place of the one that `self`
    /// holds.
    fn overlay_file(self, file: FileConfig) -> (c: Config)
        ensures
            c@ == with_file(self@, file@),
    {
        Config {
            tun_name: first_some(file.tun_name, self.tun_name),
            mtu: value_or(file.mtu, self.mtu),
            tun_v4_addr: first_some(file.tun_v4_addr, self.tun_v4_addr),
            tun_v4_peer: first_some(file.tun_v4_peer, self.tun_v4_peer),
            tun_v4_mask: first_some(file.tun_v4_mask, self.tun_v4_mask),
            tun_v6_addr: first_some(file.tun_v6_addr, self.tun_v6_addr),
            tun_v6_peer: first_some(file.tun_v6_peer, self.tun_v6_peer),
            raw_remote_v4: value_or(file.raw_remote_v4, self.raw_remote_v4),
            raw_bind_v4: first_some(file.raw_bind_v4, self.raw_bind_v4),
            ip_protocol: value_or(file.ip_protocol, self.ip_protocol),
            outer_mtu: value_or(file.outer_mtu, self.outer_mtu),
            drop_if_exceeds: value_or(file.drop_if_exceeds, self.drop_if_exceeds),
            log_level: value_or(file.log_level, self.log_level),
            post_up: value_or(file.post_up, self.post_up),
            post_down: value_or(file.post_down, self.post_down),
        }
    }

    /// Puts every setting that `cli` gives in place of the one that `self`
    /// holds.
    fn overlay_cli(self, cli: CliOverrides) -> (c: Config)
        ensures
            c@ == with_cli(self@, cli@),
    {
        Config {
            tun_name: first_some(cli.tun_name, self.tun_name),
            mtu: value_or(cli.mtu, self.mtu),
            tun_v4_addr: self.tun_v4_addr,
            tun_v4_peer: self.tun_v4_peer,
            tun_v4_mask: self.tun_v4_mask,
            tun_v6_addr: self.tun_v6_addr,
            tun_v6_peer: self.tun_v6_peer,
            raw_remote_v4: value_or(cli.raw_remote_v4, self.raw_remote_v4),
            raw_bind_v4: first_some(cli.raw_bind_v4, self.raw_bind_v4),
            ip_protocol: value_or(cli.ip_protocol, self.ip_protocol),
            outer_mtu: value_or(cli.outer_mtu, self.outer_mtu),
            drop_if_exceeds: value_or(cli.drop_if_exceeds, self.drop_if_exceeds),
            log_level: value_or(cli.log_level, self.log_level),
            post_up: self.post_up,
            post_down: self.post_down,
        }
    }

    /// Merges the configuration sources into the effective settings. A
    /// setting given on the command line wins over the file's; one that
    /// neither gives keeps its default.
    pub fn merge(file: Option<FileConfig>, cli: CliOverrides) -> (c: Config)
        ensures
            c@ == merged(
                match file {
                    Some(f) => Some(f@),
                    None => None,
                },
                cli@,
            ),
    {
        let base = Config::default();
        let below = match file {
            Some(f) => base.overlay_file(f),
            None => base,
        };
        below.overlay_cli(cli)
    }
}

} // verus!
