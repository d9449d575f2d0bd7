//! The configuration of the context, and what it stands for where a key is
//! left out.

use crate::database::empty_database;
use crate::error::{Error, ErrorKind, ErrorView};
use crate::model::Database;
use crate::paths::{db_path, db_path_text, DEFAULT_DATADIR};
use vstd::prelude::*;
use vstd::string::StringExecFns;
use vstd::string::StrSliceExecFns;

verus! {

/// Where the Tor SOCKS proxy listens unless the configuration says otherwise.
pub const DEFAULT_TOR_SOCKS: &'static str = "127.0.0.1:9050";

/// Where the Tor control port listens unless the configuration says otherwise.
pub const DEFAULT_TOR_CONTROL: &'static str = "127.0.0.1:9051";

/// Where the DNS server binds unless the configuration says otherwise.
pub const DEFAULT_DNS_BIND: &'static str = "127.0.0.1:53";

/// The scheme under which the HTTP client reaches the Tor SOCKS proxy.
pub const TOR_PROXY_SCHEME: &'static str = "socks5h://";

/// The ending of the hosts that are reached through Tor.
pub const ONION_SUFFIX: &'static str = ".onion";

/// The partitions of the operating system.
#[derive(Debug)]
pub struct OsPartitionInfo {
    pub boot: String,
    pub root: String,
}

/// The configuration of the context. Addresses are kept as the text of a
/// socket address, paths and URLs as text.
#[derive(Debug)]
pub struct RpcContextConfig {
    pub wifi_interface: Option<String>,
    pub ethernet_interface: String,
    pub os_partitions: OsPartitionInfo,
    pub migration_batch_rows: Option<usize>,
    pub migration_prefetch_rows: Option<usize>,
    pub bind_rpc: Option<String>,
    pub tor_control: Option<String>,
    pub tor_socks: Option<String>,
    pub dns_bind: Option<Vec<String>>,
    pub revision_cache_size: Option<usize>,
    pub datadir: Option<String>,
    pub log_server: Option<String>,
}

/// What one configuration file says: each key is there or is left out.
#[derive(Debug)]
pub struct ConfigFile {
    pub wifi_interface: Option<String>,
    pub ethernet_interface: Option<String>,
    pub os_partitions: Option<OsPartitionInfo>,
    pub migration_batch_rows: Option<usize>,
    pub migration_prefetch_rows: Option<usize>,
    pub bind_rpc: Option<String>,
    pub tor_control: Option<String>,
    pub tor_socks: Option<String>,
    pub dns_bind: Option<Vec<String>>,
    pub revision_cache_size: Option<usize>,
    pub datadir: Option<String>,
    pub log_server: Option<String>,
}

/// The first of two values that is there.
pub open spec fn or_else<T>(first: Option<T>, second: Option<T>) -> Option<T> {
    match first {
        Some(_) => first,
        None => second,
    }
}

fn either<T>(first: Option<T>, second: Option<T>) -> (which: Option<T>)
    ensures
        which == or_else(first, second),
{
    match first {
        Some(value) => Some(value),
        None => second,
    }
}

/// A file laid over another: a key counts as the upper file says it, and as
/// the lower file says it where the upper one leaves it out.
pub open spec fn overlay(upper: ConfigFile, lower: ConfigFile) -> ConfigFile {
    ConfigFile {
        wifi_interface: or_else(upper.wifi_interface, lower.wifi_interface),
        ethernet_interface: or_else(upper.ethernet_interface, lower.ethernet_interface),
        os_partitions: or_else(upper.os_partitions, lower.os_partitions),
        migration_batch_rows: or_else(upper.migration_batch_rows, lower.migration_batch_rows),
        migration_prefetch_rows: or_else(
            upper.migration_prefetch_rows,
            lower.migration_prefetch_rows,
        ),
        bind_rpc: or_else(upper.bind_rpc, lower.bind_rpc),
        tor_control: or_else(upper.tor_control, lower.tor_control),
        tor_socks: or_else(upper.tor_socks, lower.tor_socks),
        dns_bind: or_else(upper.dns_bind, lower.dns_bind),
        revision_cache_size: or_else(upper.revision_cache_size, lower.revision_cache_size),
        datadir: or_else(upper.datadir, lower.datadir),
        log_server: or_else(upper.log_server, lower.log_server),
    }
}

/// A file that leaves every key out.
pub open spec fn blank() -> ConfigFile {
    ConfigFile {
        wifi_interface: None,
        ethernet_interface: None,
        os_partitions: None,
        migration_batch_rows: None,
        migration_prefetch_rows: None,
        bind_rpc: None,
        tor_control: None,
        tor_socks: None,
        dns_bind: None,
        revision_cache_size: None,
        datadir: None,
        log_server: None,
    }
}

/// Files laid over each other, the first on top: a key counts as the first
/// file that has it says.
pub open spec fn merged(files: Seq<ConfigFile>) -> ConfigFile
    decreases files.len(),
{
    if files.len() == 0 {
        blank()
    } else {
        overlay(files.first(), merged(files.drop_first()))
    }
}

/// The error for files of which none has a key that has to be there.
pub open spec fn missing_field(key: Seq<char>) -> ErrorView {
    ErrorView {
        kind: ErrorKind::Unknown,
        message: "missing field `"@ + key + "`"@,
    }
}

/// The configuration that files stand for, the first file on top: the
/// ethernet interface and the partitions of the operating system have to be
/// named, every other key may be left out.
pub open spec fn loaded(files: Seq<ConfigFile>) -> Result<RpcContextConfig, ErrorView> {
    let file = merged(files);
    match (file.ethernet_interface, file.os_partitions) {
        (Some(ethernet_interface), Some(os_partitions)) => Ok(
            RpcContextConfig {
                wifi_interface: file.wifi_interface,
                ethernet_interface,
                os_partitions,
                migration_batch_rows: file.migration_batch_rows,
                migration_prefetch_rows: file.migration_prefetch_rows,
                bind_rpc: file.bind_rpc,
                tor_control: file.tor_control,
                tor_socks: file.tor_socks,
                dns_bind: file.dns_bind,
                revision_cache_size: file.revision_cache_size,
                datadir: file.datadir,
                log_server: file.log_server,
            },
        ),
        (None, _) => Err(missing_field("ethernet-interface"@)),
        (Some(_), None) => Err(missing_field("os-partitions"@)),
    }
}

fn lay_over(upper: ConfigFile, lower: ConfigFile) -> (both: ConfigFile)
    ensures
        both == overlay(upper, lower),
{
    ConfigFile {
        wifi_interface: either(upper.wifi_interface, lower.wifi_interface),
        ethernet_interface: either(upper.ethernet_interface, lower.ethernet_interface),
        os_partitions: either(upper.os_partitions, lower.os_partitions),
        migration_batch_rows: either(upper.migration_batch_rows, lower.migration_batch_rows),
        migration_prefetch_rows: either(
            upper.migration_prefetch_rows,
            lower.migration_prefetch_rows,
        ),
        bind_rpc: either(upper.bind_rpc, lower.bind_rpc),
        tor_control: either(upper.tor_control, lower.tor_control),
        tor_socks: either(upper.tor_socks, lower.tor_socks),
        dns_bind: either(upper.dns_bind, lower.dns_bind),
        revision_cache_size: either(upper.revision_cache_size, lower.revision_cache_size),
        datadir: either(upper.datadir, lower.datadir),
        log_server: either(upper.log_server, lower.log_server),
    }
}

/// Lays files over each other, the first on top.
pub fn merge(files: Vec<ConfigFile>) -> (file: ConfigFile)
    ensures
        file == merged(files@),
{
    let mut files = files;
    let ghost all = files@;
    let mut below = ConfigFile {
        wifi_interface: None,
        ethernet_interface: None,
        os_partitions: None,
        migration_batch_rows: None,
        migration_prefetch_rows: None,
        bind_rpc: None,
        tor_control: None,
        tor_socks: None,
        dns_bind: None,
        revision_cache_size: None,
        datadir: None,
        log_server: None,
    };
    assert(all.skip(all.len() as int) =~= Seq::<ConfigFile>::empty());
    while files.len() > 0
        invariant
            files@ == all.take(files@.len() as int),
            files@.len() <= all.len(),
            below == merged(all.skip(files@.len() as int)),
        decreases files@.len(),
    {
        let ghost n = files@.len() as int;
        let upper = files.pop().unwrap();
        proof {
            assert(upper == all[n - 1]);
            assert(all.skip(n - 1).first() == all[n - 1]);
            assert(all.skip(n - 1).drop_first() =~= all.skip(n));
            assert(files@ =~= all.take(n - 1));
        }
        below = lay_over(upper, below);
    }
    assert(all.skip(0) =~= all);
    below
}

/// A configured text, or the text that stands for it where it is left out.
pub open spec fn text_or(configured: Option<String>, default: Seq<char>) -> Seq<char> {
    match configured {
        Some(text) => text@,
        None => default,
    }
}

fn text_or_default<'a>(configured: &'a Option<String>, default: &'a str) -> (text: &'a str)
    ensures
        text@ == text_or(*configured, default@),
{
    match configured {
        Some(text) => text.as_str(),
        None => default,
    }
}

/// Whether a text ends with another.
pub open spec fn ends_with_text(text: Seq<char>, ending: Seq<char>) -> bool {
    text.len() >= ending.len() && text.subrange(text.len() - ending.len(), text.len() as int)
        == ending
}

/// Whether a text ends with another.
pub fn ends_with(text: &str, ending: &str) -> (yes: bool)
    ensures
        yes == ends_with_text(text@, ending@),
{
    let n = text.unicode_len();
    let m = ending.unicode_len();
    if m > n {
        return false;
    }
    let ghost tail = text@.subrange(n - m, n as int);
    let mut i: usize = 0;
    while i < m
        invariant
            i <= m <= n,
            n == text@.len(),
            m == ending@.len(),
            tail == text@.subrange(n - m, n as int),
            forall|j: int| 0 <= j < i ==> tail[j] == ending@[j],
        decreases m - i,
    {
        if text.get_char(n - m + i) != ending.get_char(i) {
            assert(tail[i as int] != ending@[i as int]);
            return false;
        }
        i += 1;
    }
    assert(tail =~= ending@);
    true
}

/// Whether a host is reached through Tor: its name ends with `.onion`.
pub open spec fn is_onion_host(host: Seq<char>) -> bool {
    ends_with_text(host, ONION_SUFFIX@)
}

/// The address under which the HTTP client reaches the Tor SOCKS proxy.
pub open spec fn tor_proxy_url_text(tor_socks: Seq<char>) -> Seq<char> {
    TOR_PROXY_SCHEME@ + tor_socks
}

/// The address under which the HTTP client reaches the Tor SOCKS proxy.
pub fn tor_proxy_url(tor_socks: &str) -> (url: String)
    ensures
        url@ == tor_proxy_url_text(tor_socks@),
{
    let mut url = String::from_str(TOR_PROXY_SCHEME);
    url.append(tor_socks);
    url
}

/// The proxy through which the HTTP client reaches a host: the Tor proxy for
/// a host whose name ends with `.onion`, none for every other host and for a
/// URL without a host.
pub fn proxy_for(host: Option<&str>, tor_proxy_url: &str) -> (proxy: Option<String>)
    ensures
        proxy is Some <==> (host matches Some(h) && is_onion_host(h@)),
        proxy matches Some(url) ==> url@ == tor_proxy_url@,
{
    match host {
        Some(h) => {
            if ends_with(h, ONION_SUFFIX) {
                Some(String::from_str(tor_proxy_url))
            } else {
                None
            }
        },
        None => None,
    }
}

/// The memory of the machine in bytes, from its size in mebibytes.
pub open spec fn ram_bytes(total_mib: u64) -> int {
    total_mib * 1024 * 1024
}

/// The memory of the machine in bytes, where that number fits.
pub fn ram_from_mib(total_mib: u64) -> (ram: Option<u64>)
    ensures
        ram is Some <==> ram_bytes(total_mib) <= u64::MAX,
        ram matches Some(bytes) ==> bytes == ram_bytes(total_mib),
{
    match total_mib.checked_mul(1024) {
        Some(kib) => kib.checked_mul(1024),
        None => None,
    }
}

impl RpcContextConfig {
    /// The configuration that the configuration files stand for, given what
    /// the files that were found say, in their order: the file named by the
    /// caller, the file of the device, the file of the system. A key counts
    /// as the first file that has it says.
    pub fn load(found: Vec<ConfigFile>) -> (config: Result<RpcContextConfig, Error>)
        ensures
            match config {
                Ok(c) => loaded(found@) == Ok::<RpcContextConfig, ErrorView>(c),
                Err(e) => loaded(found@) == Err::<RpcContextConfig, ErrorView>(e@),
            },
    {
        let file = merge(found);
        let ConfigFile {
            wifi_interface,
            ethernet_interface,
            os_partitions,
            migration_batch_rows,
            migration_prefetch_rows,
            bind_rpc,
            tor_control,
            tor_socks,
            dns_bind,
            revision_cache_size,
            datadir,
            log_server,
        } = file;
        match (ethernet_interface, os_partitions) {
            (Some(ethernet_interface), Some(os_partitions)) => Ok(
                RpcContextConfig {
                    wifi_interface,
                    ethernet_interface,
                    os_partitions,
                    migration_batch_rows,
                    migration_prefetch_rows,
                    bind_rpc,
                    tor_control,
                    tor_socks,
                    dns_bind,
                    revision_cache_size,
                    datadir,
                    log_server,
                },
            ),
            (None, _) => {
                let mut message = String::from_str("missing field `");
                message.append("ethernet-interface");
                message.append("`");
                Err(Error { kind: ErrorKind::Unknown, message })
            },
            (Some(_), None) => {
                let mut message = String::from_str("missing field `");
                message.append("os-partitions");
                message.append("`");
                Err(Error { kind: ErrorKind::Unknown, message })
            },
        }
    }

    /// The data directory that the configuration stands for.
    pub open spec fn datadir_text(&self) -> Seq<char> {
        text_or(self.datadir, DEFAULT_DATADIR@)
    }

    /// The address of the Tor SOCKS proxy that the configuration stands for.
    pub open spec fn tor_socks_text(&self) -> Seq<char> {
        text_or(self.tor_socks, DEFAULT_TOR_SOCKS@)
    }

    /// The address of the Tor control port that the configuration stands
    /// for.
    pub open spec fn tor_control_text(&self) -> Seq<char> {
        text_or(self.tor_control, DEFAULT_TOR_CONTROL@)
    }

    /// The addresses that the DNS server binds according to the
    /// configuration.
    pub open spec fn dns_bind_texts(&self) -> Seq<Seq<char>> {
        match self.dns_bind {
            Some(addresses) => crate::model::views(addresses@),
            None => seq![DEFAULT_DNS_BIND@],
        }
    }

    /// The data directory: the configured one, or `/embassy-data`.
    pub fn datadir(&self) -> (dir: &str)
        ensures
            dir@ == self.datadir_text(),
    {
        text_or_default(&self.datadir, DEFAULT_DATADIR)
    }

    /// The address of the Tor SOCKS proxy: the configured one, or
    /// `127.0.0.1:9050`.
    pub fn tor_socks(&self) -> (address: &str)
        ensures
            address@ == self.tor_socks_text(),
    {
        text_or_default(&self.tor_socks, DEFAULT_TOR_SOCKS)
    }

    /// The address of the Tor control port: the configured one, or
    /// `127.0.0.1:9051`.
    pub fn tor_control(&self) -> (address: &str)
        ensures
            address@ == self.tor_control_text(),
    {
        text_or_default(&self.tor_control, DEFAULT_TOR_CONTROL)
    }

    /// The addresses that the DNS server binds: the configured ones, or
    /// `127.0.0.1:53` alone.
    pub fn dns_bind(&self) -> (addresses: Vec<String>)
        ensures
            crate::model::views(addresses@) == self.dns_bind_texts(),
    {
        match &self.dns_bind {
            Some(addresses) => crate::model::clone_texts(addresses),
            None => {
                let mut addresses: Vec<String> = Vec::new();
                addresses.push(String::from_str(DEFAULT_DNS_BIND));
                assert(crate::model::views(addresses@) =~= seq![DEFAULT_DNS_BIND@]);
                addresses
            },
        }
    }

    /// Where the package database lies: `main/embassy.db` below the data
    /// directory.
    pub fn db_path(&self) -> (path: String)
        ensures
            path@ == db_path_text(self.datadir_text()),
    {
        db_path(self.datadir())
    }

    /// The package database to work on, given how the opening of the store
    /// at [`Self::db_path`] ended: the stored database, or, where the store
    /// holds none, the database of a machine that has just been set up, with
    /// a flag that it is new and has to be written. Where the store could
    /// not be opened, the result is a failure of the file system that names
    /// the path of the store.
    pub fn db(&self, opened: Result<Option<Database>, Error>) -> (db: Result<
        (Database, bool),
        Error,
    >)
        ensures
            match opened {
                Ok(Some(stored)) => db matches Ok((found, created)) && found@ == stored@
                    && !created,
                Ok(None) => db matches Ok((found, created)) && found@ == empty_database()
                    && created,
                Err(e) => db matches Err(f) && f@ == store_not_opened(
                    self.datadir_text(),
                    e.message@,
                ),
            },
    {
        match opened {
            Ok(Some(stored)) => Ok((stored, false)),
            Ok(None) => Ok((Database::init(), true)),
            Err(e) => {
                let mut message = self.db_path();
                message.append(": ");
                message.append(e.message.as_str());
                Err(Error { kind: ErrorKind::Filesystem, message })
            },
        }
    }
}

/// The error for a store of the package database that could not be opened:
/// a failure of the file system that names the path of the store and says
/// what the store said.
pub open spec fn store_not_opened(datadir: Seq<char>, reason: Seq<char>) -> ErrorView {
    ErrorView { kind: ErrorKind::Filesystem, message: db_path_text(datadir) + ": "@ + reason }
}

} // verus!
