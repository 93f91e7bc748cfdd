//! Import of saved servers from AeroFTP's exported profiles. Only FTP and
//! FTPS profiles are taken; other protocols are skipped, and so is a
//! profile whose host, port and user name a saved server already has.

use vstd::prelude::*;
use crate::config::{Config, ServerConfig};
use crate::ftp::ProtocolType;
use crate::text::{chars_of, lowercase, lowercase_string, str_eq};

verus! {

/// One server profile of an AeroFTP export, with the fields the import
/// reads.
pub struct AeroFtpServer {
    /// Display name (empty when the export has none).
    pub name: String,
    /// Host name or IP address.
    pub host: String,
    /// Port (21 when the export has none).
    pub port: u16,
    /// User name.
    pub username: String,
    /// Protocol name: "ftp", "ftps", "sftp", "s3", "webdav", ...
    pub protocol: String,
    /// Initial remote path.
    pub initial_path: Option<String>,
}

/// The protocol a profile's protocol name stands for, compared without
/// regard to case; `None` for protocols the client does not speak.
pub open spec fn protocol_named(name: Seq<char>) -> Option<ProtocolType> {
    if lowercase(name) == "ftp"@ {
        Some(ProtocolType::Ftp)
    } else if lowercase(name) == "ftps"@ {
        Some(ProtocolType::Ftps)
    } else {
        None
    }
}

/// A saved server already has the profile's host, port and user name.
pub open spec fn already_saved(saved: Seq<ServerConfig>, s: AeroFtpServer) -> bool {
    exists|i: int|
        0 <= i < saved.len() && (#[trigger] saved[i]).host@ == s.host@ && saved[i].port == s.port
            && saved[i].username@ == s.username@
}

/// The server that a profile of protocol `p` becomes: named by its host
/// when it has no name, on port 21 when its port is 0, with TLS (checked
/// against its host) for FTPS, passive, a 30 s timeout and no password.
pub open spec fn imported_server(s: AeroFtpServer, p: ProtocolType) -> ServerConfig {
    ServerConfig {
        name: if s.name@.len() == 0 {
            s.host
        } else {
            s.name
        },
        host: s.host,
        username: s.username,
        password: None,
        port: if s.port == 0 {
            21
        } else {
            s.port
        },
        protocol: p,
        use_tls: p == ProtocolType::Ftps,
        tls_hostname: if p == ProtocolType::Ftps {
            Some(s.host)
        } else {
            None
        },
        passive_mode: true,
        timeout: 30,
    }
}

/// The saved servers after importing `profiles`, one after the other,
/// into `saved`.
pub open spec fn import_all(saved: Seq<ServerConfig>, profiles: Seq<AeroFtpServer>) -> Seq<
    ServerConfig,
>
    decreases profiles.len(),
{
    if profiles.len() == 0 {
        saved
    } else {
        let before = import_all(saved, profiles.drop_last());
        let s = profiles.last();
        match protocol_named(s.protocol@) {
            None => before,
            Some(p) => if already_saved(before, s) {
                before
            } else {
                before.push(imported_server(s, p))
            },
        }
    }
}

/// The protocol a profile's protocol name stands for.
pub fn protocol_from_name(name: &str) -> (r: Option<ProtocolType>)
    ensures
        r == protocol_named(name@),
{
    let lower = lowercase_string(name);
    if str_eq(lower.as_str(), "ftp") {
        Some(ProtocolType::Ftp)
    } else if str_eq(lower.as_str(), "ftps") {
        Some(ProtocolType::Ftps)
    } else {
        None
    }
}

/// Whether a saved server has the profile's host, port and user name.
fn is_saved(saved: &Vec<ServerConfig>, s: &AeroFtpServer) -> (r: bool)
    ensures
        r == already_saved(saved@, *s),
{
    for i in 0..saved.len()
        invariant
            forall|j: int|
                0 <= j < i ==> !((#[trigger] saved@[j]).host@ == s.host@ && saved@[j].port == s.port
                    && saved@[j].username@ == s.username@),
    {
        if str_eq(saved[i].host.as_str(), s.host.as_str()) && saved[i].port == s.port && str_eq(
            saved[i].username.as_str(),
            s.username.as_str(),
        ) {
            return true;
        }
    }
    false
}

/// The server that a supported profile becomes.
fn import_entry(server: &AeroFtpServer, protocol: ProtocolType) -> (r: ServerConfig)
    ensures
        r == imported_server(*server, protocol),
{
    let name = if chars_of(server.name.as_str()).len() == 0 {
        server.host.clone()
    } else {
        server.name.clone()
    };
    let port: u16 = if server.port == 0 {
        21
    } else {
        server.port
    };
    let use_tls = protocol == ProtocolType::Ftps;
    let tls_hostname = if use_tls {
        Some(server.host.clone())
    } else {
        None
    };
    ServerConfig {
        name,
        host: server.host.clone(),
        username: server.username.clone(),
        password: None,
        port,
        protocol,
        use_tls,
        tls_hostname,
        passive_mode: true,
        timeout: 30,
    }
}

/// Imports the FTP and FTPS profiles into `config`, skipping profiles of
/// other protocols and profiles that a saved server (one saved before, or
/// one this import added) already covers. Returns how many servers were
/// added.
pub fn import_aeroftp_servers(servers: Vec<AeroFtpServer>, config: &mut Config) -> (r: usize)
    ensures
        final(config).servers@ == import_all(old(config).servers@, servers@),
        r == final(config).servers@.len() - old(config).servers@.len(),
        final(config).default_local_path == old(config).default_local_path,
        final(config).theme == old(config).theme,
        final(config).settings == old(config).settings,
{
    let ghost saved0 = config.servers@;
    let mut imported: usize = 0;
    for k in 0..servers.len()
        invariant
            config.servers@ == import_all(saved0, servers@.take(k as int)),
            imported == config.servers@.len() - saved0.len(),
            config.default_local_path == old(config).default_local_path,
            config.theme == old(config).theme,
            config.settings == old(config).settings,
            saved0 == old(config).servers@,
    {
        let server = &servers[k];
        proof {
            assert(servers@.take(k + 1).drop_last() == servers@.take(k as int));
            assert(servers@.take(k + 1).last() == servers@[k as int]);
            lemma_import_all_grows(saved0, servers@.take(k as int));
        }
        if let Some(protocol) = protocol_from_name(server.protocol.as_str()) {
            if !is_saved(&config.servers, server) {
                let entry = import_entry(server, protocol);
                config.add_server(entry);
                imported = imported + 1;
            }
        }
    }
    assert(servers@.take(servers@.len() as int) == servers@);
    imported
}

/// Importing never removes or changes a saved server: the servers before
/// come first, unchanged.
pub proof fn lemma_import_all_grows(saved: Seq<ServerConfig>, profiles: Seq<AeroFtpServer>)
    ensures
        import_all(saved, profiles).len() >= saved.len(),
        import_all(saved, profiles).len() <= saved.len() + profiles.len(),
        import_all(saved, profiles).subrange(0, saved.len() as int) == saved,
    decreases profiles.len(),
{
    if profiles.len() > 0 {
        lemma_import_all_grows(saved, profiles.drop_last());
        let before = import_all(saved, profiles.drop_last());
        assert(before.push(imported_server(profiles.last(), ProtocolType::Ftp)).subrange(
            0,
            saved.len() as int,
        ) == before.subrange(0, saved.len() as int));
        assert(before.push(imported_server(profiles.last(), ProtocolType::Ftps)).subrange(
            0,
            saved.len() as int,
        ) == before.subrange(0, saved.len() as int));
    }
}


/// Importing `a` and then `b` is importing `a` followed by `b`.
pub proof fn lemma_import_all_concat(
    saved: Seq<ServerConfig>,
    a: Seq<AeroFtpServer>,
    b: Seq<AeroFtpServer>,
)
    ensures
        import_all(saved, a + b) == import_all(import_all(saved, a), b),
    decreases b.len(),
{
    if b.len() == 0 {
        assert(a + b == a);
    } else {
        lemma_import_all_concat(saved, a, b.drop_last());
        assert((a + b).drop_last() == a + b.drop_last());
        assert((a + b).last() == b.last());
    }
}

/// A profile that some server in `x` covers is covered in any list that
/// starts with `x`.
proof fn lemma_saved_in_extension(x: Seq<ServerConfig>, y: Seq<ServerConfig>, s: AeroFtpServer)
    requires
        already_saved(x, s),
        x.len() <= y.len(),
        y.subrange(0, x.len() as int) == x,
    ensures
        already_saved(y, s),
{
    let i = choose|i: int|
        0 <= i < x.len() && (#[trigger] x[i]).host@ == s.host@ && x[i].port == s.port
            && x[i].username@ == s.username@;
    assert(y[i] == y.subrange(0, x.len() as int)[i]);
}

/// After an import, every FTP or FTPS profile with a port other than 0 has
/// a saved server with its host, port and user name.
pub proof fn lemma_import_covers(saved: Seq<ServerConfig>, profiles: Seq<AeroFtpServer>, k: int)
    requires
        0 <= k < profiles.len(),
        protocol_named(profiles[k].protocol@) is Some,
        profiles[k].port != 0,
    ensures
        already_saved(import_all(saved, profiles), profiles[k]),
{
    let s = profiles[k];
    let head = profiles.take(k + 1);
    assert(head.drop_last() == profiles.take(k));
    assert(head.last() == s);
    let before = import_all(saved, profiles.take(k));
    let mid = import_all(saved, head);
    if !already_saved(before, s) {
        let p = protocol_named(s.protocol@)->0;
        assert(mid == before.push(imported_server(s, p)));
        assert(mid[before.len() as int] == imported_server(s, p));
    } else {
        lemma_import_all_grows(before, seq![s]);
        assert(head == profiles.take(k) + seq![s]);
        lemma_import_all_concat(saved, profiles.take(k), seq![s]);
        lemma_saved_in_extension(before, mid, s);
    }
    assert(profiles == head + profiles.skip(k + 1));
    lemma_import_all_concat(saved, head, profiles.skip(k + 1));
    lemma_import_all_grows(mid, profiles.skip(k + 1));
    lemma_saved_in_extension(mid, import_all(saved, profiles), s);
}

/// Importing profiles that are all covered or unsupported adds nothing.
proof fn lemma_import_covered(saved: Seq<ServerConfig>, profiles: Seq<AeroFtpServer>)
    requires
        forall|k: int|
            0 <= k < profiles.len() && protocol_named((#[trigger] profiles[k]).protocol@) is Some
                ==> already_saved(saved, profiles[k]),
    ensures
        import_all(saved, profiles) == saved,
    decreases profiles.len(),
{
    if profiles.len() > 0 {
        let rest = profiles.drop_last();
        assert forall|k: int|
            0 <= k < rest.len() && protocol_named((#[trigger] rest[k]).protocol@) is Some implies already_saved(
            saved,
            rest[k],
        ) by {
            assert(rest[k] == profiles[k]);
        }
        lemma_import_covered(saved, rest);
        assert(profiles.last() == profiles[profiles.len() - 1]);
    }
}

/// Importing the same export twice adds nothing the second time, when no
/// FTP or FTPS profile in it has port 0 (such a profile is saved on port
/// 21 and no longer matches itself).
pub proof fn lemma_import_idempotent(saved: Seq<ServerConfig>, profiles: Seq<AeroFtpServer>)
    requires
        forall|k: int|
            0 <= k < profiles.len() && protocol_named((#[trigger] profiles[k]).protocol@) is Some
                ==> profiles[k].port != 0,
    ensures
        import_all(import_all(saved, profiles), profiles) == import_all(saved, profiles),
{
    let once = import_all(saved, profiles);
    assert forall|k: int|
        0 <= k < profiles.len() && protocol_named((#[trigger] profiles[k]).protocol@) is Some implies already_saved(
        once,
        profiles[k],
    ) by {
        lemma_import_covers(saved, profiles, k);
    }
    lemma_import_covered(once, profiles);
}

/// Importing one FTP or FTPS profile skips it exactly when a saved server
/// has its host, its port and its user name; otherwise the profile is
/// added after the saved servers. A server on the same host and port under
/// another user name never makes a profile be skipped.
pub proof fn lemma_import_skips_only_same_account(
    saved: Seq<ServerConfig>,
    s: AeroFtpServer,
    p: ProtocolType,
)
    requires
        protocol_named(s.protocol@) == Some(p),
    ensures
        (forall|i: int|
            0 <= i < saved.len() ==> !((#[trigger] saved[i]).host@ == s.host@ && saved[i].port
                == s.port && saved[i].username@ == s.username@)) ==> import_all(saved, seq![s])
            == saved.push(imported_server(s, p)),
        (exists|i: int|
            0 <= i < saved.len() && (#[trigger] saved[i]).host@ == s.host@ && saved[i].port
                == s.port && saved[i].username@ == s.username@) ==> import_all(saved, seq![s])
            == saved,
{
    assert(seq![s].drop_last() =~= Seq::<AeroFtpServer>::empty());
    assert(seq![s].last() == s);
    assert(import_all(saved, Seq::<AeroFtpServer>::empty()) == saved);
}

/// A profile of a protocol the client does not speak is never imported.
pub proof fn lemma_import_skips_unsupported(saved: Seq<ServerConfig>, s: AeroFtpServer)
    requires
        protocol_named(s.protocol@) is None,
    ensures
        import_all(saved, seq![s]) == saved,
{
    assert(seq![s].drop_last() =~= Seq::<AeroFtpServer>::empty());
    assert(seq![s].last() == s);
    assert(import_all(saved, Seq::<AeroFtpServer>::empty()) == saved);
}

} // verus!
