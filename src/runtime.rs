//! What the orchestrator asks of the container runtime: the specification of a server's
//! main container, of a disposable install container, and the fresh identifiers they need.
use vstd::prelude::*;
use base64::Engine;
use crate::games::{PortConfig, PortProtocol};
use crate::server::Timestamp;
use crate::text::{append_chars, chars_of, decimal, push_decimal, string_of};
use crate::vars::VarMap;

verus! {

broadcast use vstd::string::group_string_axioms;

/// A lower-case hexadecimal digit.
pub open spec fn is_lower_hex(c: char) -> bool {
    (0x30 <= (c as u32) <= 0x39) || (0x61 <= (c as u32) <= 0x66)
}

/// Where the hyphens of an identifier's hyphenated form stand.
pub open spec fn is_hyphen_pos(i: int) -> bool {
    i == 8 || i == 13 || i == 18 || i == 23
}

/// The hyphenated lower-case form of an identifier: 36 characters, hyphens at positions 8,
/// 13, 18 and 23, lower-case hexadecimal digits elsewhere.
pub open spec fn is_uuid_text(s: Seq<char>) -> bool {
    &&& s.len() == 36
    &&& forall|i: int| 0 <= i < 36 ==> if is_hyphen_pos(i) { s[i] == '-' } else { is_lower_hex(#[trigger] s[i]) }
}

/// Relies on `uuid::Uuid::new_v4` and its `Display` (lower-case hyphenated form): a random
/// version 4 identifier as 36 characters, hyphens at positions 8, 13, 18 and 23 and
/// lower-case hexadecimal digits elsewhere.
#[verifier::external_body]
fn uuid_v4_text() -> (r: String)
    ensures
        is_uuid_text(r@),
{
    uuid::Uuid::new_v4().to_string()
}

/// The standard base64 encoding (with padding) of the UTF-8 bytes of a text.
pub uninterp spec fn base64_of_text(s: Seq<char>) -> Seq<char>;

/// A character of the standard base64 alphabet, or the padding `=`.
pub open spec fn is_base64_char(c: char) -> bool {
    ||| 0x41 <= (c as u32) <= 0x5A
    ||| 0x61 <= (c as u32) <= 0x7A
    ||| 0x30 <= (c as u32) <= 0x39
    ||| c == '+' || c == '/' || c == '='
}

/// Relies on `base64::engine::general_purpose::STANDARD.encode`: the standard, padded base64
/// of the text's UTF-8 bytes, which depends on the text alone and is written with the
/// standard alphabet and `=` padding.
#[verifier::external_body]
fn encode_base64(s: &str) -> (r: String)
    ensures
        r@ == base64_of_text(s@),
        forall|i: int| 0 <= i < r@.len() ==> is_base64_char(#[trigger] r@[i]),
        s@.len() == 0 ==> r@.len() == 0,
{
    base64::engine::general_purpose::STANDARD.encode(s)
}

/// Relies on `std::time::SystemTime::now` and chrono's `From<SystemTime>` for
/// `DateTime<Utc>`: the current time, as seconds and nanoseconds since the epoch (negative
/// seconds for a clock set before 1970).
#[verifier::external_body]
pub(crate) fn now_utc() -> (r: Timestamp) {
    let now = chrono::DateTime::<chrono::Utc>::from(std::time::SystemTime::now());
    Timestamp { secs: now.timestamp(), nanos: now.timestamp_subsec_nanos() }
}

/// The first eight characters of a fresh random identifier: the id of a new server.
pub fn new_server_id() -> (r: String)
    ensures
        r@.len() == 8,
        forall|i: int| 0 <= i < 8 ==> is_lower_hex(#[trigger] r@[i]),
{
    let u = chars_of(uuid_v4_text().as_str());
    string_of(&crate::text::copy_range(&u, 0, 8))
}

/// The text without its hyphens.
pub open spec fn without_hyphens(s: Seq<char>) -> Seq<char>
    decreases s.len(),
{
    if s.len() == 0 {
        s
    } else if s.last() == '-' {
        without_hyphens(s.drop_last())
    } else {
        without_hyphens(s.drop_last()).push(s.last())
    }
}

/// The contents of a machine-identity file made from an identifier: its characters without
/// hyphens, and a newline.
pub fn machine_id_text(uuid: &str) -> (r: String)
    ensures
        r@ == without_hyphens(uuid@).push('\n'),
{
    let u = chars_of(uuid);
    let mut v: Vec<char> = Vec::new();
    let mut i: usize = 0;
    while i < u.len()
        invariant
            i <= u.len(),
            v@ == without_hyphens(u@.subrange(0, i as int)),
        decreases u.len() - i,
    {
        assert(u@.subrange(0, i + 1).drop_last() =~= u@.subrange(0, i as int));
        if u[i] != '-' {
            v.push(u[i]);
        }
        i = i + 1;
    }
    assert(u@.subrange(0, i as int) =~= u@);
    v.push('\n');
    string_of(&v)
}

/// The number of hyphens of an identifier's hyphenated form before position `i`.
pub open spec fn hyphens_before(i: int) -> int {
    (if i > 8 { 1int } else { 0 }) + (if i > 13 { 1int } else { 0 }) + (if i > 18 { 1int } else { 0 }) + (if i > 23 { 1int } else { 0 })
}

proof fn lemma_uuid_digits(s: Seq<char>, i: int)
    requires
        is_uuid_text(s),
        0 <= i <= 36,
    ensures
        without_hyphens(s.subrange(0, i)).len() == i - hyphens_before(i),
        forall|k: int| 0 <= k < without_hyphens(s.subrange(0, i)).len() ==> is_lower_hex(#[trigger] without_hyphens(s.subrange(0, i))[k]),
    decreases i,
{
    if i > 0 {
        lemma_uuid_digits(s, i - 1);
        assert(s.subrange(0, i).drop_last() =~= s.subrange(0, i - 1));
        assert(s.subrange(0, i).last() == s[i - 1]);
        if !is_hyphen_pos(i - 1) {
            assert(is_lower_hex(s[i - 1]));
            assert(s[i - 1] != '-');
        }
    } else {
        assert(s.subrange(0, 0).len() == 0);
    }
}

/// A fresh machine identity: 32 lower-case hexadecimal digits and a newline.
pub fn new_machine_id() -> (r: String)
    ensures
        r@.len() == 33,
        forall|i: int| 0 <= i < 32 ==> is_lower_hex(#[trigger] r@[i]),
        r@[32] == '\n',
{
    let u = uuid_v4_text();
    proof {
        lemma_uuid_digits(u@, 36);
        assert(u@.subrange(0, 36) =~= u@);
    }
    let r = machine_id_text(u.as_str());
    assert forall|i: int| 0 <= i < 32 implies is_lower_hex(#[trigger] r@[i]) by {
        assert(r@[i] == without_hyphens(u@)[i]);
    }
    r
}

/// A path with each backslash turned into a slash, as the runtime's bind syntax wants it.
pub open spec fn normalized(p: Seq<char>) -> Seq<char> {
    p.map_values(|c: char| if c == '\\' { '/' } else { c })
}

fn normalize_path(p: &str) -> (r: Vec<char>)
    ensures
        r@ == normalized(p@),
{
    let v = chars_of(p);
    let mut r: Vec<char> = Vec::new();
    let mut i: usize = 0;
    while i < v.len()
        invariant
            i <= v.len(),
            r@ == normalized(v@.subrange(0, i as int)),
        decreases v.len() - i,
    {
        let c = if v[i] == '\\' { '/' } else { v[i] };
        r.push(c);
        assert(r@ =~= normalized(v@.subrange(0, i + 1)));
        i = i + 1;
    }
    assert(v@.subrange(0, i as int) =~= v@);
    r
}

/// The bind of the data directory at the volume path.
pub open spec fn data_bind(data_path: Seq<char>, volume: Seq<char>) -> Seq<char> {
    normalized(data_path) + seq![':'] + volume
}

/// The read-only bind of the machine-identity file kept in the data directory.
pub open spec fn machine_id_bind(data_path: Seq<char>) -> Seq<char> {
    normalized(data_path) + "/.machine-id:/etc/machine-id:ro"@
}

/// The two binds of a server container: its data and its machine identity.
pub fn binds_for(data_path: &str, volume: &str) -> (r: Vec<String>)
    ensures
        r@.len() == 2,
        r@[0]@ == data_bind(data_path@, volume@),
        r@[1]@ == machine_id_bind(data_path@),
{
    let base = normalize_path(data_path);
    let mut d = base.clone();
    assert(d@ =~= base@);
    d.push(':');
    append_chars(&mut d, &chars_of(volume));
    assert(d@ =~= data_bind(data_path@, volume@));
    let mut m = base;
    append_chars(&mut m, &chars_of("/.machine-id:/etc/machine-id:ro"));
    let mut r: Vec<String> = Vec::new();
    r.push(string_of(&d));
    r.push(string_of(&m));
    r
}

/// A published port: the container side `<port>/<protocol>` and the host side.
#[derive(Debug)]
pub struct PortBindingSpec {
    pub container_key: String,
    pub host_ip: String,
    pub host_port: String,
}

/// The runtime's key of a container port.
pub open spec fn port_key(port: u16, proto: Seq<char>) -> Seq<char> {
    decimal(port as nat) + seq!['/'] + proto
}

/// The protocols a port is published under.
pub open spec fn protocols(p: PortProtocol) -> Seq<Seq<char>> {
    match p {
        PortProtocol::Tcp => seq!["tcp"@],
        PortProtocol::Udp => seq!["udp"@],
        PortProtocol::Both => seq!["tcp"@, "udp"@],
    }
}

/// A binding as key and host port.
pub open spec fn binding_view(b: PortBindingSpec) -> (Seq<char>, Seq<char>) {
    (b.container_key@, b.host_port@)
}

/// The bindings of a port under each of its protocols, to the same host port.
pub open spec fn bindings_of(port: u16, protos: Seq<Seq<char>>) -> Seq<(Seq<char>, Seq<char>)> {
    protos.map_values(|p: Seq<char>| (port_key(port, p), decimal(port as nat)))
}

/// The bindings of the first `n` extra ports.
pub open spec fn extra_bindings_upto(extra: Seq<PortConfig>, n: int) -> Seq<(Seq<char>, Seq<char>)>
    decreases n,
{
    if n <= 0 {
        Seq::empty()
    } else {
        extra_bindings_upto(extra, n - 1) + bindings_of(extra[n - 1].container_port, protocols(extra[n - 1].protocol))
    }
}

/// All bindings of a server container: its main port under TCP and UDP, then its extra ports.
pub open spec fn all_bindings(port: u16, extra: Seq<PortConfig>) -> Seq<(Seq<char>, Seq<char>)> {
    bindings_of(port, seq!["tcp"@, "udp"@]) + extra_bindings_upto(extra, extra.len() as int)
}

fn push_binding(out: &mut Vec<PortBindingSpec>, port: u16, proto: &str)
    ensures
        final(out)@.len() == old(out)@.len() + 1,
        forall|i: int| 0 <= i < old(out)@.len() ==> final(out)@[i] == old(out)@[i],
        binding_view(final(out)@.last()) == (port_key(port, proto@), decimal(port as nat)),
        final(out)@.last().host_ip@ == "0.0.0.0"@,
{
    let mut k: Vec<char> = Vec::new();
    push_decimal(&mut k, port as u64);
    k.push('/');
    append_chars(&mut k, &chars_of(proto));
    assert(k@ =~= port_key(port, proto@));
    let mut h: Vec<char> = Vec::new();
    push_decimal(&mut h, port as u64);
    assert(h@ =~= decimal(port as nat));
    out.push(PortBindingSpec {
        container_key: string_of(&k),
        host_ip: "0.0.0.0".to_string(),
        host_port: string_of(&h),
    });
}

/// Bindings as keys and host ports.
pub open spec fn bindings_view(bs: Seq<PortBindingSpec>) -> Seq<(Seq<char>, Seq<char>)> {
    bs.map_values(|b: PortBindingSpec| binding_view(b))
}

/// The port bindings of a server container, all on every host interface.
pub fn port_bindings(port: u16, extra_ports: &Vec<PortConfig>) -> (r: Vec<PortBindingSpec>)
    ensures
        bindings_view(r@) == all_bindings(port, extra_ports@),
        forall|i: int| 0 <= i < r@.len() ==> (#[trigger] r@[i]).host_ip@ == "0.0.0.0"@,
{
    let mut r: Vec<PortBindingSpec> = Vec::new();
    push_binding(&mut r, port, "tcp");
    push_binding(&mut r, port, "udp");
    assert(bindings_view(r@) =~= bindings_of(port, seq!["tcp"@, "udp"@]));
    let mut i: usize = 0;
    while i < extra_ports.len()
        invariant
            i <= extra_ports.len(),
            bindings_view(r@) == bindings_of(port, seq!["tcp"@, "udp"@]) + extra_bindings_upto(extra_ports@, i as int),
            forall|k: int| 0 <= k < r@.len() ==> (#[trigger] r@[k]).host_ip@ == "0.0.0.0"@,
        decreases extra_ports.len() - i,
    {
        let e = &extra_ports[i];
        let ghost before = bindings_view(r@);
        match e.protocol {
            PortProtocol::Tcp => {
                push_binding(&mut r, e.container_port, "tcp");
            },
            PortProtocol::Udp => {
                push_binding(&mut r, e.container_port, "udp");
            },
            PortProtocol::Both => {
                push_binding(&mut r, e.container_port, "tcp");
                push_binding(&mut r, e.container_port, "udp");
            },
        }
        assert(bindings_view(r@) =~= before + bindings_of(e.container_port, protocols(e.protocol)));
        i = i + 1;
    }
    r
}

/// The environment as `KEY=value` entries, in order.
pub open spec fn env_entries(ps: Seq<(Seq<char>, Seq<char>)>) -> Seq<Seq<char>> {
    ps.map_values(|p: (Seq<char>, Seq<char>)| p.0 + seq!['='] + p.1)
}

/// The text of each string.
pub open spec fn texts(ss: Seq<String>) -> Seq<Seq<char>> {
    ss.map_values(|s: String| s@)
}

/// Writes the environment as `KEY=value` entries.
pub fn env_list(env: &VarMap) -> (r: Vec<String>)
    ensures
        texts(r@) == env_entries(env.pairs()),
{
    let mut r: Vec<String> = Vec::new();
    let mut i: usize = 0;
    while i < env.entries.len()
        invariant
            i <= env.entries.len(),
            texts(r@) == env_entries(env.pairs().subrange(0, i as int)),
        decreases env.entries.len() - i,
    {
        let mut v = chars_of(env.entries[i].0.as_str());
        v.push('=');
        append_chars(&mut v, &chars_of(env.entries[i].1.as_str()));
        let ghost before = texts(r@);
        r.push(string_of(&v));
        assert(texts(r@) =~= before.push(v@));
        assert(v@ =~= env.pairs()[i as int].0 + seq!['='] + env.pairs()[i as int].1);
        assert(env.pairs().subrange(0, i + 1) =~= env.pairs().subrange(0, i as int).push(env.pairs()[i as int]));
        assert(texts(r@) =~= env_entries(env.pairs().subrange(0, i + 1)));
        i = i + 1;
    }
    assert(env.pairs().subrange(0, i as int) =~= env.pairs());
    r
}

/// The command of a server container: move to the volume, then replace the shell by the
/// startup command.
pub open spec fn startup_cmd(volume: Seq<char>, startup: Seq<char>) -> Seq<Seq<char>> {
    seq!["/bin/bash"@, "-c"@, "cd "@ + volume + " && exec "@ + startup]
}

/// Everything the runtime needs to create a container.
#[derive(Debug)]
pub struct ContainerSpec {
    pub name: String,
    pub image: String,
    pub env: Vec<String>,
    pub port_bindings: Vec<PortBindingSpec>,
    pub binds: Vec<String>,
    /// Hard memory limit in bytes; swap is limited to the same amount, which disables it.
    pub memory_bytes: Option<i64>,
    pub cmd: Option<Vec<String>>,
    pub working_dir: Option<String>,
    /// Whether the container gets a terminal and an open stdin.
    pub interactive: bool,
}

/// Bytes in `mb` megabytes.
pub open spec fn mb_bytes(mb: u32) -> int {
    mb as int * 1024 * 1024
}

/// The specification of a server's main container, named `serverwave-<name>`; the volume
/// path defaults to `/data`.
pub fn create_container_spec(
    name: &str,
    image: &str,
    port: u16,
    data_path: &str,
    env: &VarMap,
    extra_ports: &Vec<PortConfig>,
    volume_path: Option<&str>,
    memory_mb: Option<u32>,
    startup_command: Option<&str>,
) -> (r: ContainerSpec)
    ensures
        r.name@ == "serverwave-"@ + name@,
        r.image@ == image@,
        texts(r.env@) == env_entries(env.pairs()),
        bindings_view(r.port_bindings@) == all_bindings(port, extra_ports@),
        forall|i: int| 0 <= i < r.port_bindings@.len() ==> (#[trigger] r.port_bindings@[i]).host_ip@ == "0.0.0.0"@,
        texts(r.binds@) == seq![
            data_bind(data_path@, match volume_path { Some(v) => v@, None => "/data"@ }),
            machine_id_bind(data_path@),
        ],
        memory_mb.is_some() <==> r.memory_bytes.is_some(),
        memory_mb.is_some() ==> r.memory_bytes.unwrap() == mb_bytes(memory_mb.unwrap()),
        r.cmd.is_some() <==> (startup_command.is_some() && startup_command.unwrap()@.len() > 0),
        r.cmd.is_some() ==> texts(r.cmd.unwrap()@) == startup_cmd(
            match volume_path { Some(v) => v@, None => "/data"@ },
            startup_command.unwrap()@,
        ),
        r.working_dir.is_none(),
        r.interactive,
{
    let volume: &str = match volume_path {
        Some(v) => v,
        None => "/data",
    };
    let binds = binds_for(data_path, volume);
    assert(texts(binds@) =~= seq![data_bind(data_path@, volume@), machine_id_bind(data_path@)]);
    let memory_bytes = match memory_mb {
        Some(mb) => Some((mb as i64) * 1024 * 1024),
        None => None,
    };
    let cmd = match startup_command {
        Some(s) => {
            if s.is_empty() {
                None
            } else {
                let mut c: Vec<char> = chars_of("cd ");
                append_chars(&mut c, &chars_of(volume));
                append_chars(&mut c, &chars_of(" && exec "));
                append_chars(&mut c, &chars_of(s));
                let mut v: Vec<String> = Vec::new();
                v.push("/bin/bash".to_string());
                v.push("-c".to_string());
                v.push(string_of(&c));
                assert(texts(v@) =~= startup_cmd(volume@, s@));
                Some(v)
            }
        },
        None => None,
    };
    let mut n = chars_of("serverwave-");
    append_chars(&mut n, &chars_of(name));
    ContainerSpec {
        name: string_of(&n),
        image: image.to_string(),
        env: env_list(env),
        port_bindings: port_bindings(port, extra_ports),
        binds,
        memory_bytes,
        cmd,
        working_dir: None,
        interactive: true,
    }
}

/// The shell command of an install container: decode the base64 of the script into a file,
/// make it executable, and replace the shell by it.
pub open spec fn install_command_of(script: Seq<char>) -> Seq<char> {
    "echo '"@ + base64_of_text(script) + "' | base64 -d > /tmp/install.sh && chmod +x /tmp/install.sh && exec /tmp/install.sh"@
}

/// The shell command that runs an install script without quoting hazards: the encoded
/// script holds base64 characters only, so no quote.
pub fn install_command(script: &str) -> (r: String)
    ensures
        r@ == install_command_of(script@),
        forall|i: int| 0 <= i < base64_of_text(script@).len() ==> is_base64_char(#[trigger] base64_of_text(script@)[i]),
{
    let mut v = chars_of("echo '");
    append_chars(&mut v, &chars_of(encode_base64(script).as_str()));
    append_chars(&mut v, &chars_of("' | base64 -d > /tmp/install.sh && chmod +x /tmp/install.sh && exec /tmp/install.sh"));
    string_of(&v)
}

/// The specification of a disposable install container named `serverwave-install-<suffix>`:
/// the same data and machine-identity binds as the main container, working in the volume,
/// without terminal or stdin.
pub fn install_container_spec(image: &str, data_path: &str, volume_path: &str, script: &str, suffix: &str) -> (r: ContainerSpec)
    ensures
        r.name@ == "serverwave-install-"@ + suffix@,
        r.image@ == image@,
        r.env@.len() == 0,
        r.port_bindings@.len() == 0,
        texts(r.binds@) == seq![data_bind(data_path@, volume_path@), machine_id_bind(data_path@)],
        r.memory_bytes.is_none(),
        r.cmd.is_some() && texts(r.cmd.unwrap()@) == seq!["/bin/sh"@, "-c"@, install_command_of(script@)],
        r.working_dir.is_some() && r.working_dir.unwrap()@ == volume_path@,
        !r.interactive,
{
    let binds = binds_for(data_path, volume_path);
    assert(texts(binds@) =~= seq![data_bind(data_path@, volume_path@), machine_id_bind(data_path@)]);
    let mut cmd: Vec<String> = Vec::new();
    cmd.push("/bin/sh".to_string());
    cmd.push("-c".to_string());
    cmd.push(install_command(script));
    assert(texts(cmd@) =~= seq!["/bin/sh"@, "-c"@, install_command_of(script@)]);
    let mut n = chars_of("serverwave-install-");
    append_chars(&mut n, &chars_of(suffix));
    ContainerSpec {
        name: string_of(&n),
        image: image.to_string(),
        env: Vec::new(),
        port_bindings: Vec::new(),
        binds,
        memory_bytes: None,
        cmd: Some(cmd),
        working_dir: Some(volume_path.to_string()),
        interactive: false,
    }
}

/// A fresh name suffix for an install container: eight characters of a random identifier.
pub fn new_install_suffix() -> (r: String)
    ensures
        r@.len() == 8,
{
    new_server_id()
}

} // verus!
