//! ICMP probes: the request, the system `ping` command line, the choice of
//! backend, of the address to probe and of a probe identifier.
use crate::config::BackendKind;
use crate::domain::icmp::{CheckFailure, IpAddress, PingOutcome};
use crate::names::name_views;
use crate::text::{concat2, concat3, decimal, digit_char, owned, push_decimal, trim, trimmed};
use std::collections::HashSet;
use vstd::prelude::*;

verus! {

broadcast use vstd::std_specs::hash::group_hash_axioms;

/// What one probe needs: the host, its address and the time to wait, in
/// nanoseconds.
#[derive(Clone, Debug)]
pub struct PingCheckRequest {
    pub host_id: String,
    pub address: String,
    pub timeout: u128,
}

/// Why no ICMP backend could be built.
#[derive(Debug)]
pub enum PingError {
    BackendUnavailable(String),
    Io(String),
}

impl PingError {
    /// The error as the program reports it.
    pub fn message(&self) -> (r: String)
        ensures
            match self {
                PingError::BackendUnavailable(m) => r@ == "backend unavailable: "@ + m@,
                PingError::Io(m) => r@ == "io error: "@ + m@,
            },
    {
        match self {
            PingError::BackendUnavailable(m) => concat2("backend unavailable: ", m.as_str()),
            PingError::Io(m) => concat2("io error: ", m.as_str()),
        }
    }
}

/// The flavour of the system `ping` command, which decides the unit of its
/// timeout.
#[derive(Clone, Copy, Debug, PartialEq, Eq, Structural)]
pub enum PingPlatform {
    Linux,
    MacOs,
}

/// The backend that runs the system `ping` command.
pub struct SystemPingBackend {
    platform: PingPlatform,
}

impl View for SystemPingBackend {
    type V = PingPlatform;

    closed spec fn view(&self) -> PingPlatform {
        self.platform
    }
}

impl SystemPingBackend {
    pub fn new(platform: PingPlatform) -> (r: SystemPingBackend)
        ensures
            r@ == platform,
    {
        SystemPingBackend { platform }
    }

    /// The platform whose `ping` flavour the backend runs.
    pub fn platform(&self) -> (r: PingPlatform)
        ensures
            r == self@,
    {
        self.platform
    }

    /// The name under which transitions record this backend.
    pub fn name(&self) -> (r: &'static str)
        ensures
            r@ == "system"@,
    {
        "system"
    }
}

/// The name under which transitions record the raw-socket backend.
pub fn raw_backend_name() -> (r: &'static str)
    ensures
        r@ == "raw"@,
{
    "raw"
}

/// The backend a process ends up with.
#[derive(Clone, Copy, Debug, PartialEq, Eq, Structural)]
pub enum BackendChoice {
    Raw,
    System,
}

/// Whether the configured backend kind opens a raw ICMP socket first.
pub fn tries_raw_backend(kind: BackendKind) -> (r: bool)
    ensures
        r == (kind != BackendKind::System),
{
    match kind {
        BackendKind::System => false,
        _ => true,
    }
}

/// The backend for the configured kind, given how opening a raw socket went
/// (`None` when it was not tried): `system` always takes the system
/// command; `raw` takes the raw socket or fails with its error; `auto`
/// takes the raw socket and falls back to the system command.
pub fn choose_backend(kind: BackendKind, raw_attempt: Option<Result<(), PingError>>) -> (r: Result<
    BackendChoice,
    PingError,
>)
    requires
        kind != BackendKind::System ==> raw_attempt is Some,
    ensures
        match kind {
            BackendKind::System => r == Ok::<BackendChoice, PingError>(BackendChoice::System),
            BackendKind::Raw => match raw_attempt {
                Some(Ok(_)) => r == Ok::<BackendChoice, PingError>(BackendChoice::Raw),
                Some(Err(e)) => r == Err::<BackendChoice, PingError>(e),
                None => false,
            },
            BackendKind::Auto => match raw_attempt {
                Some(Ok(_)) => r == Ok::<BackendChoice, PingError>(BackendChoice::Raw),
                _ => r == Ok::<BackendChoice, PingError>(BackendChoice::System),
            },
        },
{
    match kind {
        BackendKind::System => Ok(BackendChoice::System),
        BackendKind::Raw => match raw_attempt {
            Some(Ok(_)) => Ok(BackendChoice::Raw),
            Some(Err(e)) => Err(e),
            None => Ok(BackendChoice::System),
        },
        BackendKind::Auto => match raw_attempt {
            Some(Ok(_)) => Ok(BackendChoice::Raw),
            _ => Ok(BackendChoice::System),
        },
    }
}

/// Milliseconds of a duration in nanoseconds, rounded to the nearest, ties
/// to even.
pub open spec fn rounded_millis(timeout: u128) -> nat {
    let q = timeout / 1_000_000;
    let rem = timeout % 1_000_000;
    if rem > 500_000 || (rem == 500_000 && q % 2 == 1) {
        (q + 1) as nat
    } else {
        q as nat
    }
}

/// The Linux `-W` value: the timeout in seconds with three decimals, at
/// least `0.001`.
pub open spec fn linux_wait_text(timeout: u128) -> Seq<char> {
    let ms = if rounded_millis(timeout) == 0 { 1 } else { rounded_millis(timeout) };
    let frac = ms % 1000;
    decimal(ms / 1000) + "."@ + seq![digit_char(frac / 100), digit_char((frac / 10) % 10), digit_char(frac % 10)]
}

/// The macOS `-W` value: whole milliseconds, at least one.
pub open spec fn macos_wait_text(timeout: u128) -> Seq<char> {
    let ms = timeout / 1_000_000;
    decimal(if ms == 0 { 1 } else { ms as nat })
}

/// The `-W` value for the platform.
pub open spec fn wait_text(platform: PingPlatform, timeout: u128) -> Seq<char> {
    match platform {
        PingPlatform::Linux => linux_wait_text(timeout),
        PingPlatform::MacOs => macos_wait_text(timeout),
    }
}

fn linux_wait(timeout: u128) -> (r: String)
    ensures
        r@ == linux_wait_text(timeout),
{
    let q = timeout / 1_000_000;
    let rem = timeout % 1_000_000;
    let rounded = if rem > 500_000 || (rem == 500_000 && q % 2 == 1) {
        q + 1
    } else {
        q
    };
    let ms = if rounded == 0 {
        1
    } else {
        rounded
    };
    let frac = ms % 1000;
    let mut s = String::new();
    push_decimal(&mut s, ms / 1000);
    s.append(".");
    push_decimal(&mut s, frac / 100);
    push_decimal(&mut s, (frac / 10) % 10);
    push_decimal(&mut s, frac % 10);
    proof {
        reveal_strlit(".");
        assert(decimal((frac / 100) as nat) == seq![digit_char((frac / 100) as nat)]);
        assert(decimal(((frac / 10) % 10) as nat) == seq![digit_char(((frac / 10) % 10) as nat)]);
        assert(decimal((frac % 10) as nat) == seq![digit_char((frac % 10) as nat)]);
        assert(s@ =~= linux_wait_text(timeout));
    }
    s
}

fn macos_wait(timeout: u128) -> (r: String)
    ensures
        r@ == macos_wait_text(timeout),
{
    let ms = timeout / 1_000_000;
    let mut s = String::new();
    push_decimal(&mut s, if ms == 0 { 1 } else { ms });
    s
}

/// The arguments of one system `ping`: numeric output, one probe, the
/// timeout in the platform's unit, then the address.
pub fn ping_args(platform: PingPlatform, address: &str, timeout: u128) -> (r: Vec<String>)
    ensures
        name_views(r@) == seq!["-n"@, "-c"@, "1"@, "-W"@, wait_text(platform, timeout), address@],
{
    let wait = match platform {
        PingPlatform::Linux => linux_wait(timeout),
        PingPlatform::MacOs => macos_wait(timeout),
    };
    let r = vec![owned("-n"), owned("-c"), owned("1"), owned("-W"), wait, owned(address)];
    assert(name_views(r@) =~= seq!["-n"@, "-c"@, "1"@, "-W"@, wait_text(platform, timeout), address@]);
    r
}

/// The identifier `k` steps after `seed`, wrapping around.
pub open spec fn probe_at(seed: u16, k: int) -> u16 {
    ((seed + k) % 65536) as u16
}

/// Reserves an ICMP identifier that no probe in flight uses: the first free
/// one from `seed` upward, wrapping around. Fails, leaving the set as it
/// was, when all 65536 are in flight.
pub fn next_unique_identifier(inflight: &mut HashSet<u16>, seed: u16) -> (r: Result<u16, CheckFailure>)
    ensures
        match r {
            Ok(id) => {
                &&& !old(inflight)@.contains(id)
                &&& final(inflight)@ == old(inflight)@.insert(id)
                &&& exists|k: int|
                    0 <= k < 65536 && id == probe_at(seed, k) && forall|j: int|
                        0 <= j < k ==> old(inflight)@.contains(#[trigger] probe_at(seed, j))
            },
            Err(f) => {
                &&& final(inflight)@ == old(inflight)@
                &&& forall|x: u16| old(inflight)@.contains(x)
                &&& f.message@ == "all 65536 icmp identifiers are in flight"@
            },
        },
{
    let mut probe: u16 = seed;
    let mut i: u32 = 0;
    while i < 65536
        invariant
            0 <= i <= 65536,
            *inflight == *old(inflight),
            probe == probe_at(seed, i as int),
            forall|j: int| 0 <= j < i ==> old(inflight)@.contains(#[trigger] probe_at(seed, j)),
        decreases 65536 - i,
    {
        if !inflight.contains(&probe) {
            inflight.insert(probe);
            return Ok(probe);
        }
        probe = if probe == u16::MAX {
            0
        } else {
            probe + 1
        };
        i += 1;
    }
    proof {
        assert forall|x: u16| old(inflight)@.contains(x) by {
            let k: int = (x - seed + 65536) % 65536;
            assert(probe_at(seed, k) == x);
        }
    }
    Err(CheckFailure { message: owned("all 65536 icmp identifiers are in flight") })
}

/// The first IPv4 address of a list.
pub open spec fn first_v4(c: Seq<IpAddress>) -> Option<IpAddress>
    decreases c.len(),
{
    if c.len() == 0 {
        None
    } else if c[0] is V4 {
        Some(c[0])
    } else {
        first_v4(c.drop_first())
    }
}

/// The first IPv6 address of a list.
pub open spec fn first_v6(c: Seq<IpAddress>) -> Option<IpAddress>
    decreases c.len(),
{
    if c.len() == 0 {
        None
    } else if c[0] is V6 {
        Some(c[0])
    } else {
        first_v6(c.drop_first())
    }
}

/// The raw ICMP socket a probe goes out on.
#[derive(Clone, Copy, Debug, PartialEq, Eq, Structural)]
pub enum IcmpSocket {
    V4,
    V6,
}

/// Picks the raw socket for an address: IPv4 addresses use the IPv4 socket,
/// which the backend always has; IPv6 addresses use the IPv6 socket, which
/// is opened best effort, and fail when it is missing. `address_text` is the
/// address as it is displayed.
pub fn icmp_socket_for(address: IpAddress, address_text: &str, v6_available: bool) -> (r: Result<
    IcmpSocket,
    CheckFailure,
>)
    ensures
        address is V4 ==> r == Ok::<IcmpSocket, CheckFailure>(IcmpSocket::V4),
        address is V6 && v6_available ==> r == Ok::<IcmpSocket, CheckFailure>(IcmpSocket::V6),
        address is V6 && !v6_available ==> (r matches Err(f) && f.message@ == "ipv6 address "@ + address_text@
            + " cannot be pinged: no IPv6 raw socket available"@),
{
    match address {
        IpAddress::V4(_) => Ok(IcmpSocket::V4),
        IpAddress::V6(_) => {
            if v6_available {
                Ok(IcmpSocket::V6)
            } else {
                Err(CheckFailure {
                    message: concat3("ipv6 address ", address_text, " cannot be pinged: no IPv6 raw socket available"),
                })
            }
        },
    }
}

/// The address to probe among those a name resolved to: the first IPv4
/// one, as most `ping` implementations prefer, else the first IPv6 one.
pub fn pick_resolved_address(address: &str, candidates: &Vec<IpAddress>) -> (r: Result<IpAddress, CheckFailure>)
    ensures
        match r {
            Ok(ip) => ip == (if first_v4(candidates@) is Some {
                first_v4(candidates@)->Some_0
            } else {
                first_v6(candidates@)->Some_0
            }) && (first_v4(candidates@) is Some || first_v6(candidates@) is Some),
            Err(f) => first_v4(candidates@) is None && first_v6(candidates@) is None && f.message@
                == address@ + " resolved to no IP addresses"@,
        },
{
    let mut v4: Option<IpAddress> = None;
    let mut v6: Option<IpAddress> = None;
    let ghost c = candidates@;
    let mut k: usize = 0;
    assert(c.skip(0) =~= c);
    while k < candidates.len()
        invariant
            0 <= k <= c.len(),
            c == candidates@,
            v4 is None ==> first_v4(c) == first_v4(c.skip(k as int)),
            v4 is Some ==> v4 == first_v4(c),
            v6 is None ==> first_v6(c) == first_v6(c.skip(k as int)),
            v6 is Some ==> v6 == first_v6(c),
        decreases candidates.len() - k,
    {
        assert(c.skip(k as int).drop_first() =~= c.skip(k + 1));
        let ip = candidates[k];
        match ip {
            IpAddress::V4(_) => {
                if v4.is_none() {
                    v4 = Some(ip);
                }
            },
            IpAddress::V6(_) => {
                if v6.is_none() {
                    v6 = Some(ip);
                }
            },
        }
        k += 1;
    }
    assert(c.skip(k as int).len() == 0);
    match v4 {
        Some(ip) => Ok(ip),
        None => match v6 {
            Some(ip) => Ok(ip),
            None => Err(CheckFailure { message: concat2(address, " resolved to no IP addresses") }),
        },
    }
}

/// The message of a command that exited unsuccessfully: its standard error
/// without surrounding white space, or, when that is empty, the exit status.
pub open spec fn command_failure_text(program: Seq<char>, stderr: Seq<char>, status: Seq<char>) -> Seq<char> {
    if trimmed(stderr).len() == 0 {
        program + " exited with "@ + status
    } else {
        trimmed(stderr)
    }
}

/// The message of a command that exited unsuccessfully.
pub fn command_failure_message(program: &str, stderr: &str, status: &str) -> (r: String)
    ensures
        r@ == command_failure_text(program@, stderr@, status@),
{
    let t = trim(stderr);
    if t.as_str().is_empty() {
        concat3(program, " exited with ", status)
    } else {
        t
    }
}

/// What a finished system `ping` means: success with the address (when it
/// was a literal) and the elapsed time, or the failure message.
pub fn system_ping_result(
    success: bool,
    stderr: &str,
    status: &str,
    address: Option<IpAddress>,
    elapsed: u128,
) -> (r: Result<PingOutcome, CheckFailure>)
    ensures
        success ==> (r matches Ok(o) && o.address == address && o.latency == elapsed),
        !success ==> (r matches Err(f) && f.message@ == command_failure_text("ping"@, stderr@, status@)),
{
    if success {
        Ok(PingOutcome { address, latency: elapsed })
    } else {
        Err(CheckFailure { message: command_failure_message("ping", stderr, status) })
    }
}

} // verus!
