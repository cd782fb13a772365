//! Usage collection over SSH: the request, the `ssh` command line, the
//! script run on the host, and the reading of what comes back.
use crate::backends::ping::{command_failure_message, command_failure_text};
use crate::domain::usage::UsageOs;
use crate::names::name_views;
use crate::text::{concat2, decimal, owned, push_decimal};
use vstd::prelude::*;

verus! {

/// What one collection needs. The timeout is in nanoseconds.
#[derive(Clone, Debug)]
pub struct UsageCollectionRequest {
    pub host_id: String,
    pub address: String,
    pub os: UsageOs,
    pub ssh_verify_host_key: bool,
    pub timeout: u128,
    pub linux_min_uid: u32,
    pub macos_min_uid: u32,
}

/// A failed collection and why it failed.
#[derive(Clone, Debug)]
pub struct UsageFailure {
    pub message: String,
}

/// The user counts a collection reports.
#[derive(Clone, Copy, Debug, PartialEq, Eq, Structural)]
pub struct UsageCounts {
    pub console_users: u32,
    pub remote_users: u32,
}

/// A way to count a host's users; the collection itself runs in the
/// process, which implements it for each collector.
pub trait UsageCollector {
    /// The name under which the collector is reported.
    fn name(&self) -> &'static str;
}

/// The collector that runs the usage script over the system `ssh` command.
pub struct SystemSshUsageCollector;

impl UsageCollector for SystemSshUsageCollector {
    fn name(&self) -> (r: &'static str)
        ensures
            r@ == "system-ssh"@,
    {
        "system-ssh"
    }
}

/// The `ssh` options: batch mode, the connect timeout in whole seconds (at
/// least one), no password prompts, and, when host keys are not checked,
/// no strict checking and no known-hosts file.
pub open spec fn ssh_option_args(timeout: u128, verify_host_key: bool) -> Seq<Seq<char>> {
    let secs = timeout / 1_000_000_000;
    let base = seq![
        "-o"@,
        "BatchMode=yes"@,
        "-o"@,
        "ConnectTimeout="@ + decimal(if secs == 0 { 1 } else { secs as nat }),
        "-o"@,
        "NumberOfPasswordPrompts=0"@,
    ];
    if verify_host_key {
        base
    } else {
        base + seq!["-o"@, "StrictHostKeyChecking=no"@, "-o"@, "UserKnownHostsFile=/dev/null"@]
    }
}

/// The arguments of the `ssh` command that runs `script` on `address`
/// through a login shell.
pub fn ssh_args(address: &str, timeout: u128, verify_host_key: bool, script: &str) -> (r: Vec<String>)
    ensures
        name_views(r@) == ssh_option_args(timeout, verify_host_key) + seq![address@, "sh"@, "-lc"@, script@],
{
    let secs = timeout / 1_000_000_000;
    let mut connect = owned("ConnectTimeout=");
    push_decimal(&mut connect, if secs == 0 { 1 } else { secs });
    let mut args = vec![
        owned("-o"),
        owned("BatchMode=yes"),
        owned("-o"),
        connect,
        owned("-o"),
        owned("NumberOfPasswordPrompts=0"),
    ];
    let ghost base = name_views(args@);
    if !verify_host_key {
        args.push(owned("-o"));
        args.push(owned("StrictHostKeyChecking=no"));
        args.push(owned("-o"));
        args.push(owned("UserKnownHostsFile=/dev/null"));
    }
    let ghost options = name_views(args@);
    args.push(owned(address));
    args.push(owned("sh"));
    args.push(owned("-lc"));
    args.push(owned(script));
    proof {
        assert(options =~= ssh_option_args(timeout, verify_host_key));
        assert(name_views(args@) =~= options + seq![address@, "sh"@, "-lc"@, script@]);
    }
    args
}

/// The shell that follows the OS resolution in the usage script: it counts
/// console and remote users (from `loginctl` on Linux, else from `who`),
/// each user once, and prints the two counts as JSON.
pub const USAGE_SCRIPT_BODY: &'static str = r#"
console=0
remote=0
seen_console=""
seen_remote=""
if [ "$snm_os" = Linux ] && command -v loginctl >/dev/null 2>&1; then
  for session in $(loginctl list-sessions --no-legend --no-pager 2>/dev/null | awk '{print $1}'); do
    name=""
    uid=""
    session_remote=""
    state=""
    class=""
    while IFS='=' read -r key value; do
      case "$key" in
        Name) name=$value ;;
        User) uid=$value ;;
        Remote) session_remote=$value ;;
        State) state=$value ;;
        Class) class=$value ;;
      esac
    done <<SNM_LOGINCTL
$(loginctl show-session "$session" -p Name -p User -p Remote -p State -p Class 2>/dev/null)
SNM_LOGINCTL
    [ -n "$name" ] || continue
    case "$uid" in *[!0-9]*|"") uid=0 ;; esac
    [ "$uid" -ge "$min_uid" ] || continue
    [ "$state" = closing ] && continue
    [ -z "$class" ] || [ "$class" = user ] || continue
    case "$session_remote" in
      yes)
        case " $seen_remote " in *" $name "*) ;; *) seen_remote="$seen_remote $name"; remote=$((remote + 1)) ;; esac
        ;;
      *)
        case " $seen_console " in *" $name "*) ;; *) seen_console="$seen_console $name"; console=$((console + 1)) ;; esac
        ;;
    esac
  done
  if [ "$console" -gt 0 ] || [ "$remote" -gt 0 ]; then
    printf '{"console_users":%s,"remote_users":%s}\n' "$console" "$remote"
    exit 0
  fi
fi
while read -r user tty rest; do
  [ -n "$user" ] || continue
  uid=$(id -u "$user" 2>/dev/null || echo 0)
  case "$uid" in *[!0-9]*|"") uid=0 ;; esac
  [ "$uid" -ge "$min_uid" ] || continue
  case "$tty" in
    console|seat*|tty*|vc/*)
      case " $seen_console " in *" $user "*) ;; *) seen_console="$seen_console $user"; console=$((console + 1)) ;; esac
      ;;
    *)
      case "$rest" in
        *"("*")"*)
          case " $seen_remote " in *" $user "*) ;; *) seen_remote="$seen_remote $user"; remote=$((remote + 1)) ;; esac
          ;;
      esac
      ;;
  esac
done <<SNM_WHO
$(who)
SNM_WHO
printf '{"console_users":%s,"remote_users":%s}\n' "$console" "$remote"
"#;

/// The start of the script that sets `snm_os` and `min_uid`: fixed when the
/// OS is configured, probed with `uname -s` otherwise.
pub open spec fn usage_script_resolve(os: UsageOs, linux_min_uid: u32, macos_min_uid: u32) -> Seq<char> {
    match os {
        UsageOs::Linux => "snm_os=Linux\nmin_uid="@ + decimal(linux_min_uid as nat),
        UsageOs::Macos => "snm_os=Darwin\nmin_uid="@ + decimal(macos_min_uid as nat),
        UsageOs::Auto => "snm_os=$(uname -s 2>/dev/null || echo unknown)\ncase \"$snm_os\" in\n  Darwin) min_uid="@
            + decimal(macos_min_uid as nat) + " ;;\n  *) min_uid="@ + decimal(linux_min_uid as nat)
            + " ;;\nesac"@,
    }
}

/// The script run on the host to count its users.
pub fn remote_usage_script(os: UsageOs, linux_min_uid: u32, macos_min_uid: u32) -> (r: String)
    ensures
        r@ == usage_script_resolve(os, linux_min_uid, macos_min_uid) + USAGE_SCRIPT_BODY@,
{
    let mut s = String::new();
    match os {
        UsageOs::Linux => {
            s.append("snm_os=Linux\nmin_uid=");
            push_decimal(&mut s, linux_min_uid as u128);
        },
        UsageOs::Macos => {
            s.append("snm_os=Darwin\nmin_uid=");
            push_decimal(&mut s, macos_min_uid as u128);
        },
        UsageOs::Auto => {
            s.append("snm_os=$(uname -s 2>/dev/null || echo unknown)\ncase \"$snm_os\" in\n  Darwin) min_uid=");
            push_decimal(&mut s, macos_min_uid as u128);
            s.append(" ;;\n  *) min_uid=");
            push_decimal(&mut s, linux_min_uid as u128);
            s.append(" ;;\nesac");
        },
    }
    s.append(USAGE_SCRIPT_BODY);
    s
}

/// What a finished `ssh` collection means: when the command failed, its
/// failure message; otherwise the counts its output parsed to, or why the
/// output did not parse.
pub fn ssh_collection_result(
    success: bool,
    stderr: &str,
    status: &str,
    parsed: Option<Result<UsageCounts, String>>,
) -> (r: Result<UsageCounts, UsageFailure>)
    requires
        success ==> parsed is Some,
    ensures
        !success ==> (r matches Err(f) && f.message@ == command_failure_text("ssh"@, stderr@, status@)),
        success ==> match parsed {
            Some(Ok(c)) => r == Ok::<UsageCounts, UsageFailure>(c),
            Some(Err(e)) => r matches Err(f) && f.message@ == "failed to parse usage json: "@ + e@,
            None => false,
        },
{
    if !success {
        return Err(UsageFailure { message: command_failure_message("ssh", stderr, status) });
    }
    match parsed {
        Some(Ok(c)) => Ok(c),
        Some(Err(e)) => Err(UsageFailure { message: concat2("failed to parse usage json: ", e.as_str()) }),
        None => Err(UsageFailure { message: owned("") }),
    }
}

} // verus!
