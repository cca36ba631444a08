//! Remote step execution planning.
//!
//! A remote step runs over an authenticated secure-shell session: connect to
//! the configured host, authenticate with the invoking user's key material,
//! optionally upload the script to a randomized temporary path, run one
//! composed command line, and best-effort remove the uploaded file.  The
//! session itself is I/O and lives outside the crate; everything it sends is
//! decided here: which key file to use, what to upload where, and the exact
//! command lines.

use crate::config::{Action, Host, Step};
use crate::executor::{
    DeliveryError, action_wf, script_fullname, spec_script_path, views_of,
};
use vstd::prelude::*;
use vstd::string::StringExecFns;

verus! {

/// The per-user key files probed for public-key authentication.
pub open spec fn ed25519_key_path(home: Seq<char>) -> Seq<char> {
    home + "/.ssh/id_ed25519"@
}

/// The fallback key file.
pub open spec fn rsa_key_path(home: Seq<char>) -> Seq<char> {
    home + "/.ssh/id_rsa"@
}

/// The two candidate key files under the invoking user's home directory,
/// Ed25519 first.
pub fn key_candidates(home: &str) -> (r: (String, String))
    ensures
        r.0@ == ed25519_key_path(home@),
        r.1@ == rsa_key_path(home@),
{
    let ed = home.to_owned().concat("/.ssh/id_ed25519");
    let rsa = home.to_owned().concat("/.ssh/id_rsa");
    (ed, rsa)
}

/// Chooses the private key to authenticate with: the Ed25519 key when it
/// exists, else the RSA key, else an authentication error — no password
/// fallback exists.
pub fn select_private_key(home: &str, has_ed25519: bool, has_rsa: bool) -> (r: Result<
    String,
    DeliveryError,
>)
    ensures
        has_ed25519 ==> (r matches Ok(p) && p@ == ed25519_key_path(home@)),
        !has_ed25519 && has_rsa ==> (r matches Ok(p) && p@ == rsa_key_path(home@)),
        !has_ed25519 && !has_rsa ==> (r matches Err(e) && e matches DeliveryError::Auth(m) && m@
            == "missing private key"@),
{
    let (ed, rsa) = key_candidates(home);
    if has_ed25519 {
        Ok(ed)
    } else if has_rsa {
        Ok(rsa)
    } else {
        Err(DeliveryError::Auth("missing private key".to_owned()))
    }
}

/// Where an uploaded script lives on the remote host: a fixed prefix plus a
/// randomized suffix.
pub open spec fn remote_temp_path(suffix: Seq<char>) -> Seq<char> {
    "/tmp/delivery_station_"@ + suffix
}

/// Arguments joined for the remote shell, each individually quoted once the
/// whole is wrapped: `a" "b" "c`.
pub open spec fn quote_join(args: Seq<Seq<char>>) -> Seq<char>
    decreases args.len(),
{
    if args.len() == 0 {
        Seq::empty()
    } else if args.len() == 1 {
        args.first()
    } else {
        args.first() + "\" \""@ + quote_join(args.drop_first())
    }
}

/// Appending one argument to a joined list.
pub proof fn lemma_quote_join_push(args: Seq<Seq<char>>, x: Seq<char>)
    ensures
        quote_join(args.push(x)) == if args.len() == 0 {
            x
        } else {
            quote_join(args) + "\" \""@ + x
        },
    decreases args.len(),
{
    if args.len() == 0 {
        assert(args.push(x).first() == x);
    } else {
        assert(args.push(x).drop_first() =~= args.drop_first().push(x));
        lemma_quote_join_push(args.drop_first(), x);
        if args.len() > 1 {
            assert(args.first() + "\" \""@ + (quote_join(args.drop_first()) + "\" \""@ + x) =~= (
            args.first() + "\" \""@ + quote_join(args.drop_first())) + "\" \""@ + x);
        }
    }
}

/// The command line executed on the remote host: the program alone, or the
/// program followed by each argument individually quoted.
pub open spec fn remote_command_line(name: Seq<char>, args: Option<Seq<Seq<char>>>) -> Seq<char> {
    match args {
        None => name,
        Some(a) => name + " \""@ + quote_join(a) + "\""@,
    }
}

/// The views of an optional argument list.
pub open spec fn opt_views(o: Option<Seq<String>>) -> Option<Seq<Seq<char>>> {
    match o {
        Some(s) => Some(views_of(s)),
        None => None,
    }
}

fn join_quoted(args: &Vec<String>) -> (r: String)
    ensures
        r@ == quote_join(views_of(args@)),
{
    let mut r = String::new();
    let mut i: usize = 0;
    while i < args.len()
        invariant
            i <= args@.len(),
            r@ == quote_join(views_of(args@.take(i as int))),
        decreases args@.len() - i,
    {
        if i > 0 {
            r = r.concat("\" \"");
        }
        r = r.concat(args[i].as_str());
        i = i + 1;
        proof {
            assert(views_of(args@.take(i as int)) =~= views_of(args@.take(i as int - 1)).push(
                args@[i as int - 1]@,
            ));
            lemma_quote_join_push(views_of(args@.take(i as int - 1)), args@[i as int - 1]@);
        }
    }
    proof {
        assert(views_of(args@.take(args@.len() as int)) =~= views_of(args@));
    }
    r
}

/// Composes the remote command line for a program and its arguments.
pub fn build_remote_command(name: &str, args: &Option<Vec<String>>) -> (r: String)
    ensures
        r@ == remote_command_line(
            name@,
            match args {
                Some(a) => Some(views_of(a@)),
                None => None,
            },
        ),
{
    match args {
        None => name.to_owned(),
        Some(a) => {
            let r = name.to_owned().concat(" \"").concat(join_quoted(a).as_str()).concat("\"");
            proof {
                assert(r@ =~= name@ + " \""@ + quote_join(views_of(a@)) + "\""@);
            }
            r
        },
    }
}

/// What an uploaded script transfer consists of: the local file read, the
/// remote temporary path written with executable permission.
pub struct Upload {
    pub local_path: String,
    pub remote_path: String,
}

/// Everything one remote step execution sends: the connection endpoint and
/// user, an optional script upload, the command line to execute, and the
/// best-effort cleanup command for the uploaded file.
pub struct RemotePlan {
    pub hostname: String,
    pub port: u16,
    pub user: String,
    pub upload: Option<Upload>,
    pub command_line: String,
    pub cleanup: Option<String>,
}

impl Step {
    /// Plans the remote execution of this step on `host`.  A `Script`
    /// action uploads the resolved local script to a randomized remote
    /// temporary path, runs that path with the script's arguments, and
    /// removes it afterwards; a `Command` action runs the named program
    /// directly and uploads nothing.
    pub fn remote_plan(&self, host: &Host, work_dir: &str, suffix: &str) -> (r: RemotePlan)
        requires
            action_wf(&self.action),
        ensures
            r.hostname@ == host.hostname@,
            r.port == match host.port {
                Some(p) => p,
                None => 22u16,
            },
            r.user@ == host.user@,
            match self.action {
                Action::Script { name } => {
                    &&& r.upload matches Some(u) && u.local_path@ == spec_script_path(
                        work_dir@,
                        name.spec_name(),
                    ) && u.remote_path@ == remote_temp_path(suffix@)
                    &&& r.command_line@ == remote_command_line(
                        remote_temp_path(suffix@),
                        opt_views(name.spec_args()),
                    )
                    &&& r.cleanup matches Some(c) && c@ == "rm "@ + remote_temp_path(suffix@)
                },
                Action::Command { command } => {
                    &&& r.upload is None
                    &&& r.command_line@ == remote_command_line(
                        command.spec_name(),
                        opt_views(command.spec_args()),
                    )
                    &&& r.cleanup is None
                },
            },
    {
        let hostname = host.hostname.clone();
        let port = host.port_or_default();
        let user = host.user.clone();
        match &self.action {
            Action::Script { name } => {
                let local_path = script_fullname(work_dir, name.get_name());
                let remote_path = "/tmp/delivery_station_".to_owned().concat(suffix);
                let args = name.get_args();
                let command_line = build_remote_command(remote_path.as_str(), &args);
                let cleanup = "rm ".to_owned().concat(remote_path.as_str());
                proof {
                    assert(remote_path@ =~= remote_temp_path(suffix@));
                    match name.spec_args() {
                        Some(a) => {
                            assert(args matches Some(v) && views_of(v@) =~= views_of(a));
                        },
                        None => {},
                    }
                    assert(cleanup@ =~= "rm "@ + remote_temp_path(suffix@));
                }
                RemotePlan {
                    hostname,
                    port,
                    user,
                    upload: Some(Upload { local_path, remote_path }),
                    command_line,
                    cleanup: Some(cleanup),
                }
            },
            Action::Command { command } => {
                let args = command.get_args();
                let command_line = build_remote_command(command.get_name(), &args);
                proof {
                    match command.spec_args() {
                        Some(a) => {
                            assert(args matches Some(v) && views_of(v@) =~= views_of(a));
                        },
                        None => {},
                    }
                }
                RemotePlan { hostname, port, user, upload: None, command_line, cleanup: None }
            },
        }
    }
}

} // verus!
