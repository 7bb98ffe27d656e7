//! The command lines that the deployment steps run.
use vstd::prelude::*;
use vstd::string::*;

verus! {

/// The character views of a sequence of strings.
pub open spec fn views(v: Seq<String>) -> Seq<Seq<char>> {
    v.map_values(|s: String| s@)
}

/// Directory on every node under which configurations are staged.
pub open spec fn stage_root() -> Seq<char> {
    "/etc/henix/"@
}

/// The staging directory of the configuration with content hash `hash`.
pub open spec fn staged_dir(hash: Seq<char>) -> Seq<char> {
    stage_root() + hash
}

/// The SSH destination of a node: the privileged account at its location.
pub open spec fn destination_of(location: Seq<char>) -> Seq<char> {
    "root@"@ + location
}

/// A directory path with a trailing slash, so that a copy takes its contents.
pub open spec fn with_slash(dir: Seq<char>) -> Seq<char> {
    if dir.len() == 0 || dir.last() == '/' {
        dir
    } else {
        dir.push('/')
    }
}

/// The arguments of `rsync` that mirror `dir` into the staging directory of
/// `hash` on the node at `location`.
pub open spec fn copy_args_spec(dir: Seq<char>, location: Seq<char>, hash: Seq<char>) -> Seq<Seq<char>> {
    seq![
        "--exclude=.git/"@,
        "-a"@,
        "-F"@,
        "--delete"@,
        "--mkpath"@,
        "-e"@,
        "ssh"@,
        with_slash(dir),
        destination_of(location) + ":"@ + staged_dir(hash),
    ]
}

/// The mode word of `nixos-rebuild`: apply at next boot, or now.
pub open spec fn mode_word(boot: bool) -> Seq<char> {
    if boot {
        "boot"@
    } else {
        "switch"@
    }
}

/// The arguments of `nixos-rebuild` that build the staged configuration of
/// `hash` for the node `name`.
pub open spec fn build_args_spec(boot: bool, show_trace: bool, hash: Seq<char>, name: Seq<char>) -> Seq<Seq<char>> {
    let base = seq![mode_word(boot), "--flake"@, staged_dir(hash) + "#"@ + name];
    if show_trace {
        base.push("--show-trace"@)
    } else {
        base
    }
}

/// The arguments of `ln` that point the `latest` marker at the staged
/// configuration of `hash`.
pub open spec fn link_args_spec(hash: Seq<char>) -> Seq<Seq<char>> {
    seq!["-s"@, "-f"@, staged_dir(hash), stage_root() + "latest"@]
}

/// The arguments of `nixos-rebuild` that return the node to its previous
/// generation.
pub open spec fn rollback_args_spec(boot: bool) -> Seq<Seq<char>> {
    seq![mode_word(boot), "--rollback"@]
}

/// The staging directory `/etc/henix/<hash>`.
pub fn staged_dir_of(hash: &String) -> (r: String)
    ensures
        r@ == staged_dir(hash@),
{
    String::from_str("/etc/henix/").concat(hash.as_str())
}

/// The SSH destination `root@<location>`.
pub fn ssh_destination(location: &String) -> (r: String)
    ensures
        r@ == destination_of(location@),
{
    String::from_str("root@").concat(location.as_str())
}

/// `dir` with a trailing slash added unless it is empty or has one.
pub fn dir_with_slash(dir: &String) -> (r: String)
    ensures
        r@ == with_slash(dir@),
{
    let n = dir.as_str().unicode_len();
    if n == 0 || dir.as_str().get_char(n - 1) == '/' {
        dir.clone()
    } else {
        let r = dir.clone().concat("/");
        proof {
            reveal_strlit("/");
            assert(r@ =~= dir@.push('/'));
        }
        r
    }
}

/// The arguments of `rsync` for the copy step.
pub fn copy_args(dir: &String, location: &String, hash: &String) -> (r: Vec<String>)
    ensures
        views(r@) == copy_args_spec(dir@, location@, hash@),
{
    let mut r: Vec<String> = Vec::new();
    r.push(String::from_str("--exclude=.git/"));
    r.push(String::from_str("-a"));
    r.push(String::from_str("-F"));
    r.push(String::from_str("--delete"));
    r.push(String::from_str("--mkpath"));
    r.push(String::from_str("-e"));
    r.push(String::from_str("ssh"));
    r.push(dir_with_slash(dir));
    let dest = ssh_destination(location).concat(":").concat(staged_dir_of(hash).as_str());
    r.push(dest);
    assert(views(r@) =~= copy_args_spec(dir@, location@, hash@));
    r
}

/// The arguments of `nixos-rebuild` for the build step.
pub fn build_args(boot: bool, show_trace: bool, hash: &String, name: &String) -> (r: Vec<String>)
    ensures
        views(r@) == build_args_spec(boot, show_trace, hash@, name@),
{
    let mut r: Vec<String> = Vec::new();
    if boot {
        r.push(String::from_str("boot"));
    } else {
        r.push(String::from_str("switch"));
    }
    r.push(String::from_str("--flake"));
    r.push(staged_dir_of(hash).concat("#").concat(name.as_str()));
    if show_trace {
        r.push(String::from_str("--show-trace"));
    }
    assert(views(r@) =~= build_args_spec(boot, show_trace, hash@, name@));
    r
}

/// The arguments of `ln` for the link step.
pub fn link_args(hash: &String) -> (r: Vec<String>)
    ensures
        views(r@) == link_args_spec(hash@),
{
    let mut r: Vec<String> = Vec::new();
    r.push(String::from_str("-s"));
    r.push(String::from_str("-f"));
    r.push(staged_dir_of(hash));
    r.push(String::from_str("/etc/henix/latest"));
    proof {
        reveal_strlit("/etc/henix/latest");
        reveal_strlit("/etc/henix/");
        reveal_strlit("latest");
        assert("/etc/henix/latest"@ =~= stage_root() + "latest"@);
    }
    assert(views(r@) =~= link_args_spec(hash@));
    r
}

/// The arguments of `nixos-rebuild` for a rollback.
pub fn rollback_args(boot: bool) -> (r: Vec<String>)
    ensures
        views(r@) == rollback_args_spec(boot),
{
    let mut r: Vec<String> = Vec::new();
    if boot {
        r.push(String::from_str("boot"));
    } else {
        r.push(String::from_str("switch"));
    }
    r.push(String::from_str("--rollback"));
    assert(views(r@) =~= rollback_args_spec(boot));
    r
}

} // verus!
