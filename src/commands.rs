use vstd::prelude::*;

verus! {

/// One invocation of the version-control client: what it is for, and its arguments.
pub struct GitStep {
    pub description: String,
    pub args: Vec<String>,
}

impl View for GitStep {
    type V = (Seq<char>, Seq<Seq<char>>);

    open spec fn view(&self) -> (Seq<char>, Seq<Seq<char>>) {
        (self.description@, strings_view(self.args@))
    }
}

/// The characters of each string of a list.
pub open spec fn strings_view(v: Seq<String>) -> Seq<Seq<char>> {
    v.map_values(|s: String| s@)
}

/// The parts joined, with `sep` between each two.
pub open spec fn joined(parts: Seq<Seq<char>>, sep: Seq<char>) -> Seq<char>
    decreases parts.len(),
{
    if parts.len() == 0 {
        Seq::empty()
    } else if parts.len() == 1 {
        parts[0]
    } else {
        joined(parts.drop_last(), sep) + sep + parts.last()
    }
}

/// Whether `c` is the lower-case ASCII letter `l` or its upper-case form.
pub open spec fn same_letter(c: char, l: char) -> bool {
    c == l || c as u32 + 32 == l as u32
}

/// Whether a branch name is the detached-checkout sentinel `HEAD`, in any ASCII case.
pub open spec fn is_detached(s: Seq<char>) -> bool {
    s.len() == 4 && same_letter(s[0], 'h') && same_letter(s[1], 'e') && same_letter(s[2], 'a')
        && same_letter(s[3], 'd')
}

/// The name of a new branch: the prefix, if any, then the parts joined with dashes.
pub open spec fn new_branch_name(parts: Seq<Seq<char>>, prefix: Option<Seq<char>>) -> Seq<char> {
    match prefix {
        Some(p) => p + joined(parts, "-"@),
        None => joined(parts, "-"@),
    }
}

/// The commit message of a save: the timestamp, then the message parts joined with spaces.
pub open spec fn save_message(message: Seq<Seq<char>>, timestamp: Seq<char>) -> Seq<char> {
    "lk save ["@ + timestamp + "] | "@ + joined(message, " "@)
}

fn owned(s: &str) -> (r: String)
    ensures
        r@ == s@,
{
    String::from_str(s)
}

fn step(description: &str, args: Vec<String>) -> (r: GitStep)
    ensures
        r.description@ == description@,
        r.args == args,
{
    GitStep { description: owned(description), args }
}

/// The parts joined, with `sep` between each two.
pub fn join(parts: &Vec<String>, sep: &str) -> (r: String)
    ensures
        r@ == joined(strings_view(parts@), sep@),
{
    let ghost ps = strings_view(parts@);
    if parts.len() == 0 {
        return String::new();
    }
    let mut r = parts[0].clone();
    let mut i: usize = 1;
    assert(ps.subrange(0, 1) =~= seq![ps[0]]);
    while i < parts.len()
        invariant
            1 <= i <= parts@.len(),
            ps == strings_view(parts@),
            r@ == joined(ps.subrange(0, i as int), sep@),
        decreases parts@.len() - i,
    {
        r.append(sep);
        r.append(parts[i].as_str());
        assert(ps.subrange(0, i + 1).drop_last() =~= ps.subrange(0, i as int));
        i = i + 1;
    }
    assert(ps.subrange(0, i as int) =~= ps);
    r
}

fn same_letter_char(c: char, l: char) -> (r: bool)
    requires
        'a' <= l <= 'z',
    ensures
        r == same_letter(c, l),
{
    c == l || c as u32 == l as u32 - 32
}

/// Whether a branch name is the detached-checkout sentinel `HEAD`, in any ASCII case.
pub fn is_detached_head(name: &str) -> (r: bool)
    ensures
        r == is_detached(name@),
{
    if name.unicode_len() != 4 {
        return false;
    }
    same_letter_char(name.get_char(0), 'h') && same_letter_char(name.get_char(1), 'e')
        && same_letter_char(name.get_char(2), 'a') && same_letter_char(name.get_char(3), 'd')
}

/// The fetch or pull with pruning that `cmd` names.
pub fn prune_command(cmd: &str) -> (r: GitStep)
    ensures
        r@ == ("pull with pruning"@, seq![cmd@, "--prune"@]),
{
    let args = vec![owned(cmd), owned("--prune")];
    let r = step("pull with pruning", args);
    assert(r@.1 =~= seq![cmd@, "--prune"@]);
    r
}

/// The pull with pruning whose output the prune policy reads.
pub fn pull_prune() -> (r: GitStep)
    ensures
        r@ == ("pull with pruning"@, seq!["pull"@, "--prune"@]),
{
    prune_command("pull")
}

/// The fetch with pruning whose output the prune policy reads.
pub fn fetch_prune() -> (r: GitStep)
    ensures
        r@ == ("pull with pruning"@, seq!["fetch"@, "--prune"@]),
{
    prune_command("fetch")
}

/// The forced deletion of a local branch.
pub fn delete_branch(name: &String) -> (r: GitStep)
    ensures
        r@ == ("delete branch "@ + name@, seq!["branch"@, "-D"@, name@]),
{
    let description = owned("delete branch ").concat(name.as_str());
    let args = vec![owned("branch"), owned("-D"), name.clone()];
    let r = GitStep { description, args };
    assert(r@.1 =~= seq!["branch"@, "-D"@, name@]);
    r
}

/// The push of the checked-out branch to origin with upstream tracking, forced
/// with lease when asked. Fails when the checkout is detached.
pub fn push_branch(current_branch: &String, force: bool) -> (r: Result<GitStep, String>)
    ensures
        r is Err <==> is_detached(current_branch@),
        r matches Err(e) ==> e@ == "HEAD is currently detached, no branch to push!"@,
        r matches Ok(s) ==> s@ == ("push"@, if force {
            seq!["push"@, "--set-upstream"@, "--force-with-lease"@, "origin"@, current_branch@]
        } else {
            seq!["push"@, "--set-upstream"@, "origin"@, current_branch@]
        }),
{
    if is_detached_head(current_branch.as_str()) {
        return Err(owned("HEAD is currently detached, no branch to push!"));
    }
    let mut args = vec![owned("push"), owned("--set-upstream")];
    if force {
        args.push(owned("--force-with-lease"));
    }
    args.push(owned("origin"));
    args.push(current_branch.clone());
    let r = step("push", args);
    if force {
        assert(r@.1 =~= seq![
            "push"@,
            "--set-upstream"@,
            "--force-with-lease"@,
            "origin"@,
            current_branch@,
        ]);
    } else {
        assert(r@.1 =~= seq!["push"@, "--set-upstream"@, "origin"@, current_branch@]);
    }
    Ok(r)
}

/// Creating a branch from the checked-out commit and pushing it to origin. Its name
/// is the prefix, if any, then the parts joined with dashes. Fails when there are
/// no parts.
pub fn new_branch(name: &Vec<String>, prefix: Option<String>) -> (r: Result<Vec<GitStep>, String>)
    ensures
        r is Err <==> name@.len() == 0,
        r matches Err(e) ==> e@ == "name cannot be empty."@,
        r matches Ok(steps) ==> ({
            let b = new_branch_name(strings_view(name@), prefix.deep_view());
            &&& steps@.len() == 2
            &&& steps@[0]@ == ("create new branch"@, seq!["switch"@, "--create"@, b])
            &&& steps@[1]@ == ("push to origin"@, seq!["push"@, "--set-upstream"@, "origin"@, b])
        }),
{
    if name.len() == 0 {
        return Err(owned("name cannot be empty."));
    }
    let joined_name = join(name, "-");
    let branch = match prefix {
        Some(p) => p.concat(joined_name.as_str()),
        None => joined_name,
    };
    let create = step("create new branch", vec![owned("switch"), owned("--create"), branch.clone()]);
    let push = step(
        "push to origin",
        vec![owned("push"), owned("--set-upstream"), owned("origin"), branch],
    );
    assert(create@.1 =~= seq!["switch"@, "--create"@, create.args@[2]@]);
    assert(push@.1 =~= seq!["push"@, "--set-upstream"@, "origin"@, push.args@[3]@]);
    Ok(vec![create, push])
}

/// Staging changes (all files, or only tracked ones), committing them with a
/// message that starts with the timestamp, and pushing.
pub fn save(all: bool, message: &Vec<String>, timestamp: &str) -> (r: Vec<GitStep>)
    ensures
        r@.len() == 3,
        r@[0]@ == ("add files"@, seq!["add"@, if all { "--all"@ } else { "--update"@ }]),
        r@[1]@ == ("commit"@, seq![
            "commit"@,
            "--message"@,
            save_message(strings_view(message@), timestamp@),
        ]),
        r@[2]@ == ("push"@, seq!["push"@]),
{
    let selector = if all {
        owned("--all")
    } else {
        owned("--update")
    };
    let add = step("add files", vec![owned("add"), selector]);
    let text = owned("lk save [").concat(timestamp).concat("] | ").concat(
        join(message, " ").as_str(),
    );
    let commit = step("commit", vec![owned("commit"), owned("--message"), text]);
    let push = step("push", vec![owned("push")]);
    assert(add@.1 =~= seq!["add"@, if all { "--all"@ } else { "--update"@ }]);
    assert(commit@.1 =~= seq![
        "commit"@,
        "--message"@,
        save_message(strings_view(message@), timestamp@),
    ]);
    assert(push@.1 =~= seq!["push"@]);
    vec![add, commit, push]
}

} // verus!
