//! The command line of a directory sync, the exclusion list that it reads,
//! and the share link by which a remote's cookie is fetched.

use crate::flags::{flag_args, parse_flags};
use crate::text::{from_chars, replace, replace_all, to_chars};
use vstd::prelude::*;

verus! {

/// Where the sync tool's configuration lies below the application's data
/// directory.
pub const CONFIG_PATH: &'static str = "tools/rclone.conf";

/// The remote whose cookie is fetched anew before each sync.
pub const COOKIE_REMOTE: &'static str = "teracloud";

/// The content of the exclusion list: each pattern on a line of its own.
pub open spec fn exclusion_text(patterns: Seq<Seq<char>>) -> Seq<char>
    decreases patterns.len(),
{
    if patterns.len() == 0 {
        Seq::<char>::empty()
    } else {
        exclusion_text(patterns.drop_last()) + patterns.last() + seq!['\n']
    }
}

/// Name of the exclusion list of the sync that the listener `listener_id`
/// waits for.
pub open spec fn exclusion_name_of(listener_id: Seq<char>) -> Seq<char> {
    "exclude_files_"@ + listener_id + ".txt"@
}

/// Name of the exclusion list of the sync that the listener `listener_id`
/// waits for, in the directory for temporary files. Each sync writes and
/// reads a list of its own.
pub fn exclusion_list_name(listener_id: &str) -> (name: String)
    ensures
        name@ == exclusion_name_of(listener_id@),
        name@ == "exclude_files_"@ + listener_id@ + ".txt"@,
{
    let mut name = String::from_str("exclude_files_");
    name.append(listener_id);
    name.append(".txt");
    name
}

/// The content of the exclusion list for `patterns`.
pub fn exclusion_list(patterns: &Vec<String>) -> (content: String)
    ensures
        content@ == exclusion_text(patterns.deep_view()),
{
    let mut content = String::new();
    let mut i: usize = 0;
    while i < patterns.len()
        invariant
            i <= patterns.len(),
            content@ == exclusion_text(patterns.deep_view().take(i as int)),
        decreases patterns.len() - i,
    {
        proof {
            let seen = patterns.deep_view().take(i + 1);
            assert(seen.drop_last() =~= patterns.deep_view().take(i as int));
            assert(seen.last() == patterns[i as int]@);
        }
        content.append(patterns[i].as_str());
        content.push('\n');
        i += 1;
    }
    assert(patterns.deep_view().take(i as int) =~= patterns.deep_view());
    content
}

/// The arguments of a sync: the sub-command, the fixed flags, the exclusion
/// list, the additional flags taken apart, then source and destination.
pub open spec fn sync_args(
    command: Seq<char>,
    exclusion_list_path: Seq<char>,
    additional_flags: Seq<char>,
    remote_path: Seq<char>,
    target_path: Seq<char>,
) -> Seq<Seq<char>> {
    seq![command, "--progress"@, "--exclude-from"@, exclusion_list_path] + flag_args(
        additional_flags,
    ) + seq![remote_path, target_path]
}

/// The arguments with which the sync tool is started.
pub fn sync_arguments(
    command: &str,
    exclusion_list_path: &str,
    additional_flags: &str,
    remote_path: &str,
    target_path: &str,
) -> (args: Vec<String>)
    ensures
        args.deep_view() == sync_args(
            command@,
            exclusion_list_path@,
            additional_flags@,
            remote_path@,
            target_path@,
        ),
{
    let mut args: Vec<String> = Vec::new();
    args.push(String::from_str(command));
    args.push(String::from_str("--progress"));
    args.push(String::from_str("--exclude-from"));
    args.push(String::from_str(exclusion_list_path));
    let ghost head = seq![command@, "--progress"@, "--exclude-from"@, exclusion_list_path@];
    assert(args.deep_view() =~= head);
    let mut flags = parse_flags(additional_flags);
    let ghost middle = flags.deep_view();
    args.append(&mut flags);
    assert(args.deep_view() =~= head + middle);
    args.push(String::from_str(remote_path));
    args.push(String::from_str(target_path));
    assert(args.deep_view() =~= head + middle + seq![remote_path@, target_path@]);
    args
}

/// Whether the cookie of `remote` is fetched anew before a sync.
pub fn needs_cookie(remote: &str) -> (needed: bool)
    ensures
        needed == (remote@ == COOKIE_REMOTE@),
{
    *remote == *COOKIE_REMOTE
}

/// The share link of a remote whose WebDAV address is `url`: the address with
/// each `/ds/dav/` replaced by `/v2/api/share/public/`.
pub open spec fn share_link_of(url: Seq<char>) -> Seq<char> {
    replace(url, "/ds/dav/"@, "/v2/api/share/public/"@)
}

/// The share link of a remote whose WebDAV address is `url`.
pub fn share_link(url: &str) -> (link: String)
    ensures
        link@ == share_link_of(url@),
{
    let text = to_chars(url);
    let from = to_chars("/ds/dav/");
    let to = to_chars("/v2/api/share/public/");
    let out = replace_all(text.as_slice(), from.as_slice(), to.as_slice());
    from_chars(out.as_slice())
}

/// The value of a remote's `headers` setting that sends `cookie` along.
pub fn cookie_header(cookie: &str) -> (header: String)
    ensures
        header@ == "Cookie,\""@ + cookie@ + "\""@,
{
    let mut header = String::from_str("Cookie,\"");
    header.append(cookie);
    header.append("\"");
    header
}

/// Syncs of different listeners have exclusion lists of different names, so
/// that neither writes into the other's list.
pub proof fn lemma_exclusion_names_differ(first: Seq<char>, second: Seq<char>)
    requires
        first != second,
    ensures
        exclusion_name_of(first) != exclusion_name_of(second),
{
    let head = "exclude_files_"@;
    let tail = ".txt"@;
    let a = exclusion_name_of(first);
    let b = exclusion_name_of(second);
    if a == b {
        assert(a.len() == head.len() + first.len() + tail.len());
        assert(b.len() == head.len() + second.len() + tail.len());
        assert(first =~= a.subrange(head.len() as int, (head.len() + first.len()) as int));
        assert(second =~= b.subrange(head.len() as int, (head.len() + second.len()) as int));
        assert(first == second);
    }
}

/// An exclusion list has one line for each pattern.
pub proof fn lemma_exclusion_text_push(patterns: Seq<Seq<char>>, pattern: Seq<char>)
    ensures
        exclusion_text(patterns.push(pattern)) == exclusion_text(patterns) + pattern + seq!['\n'],
{
    assert(patterns.push(pattern).drop_last() =~= patterns);
}

/// The arguments of a sync begin with the sub-command and the fixed flags and
/// end with source and destination, whatever the additional flags are.
pub proof fn lemma_sync_args_frame(
    command: Seq<char>,
    exclusion_list_path: Seq<char>,
    additional_flags: Seq<char>,
    remote_path: Seq<char>,
    target_path: Seq<char>,
)
    ensures
        ({
            let args = sync_args(
                command,
                exclusion_list_path,
                additional_flags,
                remote_path,
                target_path,
            );
            let n = args.len() as int;
            &&& n == 6 + flag_args(additional_flags).len()
            &&& args[0] == command
            &&& args[1] == "--progress"@
            &&& args[2] == "--exclude-from"@
            &&& args[3] == exclusion_list_path
            &&& args[n - 2] == remote_path
            &&& args[n - 1] == target_path
        }),
{
}

} // verus!
