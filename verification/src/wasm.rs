//! Locating a published wasm at build time: its file under the target
//! directory, when the registry is asked for it, and what each failure says.

use vstd::prelude::*;

use crate::deployed::result_text;
use crate::text::{chars_of, contains_str, has_infix, join_path, path_join};

verus! {

/// A version text with every `.` turned into `_`.
pub open spec fn underscored(v: Seq<char>) -> Seq<char> {
    v.map_values(|c: char| if c == '.' { '_' } else { c })
}

/// `[<channel>__]<mod_name>[_<version>]`: the channel is part of a published
/// wasm's identity, and bare names stay bare so workspace-built wasms are found.
pub open spec fn spec_wasm_file_stem(
    channel: Option<Seq<char>>,
    mod_name: Seq<char>,
    version: Option<Seq<char>>,
) -> Seq<char> {
    let stem = match channel {
        Some(c) => c + "__"@ + mod_name,
        None => mod_name,
    };
    match version {
        Some(v) => stem + seq!['_'] + underscored(v),
        None => stem,
    }
}

/// An optional string slice, seen as an optional char sequence.
pub open spec fn opt_text(o: Option<&str>) -> Option<Seq<char>> {
    match o {
        Some(s) => Some(s@),
        None => None,
    }
}

/// `[<channel>__]<mod_name>[_<version>]`.
pub fn wasm_file_stem(channel: Option<&str>, mod_name: &str, version: Option<&str>) -> (r: String)
    ensures
        r@ == spec_wasm_file_stem(opt_text(channel), mod_name@, opt_text(version)),
{
    let mut stem = match channel {
        Some(c) => {
            let mut s = c.to_owned();
            s.append("__");
            s.append(mod_name);
            s
        },
        None => mod_name.to_owned(),
    };
    if let Some(v) = version {
        stem.push('_');
        let chars = chars_of(v);
        let ghost start = stem@;
        let mut i: usize = 0;
        while i < chars.len()
            invariant
                chars@ == v@,
                i <= chars.len(),
                stem@ == start + underscored(v@.subrange(0, i as int)),
            decreases chars.len() - i,
        {
            let c = chars[i];
            stem.push(if c == '.' { '_' } else { c });
            assert(v@.subrange(0, i + 1) == v@.subrange(0, i as int).push(c));
            i = i + 1;
        }
        assert(v@.subrange(0, chars.len() as int) == v@);
    }
    stem
}

/// `<target_dir>/<stem>.wasm`.
pub open spec fn spec_local_wasm_path(
    target_dir: Seq<char>,
    channel: Option<Seq<char>>,
    mod_name: Seq<char>,
    version: Option<Seq<char>>,
) -> Seq<char> {
    path_join(target_dir, spec_wasm_file_stem(channel, mod_name, version)) + ".wasm"@
}

/// `<target_dir>/[<channel>__]<mod_name>[_<version>].wasm`. The stem holds no
/// `.` (the version's dots are replaced, and neither a channel nor a module
/// name has one), so the extension is added, never replaced.
pub fn build_local_wasm_path(
    target_dir: &str,
    channel: Option<&str>,
    mod_name: &str,
    version: Option<&str>,
) -> (r: String)
    ensures
        r@ == spec_local_wasm_path(target_dir@, opt_text(channel), mod_name@, opt_text(version)),
{
    let stem = wasm_file_stem(channel, mod_name, version);
    let mut out = join_path(target_dir, stem.as_str());
    out.append(".wasm");
    out
}

/// Where a published wasm comes from.
pub enum WasmSource {
    /// Already in the local target directory.
    Local,
    /// To be downloaded from the registry.
    Download,
    /// Not local, and the registry may not be asked: refuse with this message.
    Refused(String),
}

/// The refusal when no local wasm exists and the registry may not be asked.
pub open spec fn spec_no_local_wasm(wasm: Seq<char>) -> Seq<char> {
    "No local wasm found and STELLAR_NO_REGISTRY=1 so not checking Registry. Download manually with `stellar registry download \""@
        + wasm + "\"`"@
}

/// A local build wins; else, unless the registry is off limits, download.
pub fn choose_wasm_source(local_exists: bool, no_registry: bool, wasm: &str) -> (r: WasmSource)
    ensures
        match r {
            WasmSource::Local => local_exists,
            WasmSource::Download => !local_exists && !no_registry,
            WasmSource::Refused(m) => !local_exists && no_registry && m@ == spec_no_local_wasm(wasm@),
        },
{
    if local_exists {
        return WasmSource::Local;
    }
    if no_registry {
        let mut msg = String::from_str(
            "No local wasm found and STELLAR_NO_REGISTRY=1 so not checking Registry. Download manually with `stellar registry download \"",
        );
        msg.append(wasm);
        msg.append("\"`");
        return WasmSource::Refused(msg);
    }
    WasmSource::Download
}

/// The arguments of `stellar registry download`.
pub open spec fn spec_download_args(
    lookup_name: Seq<char>,
    local_path: Seq<char>,
    version: Option<Seq<char>>,
) -> Seq<Seq<char>> {
    let base = seq!["registry"@, "download"@, lookup_name, "--out-file"@, local_path];
    match version {
        Some(v) => base + seq!["--version"@, v],
        None => base,
    }
}

/// `registry download <name> --out-file <path> [--version <version>]`.
pub fn download_args(lookup_name: &str, local_path: &str, version: Option<&str>) -> (r: Vec<String>)
    ensures
        r@.map_values(|a: String| a@) == spec_download_args(lookup_name@, local_path@, opt_text(version)),
{
    let mut args: Vec<String> = Vec::new();
    args.push(String::from_str("registry"));
    args.push(String::from_str("download"));
    args.push(lookup_name.to_owned());
    args.push(String::from_str("--out-file"));
    args.push(local_path.to_owned());
    if let Some(v) = version {
        args.push(String::from_str("--version"));
        args.push(v.to_owned());
    }
    assert(args@.map_values(|a: String| a@) =~= spec_download_args(
        lookup_name@,
        local_path@,
        opt_text(version),
    ));
    args
}

/// What a failed `stellar registry download` says.
pub open spec fn spec_download_failure(
    stderr: Seq<char>,
    lookup_name: Seq<char>,
    network: Seq<char>,
    explorer: Option<Seq<char>>,
    local_path: Seq<char>,
) -> Seq<char> {
    if has_infix(stderr, "unexpected argument"@) || (has_infix(stderr, "unrecognized subcommand"@)
        && has_infix(stderr, "download"@)) {
        "the installed `stellar registry` plugin is too old for import_contract_client!. Upgrade it with `cargo install stellar-registry-cli --force`.\n\nstderr:\n"@
            + stderr
    } else if has_infix(stderr, "unrecognized subcommand"@) || has_infix(stderr, "no such command"@) {
        "the `stellar registry` plugin is not installed. Install it with `cargo install stellar-registry-cli`.\n\nstderr:\n"@
            + stderr
    } else {
        let name_check = match explorer {
            None => "\n1. check the name & network and try again"@,
            Some(url) => "\n1. check that you got the name right: "@ + url + "/wasms"@,
        };
        "Could not find Wasm `"@ + lookup_name + "` on "@ + network + ". Checked: \n\n• "@
            + local_path + " \n• `stellar registry download "@ + lookup_name
            + "` \n\nYou can: "@ + name_check
            + " \n2. add this Wasm to your local `target` directory manually (perhaps by compiling a contract) \n3. run `stellar registry download "@
            + lookup_name
            + "` yourself. \n\nSet STELLAR_NO_REGISTRY=1 to skip registry lookup.\n\nstderr from `stellar registry download`:\n"@
            + stderr
    }
}

/// Reads how `stellar registry download` ended: success only when it exited
/// well and the file is there; otherwise the most specific message the
/// stderr allows.
pub fn read_download_output(
    success: bool,
    local_exists: bool,
    stderr: &str,
    lookup_name: &str,
    network: &str,
    explorer: Option<&str>,
    local_path: &str,
) -> (r: Result<(), String>)
    ensures
        match r {
            Ok(()) => success && local_exists,
            Err(m) => !(success && local_exists) && m@ == spec_download_failure(
                stderr@,
                lookup_name@,
                network@,
                opt_text(explorer),
                local_path@,
            ),
        },
{
    if success && local_exists {
        return Ok(());
    }
    if contains_str(stderr, "unexpected argument") || (contains_str(stderr, "unrecognized subcommand")
        && contains_str(stderr, "download")) {
        let mut msg = String::from_str(
            "the installed `stellar registry` plugin is too old for import_contract_client!. Upgrade it with `cargo install stellar-registry-cli --force`.\n\nstderr:\n",
        );
        msg.append(stderr);
        return Err(msg);
    }
    if contains_str(stderr, "unrecognized subcommand") || contains_str(stderr, "no such command") {
        let mut msg = String::from_str(
            "the `stellar registry` plugin is not installed. Install it with `cargo install stellar-registry-cli`.\n\nstderr:\n",
        );
        msg.append(stderr);
        return Err(msg);
    }
    let mut msg = String::from_str("Could not find Wasm `");
    msg.append(lookup_name);
    msg.append("` on ");
    msg.append(network);
    msg.append(". Checked: \n\n• ");
    msg.append(local_path);
    msg.append(" \n• `stellar registry download ");
    msg.append(lookup_name);
    msg.append("` \n\nYou can: ");
    match explorer {
        None => msg.append("\n1. check the name & network and try again"),
        Some(url) => {
            msg.append("\n1. check that you got the name right: ");
            msg.append(url);
            msg.append("/wasms");
        },
    }
    msg.append(
        " \n2. add this Wasm to your local `target` directory manually (perhaps by compiling a contract) \n3. run `stellar registry download ",
    );
    msg.append(lookup_name);
    msg.append(
        "` yourself. \n\nSet STELLAR_NO_REGISTRY=1 to skip registry lookup.\n\nstderr from `stellar registry download`:\n",
    );
    msg.append(stderr);
    Err(msg)
}

/// Law: the channel is part of a published wasm's file, so `unverified/foo`
/// never shares a file with `foo` (whatever the version).
pub proof fn law_channel_separates_wasm(
    channel: Seq<char>,
    mod_name: Seq<char>,
    version: Option<Seq<char>>,
)
    requires
        channel.len() > 0,
    ensures
        spec_wasm_file_stem(Some(channel), mod_name, version) != spec_wasm_file_stem(
            None,
            mod_name,
            version,
        ),
{
    reveal_strlit("__");
    let a = spec_wasm_file_stem(Some(channel), mod_name, version);
    let b = spec_wasm_file_stem(None, mod_name, version);
    assert(a.len() == channel.len() + 2 + b.len());
}

/// A wasm file stem avoids a char `x` other than `_` when its channel and
/// module name avoid it, and so does the version unless `x` is `.`.
proof fn lemma_stem_avoids(
    x: char,
    channel: Option<Seq<char>>,
    mod_name: Seq<char>,
    version: Option<Seq<char>>,
)
    requires
        x != '_',
        !mod_name.contains(x),
        channel matches Some(c) ==> !c.contains(x),
        version matches Some(v) ==> (x == '.' || !v.contains(x)),
    ensures
        !spec_wasm_file_stem(channel, mod_name, version).contains(x),
{
    reveal_strlit("__");
    let stem = match channel {
        Some(c) => c + "__"@ + mod_name,
        None => mod_name,
    };
    let t = spec_wasm_file_stem(channel, mod_name, version);
    if t.contains(x) {
        let i = t.index_of(x);
        match channel {
            Some(c) => {
                if i < c.len() {
                    assert(t[i] == c[i]);
                } else if i < c.len() + 2 {
                    assert(t[i] == '_');
                } else if i < stem.len() {
                    assert(t[i] == mod_name[i - c.len() - 2]);
                }
            },
            None => {
                if i < stem.len() {
                    assert(t[i] == mod_name[i]);
                }
            },
        }
        if i >= stem.len() {
            let v = version->Some_0;
            if i > stem.len() {
                let k = i - stem.len() - 1;
                assert(t[i] == underscored(v)[k]);
                assert(v[k] == x);
            }
        }
    }
}

/// Law: a wasm file stem holds no `.` when its channel and module name hold
/// none, so the `.wasm` extension is always added, never put in place of one.
pub proof fn law_stem_has_no_dot(
    channel: Option<Seq<char>>,
    mod_name: Seq<char>,
    version: Option<Seq<char>>,
)
    requires
        !mod_name.contains('.'),
        channel matches Some(c) ==> !c.contains('.'),
    ensures
        !spec_wasm_file_stem(channel, mod_name, version).contains('.'),
{
    lemma_stem_avoids('.', channel, mod_name, version);
}

/// Law: a deployed contract's cached wasm (under `deployed/`) never has the
/// path of a published or workspace-built wasm in the same target directory,
/// whose stems hold no `/`.
pub proof fn law_deployed_cache_apart_from_wasms(
    target_dir: Seq<char>,
    contract: crate::prefixed::PrefixedView,
    channel: Option<Seq<char>>,
    mod_name: Seq<char>,
    version: Option<Seq<char>>,
)
    requires
        crate::prefixed::valid_prefixed(contract),
        !mod_name.contains('/'),
        channel matches Some(c) ==> !c.contains('/'),
        version matches Some(v) ==> !v.contains('/'),
    ensures
        crate::deployed::spec_cache_path(target_dir, contract, "wasm"@) != spec_local_wasm_path(
            target_dir,
            channel,
            mod_name,
            version,
        ),
{
    reveal_strlit("deployed");
    reveal_strlit(".wasm");
    reveal_strlit("wasm");
    reveal_strlit("__");
    lemma_stem_avoids('/', channel, mod_name, version);
    let stem = crate::deployed::spec_cache_stem(contract);
    let stem2 = spec_wasm_file_stem(channel, mod_name, version);
    let base = if target_dir.len() == 0 || target_dir[target_dir.len() - 1] == '/' {
        target_dir
    } else {
        target_dir + seq!['/']
    };
    let left = crate::deployed::spec_cache_path(target_dir, contract, "wasm"@);
    let right = spec_local_wasm_path(target_dir, channel, mod_name, version);
    assert(stem.len() > 0) by {
        match contract.channel {
            Some(c) => {},
            None => {},
        }
    }
    assert(left =~= base + "deployed"@ + seq!['/'] + stem + seq!['.'] + "wasm"@);
    assert(right =~= base + stem2 + ".wasm"@);
    if left == right {
        assert(stem2.len() == 9 + stem.len());
        assert(left[base.len() + 8int] == '/');
        assert(right[base.len() + 8int] == stem2[8]);
    }
}

/// Law: a published wasm's local path is `<target_dir>/<stem>.wasm`, and its
/// stem holds no `.` (nor a `/` where the channel, module name and version
/// hold none), so the path's file name is the stem with `.wasm` added.
pub proof fn law_local_wasm_path_shape(
    target_dir: Seq<char>,
    channel: Option<Seq<char>>,
    mod_name: Seq<char>,
    version: Option<Seq<char>>,
)
    requires
        !mod_name.contains('.'),
        !mod_name.contains('/'),
        channel matches Some(c) ==> !c.contains('.') && !c.contains('/'),
        version matches Some(v) ==> !v.contains('/'),
    ensures
        spec_local_wasm_path(target_dir, channel, mod_name, version) == path_join(
            target_dir,
            spec_wasm_file_stem(channel, mod_name, version) + ".wasm"@,
        ),
        !spec_wasm_file_stem(channel, mod_name, version).contains('.'),
        !spec_wasm_file_stem(channel, mod_name, version).contains('/'),
{
    lemma_stem_avoids('.', channel, mod_name, version);
    lemma_stem_avoids('/', channel, mod_name, version);
    let stem = spec_wasm_file_stem(channel, mod_name, version);
    assert(path_join(target_dir, stem) + ".wasm"@ =~= path_join(target_dir, stem + ".wasm"@));
}

} // verus!
