//! The OpenVINO execution-provider plugin: where its library is looked for,
//! how registration walks the candidates, and which discovered device a
//! session is given.
use vstd::prelude::*;
use std::sync::Arc;
use ort::environment::Environment;
use ort::ep::ExecutionProviderLibrary;
use crate::ortcalls::{self, DeviceHandle, HardwareKind};
use crate::session::{BuilderConfig, ModelBuilder};
use crate::paths::{
    ends_with, joined_as, path_join, plain_component, separated_dir, separator_joined,
    starts_with_two_separators, verbatim_prefixed,
};
use crate::text::{
    ascii_lower, ascii_lowercase_chars, contains_chars, contains_seq, contains_at_word_start,
    contains_at_word_start_chars, string_views, trim, trim_str,
};
use vstd::utf8::encode_utf8;

verus! {

/// The file name of the OpenVINO provider library.
pub open spec fn plugin_library_file() -> Seq<char> {
    "onnxruntime_providers_openvino.dll"@
}

/// The installation paths that are always tried, in order.
pub open spec fn fixed_plugin_paths() -> Seq<Seq<char>> {
    seq![
        "C:\\Program Files\\Intel\\OpenVINO\\onnxruntime_providers_openvino.dll"@,
        "C:\\Program Files (x86)\\Intel\\OpenVINO\\onnxruntime_providers_openvino.dll"@,
        "C:\\Program Files\\onnxruntime-ep-openvino\\onnxruntime_providers_openvino.dll"@,
        "onnxruntime_providers_openvino.dll"@,
        "plugins/onnxruntime_providers_openvino.dll"@,
    ]
}

/// The environment values that name a library: each trimmed, empty ones left
/// out, order kept.
pub open spec fn env_candidates(vals: Seq<Seq<char>>) -> Seq<Seq<char>>
    decreases vals.len(),
{
    if vals.len() == 0 {
        Seq::empty()
    } else {
        let rest = env_candidates(vals.drop_last());
        let t = trim(vals.last());
        if t.len() > 0 {
            rest.push(t)
        } else {
            rest
        }
    }
}

/// The environment variables that may name the provider library, in the
/// order they are consulted.
pub fn plugin_library_env_keys() -> (r: Vec<&'static str>)
    ensures
        r@.len() == 2,
        r@[0]@ == "HANDY_OPENVINO_EP_LIBRARY"@,
        r@[1]@ == "ORT_OPENVINO_EP_LIBRARY"@,
{
    vec!["HANDY_OPENVINO_EP_LIBRARY", "ORT_OPENVINO_EP_LIBRARY"]
}

/// The paths to try for the provider library: the set environment values
/// (`env_values`, in key order), then the fixed installation paths, then the
/// library next to the executable and in its `plugins` directory when the
/// executable's directory `exe_dir` is known.
pub fn candidate_plugin_paths(env_values: &Vec<String>, exe_dir: Option<&str>) -> (r: Vec<String>)
    ensures
        ({
            let base = env_candidates(string_views(env_values@)) + fixed_plugin_paths();
            &&& exe_dir is None ==> string_views(r@) == base
            &&& exe_dir matches Some(d) ==> {
                &&& r@.len() == base.len() + 2
                &&& string_views(r@).take(base.len() as int) == base
                &&& ends_with(r@[base.len() as int]@, plugin_library_file())
                &&& ends_with(r@[base.len() as int + 1]@, plugin_library_file())
                &&& !verbatim_prefixed(d@) ==> joined_as(
                    r@[base.len() as int]@,
                    d@,
                    plugin_library_file(),
                )
                &&& !starts_with_two_separators(d@) ==> in_plugins_dir(
                    r@[base.len() as int + 1]@,
                    d@,
                )
                &&& separated_dir(d@) ==> separator_joined(
                    r@[base.len() as int]@,
                    d@,
                    plugin_library_file(),
                )
                &&& separated_dir(d@) && !starts_with_two_separators(d@)
                    ==> in_separated_plugins_dir(r@[base.len() as int + 1]@, d@)
            }
        }),
{
    let mut paths: Vec<String> = Vec::new();
    let n = env_values.len();
    let mut i: usize = 0;
    while i < n
        invariant
            n == env_values@.len(),
            i <= n,
            string_views(paths@) == env_candidates(string_views(env_values@).take(i as int)),
        decreases n - i,
    {
        let t = trim_str(env_values[i].as_str());
        let ghost before = string_views(paths@);
        proof {
            let vals = string_views(env_values@);
            assert(vals.take(i + 1).drop_last() =~= vals.take(i as int));
            assert(vals.take(i + 1).last() == env_values@[i as int]@);
        }
        if !t.as_str().is_empty() {
            paths.push(t);
            assert(string_views(paths@) =~= before.push(t@));
        }
        i = i + 1;
    }
    assert(string_views(env_values@).take(n as int) =~= string_views(env_values@));
    let ghost env_part = string_views(paths@);
    paths.push("C:\\Program Files\\Intel\\OpenVINO\\onnxruntime_providers_openvino.dll".to_owned());
    paths.push(
        "C:\\Program Files (x86)\\Intel\\OpenVINO\\onnxruntime_providers_openvino.dll".to_owned(),
    );
    paths.push(
        "C:\\Program Files\\onnxruntime-ep-openvino\\onnxruntime_providers_openvino.dll".to_owned(),
    );
    paths.push("onnxruntime_providers_openvino.dll".to_owned());
    paths.push("plugins/onnxruntime_providers_openvino.dll".to_owned());
    let ghost base = env_part + fixed_plugin_paths();
    assert(string_views(paths@) =~= base);
    match exe_dir {
        Some(d) => {
            proof {
                reveal_strlit("onnxruntime_providers_openvino.dll");
                let f = plugin_library_file();
                assert(plain_component(f)) by {
                    assert(f[0] == 'o');
                    assert(!f.contains('/'));
                    assert(!f.contains('\\'));
                    assert(!f.contains(':'));
                }
            }
            let beside = path_join(d, "onnxruntime_providers_openvino.dll");
            proof {
                reveal_strlit("plugins");
                let f = plugins_dir_name();
                assert(plain_component(f)) by {
                    assert(f[0] == 'p');
                    assert(!f.contains('/'));
                    assert(!f.contains('\\'));
                    assert(!f.contains(':'));
                }
            }
            let plugins_dir = path_join(d, "plugins");
            proof {
                assert(plugins_dir_name()[0] == 'p');
                if !starts_with_two_separators(d@) {
                    lemma_join_keeps_plain_start(plugins_dir@, d@, plugins_dir_name());
                }
                if separated_dir(d@) && !starts_with_two_separators(d@) {
                    assert(plugins_dir@.last() == 's');
                }
            }
            let inside = path_join(plugins_dir.as_str(), "onnxruntime_providers_openvino.dll");
            paths.push(beside);
            paths.push(inside);
            assert(string_views(paths@).take(base.len() as int) =~= base);
        },
        None => {},
    }
    paths
}

/// The name of the directory beside the executable that may hold plugins.
pub open spec fn plugins_dir_name() -> Seq<char> {
    "plugins"@
}

/// `r` is the provider library file in the `plugins` directory of `d`, each
/// step joined by no separator or by one of `/`, `\`.
pub open spec fn in_plugins_dir(r: Seq<char>, d: Seq<char>) -> bool {
    exists|p: Seq<char>|
        joined_as(p, d, plugins_dir_name()) && #[trigger] joined_as(r, p, plugin_library_file())
}

/// `r` is the provider library file in the `plugins` directory of `d`, each
/// step joined by one separator.
pub open spec fn in_separated_plugins_dir(r: Seq<char>, d: Seq<char>) -> bool {
    exists|p: Seq<char>|
        separator_joined(p, d, plugins_dir_name()) && #[trigger] separator_joined(
            r,
            p,
            plugin_library_file(),
        )
}

/// Joining a plain name onto a directory that does not begin with two
/// separators gives a path that is not verbatim either.
proof fn lemma_join_keeps_plain_start(p: Seq<char>, d: Seq<char>, f: Seq<char>)
    requires
        joined_as(p, d, f),
        plain_component(f),
        f[0] != '?',
        !starts_with_two_separators(d),
    ensures
        !verbatim_prefixed(p),
{
    if d.len() >= 2 {
        assert(p[0] == d[0] && p[1] == d[1]);
    } else if d.len() == 1 {
        assert(p[0] == d[0]);
        if p == d + f {
            assert(p[1] == f[0]);
            assert(f.contains(f[0]));
        } else {
            assert(p[2] == f[0]);
            assert(f.contains(f[0]));
        }
    } else {
        if p == d + f {
            assert(p[0] == f[0]);
            assert(f.contains(f[0]));
        } else {
            assert(p[1] == f[0]);
            assert(f.contains(f[0]));
        }
    }
}

/// `p` is a prefix of `s`.
pub open spec fn starts_with(s: Seq<char>, p: Seq<char>) -> bool {
    p.len() <= s.len() && s.take(p.len() as int) == p
}

/// The message when no candidate library file is present.
pub open spec fn no_candidate_message() -> Seq<char> {
    "no candidate plugin paths found"@
}

/// The start of the message when the runtime environment is unavailable.
pub open spec fn environment_failure_prefix() -> Seq<char> {
    "Environment::current failed: "@
}

/// The index of the last present candidate, if any.
pub open spec fn last_present(present: Seq<bool>) -> Option<int>
    decreases present.len(),
{
    if present.len() == 0 {
        None
    } else if present.last() {
        Some(present.len() - 1)
    } else {
        last_present(present.drop_last())
    }
}

proof fn lemma_last_present(present: Seq<bool>)
    ensures
        match last_present(present) {
            Some(k) => 0 <= k < present.len() && present[k] && forall|j: int|
                k < j < present.len() ==> !present[j],
            None => forall|j: int| 0 <= j < present.len() ==> !present[j],
        },
    decreases present.len(),
{
    if present.len() > 0 && !present.last() {
        lemma_last_present(present.drop_last());
        assert forall|j: int| 0 <= j < present.len() - 1 implies present[j] == present.drop_last()[j]
            by {}
    }
}

proof fn lemma_last_present_step(present: Seq<bool>, i: int)
    requires
        0 <= i < present.len(),
    ensures
        last_present(present.take(i + 1)) == if present[i] {
            Some(i)
        } else {
            last_present(present.take(i))
        },
{
    assert(present.take(i + 1).drop_last() =~= present.take(i));
}

/// `s` followed by `: `.
pub open spec fn with_colon(s: Seq<char>) -> Seq<char> {
    s + ": "@
}

/// The failure message of registration, as it may stand whatever the runtime
/// did: either the environment was unavailable, or no candidate was present,
/// or every present candidate failed and the last one's error is reported.
pub open spec fn registration_failure(candidates: Seq<Seq<char>>, present: Seq<bool>, m: Seq<
    char,
>) -> bool {
    ||| starts_with(m, environment_failure_prefix())
    ||| last_present(present) is None && m == no_candidate_message()
    ||| last_present(present) matches Some(k) && starts_with(m, with_colon(candidates[k]))
}

/// The indices of the present candidates, in order.
pub open spec fn present_indices(present: Seq<bool>) -> Seq<nat>
    decreases present.len(),
{
    if present.len() == 0 {
        Seq::empty()
    } else {
        let rest = present_indices(present.drop_last());
        if present.last() {
            rest.push((present.len() - 1) as nat)
        } else {
            rest
        }
    }
}

/// `a` is a prefix of `b`.
pub open spec fn is_prefix(a: Seq<nat>, b: Seq<nat>) -> bool {
    a.len() <= b.len() && b.take(a.len() as int) == a
}

/// The candidate indices of a list of registration attempts.
pub open spec fn tried_indices(attempts: Seq<(nat, bool)>) -> Seq<nat> {
    attempts.map_values(|a: (nat, bool)| a.0)
}

/// The attempts a registration made, given what it returned: present
/// candidates only, in candidate order, each failing but the last, which
/// succeeded exactly when the registration did. A failure tried every present
/// candidate, unless the runtime environment was unavailable, in which case
/// nothing was tried.
pub open spec fn registration_attempts(
    present: Seq<bool>,
    attempts: Seq<(nat, bool)>,
    succeeded: bool,
    message: Seq<char>,
) -> bool {
    &&& is_prefix(tried_indices(attempts), present_indices(present))
    &&& forall|k: int| 0 <= k < attempts.len() - 1 ==> !(#[trigger] attempts[k]).1
    &&& succeeded <==> (attempts.len() > 0 && attempts.last().1)
    &&& !succeeded && attempts.len() < present_indices(present).len() ==> attempts.len() == 0
        && starts_with(message, environment_failure_prefix())
}

proof fn lemma_present_indices_step(present: Seq<bool>, i: int)
    requires
        0 <= i < present.len(),
    ensures
        present_indices(present.take(i + 1)) == if present[i] {
            present_indices(present.take(i)).push(i as nat)
        } else {
            present_indices(present.take(i))
        },
{
    assert(present.take(i + 1).drop_last() =~= present.take(i));
}

proof fn lemma_present_indices_prefix(present: Seq<bool>, j: int)
    requires
        0 <= j <= present.len(),
    ensures
        is_prefix(present_indices(present.take(j)), present_indices(present)),
    decreases present.len(),
{
    if j == present.len() {
        assert(present.take(j) =~= present);
        let pi = present_indices(present);
        assert(pi.take(pi.len() as int) =~= pi);
    } else {
        let d = present.drop_last();
        assert(present.take(j) =~= d.take(j));
        lemma_present_indices_prefix(d, j);
        let a = present_indices(d.take(j));
        let b = present_indices(d);
        let c = present_indices(present);
        assert(c.take(b.len() as int) =~= b);
        assert(c.take(a.len() as int) =~= b.take(a.len() as int));
    }
}

/// Each listed index names a present candidate, and the indices rise.
proof fn lemma_present_indices_facts(present: Seq<bool>)
    ensures
        forall|j: int|
            0 <= j < present_indices(present).len() ==> (#[trigger] present_indices(present)[j])
                < present.len() && present[present_indices(present)[j] as int],
        forall|i: int, j: int|
            0 <= i < j < present_indices(present).len() ==> #[trigger] present_indices(present)[i]
                < #[trigger] present_indices(present)[j],
    decreases present.len(),
{
    if present.len() > 0 {
        let d = present.drop_last();
        lemma_present_indices_facts(d);
        let rest = present_indices(d);
        let pi = present_indices(present);
        assert forall|j: int| 0 <= j < pi.len() implies (#[trigger] pi[j]) < present.len()
            && present[pi[j] as int] by {
            if j < rest.len() {
                assert(pi[j] == rest[j]);
                assert(d[rest[j] as int] == present[rest[j] as int]);
            }
        }
        assert forall|i: int, j: int| 0 <= i < j < pi.len() implies #[trigger] pi[i]
            < #[trigger] pi[j] by {
            assert(pi[i] == rest[i]);
            if j < rest.len() {
                assert(pi[j] == rest[j]);
            }
        }
    }
}

/// What a registration's attempts show: every attempt was at a present
/// candidate, in candidate order; all attempts but the last failed; and the
/// registration succeeded exactly when one attempt registered a library. With
/// no present candidate, nothing was tried and the registration failed.
pub proof fn law_registration_tries_present_candidates_in_order(
    present: Seq<bool>,
    attempts: Seq<(nat, bool)>,
    succeeded: bool,
    message: Seq<char>,
)
    requires
        registration_attempts(present, attempts, succeeded, message),
    ensures
        forall|j: int|
            0 <= j < attempts.len() ==> (#[trigger] attempts[j]).0 < present.len()
                && present[attempts[j].0 as int],
        forall|i: int, j: int|
            0 <= i < j < attempts.len() ==> (#[trigger] attempts[i]).0 < (#[trigger] attempts[j]).0,
        forall|j: int| 0 <= j < attempts.len() - 1 ==> !(#[trigger] attempts[j]).1,
        succeeded <==> exists|j: int| 0 <= j < attempts.len() && (#[trigger] attempts[j]).1,
        (forall|k: int| 0 <= k < present.len() ==> !present[k]) ==> attempts.len() == 0
            && !succeeded,
{
    lemma_present_indices_facts(present);
    let t = tried_indices(attempts);
    let pi = present_indices(present);
    assert forall|j: int| 0 <= j < attempts.len() implies (#[trigger] attempts[j]).0 == pi[j] by {
        assert(t[j] == attempts[j].0);
        assert(pi.take(t.len() as int)[j] == pi[j]);
    }
    assert forall|i: int, j: int| 0 <= i < j < attempts.len() implies (#[trigger] attempts[i]).0
        < (#[trigger] attempts[j]).0 by {
        assert(attempts[i].0 == pi[i]);
        assert(attempts[j].0 == pi[j]);
    }
    if succeeded {
        assert(attempts[attempts.len() - 1].1);
    }
    if exists|j: int| 0 <= j < attempts.len() && (#[trigger] attempts[j]).1 {
        let j = choose|j: int| 0 <= j < attempts.len() && (#[trigger] attempts[j]).1;
        assert(j == attempts.len() - 1);
        assert(attempts.last() == attempts[j]);
    }
    if forall|k: int| 0 <= k < present.len() ==> !present[k] {
        if pi.len() > 0 {
            assert(present[pi[0] as int]);
        }
    }
}

/// The attempts of a registration with the runtime environment at hand:
/// present candidates only, in candidate order, each failing but the last,
/// which succeeded exactly when the registration did; a failed registration
/// tried every present candidate.
pub open spec fn registration_with_environment(
    present: Seq<bool>,
    attempts: Seq<(nat, bool)>,
    succeeded: bool,
) -> bool {
    &&& is_prefix(tried_indices(attempts), present_indices(present))
    &&& forall|k: int| 0 <= k < attempts.len() - 1 ==> !(#[trigger] attempts[k]).1
    &&& succeeded <==> (attempts.len() > 0 && attempts.last().1)
    &&& !succeeded ==> tried_indices(attempts) == present_indices(present)
}

/// Every present candidate is listed among the present indices.
proof fn lemma_present_index_listed(present: Seq<bool>, k: int)
    requires
        0 <= k < present.len(),
        present[k],
    ensures
        exists|j: int| 0 <= j < present_indices(present).len() && present_indices(present)[j] == k,
    decreases present.len(),
{
    let d = present.drop_last();
    let rest = present_indices(d);
    let pi = present_indices(present);
    if k == present.len() - 1 {
        assert(pi[pi.len() - 1] == k);
    } else {
        assert(d[k] == present[k]);
        lemma_present_index_listed(d, k);
        let j = choose|j: int| 0 <= j < rest.len() && rest[j] == k;
        assert(pi[j] == rest[j]);
    }
}

/// With the runtime environment at hand, registration tries every present
/// candidate until one loads: when it fails, each present candidate was tried
/// and failed, and when some candidate is present, something was tried.
pub proof fn law_registration_with_environment_tries_every_present_candidate(
    present: Seq<bool>,
    attempts: Seq<(nat, bool)>,
    succeeded: bool,
)
    requires
        registration_with_environment(present, attempts, succeeded),
    ensures
        !succeeded ==> forall|k: int|
            0 <= k < present.len() && #[trigger] present[k] ==> exists|j: int|
                0 <= j < attempts.len() && attempts[j].0 == k && !attempts[j].1,
        (exists|k: int| 0 <= k < present.len() && present[k]) ==> attempts.len() > 0,
        succeeded ==> attempts.len() > 0 && attempts.last().1,
{
    let t = tried_indices(attempts);
    let pi = present_indices(present);
    if !succeeded {
        assert forall|k: int| 0 <= k < present.len() && #[trigger] present[k] implies exists|j: int|
            0 <= j < attempts.len() && attempts[j].0 == k && !attempts[j].1 by {
            lemma_present_index_listed(present, k);
            let j = choose|j: int| 0 <= j < pi.len() && pi[j] == k;
            assert(t[j] == attempts[j].0);
            if j < attempts.len() - 1 {
                assert(!attempts[j].1);
            } else {
                assert(attempts.last() == attempts[j]);
            }
        }
    }
    if exists|k: int| 0 <= k < present.len() && present[k] {
        let k = choose|k: int| 0 <= k < present.len() && present[k];
        lemma_present_index_listed(present, k);
        if !succeeded {
            assert(t.len() == pi.len());
        }
    }
}

/// Registers the OpenVINO provider library with the runtime environment
/// `env` from the first present candidate path (`present[i]` tells whether
/// `candidates[i]` exists) that loads, trying the present ones in order and
/// stopping at the first success; the ghost result lists the attempts made
/// (candidate index, success). The error names the last candidate that
/// failed, or says that none was present. Whether a library loads is up to
/// the runtime.
pub fn register_with_environment(
    env: &Arc<Environment>,
    candidates: &Vec<String>,
    present: &Vec<bool>,
) -> (r: (Result<ExecutionProviderLibrary, String>, Ghost<Seq<(nat, bool)>>))
    requires
        candidates@.len() == present@.len(),
    ensures
        r.0 is Ok ==> exists|i: int| 0 <= i < present@.len() && present@[i],
        r.0 matches Err(m) ==> match last_present(present@) {
            Some(k) => starts_with(m@, with_colon(candidates@[k]@)),
            None => m@ == no_candidate_message(),
        },
        registration_with_environment(present@, r.1@, r.0 is Ok),
{
    let ghost mut attempts: Seq<(nat, bool)> = Seq::empty();
    let mut last_err = "no candidate plugin paths found".to_owned();
    let n = candidates.len();
    let mut i: usize = 0;
    proof {
        assert(present@.take(0) =~= Seq::<bool>::empty());
        assert(tried_indices(attempts) =~= Seq::<nat>::empty());
    }
    while i < n
        invariant
            n == candidates@.len(),
            n == present@.len(),
            i <= n,
            match last_present(present@.take(i as int)) {
                Some(k) => starts_with(last_err@, with_colon(candidates@[k]@)),
                None => last_err@ == no_candidate_message(),
            },
            tried_indices(attempts) == present_indices(present@.take(i as int)),
            forall|k: int| 0 <= k < attempts.len() ==> !(#[trigger] attempts[k]).1,
        decreases n - i,
    {
        proof {
            lemma_last_present_step(present@, i as int);
            lemma_present_indices_step(present@, i as int);
        }
        if present[i] {
            match ortcalls::register_ep_library(&env, "openvino_ep", candidates[i].as_str()) {
                Ok(handle) => {
                    proof {
                        let before = attempts;
                        attempts = attempts.push((i as nat, true));
                        assert(tried_indices(attempts) =~= tried_indices(before).push(i as nat));
                        lemma_present_indices_prefix(present@, i + 1);
                        assert forall|k: int| 0 <= k < attempts.len() - 1 implies !(
                        #[trigger] attempts[k]).1 by {
                            assert(attempts[k] == before[k]);
                        }
                    }
                    return (Ok(handle), Ghost(attempts));
                },
                Err(e) => {
                    let text = ortcalls::error_text(&e);
                    let head = candidates[i].clone().concat(": ");
                    let msg = head.concat(text.as_str());
                    assert(starts_with(msg@, with_colon(candidates@[i as int]@))) by {
                        assert(msg@.take(with_colon(candidates@[i as int]@).len() as int)
                            =~= with_colon(candidates@[i as int]@));
                    }
                    last_err = msg;
                    proof {
                        let before = attempts;
                        attempts = attempts.push((i as nat, false));
                        assert(tried_indices(attempts) =~= tried_indices(before).push(i as nat));
                        assert forall|k: int| 0 <= k < attempts.len() implies !(
                        #[trigger] attempts[k]).1 by {
                            if k < before.len() {
                                assert(attempts[k] == before[k]);
                            }
                        }
                    }
                },
            }
        }
        i = i + 1;
    }
    proof {
        assert(present@.take(n as int) =~= present@);
        let pi = present_indices(present@);
        assert(pi.take(pi.len() as int) =~= pi);
    }
    (Err(last_err), Ghost(attempts))
}


/// Registers the OpenVINO provider library from the first present candidate
/// path (`present[i]` tells whether `candidates[i]` exists) that loads: gets
/// the runtime environment, reporting its failure, and hands it to
/// `register_with_environment`. The ghost result lists the attempts made
/// (candidate index, success). Whether the environment is available and a
/// library loads is up to the runtime.
pub fn register_openvino_plugin(candidates: &Vec<String>, present: &Vec<bool>) -> (r: (
    Result<ExecutionProviderLibrary, String>,
    Ghost<Seq<(nat, bool)>>,
))
    requires
        candidates@.len() == present@.len(),
    ensures
        r.0 is Ok ==> exists|i: int| 0 <= i < present@.len() && present@[i],
        r.0 matches Err(m) ==> registration_failure(string_views(candidates@), present@, m@),
        registration_attempts(
            present@,
            r.1@,
            r.0 is Ok,
            match r.0 {
                Err(m) => m@,
                Ok(_) => Seq::empty(),
            },
        ),
{
    let env = match ortcalls::current_environment() {
        Ok(env) => env,
        Err(e) => {
            let text = ortcalls::error_text(&e);
            let msg = "Environment::current failed: ".to_owned().concat(text.as_str());
            assert(starts_with(msg@, environment_failure_prefix())) by {
                assert(msg@.take(environment_failure_prefix().len() as int) =~= environment_failure_prefix());
            }
            let ghost none: Seq<(nat, bool)> = Seq::empty();
            proof {
                assert(tried_indices(none) =~= Seq::<nat>::empty());
                assert(present_indices(present@).take(0) =~= Seq::<nat>::empty());
            }
            return (Err(msg), Ghost(none));
        },
    };
    let r = register_with_environment(&env, candidates, present);
    proof {
        if r.0 is Err {
            let sv = string_views(candidates@);
            if let Some(k) = last_present(present@) {
                lemma_last_present(present@);
                assert(sv[k] == candidates@[k]@);
            }
        }
    }
    r
}

/// The outcome of registering the OpenVINO provider library, kept for the
/// life of the process: the library handle must stay alive for the provider
/// to stay registered, and registration is attempted once.
pub struct PluginRegistry {
    outcome: Option<Result<ExecutionProviderLibrary, String>>,
    attempts: Ghost<Seq<(nat, bool)>>,
}

impl PluginRegistry {
    /// Registration has been attempted.
    pub closed spec fn attempted(&self) -> bool {
        self.outcome is Some
    }

    /// Registration was attempted and succeeded.
    pub closed spec fn registered(&self) -> bool {
        self.outcome matches Some(Ok(_))
    }

    /// The failure message kept from an attempt that failed.
    pub closed spec fn failure(&self) -> Option<Seq<char>> {
        match self.outcome {
            Some(Err(m)) => Some(m@),
            _ => None,
        }
    }

    /// The library loads tried by the registration: candidate index and
    /// whether it loaded.
    pub closed spec fn attempts(&self) -> Seq<(nat, bool)> {
        self.attempts@
    }

    /// A registry with no attempt made yet.
    pub fn new() -> (r: Self)
        ensures
            !r.attempted(),
            !r.registered(),
            r.failure() is None,
            r.attempts() == Seq::<(nat, bool)>::empty(),
    {
        PluginRegistry { outcome: None, attempts: Ghost(Seq::empty()) }
    }

    /// Whether registration has been attempted.
    pub fn is_attempted(&self) -> (r: bool)
        ensures
            r == self.attempted(),
    {
        self.outcome.is_some()
    }

    /// Registers the provider library on the first call, from `candidates`
    /// as `register_openvino_plugin` does, and keeps the outcome and the
    /// attempts; every later call leaves the registry as it is and answers as
    /// the first did. The answer tells whether the library is registered.
    pub fn ensure_registered(&mut self, candidates: &Vec<String>, present: &Vec<bool>) -> (r: bool)
        requires
            !old(self).attempted() ==> candidates@.len() == present@.len(),
        ensures
            final(self).attempted(),
            r == final(self).registered(),
            !r <==> final(self).failure() is Some,
            old(self).attempted() ==> *final(self) == *old(self),
            !old(self).attempted() && r ==> exists|i: int| 0 <= i < present@.len() && present@[i],
            !old(self).attempted() && !r ==> registration_failure(
                string_views(candidates@),
                present@,
                final(self).failure()->Some_0,
            ),
            !old(self).attempted() ==> registration_attempts(
                present@,
                final(self).attempts(),
                r,
                match final(self).failure() {
                    Some(m) => m,
                    None => Seq::empty(),
                },
            ),
    {
        if self.outcome.is_none() {
            let (outcome, attempts) = register_openvino_plugin(candidates, present);
            self.outcome = Some(outcome);
            self.attempts = attempts;
        }
        match &self.outcome {
            Some(Ok(_)) => true,
            _ => false,
        }
    }

    /// The failure message of a failed registration, if there was one.
    pub fn failure_message(&self) -> (r: Option<String>)
        ensures
            match r {
                Some(m) => self.failure() == Some(m@),
                None => self.failure() is None,
            },
    {
        match &self.outcome {
            Some(Err(m)) => Some(m.clone()),
            _ => None,
        }
    }
}

/// What a discovered device offers to provider selection: the name of its
/// provider (`None` when unreadable) and its hardware kind.
pub struct DeviceInfo {
    pub ep: Option<String>,
    pub kind: HardwareKind,
}

/// The provider name of a device, as characters.
pub open spec fn ep_view(d: DeviceInfo) -> Option<Seq<char>> {
    match d.ep {
        Some(e) => Some(e@),
        None => None,
    }
}

/// `openvino`.
pub open spec fn openvino_marker() -> Seq<char> {
    seq!['o', 'p', 'e', 'n', 'v', 'i', 'n', 'o']
}

/// `ov`.
pub open spec fn ov_marker() -> Seq<char> {
    seq!['o', 'v']
}

/// `auto`.
pub open spec fn auto_marker() -> Seq<char> {
    seq!['a', 'u', 't', 'o']
}

/// A provider name ONNX Runtime can take for device selection: its UTF-8 form
/// is shorter than 128 bytes.
pub open spec fn ep_name_fits(e: Seq<char>) -> bool {
    encode_utf8(e).len() < 128
}

/// A device the OpenVINO plugin may use: its provider name, lower-cased,
/// mentions `openvino`, or `ov` at the start of a word, as in
/// `OVExecutionProvider` or `intel-ov` (so never the `ov` inside `provider`,
/// which every provider name ends with); the name fits device selection; and
/// it is an NPU when the NPU is preferred.
pub open spec fn openvino_candidate(d: DeviceInfo, prefer_npu: bool) -> bool {
    &&& ep_view(d) matches Some(e)
    &&& contains_seq(ascii_lower(e), openvino_marker()) || contains_at_word_start(ascii_lower(e), ov_marker())
    &&& ep_name_fits(e)
    &&& prefer_npu ==> d.kind == HardwareKind::Npu
}

/// A device whose provider name, lower-cased, mentions `auto`.
pub open spec fn auto_device(d: DeviceInfo) -> bool {
    match ep_view(d) {
        Some(e) => contains_seq(ascii_lower(e), auto_marker()),
        None => false,
    }
}

/// A candidate that is not the `auto` one.
pub open spec fn primary_candidate(d: DeviceInfo, prefer_npu: bool) -> bool {
    openvino_candidate(d, prefer_npu) && !auto_device(d)
}

fn lowered_contains(name: &String, marker: &Vec<char>) -> (r: bool)
    ensures
        r == contains_seq(ascii_lower(name@), marker@),
{
    let lowered = ascii_lowercase_chars(name.as_str());
    contains_chars(&lowered, marker)
}

fn lowered_contains_at_word_start(name: &String, marker: &Vec<char>) -> (r: bool)
    ensures
        r == contains_at_word_start(ascii_lower(name@), marker@),
{
    let lowered = ascii_lowercase_chars(name.as_str());
    contains_at_word_start_chars(&lowered, marker)
}

/// `r` is the device the OpenVINO plugin gets among `devices`: the first
/// candidate that is not the `auto` device, else the first candidate; `None`
/// when there is none.
pub open spec fn device_selection(devices: Seq<DeviceInfo>, prefer_npu: bool, r: Option<usize>) -> bool {
    &&& r is None <==> forall|j: int| 0 <= j < devices.len() ==> !openvino_candidate(devices[j], prefer_npu)
    &&& r matches Some(i) ==> i < devices.len() && openvino_candidate(devices[i as int], prefer_npu)
    &&& r matches Some(i) ==> !auto_device(devices[i as int]) ==> forall|j: int|
        0 <= j < i ==> !primary_candidate(devices[j], prefer_npu)
    &&& r matches Some(i) ==> auto_device(devices[i as int]) ==> (forall|j: int|
        0 <= j < devices.len() ==> !primary_candidate(devices[j], prefer_npu)) && (forall|j: int|
        0 <= j < i ==> !openvino_candidate(devices[j], prefer_npu))
}

/// The device the OpenVINO plugin gets among `devices`, as
/// `device_selection` describes it.
pub open spec fn selected_device(devices: Seq<DeviceInfo>, prefer_npu: bool) -> Option<usize> {
    choose|r: Option<usize>| device_selection(devices, prefer_npu, r)
}

/// At most one answer meets `device_selection`.
pub proof fn lemma_device_selection_unique(
    devices: Seq<DeviceInfo>,
    prefer_npu: bool,
    a: Option<usize>,
    b: Option<usize>,
)
    requires
        device_selection(devices, prefer_npu, a),
        device_selection(devices, prefer_npu, b),
    ensures
        a == b,
{
    if let Some(i) = a {
        assert(openvino_candidate(devices[i as int], prefer_npu));
        if let Some(j) = b {
            assert(openvino_candidate(devices[j as int], prefer_npu));
            if i < j {
                if auto_device(devices[j as int]) {
                    assert(!openvino_candidate(devices[i as int], prefer_npu));
                } else {
                    assert(!primary_candidate(devices[i as int], prefer_npu));
                    assert(auto_device(devices[i as int]));
                    assert(!primary_candidate(devices[j as int], prefer_npu));
                }
            } else if j < i {
                if auto_device(devices[i as int]) {
                    assert(!openvino_candidate(devices[j as int], prefer_npu));
                } else {
                    assert(!primary_candidate(devices[j as int], prefer_npu));
                    assert(auto_device(devices[j as int]));
                    assert(!primary_candidate(devices[i as int], prefer_npu));
                }
            }
        }
    } else if let Some(j) = b {
        assert(openvino_candidate(devices[j as int], prefer_npu));
    }
}

/// The one device the OpenVINO plugin gets: the first candidate that is not
/// the `auto` device, else the first candidate; `None` when there is none.
pub fn select_openvino_device(devices: &Vec<DeviceInfo>, prefer_npu: bool) -> (r: Option<usize>)
    ensures
        device_selection(devices@, prefer_npu, r),
        r == selected_device(devices@, prefer_npu),
{
    let openvino: Vec<char> = vec!['o', 'p', 'e', 'n', 'v', 'i', 'n', 'o'];
    let ov: Vec<char> = vec!['o', 'v'];
    let auto: Vec<char> = vec!['a', 'u', 't', 'o'];
    assert(openvino@ =~= openvino_marker());
    assert(ov@ =~= ov_marker());
    assert(auto@ =~= auto_marker());
    let mut first_auto: Option<usize> = None;
    let n = devices.len();
    let mut i: usize = 0;
    while i < n
        invariant
            n == devices@.len(),
            i <= n,
            openvino@ == openvino_marker(),
            ov@ == ov_marker(),
            auto@ == auto_marker(),
            forall|j: int| 0 <= j < i ==> !primary_candidate(devices@[j], prefer_npu),
            match first_auto {
                Some(k) => k < i && openvino_candidate(devices@[k as int], prefer_npu) && auto_device(
                    devices@[k as int],
                ) && forall|j: int| 0 <= j < k ==> !openvino_candidate(devices@[j], prefer_npu),
                None => forall|j: int| 0 <= j < i ==> !openvino_candidate(devices@[j], prefer_npu),
            },
        decreases n - i,
    {
        let d = &devices[i];
        let candidate = match &d.ep {
            Some(e) => {
                let by_kind = !prefer_npu || d.kind == HardwareKind::Npu;
                let fits = e.as_str().as_bytes().len() < 128;
                by_kind && fits && (lowered_contains(e, &openvino) || lowered_contains_at_word_start(e, &ov))
            },
            None => false,
        };
        if candidate {
            let is_auto = match &d.ep {
                Some(e) => lowered_contains(e, &auto),
                None => false,
            };
            if !is_auto {
                proof {
                    assert(device_selection(devices@, prefer_npu, Some(i)));
                    lemma_device_selection_unique(
                        devices@,
                        prefer_npu,
                        Some(i),
                        selected_device(devices@, prefer_npu),
                    );
                }
                return Some(i);
            }
            if first_auto.is_none() {
                first_auto = Some(i);
            }
        }
        i = i + 1;
    }
    proof {
        assert(device_selection(devices@, prefer_npu, first_auto));
        lemma_device_selection_unique(
            devices@,
            prefer_npu,
            first_auto,
            selected_device(devices@, prefer_npu),
        );
    }
    first_auto
}

/// The provider options that pick the OpenVINO device type: `NPU` when the
/// NPU is preferred, else `AUTO`.
pub fn openvino_device_options(prefer_npu: bool) -> (r: Vec<(String, String)>)
    ensures
        r@.len() == 1,
        r@[0].0@ == "OpenVINOExecutionProvider.device_type"@,
        r@[0].1@ == if prefer_npu {
            "NPU"@
        } else {
            "AUTO"@
        },
{
    let key = "OpenVINOExecutionProvider.device_type".to_owned();
    let value = if prefer_npu {
        "NPU".to_owned()
    } else {
        "AUTO".to_owned()
    };
    vec![(key, value)]
}

/// The provider options `openvino_device_options` gives, as characters.
pub open spec fn openvino_options_view(prefer_npu: bool) -> Seq<(Seq<char>, Seq<char>)> {
    seq![
        (
            "OpenVINOExecutionProvider.device_type"@,
            if prefer_npu {
                "NPU"@
            } else {
                "AUTO"@
            },
        ),
    ]
}

/// A list of string pairs as characters.
pub open spec fn option_views(v: Seq<(String, String)>) -> Seq<(Seq<char>, Seq<char>)> {
    v.map_values(|p: (String, String)| (p.0@, p.1@))
}

/// What was read of each described device, in order.
pub open spec fn handle_infos<'e>(handles: Seq<DeviceHandle<'e>>) -> Seq<DeviceInfo> {
    handles.map_values(|h: DeviceHandle<'e>| h.info())
}

/// Gives `builder` the device that `select_openvino_device` picks among the
/// described devices `handles`, with the device type option of
/// `openvino_device_options`, and tells whether it did. With no candidate the
/// builder comes back unchanged with `false`; an error can only come from the
/// runtime taking the picked device.
pub fn apply_selected<'e>(builder: ModelBuilder, handles: Vec<DeviceHandle<'e>>, prefer_npu: bool) -> (r:
    Result<(ModelBuilder, bool), ort::Error>)
    ensures
        device_selection(
            handle_infos(handles@),
            prefer_npu,
            selected_device(handle_infos(handles@), prefer_npu),
        ),
        selected_device(handle_infos(handles@), prefer_npu) is None ==> (r matches Ok((b, applied))
            && b == builder && !applied),
        selected_device(handle_infos(handles@), prefer_npu) matches Some(k) ==> (r matches Ok((b, applied))
            ==> applied && b.config() == (BuilderConfig {
            device: Some(handles@[k as int].info()),
            device_options: Some(openvino_options_view(prefer_npu)),
            ..builder.config()
        })),
{
    let mut infos: Vec<DeviceInfo> = Vec::new();
    let n = handles.len();
    let mut i: usize = 0;
    while i < n
        invariant
            n == handles@.len(),
            i <= n,
            infos@ == handle_infos(handles@).take(i as int),
        decreases n - i,
    {
        let info = handles[i].info_ref();
        let ep = match &info.ep {
            Some(e) => Some(e.clone()),
            None => None,
        };
        infos.push(DeviceInfo { ep, kind: info.kind });
        assert(infos@ =~= handle_infos(handles@).take(i + 1));
        i = i + 1;
    }
    assert(infos@ =~= handle_infos(handles@));
    match select_openvino_device(&infos, prefer_npu) {
        None => Ok((builder, false)),
        Some(k) => {
            let mut handles = handles;
            let handle = handles.swap_remove(k);
            let options = openvino_device_options(prefer_npu);
            let builder = builder.with_device(handle, &options)?;
            assert(option_views(options@) =~= openvino_options_view(prefer_npu));
            Ok((builder, true))
        },
    }
}

/// Registers the OpenVINO plugin through `registry` (once per registry, from
/// `candidates` and their presence), then describes the devices the runtime
/// discovered and hands them to `apply_selected`. The flag tells whether a
/// device was given: then it is the one `device_selection` picks among those
/// devices, recorded in the builder's configuration with its options; without
/// one the builder comes back as it was. What the runtime discovers is up to
/// it.
pub fn apply_devices(
    builder: ModelBuilder,
    prefer_npu: bool,
    registry: &mut PluginRegistry,
    candidates: &Vec<String>,
    present: &Vec<bool>,
) -> (r: Result<(ModelBuilder, bool), ort::Error>)
    requires
        !old(registry).attempted() ==> candidates@.len() == present@.len(),
    ensures
        final(registry).attempted(),
        old(registry).attempted() ==> *final(registry) == *old(registry),
        r matches Ok((b, applied)) ==> !applied ==> b == builder,
        r matches Ok((b, applied)) ==> applied ==> (b.config().device matches Some(d)
            && openvino_candidate(d, prefer_npu) && b.config() == (BuilderConfig {
            device: Some(d),
            device_options: Some(openvino_options_view(prefer_npu)),
            ..builder.config()
        })),
        r matches Ok((b, applied)) ==> exists|found: Seq<DeviceInfo>|
            (#[trigger] selected_device(found, prefer_npu) is None <==> !applied) && (selected_device(
                found,
                prefer_npu,
            ) matches Some(k) ==> b.config().device == Some(found[k as int])),
{
    registry.ensure_registered(candidates, present);
    let env = ortcalls::current_environment()?;
    let devices = ortcalls::environment_devices(&env);
    let handles = ortcalls::describe_devices(devices);
    let ghost found = handle_infos(handles@);
    let r = apply_selected(builder, handles, prefer_npu);
    proof {
        if let Some(k) = selected_device(found, prefer_npu) {
            assert(found[k as int] == handles@[k as int].info());
        }
    }
    r
}

/// With the NPU preferred, only an NPU is ever a candidate for the plugin.
pub proof fn law_preferred_npu_selects_npu(d: DeviceInfo)
    ensures
        openvino_candidate(d, true) ==> d.kind == HardwareKind::Npu,
{
}

} // verus!
