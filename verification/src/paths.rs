//! Path handling through `std::path`: the final component of a path and
//! joining a file name onto a directory, plus the model-file naming rules.
use vstd::prelude::*;
use crate::text::{contains_seq, lemma_concat_lacks, occurs_at};

verus! {

/// A single plain path component: non-empty, no separator or drive colon, and
/// neither `.` nor `..`.
pub open spec fn plain_component(f: Seq<char>) -> bool {
    &&& f.len() > 0
    &&& !f.contains('/')
    &&& !f.contains('\\')
    &&& !f.contains(':')
    &&& f != seq!['.']
    &&& f != seq!['.', '.']
}

/// `suffix` is the tail of `s`.
pub open spec fn ends_with(s: Seq<char>, suffix: Seq<char>) -> bool {
    suffix.len() <= s.len() && s.subrange(s.len() - suffix.len(), s.len() as int) == suffix
}

/// The part of `p` after its last `/` (all of `p` when it has none).
pub open spec fn after_last_slash(p: Seq<char>) -> Seq<char>
    decreases p.len(),
{
    if p.len() == 0 {
        p
    } else if p.last() == '/' {
        Seq::empty()
    } else {
        after_last_slash(p.drop_last()).push(p.last())
    }
}

/// A path separator on some platform: `/` or `\`.
pub open spec fn is_separator(c: char) -> bool {
    c == '/' || c == '\\'
}

/// `p` begins with two separators, the start of a network or device path on
/// Windows.
pub open spec fn starts_with_two_separators(p: Seq<char>) -> bool {
    p.len() >= 2 && is_separator(p[0]) && is_separator(p[1])
}

/// The final component of `p` is read the same on every platform: what
/// follows the last `/` is a plain name, and `p` does not begin like a
/// network, device or verbatim path.
pub open spec fn simple_final_component(p: Seq<char>) -> bool {
    plain_component(after_last_slash(p)) && !starts_with_two_separators(p)
}

/// `std::path::Path::file_name` of `path`, as a `String`.
///
/// A returned name is a piece of `path`, and outside verbatim paths it holds
/// no `/`. Where the path ends in `/` followed by a plain name (or is a plain
/// name) and does not begin with two separators, that name is the file name
/// on every platform. Other paths depend on the platform's rules and are not
/// stated further.
#[verifier::external_body]
pub(crate) fn path_file_name(path: &str) -> (r: Option<String>)
    ensures
        r matches Some(n) ==> contains_seq(path@, n@),
        r matches Some(n) ==> !verbatim_prefixed(path@) ==> !n@.contains('/'),
        simple_final_component(path@) ==> (r is Some && r->Some_0@ == after_last_slash(path@)),
{
    std::path::Path::new(path).file_name().and_then(|n| n.to_str()).map(|n| n.to_string())
}

/// `d` starts with the Windows verbatim prefix `\\?\`, under which joining
/// also normalizes the path.
pub open spec fn verbatim_prefixed(d: Seq<char>) -> bool {
    d.len() >= 4 && d.take(4) == seq!['\\', '\\', '?', '\\']
}

/// `r` is `dir` extended by `file`, with no separator or one of `/`, `\\`
/// between them.
pub open spec fn joined_as(r: Seq<char>, dir: Seq<char>, file: Seq<char>) -> bool {
    ||| r == dir + file
    ||| r == dir + seq!['/'] + file
    ||| r == dir + seq!['\\'] + file
}

/// A directory after which joining always puts a separator: not empty, not
/// ending in a separator, not a bare drive like `C:`, and not verbatim.
pub open spec fn separated_dir(d: Seq<char>) -> bool {
    &&& d.len() > 0
    &&& !is_separator(d.last())
    &&& !(d.len() == 2 && d[1] == ':')
    &&& !verbatim_prefixed(d)
}

/// `r` is `dir`, a separator (`/` or `\`), then `file`.
pub open spec fn separator_joined(r: Seq<char>, dir: Seq<char>, file: Seq<char>) -> bool {
    r == dir + seq!['/'] + file || r == dir + seq!['\\'] + file
}

/// A relative path that names no drive: not empty, not starting with a
/// separator, and without a colon.
pub open spec fn relative_name(f: Seq<char>) -> bool {
    f.len() > 0 && !is_separator(f[0]) && !f.contains(':')
}

/// `std::path::Path::join` of `dir` and `file`, as a `String`.
///
/// Joining a relative `file` that names no drive extends `dir` with it. After
/// a directory that does not end in a separator (and is not a bare drive or
/// verbatim) one separator comes between them; which one, `/` or `\`, is the
/// platform's. Otherwise none or one does, as `dir` ends. Under a verbatim
/// prefix, where joining normalizes `file`, only a plain file name at the end
/// is stated.
#[verifier::external_body]
pub(crate) fn path_join(dir: &str, file: &str) -> (r: String)
    ensures
        plain_component(file@) ==> ends_with(r@, file@),
        relative_name(file@) && !verbatim_prefixed(dir@) ==> joined_as(r@, dir@, file@),
        relative_name(file@) && separated_dir(dir@) ==> separator_joined(r@, dir@, file@),
{
    std::path::Path::new(dir).join(file).to_string_lossy().into_owned()
}

/// If `n` occurs in `path`, then anything occurring in `n` occurs in `path`.
pub proof fn lemma_contains_trans(path: Seq<char>, n: Seq<char>, pat: Seq<char>)
    requires
        contains_seq(path, n),
        contains_seq(n, pat),
    ensures
        contains_seq(path, pat),
{
    let k = choose|k: int| occurs_at(path, n, k);
    let i = choose|i: int| occurs_at(n, pat, i);
    assert(path.subrange(k + i, k + i + pat.len()) =~= n.subrange(i, i + pat.len()));
    assert(occurs_at(path, pat, k + i));
}

/// How far a model is quantized; each level but `FP32` has its own file.
#[derive(Clone, Copy, Debug, PartialEq, Eq, Structural)]
pub enum Quantization {
    FP32,
    FP16,
    Int8,
    Int4,
}

/// The file-name tag of a quantization level; `FP32` has none.
pub open spec fn spec_quantization_suffix(q: Quantization) -> Option<Seq<char>> {
    match q {
        Quantization::FP32 => None,
        Quantization::FP16 => Some(seq!['f', 'p', '1', '6']),
        Quantization::Int8 => Some(seq!['i', 'n', 't', '8']),
        Quantization::Int4 => Some(seq!['i', 'n', 't', '4']),
    }
}

/// The model file extension, `.onnx`.
pub open spec fn onnx_extension() -> Seq<char> {
    seq!['.', 'o', 'n', 'n', 'x']
}

/// `<name>.onnx`.
pub open spec fn plain_model_file(name: Seq<char>) -> Seq<char> {
    name + onnx_extension()
}

/// `<name>.<suffix>.onnx`.
pub open spec fn quantized_model_file(name: Seq<char>, suffix: Seq<char>) -> Seq<char> {
    name + seq!['.'] + suffix + onnx_extension()
}

/// The file that is loaded: the quantized one when the level has a tag and
/// that file is present, else `<name>.onnx`.
pub open spec fn chosen_model_file(name: Seq<char>, q: Quantization, quantized_present: bool) -> Seq<
    char,
> {
    match spec_quantization_suffix(q) {
        Some(suffix) => if quantized_present {
            quantized_model_file(name, suffix)
        } else {
            plain_model_file(name)
        },
        None => plain_model_file(name),
    }
}

/// No path separator and no drive colon.
pub open spec fn free_of_separators(s: Seq<char>) -> bool {
    !s.contains('/') && !s.contains('\\') && !s.contains(':')
}

/// The file-name tag of `q`.
pub fn quantization_suffix(q: &Quantization) -> (r: Option<&'static str>)
    ensures
        match r {
            Some(t) => spec_quantization_suffix(*q) == Some(t@),
            None => spec_quantization_suffix(*q) is None,
        },
{
    proof {
        reveal_strlit("fp16");
        reveal_strlit("int8");
        reveal_strlit("int4");
    }
    match q {
        Quantization::FP32 => None,
        Quantization::FP16 => Some("fp16"),
        Quantization::Int8 => Some("int8"),
        Quantization::Int4 => Some("int4"),
    }
}

proof fn lemma_concat_free(a: Seq<char>, b: Seq<char>)
    requires
        free_of_separators(a),
        free_of_separators(b),
    ensures
        free_of_separators(a + b),
{
    assert forall|c: char| (a + b).contains(c) implies a.contains(c) || b.contains(c) by {
        let k = choose|k: int| 0 <= k < (a + b).len() && (a + b)[k] == c;
        if k < a.len() {
            assert(a[k] == c);
        } else {
            assert(b[k - a.len()] == c);
        }
    }
}

/// A model file built from a name free of separators is a plain component.
pub proof fn lemma_model_file_plain(name: Seq<char>, q: Quantization, quantized_present: bool)
    requires
        free_of_separators(name),
    ensures
        plain_component(chosen_model_file(name, q, quantized_present)),
{
    let ext = onnx_extension();
    assert(free_of_separators(ext)) by {
        assert forall|c: char| ext.contains(c) implies c != '/' && c != '\\' && c != ':' by {
            let k = choose|k: int| 0 <= k < ext.len() && ext[k] == c;
        }
    }
    let f = chosen_model_file(name, q, quantized_present);
    match spec_quantization_suffix(q) {
        Some(sfx) => {
            if quantized_present {
                assert(free_of_separators(sfx)) by {
                    assert forall|c: char| sfx.contains(c) implies c != '/' && c != '\\' && c
                        != ':' by {
                        let k = choose|k: int| 0 <= k < sfx.len() && sfx[k] == c;
                    }
                }
                let dot = seq!['.'];
                assert(free_of_separators(dot)) by {
                    assert forall|c: char| dot.contains(c) implies c != '/' && c != '\\' && c
                        != ':' by {
                        let k = choose|k: int| 0 <= k < dot.len() && dot[k] == c;
                    }
                }
                lemma_concat_free(name, dot);
                lemma_concat_free(name + dot, sfx);
                lemma_concat_free(name + dot + sfx, ext);
            } else {
                lemma_concat_free(name, ext);
            }
        },
        None => {
            lemma_concat_free(name, ext);
        },
    }
    assert(f.len() >= 5);
}

/// A model name that keeps its file a relative path naming no drive: it does
/// not start with a separator and holds no colon.
pub open spec fn relative_stem(name: Seq<char>) -> bool {
    (name.len() == 0 || !is_separator(name[0])) && !name.contains(':')
}

/// A model file built from such a name is relative and names no drive.
pub proof fn lemma_model_file_relative(name: Seq<char>, q: Quantization, quantized_present: bool)
    requires
        relative_stem(name),
    ensures
        relative_name(chosen_model_file(name, q, quantized_present)),
{
    let ext = onnx_extension();
    assert(!ext.contains(':')) by {
        if ext.contains(':') {
            let k = choose|k: int| 0 <= k < ext.len() && ext[k] == ':';
        }
    }
    let dot = seq!['.'];
    assert(!dot.contains(':')) by {
        if dot.contains(':') {
            let k = choose|k: int| 0 <= k < dot.len() && dot[k] == ':';
        }
    }
    let f = chosen_model_file(name, q, quantized_present);
    match spec_quantization_suffix(q) {
        Some(sfx) => {
            if quantized_present {
                assert(!sfx.contains(':')) by {
                    if sfx.contains(':') {
                        let k = choose|k: int| 0 <= k < sfx.len() && sfx[k] == ':';
                    }
                }
                lemma_concat_lacks(name, dot, ':');
                lemma_concat_lacks(name + dot, sfx, ':');
                lemma_concat_lacks(name + dot + sfx, ext, ':');
            } else {
                lemma_concat_lacks(name, ext, ':');
            }
        },
        None => {
            lemma_concat_lacks(name, ext, ':');
        },
    }
    if name.len() > 0 {
        assert(f[0] == name[0]);
    } else {
        assert(f[0] == '.');
    }
}

/// The name of the model file to load for `name` at level `quantization`,
/// given whether the quantized file is present.
pub fn model_file_name(name: &str, quantization: &Quantization, quantized_present: bool) -> (r:
    String)
    ensures
        r@ == chosen_model_file(name@, *quantization, quantized_present),
{
    proof {
        reveal_strlit(".onnx");
        reveal_strlit(".");
    }
    let base = name.to_owned();
    match quantization_suffix(quantization) {
        Some(suffix) => {
            if quantized_present {
                let with_dot = base.concat(".");
                let tagged = with_dot.concat(suffix);
                tagged.concat(".onnx")
            } else {
                base.concat(".onnx")
            }
        },
        None => base.concat(".onnx"),
    }
}

/// The path of the quantized model file for `name` in `dir`; `None` for `FP32`,
/// which has no quantized file.
pub fn quantized_model_path(dir: &str, name: &str, quantization: &Quantization) -> (r: Option<
    String,
>)
    ensures
        r is None <==> *quantization == Quantization::FP32,
        r matches Some(p) ==> free_of_separators(name@) ==> ends_with(
            p@,
            chosen_model_file(name@, *quantization, true),
        ),
        r matches Some(p) ==> relative_stem(name@) && !verbatim_prefixed(dir@) ==> joined_as(
            p@,
            dir@,
            chosen_model_file(name@, *quantization, true),
        ),
        r matches Some(p) ==> relative_stem(name@) && separated_dir(dir@) ==> separator_joined(
            p@,
            dir@,
            chosen_model_file(name@, *quantization, true),
        ),
{
    if *quantization == Quantization::FP32 {
        return None;
    }
    let file = model_file_name(name, quantization, true);
    proof {
        if free_of_separators(name@) {
            lemma_model_file_plain(name@, *quantization, true);
        }
        if relative_stem(name@) {
            lemma_model_file_relative(name@, *quantization, true);
        }
    }
    Some(path_join(dir, file.as_str()))
}

/// The model path to load for `name` in `dir`: the quantized file when the
/// level has one and it is present (`quantized_present`, which the caller
/// learns by looking for `quantized_model_path`), else `<name>.onnx`.
pub fn resolve_model_path(dir: &str, name: &str, quantization: &Quantization, quantized_present: bool)
    -> (r: String)
    ensures
        free_of_separators(name@) ==> ends_with(
            r@,
            chosen_model_file(name@, *quantization, quantized_present),
        ),
        relative_stem(name@) && !verbatim_prefixed(dir@) ==> joined_as(
            r@,
            dir@,
            chosen_model_file(name@, *quantization, quantized_present),
        ),
        relative_stem(name@) && separated_dir(dir@) ==> separator_joined(
            r@,
            dir@,
            chosen_model_file(name@, *quantization, quantized_present),
        ),
{
    let file = model_file_name(name, quantization, quantized_present);
    proof {
        if free_of_separators(name@) {
            lemma_model_file_plain(name@, *quantization, quantized_present);
        }
        if relative_stem(name@) {
            lemma_model_file_relative(name@, *quantization, quantized_present);
        }
    }
    path_join(dir, file.as_str())
}

/// `FP32` always loads `<name>.onnx`, whatever is present.
pub proof fn law_fp32_loads_plain_model(name: Seq<char>, quantized_present: bool)
    ensures
        chosen_model_file(name, Quantization::FP32, quantized_present) == plain_model_file(name),
{
}

/// A quantized file that is not present falls back to `<name>.onnx`.
pub proof fn law_missing_quantized_falls_back(name: Seq<char>, q: Quantization)
    ensures
        chosen_model_file(name, q, false) == plain_model_file(name),
{
}

} // verus!
