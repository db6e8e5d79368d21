//! The role a session plays in a model pipeline, and how it is inferred from
//! the model's file name.
use vstd::prelude::*;
use crate::paths::{after_last_slash, path_file_name, simple_final_component};
use crate::text::{ascii_lower, ascii_lowercase_chars, contains_chars, contains_seq, occurs_at};

verus! {

/// The part a model plays; `Default` asks for it to be inferred.
#[derive(Clone, Copy, Debug, PartialEq, Eq, Structural)]
pub enum SessionRole {
    Default,
    Encoder,
    Decoder,
}

/// The marker that makes a file name a decoder's: `decoder`.
pub open spec fn decoder_marker() -> Seq<char> {
    seq!['d', 'e', 'c', 'o', 'd', 'e', 'r']
}

/// The role inferred from an optional file name: an explicit role stands;
/// otherwise a name whose ASCII lower-case form contains `decoder` is a
/// decoder, and anything else (no name included) an encoder.
pub open spec fn spec_role_for_name(name: Option<Seq<char>>, explicit: SessionRole) -> SessionRole {
    if explicit != SessionRole::Default {
        explicit
    } else {
        let lowered = match name {
            Some(n) => ascii_lower(n),
            None => Seq::<char>::empty(),
        };
        if contains_seq(lowered, decoder_marker()) {
            SessionRole::Decoder
        } else {
            SessionRole::Encoder
        }
    }
}

/// The role for a model whose file name is `file_name` (`None` when the path
/// has none or it is not UTF-8).
pub fn role_for_file_name(file_name: Option<&str>, explicit: SessionRole) -> (r: SessionRole)
    ensures
        r == spec_role_for_name(
            match file_name {
                Some(n) => Some(n@),
                None => None,
            },
            explicit,
        ),
{
    if explicit != SessionRole::Default {
        return explicit;
    }
    let lowered: Vec<char> = match file_name {
        Some(n) => ascii_lowercase_chars(n),
        None => Vec::new(),
    };
    assert(lowered@ == match file_name {
        Some(n) => ascii_lower(n@),
        None => Seq::<char>::empty(),
    });
    let marker: Vec<char> = vec!['d', 'e', 'c', 'o', 'd', 'e', 'r'];
    assert(marker@ =~= decoder_marker());
    if contains_chars(&lowered, &marker) {
        SessionRole::Decoder
    } else {
        SessionRole::Encoder
    }
}

/// An occurrence in `s` is an occurrence in the lower-cased `s` of the
/// lower-cased piece.
pub proof fn lemma_lower_keeps_occurrence(s: Seq<char>, n: Seq<char>)
    requires
        contains_seq(s, n),
    ensures
        contains_seq(ascii_lower(s), ascii_lower(n)),
{
    let k = choose|k: int| occurs_at(s, n, k);
    assert(ascii_lower(s).subrange(k, k + n.len()) =~= ascii_lower(n)) by {
        assert forall|j: int| 0 <= j < n.len() implies ascii_lower(s).subrange(k, k + n.len())[j]
            == ascii_lower(n)[j] by {
            assert(s.subrange(k, k + n.len())[j] == s[k + j]);
        }
    }
    assert(occurs_at(ascii_lower(s), ascii_lower(n), k));
}

/// The role of the model at `path`: `explicit` unless it is `Default`, in
/// which case the file name (the final path component) decides as
/// `role_for_file_name` states.
pub fn infer_role(path: &str, explicit: SessionRole) -> (r: SessionRole)
    ensures
        explicit != SessionRole::Default ==> r == explicit,
        r != SessionRole::Default,
        explicit == SessionRole::Default && !contains_seq(ascii_lower(path@), decoder_marker())
            ==> r == SessionRole::Encoder,
        simple_final_component(path@) ==> r == spec_role_for_name(
            Some(after_last_slash(path@)),
            explicit,
        ),
{
    let name = path_file_name(path);
    let r = match &name {
        Some(n) => role_for_file_name(Some(n.as_str()), explicit),
        None => role_for_file_name(None, explicit),
    };
    proof {
        if let Some(n) = name {
            if explicit == SessionRole::Default && contains_seq(ascii_lower(n@), decoder_marker()) {
                lemma_lower_keeps_occurrence(path@, n@);
                crate::paths::lemma_contains_trans(
                    ascii_lower(path@),
                    ascii_lower(n@),
                    decoder_marker(),
                );
            }
        }
    }
    r
}

/// Inferring a role again from the same name changes nothing, and the
/// inferred role is never `Default`.
pub proof fn law_role_inference_settles(name: Option<Seq<char>>, explicit: SessionRole)
    ensures
        spec_role_for_name(name, spec_role_for_name(name, explicit)) == spec_role_for_name(
            name,
            explicit,
        ),
        spec_role_for_name(name, explicit) != SessionRole::Default,
{
}

} // verus!
