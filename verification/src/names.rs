//! Model-name resolution: loosely-formatted user input is normalized and
//! matched against the registry of known local-runtime models, either by the
//! runtime's own identifier (case-insensitively), by the normalized model
//! code, or by its leaf alias.

use vstd::prelude::*;

verus! {

use vstd::string::StrSliceExecFns;
use vstd::string::StringExecFns;
use crate::strutil::{
    is_space,
    char_is_space,
    lower_char,
    char_to_lower,
    lower_seq,
    str_eq_ignore_ascii_case,
    push_char,
};
use crate::errors::{SkypydbError, ErrorKind};

/// A sequence with its leading whitespace removed.
pub open spec fn trim_start_spec(s: Seq<char>) -> Seq<char>
    decreases s.len(),
{
    if s.len() > 0 && is_space(s[0]) {
        trim_start_spec(s.drop_first())
    } else {
        s
    }
}

/// A sequence with its trailing whitespace removed.
pub open spec fn trim_end_spec(s: Seq<char>) -> Seq<char>
    decreases s.len(),
{
    if s.len() > 0 && is_space(s.last()) {
        trim_end_spec(s.drop_last())
    } else {
        s
    }
}

/// A sequence with leading and trailing whitespace removed.
pub open spec fn trim_spec(s: Seq<char>) -> Seq<char> {
    trim_end_spec(trim_start_spec(s))
}

/// Normalization of one character of a model name: underscores become
/// hyphens, ASCII letters are lowered.
pub open spec fn norm_char(c: char) -> char {
    if c == '_' {
        '-'
    } else {
        lower_char(c)
    }
}

/// The normalized form of a model name: trimmed, ASCII-lowercased, with
/// underscores replaced by hyphens.
pub open spec fn normalized_name(s: Seq<char>) -> Seq<char> {
    trim_spec(s).map_values(|c: char| norm_char(c))
}

/// Normalizes a user-supplied model name for fuzzy matching.
pub fn normalize_model_name(model_name: &str) -> (r: String)
    ensures
        r@ == normalized_name(model_name@),
{
    let len = model_name.unicode_len();
    proof {
        assert(model_name@.subrange(0, len as int) =~= model_name@);
    }
    let mut from: usize = 0;
    while from < len && char_is_space(model_name.get_char(from))
        invariant
            len == model_name@.len(),
            from <= len,
            trim_start_spec(model_name@) == trim_start_spec(
                model_name@.subrange(from as int, len as int),
            ),
        decreases len - from,
    {
        proof {
            let sub = model_name@.subrange(from as int, len as int);
            assert(sub.drop_first() =~= model_name@.subrange(from as int + 1, len as int));
        }
        from += 1;
    }
    proof {
        let sub = model_name@.subrange(from as int, len as int);
        assert(trim_start_spec(sub) == sub);
    }
    let mut to: usize = len;
    while to > from && char_is_space(model_name.get_char(to - 1))
        invariant
            len == model_name@.len(),
            from <= to <= len,
            trim_start_spec(model_name@) == model_name@.subrange(from as int, len as int),
            trim_spec(model_name@) == trim_end_spec(model_name@.subrange(from as int, to as int)),
        decreases to,
    {
        proof {
            let sub = model_name@.subrange(from as int, to as int);
            assert(sub.drop_last() =~= model_name@.subrange(from as int, to as int - 1));
        }
        to -= 1;
    }
    proof {
        let sub = model_name@.subrange(from as int, to as int);
        assert(trim_end_spec(sub) == sub);
    }
    let ghost trimmed = model_name@.subrange(from as int, to as int);
    let mut r = String::new();
    let mut i: usize = from;
    while i < to
        invariant
            len == model_name@.len(),
            from <= i <= to <= len,
            r@ == model_name@.subrange(from as int, i as int).map_values(
                |c: char| norm_char(c),
            ),
        decreases to - i,
    {
        let c = model_name.get_char(i);
        let n = if c == '_' {
            '-'
        } else {
            char_to_lower(c)
        };
        push_char(&mut r, n);
        proof {
            assert(model_name@.subrange(from as int, i as int + 1).map_values(
                |c: char| norm_char(c),
            ) =~= model_name@.subrange(from as int, i as int).map_values(
                |c: char| norm_char(c),
            ).push(norm_char(model_name@[i as int])));
        }
        i += 1;
    }
    proof {
        assert(trimmed =~= model_name@.subrange(from as int, to as int));
    }
    r
}

/// The segment of a sequence after its last `/`, or the whole sequence when
/// no `/` occurs in it.
pub open spec fn after_last_slash(s: Seq<char>) -> Seq<char>
    decreases s.len(),
{
    if s.len() == 0 {
        s
    } else if s.last() == '/' {
        Seq::empty()
    } else {
        after_last_slash(s.drop_last()).push(s.last())
    }
}

/// A sequence with every trailing `-onnx` suffix removed.
pub open spec fn onnx_suffix() -> Seq<char> {
    seq!['-', 'o', 'n', 'n', 'x']
}

/// Repeatedly strips a trailing `-onnx` from a sequence.
pub open spec fn strip_onnx(s: Seq<char>) -> Seq<char>
    decreases s.len(),
{
    if s.len() >= 5 && s.subrange(s.len() - 5, s.len() as int) == onnx_suffix() {
        strip_onnx(s.subrange(0, s.len() - 5))
    } else {
        s
    }
}

/// The leaf alias of a model code: the part after the last path separator,
/// with any trailing `-onnx` suffix stripped.
pub open spec fn leaf_alias(s: Seq<char>) -> Seq<char> {
    strip_onnx(after_last_slash(s))
}

/// Computes the leaf alias of a model code.
pub fn model_leaf_alias(model_code: &str) -> (r: String)
    ensures
        r@ == leaf_alias(model_code@),
{
    let len = model_code.unicode_len();
    proof {
        assert(model_code@.subrange(0, len as int) =~= model_code@);
        assert(model_code@.subrange(len as int, len as int) =~= Seq::<char>::empty());
        assert(after_last_slash(model_code@) + Seq::<char>::empty() =~= after_last_slash(
            model_code@,
        ));
    }
    // find the start of the last path segment
    let mut start: usize = len;
    while start > 0 && model_code.get_char(start - 1) != '/'
        invariant
            len == model_code@.len(),
            start <= len,
            after_last_slash(model_code@) == after_last_slash(
                model_code@.subrange(0, start as int),
            ) + model_code@.subrange(start as int, len as int),
        decreases start,
    {
        proof {
            let sub = model_code@.subrange(0, start as int);
            assert(sub.drop_last() =~= model_code@.subrange(0, start as int - 1));
            assert(after_last_slash(sub) + model_code@.subrange(start as int, len as int)
                =~= after_last_slash(sub.drop_last()) + model_code@.subrange(
                start as int - 1,
                len as int,
            ));
        }
        start -= 1;
    }
    proof {
        let sub = model_code@.subrange(0, start as int);
        assert(after_last_slash(sub) =~= Seq::<char>::empty());
        assert(after_last_slash(model_code@) =~= model_code@.subrange(start as int, len as int));
    }
    // repeatedly strip a trailing "-onnx"
    let to = strip_onnx_end(model_code, start, len);
    let r = model_code.substring_char(start, to);
    let owned = r.to_owned();
    owned
}

/// One entry of the local runtime's model registry: the identifier its own
/// parser recognizes, and the registered model code.
pub struct ModelDescriptor {
    pub ident: String,
    pub code: String,
}

/// Whether a requested name hits a descriptor on the fast path: an
/// ASCII-case-insensitive match of the runtime's own identifier.
pub open spec fn ident_match(name: Seq<char>, d: ModelDescriptor) -> bool {
    lower_seq(d.ident@) == lower_seq(name)
}

/// Whether a normalized requested name matches a descriptor's code, either
/// exactly after normalization or through the leaf alias.
pub open spec fn code_match(norm_req: Seq<char>, d: ModelDescriptor) -> bool {
    normalized_name(d.code@) == norm_req || leaf_alias(normalized_name(d.code@)) == leaf_alias(
        norm_req,
    )
}

/// The conditions under which resolution answers index `i` for a requested
/// name: the first identifier match wins; only when no identifier matches,
/// the first code match (exact normalized or leaf alias) wins.
pub open spec fn resolution_ok(name: Seq<char>, registry: Seq<ModelDescriptor>, i: int) -> bool {
    &&& normalized_name(name).len() > 0
    &&& 0 <= i < registry.len()
    &&& {
        ||| (ident_match(name, registry[i]) && forall|j: int|
            0 <= j < i ==> !ident_match(name, registry[j]))
        ||| ((forall|j: int| 0 <= j < registry.len() ==> !ident_match(name, registry[j]))
            && code_match(normalized_name(name), registry[i]) && forall|j: int|
            0 <= j < i ==> !code_match(normalized_name(name), registry[j]))
    }
}

/// The message rejecting a blank model name.
pub open spec fn empty_model_name_message() -> Seq<char> {
    "Model name cannot be empty for sentence-transformers provider."@
}

/// The message rejecting an unrecognized model name, listing example
/// accepted forms.
pub open spec fn unsupported_model_message(name: Seq<char>) -> Seq<char> {
    "Unsupported sentence-transformers model '"@ + name
        + "'. Use a model name from fastembed (for example: 'all-MiniLM-L6-v2', 'BAAI/bge-base-en-v1.5', or 'Qdrant/all-MiniLM-L6-v2-onnx')."@
}

/// Resolves a user-supplied model name against the registry: blank names are
/// rejected; then the first descriptor whose identifier matches the raw name
/// case-insensitively wins; then the first whose code matches the normalized
/// name exactly or by leaf alias; otherwise the name is rejected with the
/// example forms.
pub fn resolve_model(model_name: &str, registry: &Vec<ModelDescriptor>) -> (r: Result<
    usize,
    SkypydbError,
>)
    ensures
        match r {
            Ok(i) => resolution_ok(model_name@, registry@, i as int),
            Err(e) => {
                &&& e.kind == ErrorKind::Validation
                &&& if normalized_name(model_name@).len() == 0 {
                    e.message@ == empty_model_name_message()
                } else {
                    &&& e.message@ == unsupported_model_message(model_name@)
                    &&& forall|j: int|
                        0 <= j < registry@.len() ==> !ident_match(model_name@, registry@[j])
                            && !code_match(normalized_name(model_name@), registry@[j])
                }
            },
        },
{
    let normalized_requested = normalize_model_name(model_name);
    if normalized_requested.unicode_len() == 0 {
        return Err(SkypydbError::validation(String::from_str(
            "Model name cannot be empty for sentence-transformers provider.",
        )));
    }
    let n = registry.len();
    let mut i: usize = 0;
    while i < n
        invariant
            n == registry@.len(),
            i <= n,
            normalized_name(model_name@).len() > 0,
            forall|j: int| 0 <= j < i ==> !ident_match(model_name@, registry@[j]),
        decreases n - i,
    {
        if str_eq_ignore_ascii_case(registry[i].ident.as_str(), model_name) {
            return Ok(i);
        }
        i += 1;
    }
    let requested_leaf = model_leaf_alias(normalized_requested.as_str());
    let mut k: usize = 0;
    while k < n
        invariant
            n == registry@.len(),
            k <= n,
            normalized_name(model_name@).len() > 0,
            normalized_requested@ == normalized_name(model_name@),
            requested_leaf@ == leaf_alias(normalized_name(model_name@)),
            forall|j: int| 0 <= j < n ==> !ident_match(model_name@, registry@[j]),
            forall|j: int| 0 <= j < k ==> !code_match(normalized_name(model_name@), registry@[j]),
        decreases n - k,
    {
        let normalized_code = normalize_model_name(registry[k].code.as_str());
        if normalized_code.eq(&normalized_requested) {
            return Ok(k);
        }
        let code_leaf = model_leaf_alias(normalized_code.as_str());
        if code_leaf.eq(&requested_leaf) {
            return Ok(k);
        }
        k += 1;
    }
    let mut message = String::from_str("Unsupported sentence-transformers model '");
    message.append(model_name);
    message.append(
        "'. Use a model name from fastembed (for example: 'all-MiniLM-L6-v2', 'BAAI/bge-base-en-v1.5', or 'Qdrant/all-MiniLM-L6-v2-onnx').",
    );
    Err(SkypydbError::validation(message))
}

/// Whether the five characters of a string ending at `to` spell `-onnx`.
fn ends_onnx_at(s: &str, to: usize) -> (r: bool)
    requires
        5 <= to <= s@.len(),
    ensures
        r == (s@.subrange(to - 5, to as int) == onnx_suffix()),
{
    let c0 = s.get_char(to - 5);
    let c1 = s.get_char(to - 4);
    let c2 = s.get_char(to - 3);
    let c3 = s.get_char(to - 2);
    let c4 = s.get_char(to - 1);
    let r = c0 == '-' && c1 == 'o' && c2 == 'n' && c3 == 'n' && c4 == 'x';
    proof {
        let sub = s@.subrange(to - 5, to as int);
        if r {
            assert(sub =~= onnx_suffix());
        } else {
            assert(sub != onnx_suffix()) by {
                if sub == onnx_suffix() {
                    assert(sub[0] == '-' && sub[1] == 'o' && sub[2] == 'n' && sub[3] == 'n'
                        && sub[4] == 'x');
                }
            }
        }
    }
    r
}

/// The least end index reached by repeatedly stripping a trailing `-onnx`
/// from the segment `start..to` of a string.
fn strip_onnx_end(s: &str, start: usize, to: usize) -> (r: usize)
    requires
        start <= to <= s@.len(),
    ensures
        start <= r <= to,
        strip_onnx(s@.subrange(start as int, to as int)) == s@.subrange(start as int, r as int),
    decreases to,
{
    let ghost sub = s@.subrange(start as int, to as int);
    if to - start >= 5 && ends_onnx_at(s, to) {
        proof {
            assert(sub.subrange(sub.len() - 5, sub.len() as int) =~= s@.subrange(
                to - 5,
                to as int,
            ));
            assert(sub.subrange(0, sub.len() - 5) =~= s@.subrange(start as int, to as int - 5));
        }
        strip_onnx_end(s, start, to - 5)
    } else {
        proof {
            if sub.len() >= 5 {
                assert(sub.subrange(sub.len() - 5, sub.len() as int) =~= s@.subrange(
                    to - 5,
                    to as int,
                ));
            }
            assert(strip_onnx(sub) == sub);
        }
        to
    }
}

} // verus!
