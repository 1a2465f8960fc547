//! Command rendering: each command variant renders its semantic payload to
//! bytes. Authentication renders by substituting the caller's credential
//! token for the literal placeholder in a JSON template; the template itself
//! comes from an external store (a file, loaded by the embedding program).

use vstd::prelude::*;
use vstd::slice::slice_subrange;
use vstd::slice::slice_to_vec;
use vstd::utf8::valid_utf8;
use vstd::utf8::encode_utf8;
use crate::encoding::bytes_as_utf8;
use crate::error::ViperError;

verus! {

/// The literal placeholder that the authentication template carries in place
/// of the credential token: the bytes of `USER-TOKEN`.
pub open spec fn placeholder() -> Seq<u8> {
    seq![0x55u8, 0x53, 0x45, 0x52, 0x2d, 0x54, 0x4f, 0x4b, 0x45, 0x4e]
}

/// The placeholder as a byte vector.
pub fn placeholder_bytes() -> (r: Vec<u8>)
    ensures
        r@ == placeholder(),
{
    let mut v: Vec<u8> = Vec::new();
    v.push(0x55u8);
    v.push(0x53u8);
    v.push(0x45u8);
    v.push(0x52u8);
    v.push(0x2du8);
    v.push(0x54u8);
    v.push(0x4fu8);
    v.push(0x4bu8);
    v.push(0x45u8);
    v.push(0x4eu8);
    proof {
        assert(v@ =~= placeholder());
    }
    v
}

/// True when `pat` occurs in `text` starting at index `i`.
pub open spec fn occurs_at(text: Seq<u8>, pat: Seq<u8>, i: int) -> bool {
    &&& 0 <= i
    &&& i + pat.len() <= text.len()
    &&& text.subrange(i, i + pat.len() as int) == pat
}

/// The first index at or after `i` where `pat` occurs in `text`.
pub open spec fn first_occurrence_from(text: Seq<u8>, pat: Seq<u8>, i: int) -> Option<int>
    decreases text.len() - i
        when 0 <= i <= text.len() && pat.len() >= 1
{
    if i + pat.len() > text.len() {
        None
    } else if occurs_at(text, pat, i) {
        Some(i)
    } else {
        first_occurrence_from(text, pat, i + 1)
    }
}

/// The first index where `pat` occurs in `text`, if any.
pub open spec fn first_occurrence(text: Seq<u8>, pat: Seq<u8>) -> Option<int> {
    first_occurrence_from(text, pat, 0)
}

/// Decides whether `pat` occurs in `text` at index `i`.
fn match_at(text: &[u8], pat: &[u8], i: usize) -> (r: bool)
    requires
        i + pat@.len() <= text@.len(),
    ensures
        r == occurs_at(text@, pat@, i as int),
{
    let tlen = text.len();
    let mut k: usize = 0;
    while k < pat.len()
        invariant
            tlen == text@.len(),
            i + pat@.len() <= text@.len(),
            k <= pat@.len(),
            forall|j: int| 0 <= j < k ==> text@[i + j] == pat@[j],
        decreases pat@.len() - k,
    {
        if text[i + k] != pat[k] {
            proof {
                assert(text@.subrange(i as int, i + pat@.len() as int)[k as int]
                    == text@[i + k as int]);
            }
            return false;
        }
        k = k + 1;
    }
    proof {
        assert(text@.subrange(i as int, i + pat@.len() as int) =~= pat@);
    }
    true
}

/// Finds the first occurrence of `pat` in `text`.
pub fn find_first(text: &[u8], pat: &[u8]) -> (r: Option<usize>)
    requires
        pat@.len() >= 1,
    ensures
        r is None <==> first_occurrence(text@, pat@) is None,
        r matches Some(i) ==> first_occurrence(text@, pat@) == Some(i as int) && occurs_at(
            text@,
            pat@,
            i as int,
        ),
{
    if pat.len() > text.len() {
        return None;
    }
    let last: usize = text.len() - pat.len();
    let mut i: usize = 0;
    while i <= last
        invariant
            1 <= pat@.len() <= text@.len(),
            text@.len() <= usize::MAX,
            last == text@.len() - pat@.len(),
            i <= last + 1,
            first_occurrence(text@, pat@) == first_occurrence_from(text@, pat@, i as int),
        decreases last + 1 - i,
    {
        if match_at(text, pat, i) {
            return Some(i);
        }
        i = i + 1;
    }
    None
}

/// The bytes of `template` with the placeholder occurrence at `i` replaced by
/// `token`.
pub open spec fn token_payload(template: Seq<u8>, token: Seq<u8>, i: int) -> Seq<u8> {
    template.subrange(0, i) + token + template.subrange(
        i + placeholder().len(),
        template.len() as int,
    )
}

/// What token substitution returns, as a function of the template and token
/// bytes: the payload with the token in place of the placeholder's first
/// occurrence; `TemplateMissing` when the template has no placeholder;
/// `EncodingError` when the substituted payload is not valid UTF-8.
pub open spec fn spec_substitute(template: Seq<u8>, token: Seq<u8>) -> Result<Seq<u8>, ViperError> {
    match first_occurrence(template, placeholder()) {
        None => Err(ViperError::TemplateMissing),
        Some(i) => {
            let p = token_payload(template, token, i);
            if valid_utf8(p) {
                Ok(p)
            } else {
                Err(ViperError::EncodingError)
            }
        },
    }
}

/// A rendered payload, seen as bytes.
pub open spec fn payload_view(r: Result<Vec<u8>, ViperError>) -> Result<Seq<u8>, ViperError> {
    match r {
        Ok(v) => Ok(v@),
        Err(e) => Err(e),
    }
}

/// Law: substitution keeps the template around the placeholder and inserts
/// the token verbatim; the payload's length is the template's plus the
/// token's minus the placeholder's.
pub proof fn lemma_substitution_shape(template: Seq<u8>, token: Seq<u8>, i: int)
    requires
        occurs_at(template, placeholder(), i),
    ensures
        token_payload(template, token, i).len() + placeholder().len() == template.len()
            + token.len(),
        token_payload(template, token, i).subrange(0, i) == template.subrange(0, i),
        token_payload(template, token, i).subrange(i, i + token.len() as int) == token,
        token_payload(template, token, i).subrange(
            i + token.len() as int,
            token_payload(template, token, i).len() as int,
        ) == template.subrange(i + placeholder().len(), template.len() as int),
{
    let p = token_payload(template, token, i);
    assert(p.subrange(0, i) =~= template.subrange(0, i));
    assert(p.subrange(i, i + token.len() as int) =~= token);
    assert(p.subrange(i + token.len() as int, p.len() as int) =~= template.subrange(
        i + placeholder().len(),
        template.len() as int,
    ));
}

/// Law: a found first occurrence is an occurrence, and the earliest one at or
/// after the search start.
pub proof fn lemma_first_occurrence_sound(text: Seq<u8>, pat: Seq<u8>, from: int, i: int)
    requires
        0 <= from <= text.len(),
        pat.len() >= 1,
        first_occurrence_from(text, pat, from) == Some(i),
    ensures
        occurs_at(text, pat, i),
        from <= i,
        forall|j: int| from <= j < i ==> !occurs_at(text, pat, j),
    decreases text.len() - from,
{
    if from + pat.len() > text.len() {
        // first_occurrence_from would be None here
    } else if occurs_at(text, pat, from) {
        // the occurrence at the search start is the one returned
    } else {
        lemma_first_occurrence_sound(text, pat, from + 1, i);
    }
}

/// Law: when no first occurrence is found, there is none at or after the
/// search start.
pub proof fn lemma_first_occurrence_complete(text: Seq<u8>, pat: Seq<u8>, from: int)
    requires
        0 <= from <= text.len(),
        pat.len() >= 1,
        first_occurrence_from(text, pat, from) is None,
    ensures
        forall|j: int| from <= j ==> !occurs_at(text, pat, j),
    decreases text.len() - from,
{
    if from + pat.len() > text.len() {
        // nothing at or after `from` leaves room for `pat`
    } else {
        lemma_first_occurrence_complete(text, pat, from + 1);
    }
}

/// Law: a successful substitution carries the token verbatim in place of an
/// occurrence of the placeholder, and its byte length is the template's plus
/// the token's minus the placeholder's.
pub proof fn lemma_substitute_ok_shape(template: Seq<u8>, token: Seq<u8>)
    requires
        spec_substitute(template, token) is Ok,
    ensures
        spec_substitute(template, token)->Ok_0.len() + placeholder().len() == template.len()
            + token.len(),
        exists|i: int|
            #[trigger] occurs_at(template, placeholder(), i) && spec_substitute(template, token)->Ok_0
                == token_payload(template, token, i),
{
    let i = first_occurrence(template, placeholder())->Some_0;
    lemma_first_occurrence_sound(template, placeholder(), 0, i);
    lemma_substitution_shape(template, token, i);
    assert(occurs_at(template, placeholder(), i) && spec_substitute(template, token)->Ok_0
        == token_payload(template, token, i));
}

/// Substitutes the credential token for the placeholder's first occurrence in
/// the template, and checks that the result is still valid UTF-8.
pub fn substitute_token(template: &[u8], token: &[u8]) -> (r: Result<Vec<u8>, ViperError>)
    ensures
        payload_view(r) == spec_substitute(template@, token@),
{
    let ph = placeholder_bytes();
    match find_first(template, ph.as_slice()) {
        None => Err(ViperError::TemplateMissing),
        Some(i) => {
            let tlen = template.len();
            let mut out: Vec<u8> = Vec::new();
            out.extend_from_slice(slice_subrange(template, 0, i));
            out.extend_from_slice(token);
            out.extend_from_slice(slice_subrange(template, i + ph.len(), tlen));
            proof {
                assert(out@ =~= token_payload(template@, token@, i as int));
            }
            if bytes_as_utf8(out.as_slice()).is_some() {
                Ok(out)
            } else {
                Err(ViperError::EncodingError)
            }
        },
    }
}

/// The authentication template as handed over by the embedding program; the
/// template store itself (a file) is an external collaborator, so a template
/// that could not be loaded is `None` here.
pub struct TemplateStore {
    pub template: Option<Vec<u8>>,
}

impl TemplateStore {
    /// The stored template, seen as bytes.
    pub open spec fn view_template(&self) -> Option<Seq<u8>> {
        match self.template {
            Some(ref t) => Some(t@),
            None => None,
        }
    }
}

/// What authentication rendering returns, as a function of the stored
/// template and the token bytes.
pub open spec fn spec_render_auth(template: Option<Seq<u8>>, token: Seq<u8>) -> Result<
    Seq<u8>,
    ViperError,
> {
    match template {
        None => Err(ViperError::TemplateMissing),
        Some(t) => spec_substitute(t, token),
    }
}

/// Renders the authentication payload: the caller's token substituted
/// verbatim for the placeholder in the stored JSON template, encoded as
/// UTF-8 bytes.
pub fn render_authentication(store: &TemplateStore, token: &str) -> (r: Result<
    Vec<u8>,
    ViperError,
>)
    ensures
        payload_view(r) == spec_render_auth(store.view_template(), encode_utf8(token@)),
{
    match &store.template {
        None => Err(ViperError::TemplateMissing),
        Some(t) => substitute_token(t.as_slice(), token.as_bytes()),
    }
}

/// Renders a configuration-fetch payload: the scope selector (`all` or a
/// named subset) in its short wire form, the scope's UTF-8 bytes.
pub fn render_config(scope: &str) -> (r: Vec<u8>)
    ensures
        r@ == encode_utf8(scope@),
{
    slice_to_vec(scope.as_bytes())
}

/// A command: a tagged description of one request's semantic payload. The
/// variant names follow the wire keywords they are issued under.
pub enum CommandKind {
    /// Authenticate with the caller's credential token.
    UAUT(String),
    /// Fetch device configuration for a scope (`all` or a named subset).
    UCFG(String),
}

/// Renders a command's payload bytes. Authentication goes through template
/// substitution; a configuration fetch renders its scope selector directly.
pub fn render(cmd: &CommandKind, store: &TemplateStore) -> (r: Result<Vec<u8>, ViperError>)
    ensures
        cmd matches CommandKind::UAUT(tok) ==> payload_view(r) == spec_render_auth(
            store.view_template(),
            encode_utf8(tok@),
        ),
        cmd matches CommandKind::UCFG(scope) ==> payload_view(r) == Ok::<Seq<u8>, ViperError>(
            encode_utf8(scope@),
        ),
{
    match cmd {
        CommandKind::UAUT(tok) => render_authentication(store, tok.as_str()),
        CommandKind::UCFG(scope) => Ok(render_config(scope.as_str())),
    }
}

} // verus!
