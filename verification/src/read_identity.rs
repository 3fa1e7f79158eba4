//! Read-path per-user identity and the platform's read-scope contract.
//!
//! The role-scoped read routes answer from the identity the CALLER presents.
//! The platform stamps `X-Axonflow-Read-Scope` on every scoped read to say
//! which scope the answer was computed under; without it, "no rows" and "no
//! identity" are the same bytes on the wire.

use vstd::prelude::*;
use vstd::utf8::encode_utf8;
use crate::text::{append, ascii_lowercase, ascii_lowercase_chars, chars_of, debug_quote, debug_quoted, decimal, is_white_space, owned, seq_eq, string_of, to_decimal, trim, trim_chars, trim_end, trim_start};

verus! {

/// The request header carrying the per-user identity.
pub const HEADER_USER_TOKEN: &'static str = "X-User-Token";

/// The response header the platform stamps on scoped reads.
pub const HEADER_READ_SCOPE: &'static str = "X-Axonflow-Read-Scope";

/// The scope the platform computed a role-scoped read under.
#[derive(Debug, Clone, PartialEq, Eq)]
pub enum ReadScope {
    /// No `X-Axonflow-Read-Scope` header at all. Distinct from `NoIdentity`.
    Absent,
    /// Tenant-wide.
    Tenant,
    /// Narrowed to the rows attributed to the identity presented.
    OwnRows,
    /// The platform RESOLVED no per-user identity: zero rows by construction.
    NoIdentity,
    /// A scope this build does not recognise, trimmed and lower-cased.
    Other(String),
}

/// The normalised text of a header value: trimmed, then ASCII lower-cased.
pub open spec fn normalized(raw: Seq<char>) -> Seq<char> {
    ascii_lowercase(trim(raw))
}

/// The scope a header value names, by its normalised text: which named
/// scope, or `Other` with the normalised text.
pub open spec fn scope_named(v: Seq<char>, r: ReadScope) -> bool {
    if v.len() == 0 {
        r is Absent
    } else if v == "tenant"@ {
        r is Tenant
    } else if v == "own-rows"@ {
        r is OwnRows
    } else if v == "none"@ {
        r is NoIdentity
    } else {
        r is Other && r->Other_0@ == v
    }
}

/// How a scope renders.
pub open spec fn scope_text(s: ReadScope) -> Seq<char> {
    match s {
        ReadScope::Absent => Seq::empty(),
        ReadScope::Tenant => "tenant"@,
        ReadScope::OwnRows => "own-rows"@,
        ReadScope::NoIdentity => "none"@,
        ReadScope::Other(v) => v@,
    }
}

impl ReadScope {
    /// The scope a response header names. Trimmed and lower-cased, so a proxy
    /// that normalises header casing or appends whitespace cannot change the
    /// answer.
    pub fn parse(header: Option<&str>) -> (r: ReadScope)
        ensures
            match header {
                Option::None => r is Absent,
                Some(h) => scope_named(normalized(h@), r),
            },
    {
        match header {
            Option::None => ReadScope::Absent,
            Some(raw) => {
                let cs = chars_of(raw);
                let t = trim_chars(cs.as_slice());
                let v = ascii_lowercase_chars(t.as_slice());
                if v.len() == 0 {
                    ReadScope::Absent
                } else {
                    let s = string_of(v.as_slice());
                    let ss = s.as_str();
                    if crate::text::str_eq(ss, "tenant") {
                        ReadScope::Tenant
                    } else if crate::text::str_eq(ss, "own-rows") {
                        ReadScope::OwnRows
                    } else if crate::text::str_eq(ss, "none") {
                        ReadScope::NoIdentity
                    } else {
                        ReadScope::Other(s)
                    }
                }
            },
        }
    }

    /// How the scope renders: the header value it stands for, or `""` when
    /// there was none.
    pub fn to_string(&self) -> (r: String)
        ensures
            r@ == scope_text(*self),
    {
        match self {
            ReadScope::Absent => String::new(),
            ReadScope::Tenant => owned("tenant"),
            ReadScope::OwnRows => owned("own-rows"),
            ReadScope::NoIdentity => owned("none"),
            ReadScope::Other(v) => v.clone(),
        }
    }
}

/// A role-scoped read whose answer was decided by the caller's identity
/// scope rather than by the data. The presented token is never in it.
#[derive(Debug, Clone, PartialEq, Eq)]
pub struct ReadScopeRefusal {
    /// What was read, e.g. `"decision"`.
    pub resource: String,
    /// The identifier that was read; `None` for a list read.
    pub identifier: Option<String>,
    /// The scope the platform reported.
    pub scope: ReadScope,
    /// The HTTP status the platform answered with.
    pub status: u16,
}

/// What a refusal is about: the resource, and the quoted identifier when
/// there is one.
pub open spec fn refusal_subject(resource: Seq<char>, identifier: Option<Seq<char>>) -> Seq<char> {
    match identifier {
        Some(id) => resource + " "@ + debug_quoted(id),
        Option::None => resource,
    }
}

pub open spec fn identity_missing_text(status: u16, subject: Seq<char>, scope: Seq<char>) -> Seq<char> {
    "HTTP "@ + decimal(status as nat) + ": "@ + subject
        + ": the platform resolved no per-user identity for this read (X-Axonflow-Read-Scope: "@ + scope
        + "), so it returned zero rows by construction and the empty answer says nothing about what exists. Either no identity was presented \u{2014} set AxonFlowConfig::user_token, use the *_as read methods, or derive a client with as_user(..) \u{2014} or the one presented carries an address the platform reserves for shared identities (@axonflow.local, @axonflow.internal), which resolves to nobody. (platform #2922)"@
}

pub open spec fn own_rows_text(status: u16, subject: Seq<char>, scope: Seq<char>) -> Seq<char> {
    "HTTP "@ + decimal(status as nat) + ": "@ + subject
        + " was not found among the rows this identity can see: the platform reports X-Axonflow-Read-Scope: "@ + scope
        + ", so the read was narrowed to the identity's own rows. It is either not attributed to this identity or not there at all \u{2014} the platform answers both the same way ON PURPOSE, so that a miss cannot be used to probe for the existence of another user's rows, and this SDK cannot tell them apart either. A tenant-wide role (admin, owner or policy_admin) reads the whole tenant. (platform #2922)"@
}

impl ReadScopeRefusal {
    pub open spec fn spec_identifier(&self) -> Option<Seq<char>> {
        match self.identifier {
            Some(id) => Some(id@),
            Option::None => Option::None,
        }
    }

    /// Whether the read failed because no per-user identity was RESOLVED.
    pub fn identity_missing(&self) -> (r: bool)
        ensures
            r == (self.scope is NoIdentity),
    {
        matches!(self.scope, ReadScope::NoIdentity)
    }

    /// What the refusal is about.
    pub fn subject(&self) -> (r: String)
        ensures
            r@ == refusal_subject(self.resource@, self.spec_identifier()),
    {
        match &self.identifier {
            Some(id) => {
                let mut s = self.resource.clone();
                append(&mut s, " ");
                let q = debug_quote(id.as_str());
                append(&mut s, q.as_str());
                s
            },
            Option::None => self.resource.clone(),
        }
    }

    /// The diagnosis: why no per-user identity was resolved, or why a miss
    /// under the own-rows scope says nothing about what exists.
    pub open spec fn rendering(&self) -> Seq<char> {
        if self.scope is NoIdentity {
            identity_missing_text(self.status, refusal_subject(self.resource@, self.spec_identifier()), scope_text(self.scope))
        } else {
            own_rows_text(self.status, refusal_subject(self.resource@, self.spec_identifier()), scope_text(self.scope))
        }
    }

    /// The diagnosis, safe to log: it never includes a credential.
    pub fn to_string(&self) -> (r: String)
        ensures
            r@ == self.rendering(),
    {
        let mut r = owned("HTTP ");
        let d = to_decimal(self.status as u64);
        append(&mut r, d.as_str());
        append(&mut r, ": ");
        let subject = self.subject();
        append(&mut r, subject.as_str());
        let scope = self.scope.to_string();
        if self.identity_missing() {
            append(&mut r, ": the platform resolved no per-user identity for this read (X-Axonflow-Read-Scope: ");
            append(&mut r, scope.as_str());
            append(&mut r, "), so it returned zero rows by construction and the empty answer says nothing about what exists. Either no identity was presented \u{2014} set AxonFlowConfig::user_token, use the *_as read methods, or derive a client with as_user(..) \u{2014} or the one presented carries an address the platform reserves for shared identities (@axonflow.local, @axonflow.internal), which resolves to nobody. (platform #2922)");
        } else {
            append(&mut r, " was not found among the rows this identity can see: the platform reports X-Axonflow-Read-Scope: ");
            append(&mut r, scope.as_str());
            append(&mut r, ", so the read was narrowed to the identity's own rows. It is either not attributed to this identity or not there at all \u{2014} the platform answers both the same way ON PURPOSE, so that a miss cannot be used to probe for the existence of another user's rows, and this SDK cannot tell them apart either. A tenant-wide role (admin, owner or policy_admin) reads the whole tenant. (platform #2922)");
        }
        r
    }
}

/// The typed refusal for a scoped read that came back with nothing, or
/// `None` when the scope does not explain the result: only a `none` or
/// `own-rows` scope does.
pub fn read_scope_refusal(resource: &str, identifier: Option<&str>, scope: ReadScope, status: u16) -> (r: Option<ReadScopeRefusal>)
    ensures
        (scope is NoIdentity || scope is OwnRows) ==> r is Some && ({
            let f = r->Some_0;
            &&& f.resource@ == resource@
            &&& f.scope == scope
            &&& f.status == status
            &&& match identifier {
                Some(i) => f.identifier is Some && f.identifier->Some_0@ == i@,
                Option::None => f.identifier is None,
            }
        }),
        !(scope is NoIdentity || scope is OwnRows) ==> r is None,
{
    match scope {
        ReadScope::NoIdentity | ReadScope::OwnRows => {
            let id = match identifier {
                Some(i) => Some(owned(i)),
                Option::None => Option::None,
            };
            Some(ReadScopeRefusal { resource: owned(resource), identifier: id, scope, status })
        },
        _ => Option::None,
    }
}

/// The typed refusal for a scoped read that came back EMPTY under the `none`
/// scope, which could not have returned a row; `None` in every other case.
/// A non-empty page is never turned into an error.
pub fn refuse_vacuous_scoped_page(resource: &str, scope: ReadScope, status: u16, rows: usize) -> (r: Option<ReadScopeRefusal>)
    ensures
        (rows == 0 && scope is NoIdentity) ==> r is Some && ({
            let f = r->Some_0;
            &&& f.resource@ == resource@
            &&& f.identifier is None
            &&& f.scope is NoIdentity
            &&& f.status == status
        }),
        !(rows == 0 && scope is NoIdentity) ==> r is None,
{
    if rows > 0 || !matches!(scope, ReadScope::NoIdentity) {
        return Option::None;
    }
    Some(ReadScopeRefusal { resource: owned(resource), identifier: Option::None, scope, status })
}

/// A byte an HTTP header value does not admit: a control character other
/// than tab, or DEL. Visible ASCII, space, tab and every byte from `0x80`
/// up are admitted.
pub open spec fn refused_header_byte(b: u8) -> bool {
    (b < 0x20 && b != 0x09) || b == 0x7f
}

/// Whether `bytes` can be sent as an HTTP header value.
pub open spec fn admissible_header_value(bytes: Seq<u8>) -> bool {
    forall|i: int| 0 <= i < bytes.len() ==> !refused_header_byte(#[trigger] bytes[i])
}

/// The position of the first byte at or after `i` that a header value does
/// not admit, if any.
pub open spec fn first_refused_from(bytes: Seq<u8>, i: int) -> Option<nat>
    decreases bytes.len() - i,
{
    if i < 0 || i >= bytes.len() {
        Option::None
    } else if refused_header_byte(bytes[i]) {
        Some(i as nat)
    } else {
        first_refused_from(bytes, i + 1)
    }
}

/// The position of the first byte a header value does not admit, if any.
pub open spec fn first_refused(bytes: Seq<u8>) -> Option<nat> {
    first_refused_from(bytes, 0)
}

/// The first byte of `token` a header value does not admit.
pub fn first_refused_byte(token: &str) -> (r: Option<usize>)
    ensures
        match r {
            Some(i) => first_refused(encode_utf8(token@)) == Some(i as nat),
            Option::None => first_refused(encode_utf8(token@)) is None,
        },
        match r {
            Some(i) => i < encode_utf8(token@).len() && refused_header_byte(encode_utf8(token@)[i as int])
                && forall|k: int| 0 <= k < i ==> !refused_header_byte(#[trigger] encode_utf8(token@)[k]),
            Option::None => admissible_header_value(encode_utf8(token@)),
        },
{
    let bytes = token.as_bytes();
    let mut i: usize = 0;
    while i < bytes.len()
        invariant
            i <= bytes@.len(),
            bytes@ == encode_utf8(token@),
            forall|k: int| 0 <= k < i ==> !refused_header_byte(#[trigger] bytes@[k]),
            first_refused_from(bytes@, 0) == first_refused_from(bytes@, i as int),
        decreases bytes@.len() - i,
    {
        let b = bytes[i];
        if (b < 0x20 && b != 0x09) || b == 0x7f {
            return Some(i);
        }
        i += 1;
    }
    Option::None
}

/// The diagnosis for a per-user identity that cannot be an HTTP header
/// value. The token is NEVER in it: only the offending byte's index and its
/// class, and the token's length.
pub open spec fn unusable_token_text(offender: Option<nat>, len: nat) -> Seq<char> {
    let detail = match offender {
        Some(i) => "an ASCII control character at byte "@ + decimal(i)
            + " (an embedded newline or carriage return is the usual cause; a LEADING or TRAILING one is trimmed on the way in, so this one is inside the value)"@,
        Option::None => "a byte HTTP header values do not admit"@,
    };
    "the per-user identity is not a usable HTTP header value: it contains "@ + detail
        + ". The token itself is deliberately omitted from this message. It was NOT sent, and the read was NOT attempted \u{2014} an unsendable identity is reported rather than dropped, because a dropped one would have made this read silently unidentified. (length "@
        + decimal(len) + " bytes)"@
}

/// The diagnosis for a per-user identity that cannot be an HTTP header value.
pub fn unusable_token(token: &str) -> (r: String)
    ensures
        r@ == unusable_token_text(first_refused(encode_utf8(token@)), encode_utf8(token@).len()),
{
    let offender = first_refused_byte(token);
    let mut r = owned("the per-user identity is not a usable HTTP header value: it contains ");
    match offender {
        Some(i) => {
            append(&mut r, "an ASCII control character at byte ");
            let d = to_decimal(i as u64);
            append(&mut r, d.as_str());
            append(&mut r, " (an embedded newline or carriage return is the usual cause; a LEADING or TRAILING one is trimmed on the way in, so this one is inside the value)");
        },
        Option::None => {
            append(&mut r, "a byte HTTP header values do not admit");
        },
    }
    append(&mut r, ". The token itself is deliberately omitted from this message. It was NOT sent, and the read was NOT attempted \u{2014} an unsendable identity is reported rather than dropped, because a dropped one would have made this read silently unidentified. (length ");
    let n = to_decimal(token.as_bytes().len() as u64);
    append(&mut r, n.as_str());
    append(&mut r, " bytes)");
    assert(r@ =~= unusable_token_text(first_refused(encode_utf8(token@)), encode_utf8(token@).len()));
    r
}

} // verus!
