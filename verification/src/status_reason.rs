//! Best-effort structured interpretation of free-text status reasons.
//!
//! CloudFormation reports failure reasons as human-readable text.  This
//! module recognises a handful of common shapes in that text — a cancelled
//! resource creation, a missing IAM permission, an encoded authorization
//! failure, a resource-error list — and extracts their interesting parts.
//! Recognition is best-effort diagnostics, never authoritative: text that
//! matches no known shape yields no detail.

use vstd::prelude::*;

use crate::text;

verus! {

/// A wrapper around a status reason that offers additional detail.
///
/// The underlying status reason can be retrieved via
/// [`inner`](Self::inner); [`detail`](Self::detail) attempts to interpret
/// it as a [`StatusReasonDetail`].
#[derive(Clone, Copy, Debug, PartialEq, Eq)]
pub struct StatusReason<'a> {
    inner: Option<&'a str>,
}

impl<'a> View for StatusReason<'a> {
    type V = Option<Seq<char>>;

    closed spec fn view(&self) -> Option<Seq<char>> {
        match self.inner {
            Some(s) => Some(s@),
            None => None,
        }
    }
}

impl<'a> StatusReason<'a> {
    /// Wrap a raw status reason.
    pub fn new(status_reason: Option<&'a str>) -> (r: Self)
        ensures
            r@ == match status_reason {
                Some(s) => Some(s@),
                None => None::<Seq<char>>,
            },
    {
        StatusReason { inner: status_reason }
    }

    /// The raw status reason, in case you need to work with it directly.
    pub fn inner(&self) -> (r: Option<&'a str>)
        ensures
            r matches Some(s) ==> self@ == Some(s@),
            r is None ==> self@ is None,
    {
        self.inner
    }

    /// Additional detail about the status reason, if available.
    ///
    /// This depends on recognising a known shape in the status reason
    /// string; see [`StatusReasonDetail`] for the current possibilities.
    pub fn detail(&self) -> (r: Option<StatusReasonDetail>)
        ensures
            match self@ {
                Some(s) => StatusReasonDetail::spec_matches(r, s),
                None => r is None,
            },
    {
        match self.inner {
            Some(reason) => StatusReasonDetail::new(reason),
            None => None,
        }
    }
}

/// The mathematical shape of a recognised status reason.
pub ghost enum StatusReasonDetailView {
    CreationCancelled,
    MissingPermission {
        permission: Seq<char>,
        principal: Option<Seq<char>>,
        encoded_authorization_message: Option<Seq<char>>,
    },
    AuthorizationFailure { encoded_authorization_message: Seq<char> },
    ResourceErrors { logical_resource_ids: Seq<char> },
}

/// Additional detail about a status reason.
#[derive(Clone, Debug, PartialEq, Eq)]
#[non_exhaustive]
pub enum StatusReasonDetail {
    /// Resource creation was cancelled, typically due to a preceding
    /// failure.
    CreationCancelled,

    /// The CloudFormation principal did not have permission to perform an
    /// operation.
    MissingPermission(MissingPermission),

    /// The CloudFormation principal was not authorized to perform an
    /// operation, with the explanation available only as an encoded
    /// message.
    AuthorizationFailure(EncodedAuthorizationMessage),

    /// A stack operation failed due to resource errors.
    ResourceErrors(ResourceErrors),
}

impl View for StatusReasonDetail {
    type V = StatusReasonDetailView;

    open spec fn view(&self) -> StatusReasonDetailView {
        match self {
            StatusReasonDetail::CreationCancelled => StatusReasonDetailView::CreationCancelled,
            StatusReasonDetail::MissingPermission(mp) => {
                StatusReasonDetailView::MissingPermission {
                    permission: mp.permission@,
                    principal: match mp.principal {
                        Some(p) => Some(p@),
                        None => None,
                    },
                    encoded_authorization_message: match mp.encoded_authorization_message {
                        Some(m) => Some(m@),
                        None => None,
                    },
                }
            },
            StatusReasonDetail::AuthorizationFailure(m) => {
                StatusReasonDetailView::AuthorizationFailure {
                    encoded_authorization_message: m@,
                }
            },
            StatusReasonDetail::ResourceErrors(re) => StatusReasonDetailView::ResourceErrors {
                logical_resource_ids: re.logical_resource_ids@,
            },
        }
    }
}

/// The CloudFormation principal did not have permission to perform an
/// operation.
#[derive(Clone, Debug, PartialEq, Eq)]
pub struct MissingPermission {
    /// The IAM permission that was missing.
    pub permission: String,

    /// The CloudFormation principal.
    ///
    /// This is not reported by all missing permission status reasons, and
    /// so may not be known.
    pub principal: Option<String>,

    /// An encoded authorization failure message included in the status
    /// reason.
    pub encoded_authorization_message: Option<EncodedAuthorizationMessage>,
}

/// An encoded authorization failure message.
///
/// The message is encoded because the details of the authorization status
/// can constitute privileged information that the user who requested the
/// operation should not see.  Decoding requires a separate call to the
/// token service, which the surrounding application performs.
#[derive(Clone, Debug, PartialEq, Eq)]
pub struct EncodedAuthorizationMessage {
    inner: String,
}

impl View for EncodedAuthorizationMessage {
    type V = Seq<char>;

    closed spec fn view(&self) -> Seq<char> {
        self.inner@
    }
}

impl EncodedAuthorizationMessage {
    /// Wrap a raw encoded authorization message.
    pub fn new(message: &str) -> (r: Self)
        ensures
            r@ == message@,
    {
        EncodedAuthorizationMessage { inner: message.to_owned() }
    }

    /// The raw encoded authorization message, in case you need to work
    /// with it directly.
    pub fn inner(&self) -> (r: &str)
        ensures
            r@ == self@,
    {
        self.inner.as_str()
    }
}

/// The error returned when decoding an encoded authorization message
/// fails.
#[derive(Clone, Debug, PartialEq, Eq)]
pub struct EncodedAuthorizationMessageDecodeError {
    /// A description of what went wrong.
    pub message: String,
}

/// A stack operation failed due to resource errors.
///
/// Equality is defined over the extracted logical resource ids rather
/// than the raw captured text, so lists that differ only in spacing
/// compare equal.
#[derive(Clone, Debug, Eq)]
pub struct ResourceErrors {
    /// The raw comma-separated list of logical resource ids, as captured
    /// from the status reason.
    pub logical_resource_ids: String,
}

impl PartialEq for ResourceErrors {
    fn eq(&self, other: &ResourceErrors) -> (r: bool) {
        let ours = self.logical_resource_ids();
        let theirs = other.logical_resource_ids();
        if ours.len() != theirs.len() {
            proof {
                assert(ours.deep_view().len() == ours@.len());
                assert(theirs.deep_view().len() == theirs@.len());
            }
            return false;
        }
        let mut i: usize = 0;
        while i < ours.len()
            invariant
                i <= ours@.len(),
                ours@.len() == theirs@.len(),
                ours.deep_view() == alnum_runs_from(self.logical_resource_ids@, 0),
                theirs.deep_view() == alnum_runs_from(other.logical_resource_ids@, 0),
                forall|k: int| 0 <= k < i ==> ours.deep_view()[k] == theirs.deep_view()[k],
            decreases ours@.len() - i,
        {
            if !text::str_eq(ours[i].as_str(), theirs[i].as_str()) {
                proof {
                    assert(ours.deep_view()[i as int] == ours@[i as int]@);
                    assert(theirs.deep_view()[i as int] == theirs@[i as int]@);
                }
                return false;
            }
            i = i + 1;
        }
        proof {
            assert(ours.deep_view() =~= theirs.deep_view());
        }
        true
    }
}

impl vstd::std_specs::cmp::PartialEqSpecImpl for ResourceErrors {
    open spec fn obeys_eq_spec() -> bool {
        true
    }

    open spec fn eq_spec(&self, other: &ResourceErrors) -> bool {
        alnum_runs_from(self.logical_resource_ids@, 0) == alnum_runs_from(
            other.logical_resource_ids@,
            0,
        )
    }
}

impl ResourceErrors {
    /// The logical resource IDs of resources that failed, in order.
    pub fn logical_resource_ids(&self) -> (r: Vec<String>)
        ensures
            r.deep_view() == alnum_runs_from(self.logical_resource_ids@, 0),
    {
        let s = self.logical_resource_ids.as_str();
        let s_len = s.unicode_len();
        let mut ids: Vec<String> = Vec::new();
        let mut p: usize = 0;
        while p < s_len
            invariant
                p <= s_len,
                s_len == s@.len(),
                alnum_runs_from(s@, 0) == ids.deep_view() + alnum_runs_from(s@, p as int),
            decreases s_len - p,
        {
            if text::class_has(text::CharClass::Alnum, s.get_char(p)) {
                let e = text::scan_run(s, s_len, p, text::CharClass::Alnum);
                proof {
                    text::lemma_run_end(s@, p + 1, text::CharClass::Alnum);
                }
                let id = s.substring_char(p, e).to_owned();
                let ghost old_ids = ids.deep_view();
                ids.push(id);
                proof {
                    assert(ids.deep_view() =~= old_ids + seq![s@.subrange(p as int, e as int)]);
                    assert(alnum_runs_from(s@, 0) == ids.deep_view() + alnum_runs_from(
                        s@,
                        e as int,
                    ));
                }
                p = e;
            } else {
                p = p + 1;
            }
        }
        proof {
            assert(alnum_runs_from(s@, 0) =~= ids.deep_view() + alnum_runs_from(
                s@,
                p as int,
            ));
            assert(ids.deep_view() =~= ids.deep_view() + alnum_runs_from(s@, p as int));
        }
        ids
    }
}

/// The maximal runs of ASCII letters and digits in `s` from position `p`
/// on, in order.
pub open spec fn alnum_runs_from(s: Seq<char>, p: int) -> Seq<Seq<char>>
    decreases s.len() - p,
    when 0 <= p <= s.len()
{
    if p >= s.len() {
        Seq::empty()
    } else if !text::class_contains(text::CharClass::Alnum, s[p]) {
        alnum_runs_from(s, p + 1)
    } else {
        let e = text::run_end(s, p, text::CharClass::Alnum);
        if p < e <= s.len() {
            seq![s.subrange(p, e)] + alnum_runs_from(s, e)
        } else {
            Seq::empty()
        }
    }
}

/// Whether the "missing permission" shape with an `API:` prefix matches
/// at position `i`: the prefix, then a nonempty service run, `:`, and a
/// nonempty action run ending at a word boundary.
pub open spec fn mp_api_at(s: Seq<char>, i: int) -> bool {
    &&& text::ci_matches_at(s, "API: "@, i)
    &&& {
        let a = i + "API: "@.len();
        let e1 = text::run_end(s, a, text::CharClass::Alnum);
        &&& e1 > a
        &&& e1 < s.len()
        &&& s[e1] == ':'
        &&& {
            let e2 = text::run_end(s, e1 + 1, text::CharClass::Alnum);
            &&& e2 > e1 + 1
            &&& (e2 == s.len() || !text::class_contains(text::CharClass::Word, s[e2]))
        }
    }
}

/// The permission captured by the `API:` shape at position `i`.
pub open spec fn mp_api_permission_at(s: Seq<char>, i: int) -> Seq<char> {
    let a = i + "API: "@.len();
    let e1 = text::run_end(s, a, text::CharClass::Alnum);
    let e2 = text::run_end(s, e1 + 1, text::CharClass::Alnum);
    s.subrange(a, e2)
}

/// The first position at or after `i` where the `API:` shape matches.
pub open spec fn mp_api_first_from(s: Seq<char>, i: int) -> Option<int>
    decreases s.len() - i,
    when 0 <= i <= s.len()
{
    if i >= s.len() {
        None
    } else if mp_api_at(s, i) {
        Some(i)
    } else {
        mp_api_first_from(s, i + 1)
    }
}

/// The permission named by the first `API:` shape in `s`, if any.
pub open spec fn spec_mp_api(s: Seq<char>) -> Option<Seq<char>> {
    match mp_api_first_from(s, 0) {
        Some(i) => Some(mp_api_permission_at(s, i)),
        None => None,
    }
}

/// Whether the "missing permission" shape with a `User:` prefix matches
/// at position `i`: the prefix, a nonempty principal run, the literal
/// `is not authorized to perform:`, and a permission.
pub open spec fn mp_user_at(s: Seq<char>, i: int) -> bool {
    &&& text::ci_matches_at(s, "User: "@, i)
    &&& {
        let a = i + "User: "@.len();
        let e1 = text::run_end(s, a, text::CharClass::Arn);
        &&& e1 > a
        &&& text::ci_matches_at(s, " is not authorized to perform: "@, e1)
        &&& {
            let b = e1 + " is not authorized to perform: "@.len();
            let e2 = text::run_end(s, b, text::CharClass::Alnum);
            &&& e2 > b
            &&& e2 < s.len()
            &&& s[e2] == ':'
            &&& text::run_end(s, e2 + 1, text::CharClass::Alnum) > e2 + 1
        }
    }
}

/// The principal captured by the `User:` shape at position `i`.
pub open spec fn mp_user_principal_at(s: Seq<char>, i: int) -> Seq<char> {
    let a = i + "User: "@.len();
    s.subrange(a, text::run_end(s, a, text::CharClass::Arn))
}

/// The permission captured by the `User:` shape at position `i`.
pub open spec fn mp_user_permission_at(s: Seq<char>, i: int) -> Seq<char> {
    let a = i + "User: "@.len();
    let e1 = text::run_end(s, a, text::CharClass::Arn);
    let b = e1 + " is not authorized to perform: "@.len();
    let e2 = text::run_end(s, b, text::CharClass::Alnum);
    s.subrange(b, text::run_end(s, e2 + 1, text::CharClass::Alnum))
}

/// The first position at or after `i` where the `User:` shape matches.
pub open spec fn mp_user_first_from(s: Seq<char>, i: int) -> Option<int>
    decreases s.len() - i,
    when 0 <= i <= s.len()
{
    if i >= s.len() {
        None
    } else if mp_user_at(s, i) {
        Some(i)
    } else {
        mp_user_first_from(s, i + 1)
    }
}

/// The principal and permission named by the first `User:` shape in `s`,
/// if any.
pub open spec fn spec_mp_user(s: Seq<char>) -> Option<(Seq<char>, Seq<char>)> {
    match mp_user_first_from(s, 0) {
        Some(i) => Some((mp_user_principal_at(s, i), mp_user_permission_at(s, i))),
        None => None,
    }
}

/// Whether the "encoded authorization failure message" shape matches at
/// position `i`: the literal prefix followed by a nonempty run of message
/// characters.
pub open spec fn encoded_at(s: Seq<char>, i: int) -> bool {
    &&& text::ci_matches_at(s, "Encoded authorization failure message: "@, i)
    &&& {
        let a = i + "Encoded authorization failure message: "@.len();
        text::run_end(s, a, text::CharClass::Encoded) > a
    }
}

/// The message captured by the encoded-message shape at position `i`.
pub open spec fn encoded_message_at(s: Seq<char>, i: int) -> Seq<char> {
    let a = i + "Encoded authorization failure message: "@.len();
    s.subrange(a, text::run_end(s, a, text::CharClass::Encoded))
}

/// The first position at or after `i` where the encoded-message shape
/// matches.
pub open spec fn encoded_first_from(s: Seq<char>, i: int) -> Option<int>
    decreases s.len() - i,
    when 0 <= i <= s.len()
{
    if i >= s.len() {
        None
    } else if encoded_at(s, i) {
        Some(i)
    } else {
        encoded_first_from(s, i + 1)
    }
}

/// The first encoded authorization message in `s`, if any.
pub open spec fn spec_encoded_message(s: Seq<char>) -> Option<Seq<char>> {
    match encoded_first_from(s, 0) {
        Some(i) => Some(encoded_message_at(s, i)),
        None => None,
    }
}

/// The position just after a comma-separated list of resource ids
/// starting at `p`: a nonempty run of letters and digits, optionally
/// followed by a comma, spaces, and another list.
pub open spec fn idlist_end_from(s: Seq<char>, p: int) -> Option<int>
    decreases s.len() - p,
    when 0 <= p <= s.len()
{
    let e = text::run_end(s, p, text::CharClass::Alnum);
    if !(p < e <= s.len()) {
        None
    } else if e < s.len() && s[e] == ',' {
        let q = text::run_end(s, e + 1, text::CharClass::Space);
        if e + 1 <= q <= s.len() {
            idlist_end_from(s, q)
        } else {
            None
        }
    } else {
        Some(e)
    }
}

/// Whether the "resource errors" shape matches at position `i`: the
/// literal prefix, one of the verbs `create`, `delete` or `update`, the
/// literal `: [`, a comma-separated id list and a closing bracket.
pub open spec fn resource_errors_at(s: Seq<char>, i: int) -> bool {
    &&& text::ci_matches_at(s, "The following resource(s) failed to "@, i)
    &&& {
        let v = i + "The following resource(s) failed to "@.len();
        &&& (text::ci_matches_at(s, "create"@, v) || text::ci_matches_at(s, "delete"@, v)
            || text::ci_matches_at(s, "update"@, v))
        &&& {
            let w = v + 6;
            &&& text::ci_matches_at(s, ": ["@, w)
            &&& {
                let b = w + ": ["@.len();
                match idlist_end_from(s, b) {
                    Some(e) => e < s.len() && s[e] == ']',
                    None => false,
                }
            }
        }
    }
}

/// The id list captured by the resource-errors shape at position `i`.
pub open spec fn resource_errors_ids_at(s: Seq<char>, i: int) -> Seq<char> {
    let v = i + "The following resource(s) failed to "@.len();
    let b = v + 6 + ": ["@.len();
    match idlist_end_from(s, b) {
        Some(e) => s.subrange(b, e),
        None => Seq::empty(),
    }
}

/// The first position at or after `i` where the resource-errors shape
/// matches.
pub open spec fn resource_errors_first_from(s: Seq<char>, i: int) -> Option<int>
    decreases s.len() - i,
    when 0 <= i <= s.len()
{
    if i >= s.len() {
        None
    } else if resource_errors_at(s, i) {
        Some(i)
    } else {
        resource_errors_first_from(s, i + 1)
    }
}

/// The id list named by the first resource-errors shape in `s`, if any.
pub open spec fn spec_resource_errors(s: Seq<char>) -> Option<Seq<char>> {
    match resource_errors_first_from(s, 0) {
        Some(i) => Some(resource_errors_ids_at(s, i)),
        None => None,
    }
}

/// The detail recognised in a status reason, if any: a cancelled
/// creation takes precedence, then a missing permission (with the `API:`
/// phrasing before the `User:` phrasing), then a bare encoded
/// authorization message, then a resource-error list.
pub open spec fn spec_detail(s: Seq<char>) -> Option<StatusReasonDetailView> {
    if text::ci_contains(s, "Resource creation cancelled"@) {
        Some(StatusReasonDetailView::CreationCancelled)
    } else {
        let encoded = spec_encoded_message(s);
        match spec_mp_api(s) {
            Some(permission) => Some(
                StatusReasonDetailView::MissingPermission {
                    permission,
                    principal: None,
                    encoded_authorization_message: encoded,
                },
            ),
            None => match spec_mp_user(s) {
                Some((principal, permission)) => Some(
                    StatusReasonDetailView::MissingPermission {
                        permission,
                        principal: Some(principal),
                        encoded_authorization_message: encoded,
                    },
                ),
                None => match encoded {
                    Some(message) => Some(
                        StatusReasonDetailView::AuthorizationFailure {
                            encoded_authorization_message: message,
                        },
                    ),
                    None => match spec_resource_errors(s) {
                        Some(ids) => Some(
                            StatusReasonDetailView::ResourceErrors {
                                logical_resource_ids: ids,
                            },
                        ),
                        None => None,
                    },
                },
            },
        }
    }
}

impl StatusReasonDetail {
    /// Whether `r` is exactly the detail that [`spec_detail`] recognises
    /// in `s`.
    pub open spec fn spec_matches(r: Option<StatusReasonDetail>, s: Seq<char>) -> bool {
        match (r, spec_detail(s)) {
            (Some(d), Some(v)) => d@ == v,
            (None, None) => true,
            _ => false,
        }
    }

    /// Recognise a known shape in a status reason.
    ///
    /// Returns `None` if no shape matches: this is best-effort
    /// diagnostics, and plenty of failure texts match no shape.
    pub fn new(status_reason: &str) -> (r: Option<StatusReasonDetail>)
        ensures
            StatusReasonDetail::spec_matches(r, status_reason@),
    {
        let s_len = status_reason.unicode_len();
        if text::str_contains_ci(status_reason, "Resource creation cancelled") {
            return Some(StatusReasonDetail::CreationCancelled);
        }
        let encoded = find_encoded(status_reason, s_len);
        if let Some(permission) = find_mp_api(status_reason, s_len) {
            return Some(
                StatusReasonDetail::MissingPermission(
                    MissingPermission {
                        permission,
                        principal: None,
                        encoded_authorization_message: wrap_encoded(encoded),
                    },
                ),
            );
        }
        if let Some((principal, permission)) = find_mp_user(status_reason, s_len) {
            return Some(
                StatusReasonDetail::MissingPermission(
                    MissingPermission {
                        permission,
                        principal: Some(principal),
                        encoded_authorization_message: wrap_encoded(encoded),
                    },
                ),
            );
        }
        if let Some(message) = encoded {
            return Some(
                StatusReasonDetail::AuthorizationFailure(
                    EncodedAuthorizationMessage { inner: message },
                ),
            );
        }
        if let Some(ids) = find_resource_errors(status_reason, s_len) {
            return Some(
                StatusReasonDetail::ResourceErrors(ResourceErrors { logical_resource_ids: ids }),
            );
        }
        None
    }
}

/// Wrap an optional captured message as an [`EncodedAuthorizationMessage`].
fn wrap_encoded(encoded: Option<String>) -> (r: Option<EncodedAuthorizationMessage>)
    ensures
        match (r, encoded) {
            (Some(m), Some(s)) => m@ == s@,
            (None, None) => true,
            _ => false,
        },
{
    match encoded {
        Some(message) => Some(EncodedAuthorizationMessage { inner: message }),
        None => None,
    }
}

/// Find the first `API:` missing-permission shape in `s`.
fn find_mp_api(s: &str, s_len: usize) -> (r: Option<String>)
    requires
        s_len == s@.len(),
    ensures
        match (r, spec_mp_api(s@)) {
            (Some(x), Some(y)) => x@ == y,
            (None, None) => true,
            _ => false,
        },
{
    let lit = "API: ";
    let lit_len = lit.unicode_len();
    let mut i: usize = 0;
    while i < s_len
        invariant
            i <= s_len,
            s_len == s@.len(),
            lit@ == "API: "@,
            lit_len == "API: "@.len(),
            mp_api_first_from(s@, 0) == mp_api_first_from(s@, i as int),
        decreases s_len - i,
    {
        if text::ci_match_at(s, s_len, i, lit) {
            let a = i + lit_len;
            let e1 = text::scan_run(s, s_len, a, text::CharClass::Alnum);
            if e1 > a && e1 < s_len && s.get_char(e1) == ':' {
                let e2 = text::scan_run(s, s_len, e1 + 1, text::CharClass::Alnum);
                if e2 > e1 + 1 && (e2 == s_len || !text::class_has(
                    text::CharClass::Word,
                    s.get_char(e2),
                )) {
                    assert(mp_api_at(s@, i as int));
                    return Some(s.substring_char(a, e2).to_owned());
                }
            }
            assert(!mp_api_at(s@, i as int));
        }
        i = i + 1;
    }
    None
}

/// Find the first `User:` missing-permission shape in `s`.
fn find_mp_user(s: &str, s_len: usize) -> (r: Option<(String, String)>)
    requires
        s_len == s@.len(),
    ensures
        match (r, spec_mp_user(s@)) {
            (Some(x), Some(y)) => x.0@ == y.0 && x.1@ == y.1,
            (None, None) => true,
            _ => false,
        },
{
    let lit = "User: ";
    let lit_len = lit.unicode_len();
    let mid = " is not authorized to perform: ";
    let mid_len = mid.unicode_len();
    let mut i: usize = 0;
    while i < s_len
        invariant
            i <= s_len,
            s_len == s@.len(),
            lit@ == "User: "@,
            mid@ == " is not authorized to perform: "@,
            lit_len == "User: "@.len(),
            mid_len == " is not authorized to perform: "@.len(),
            mp_user_first_from(s@, 0) == mp_user_first_from(s@, i as int),
        decreases s_len - i,
    {
        if text::ci_match_at(s, s_len, i, lit) {
            let a = i + lit_len;
            let e1 = text::scan_run(s, s_len, a, text::CharClass::Arn);
            if e1 > a && text::ci_match_at(s, s_len, e1, mid) {
                let b = e1 + mid_len;
                let e2 = text::scan_run(s, s_len, b, text::CharClass::Alnum);
                if e2 > b && e2 < s_len && s.get_char(e2) == ':' {
                    let e3 = text::scan_run(s, s_len, e2 + 1, text::CharClass::Alnum);
                    if e3 > e2 + 1 {
                        assert(mp_user_at(s@, i as int));
                        let principal = s.substring_char(a, e1).to_owned();
                        let permission = s.substring_char(b, e3).to_owned();
                        return Some((principal, permission));
                    }
                }
            }
            assert(!mp_user_at(s@, i as int));
        }
        i = i + 1;
    }
    None
}

/// Find the first encoded authorization message in `s`.
fn find_encoded(s: &str, s_len: usize) -> (r: Option<String>)
    requires
        s_len == s@.len(),
    ensures
        match (r, spec_encoded_message(s@)) {
            (Some(x), Some(y)) => x@ == y,
            (None, None) => true,
            _ => false,
        },
{
    let lit = "Encoded authorization failure message: ";
    let lit_len = lit.unicode_len();
    let mut i: usize = 0;
    while i < s_len
        invariant
            i <= s_len,
            s_len == s@.len(),
            lit@ == "Encoded authorization failure message: "@,
            lit_len == "Encoded authorization failure message: "@.len(),
            encoded_first_from(s@, 0) == encoded_first_from(s@, i as int),
        decreases s_len - i,
    {
        if text::ci_match_at(s, s_len, i, lit) {
            let a = i + lit_len;
            let e = text::scan_run(s, s_len, a, text::CharClass::Encoded);
            if e > a {
                assert(encoded_at(s@, i as int));
                return Some(s.substring_char(a, e).to_owned());
            }
            assert(!encoded_at(s@, i as int));
        }
        i = i + 1;
    }
    None
}

/// Scan a comma-separated id list starting at `p`.
fn scan_idlist_end(s: &str, s_len: usize, p: usize) -> (r: Option<usize>)
    requires
        s_len == s@.len(),
        p <= s_len,
    ensures
        match (r, idlist_end_from(s@, p as int)) {
            (Some(x), Some(y)) => x as int == y && p <= x <= s_len,
            (None, None) => true,
            _ => false,
        },
    decreases s_len - p,
{
    let e = text::scan_run(s, s_len, p, text::CharClass::Alnum);
    if e == p {
        return None;
    }
    if e < s_len && s.get_char(e) == ',' {
        let q = text::scan_run(s, s_len, e + 1, text::CharClass::Space);
        scan_idlist_end(s, s_len, q)
    } else {
        Some(e)
    }
}

/// Find the first resource-errors shape in `s`.
fn find_resource_errors(s: &str, s_len: usize) -> (r: Option<String>)
    requires
        s_len == s@.len(),
    ensures
        match (r, spec_resource_errors(s@)) {
            (Some(x), Some(y)) => x@ == y,
            (None, None) => true,
            _ => false,
        },
{
    let lit = "The following resource(s) failed to ";
    let lit_len = lit.unicode_len();
    let bracket = ": [";
    let bracket_len = bracket.unicode_len();
    let mut i: usize = 0;
    while i < s_len
        invariant
            i <= s_len,
            s_len == s@.len(),
            lit@ == "The following resource(s) failed to "@,
            bracket@ == ": ["@,
            lit_len == "The following resource(s) failed to "@.len(),
            bracket_len == ": ["@.len(),
            resource_errors_first_from(s@, 0) == resource_errors_first_from(s@, i as int),
        decreases s_len - i,
    {
        if text::ci_match_at(s, s_len, i, lit) {
            let v = i + lit_len;
            let verb_ok = text::ci_match_at(s, s_len, v, "create") || text::ci_match_at(
                s,
                s_len,
                v,
                "delete",
            ) || text::ci_match_at(s, s_len, v, "update");
            proof {
                reveal_strlit("create");
                reveal_strlit("delete");
                reveal_strlit("update");
            }
            if verb_ok {
                let w = v + 6;
                if text::ci_match_at(s, s_len, w, bracket) {
                    let b = w + bracket_len;
                    if let Some(e) = scan_idlist_end(s, s_len, b) {
                        if e < s_len && s.get_char(e) == ']' {
                            assert(resource_errors_at(s@, i as int));
                            return Some(s.substring_char(b, e).to_owned());
                        }
                    }
                }
            }
            assert(!resource_errors_at(s@, i as int));
        }
        i = i + 1;
    }
    None
}

} // verus!
