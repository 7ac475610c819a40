//! The closed taxonomy of check outcomes and the classification of raw
//! transport results into it.

use vstd::prelude::*;
use vstd::string::StringExecFns;

use crate::error::{kind_eq, kind_message, spec_hash_kind, ErrorKind};
use crate::text::{spec_render_num, string_from_range, push_num, CODE_WIDTH};

verus! {

/// A transport status code is a three-digit number.
pub open spec fn valid_code(c: u16) -> bool {
    100 <= c <= 999
}

/// The verdict of checking one identifier.
#[derive(Clone, Debug)]
pub enum Status {
    /// The check succeeded, by the accepted-codes policy or by success
    /// semantics of the transport.
    Success(u16),
    /// The check failed.
    Error(ErrorKind),
    /// The check exceeded its deadline; a status code may be attached.
    Timeout(Option<u16>),
    /// The resource redirected to another one.
    Redirected(u16),
    /// A status code outside the success, redirection and error ranges
    /// that was not explicitly accepted.
    UnknownStatusCode(u16),
    /// The check was skipped by policy.
    Excluded,
    /// The identifier cannot be checked by any available mechanism.
    Unsupported(ErrorKind),
}

/// A cause carried by a verdict is valid when any status code it holds
/// lies in the transport range.
pub open spec fn kind_wf(k: ErrorKind) -> bool {
    match k {
        ErrorKind::Client { status, .. } => match status {
            Some(c) => valid_code(c),
            None => true,
        },
        _ => true,
    }
}

impl ErrorKind {
    /// Checks validity of the cause's code field, executably.
    pub fn is_wf(&self) -> (r: bool)
        ensures
            r == kind_wf(*self),
    {
        match self {
            ErrorKind::Client { status, .. } => match status {
                Option::Some(c) => 100 <= *c && *c <= 999,
                Option::None => true,
            },
            _ => true,
        }
    }
}

impl Status {
    /// Validity: every code field holds a real transport status code.
    pub open spec fn wf(self) -> bool {
        match self {
            Status::Success(c) => valid_code(c),
            Status::Error(k) => kind_wf(k),
            Status::Timeout(oc) => match oc {
                Some(c) => valid_code(c),
                None => true,
            },
            Status::Redirected(c) => valid_code(c),
            Status::UnknownStatusCode(c) => valid_code(c),
            Status::Excluded => true,
            Status::Unsupported(k) => kind_wf(k),
        }
    }
}

/// A verdict, with every carried string as its character sequence.
pub enum StatusModel {
    Success(u16),
    Error(crate::error::KindModel),
    Timeout(Option<u16>),
    Redirected(u16),
    UnknownStatusCode(u16),
    Excluded,
    Unsupported(crate::error::KindModel),
}

impl View for Status {
    type V = StatusModel;

    open spec fn view(&self) -> StatusModel {
        match *self {
            Status::Success(c) => StatusModel::Success(c),
            Status::Error(k) => StatusModel::Error(k@),
            Status::Timeout(oc) => StatusModel::Timeout(oc),
            Status::Redirected(c) => StatusModel::Redirected(c),
            Status::UnknownStatusCode(c) => StatusModel::UnknownStatusCode(c),
            Status::Excluded => StatusModel::Excluded,
            Status::Unsupported(k) => StatusModel::Unsupported(k@),
        }
    }
}

/// Validity of a verdict model: every code field holds a real transport
/// status code.
pub open spec fn status_model_wf(s: StatusModel) -> bool {
    match s {
        StatusModel::Success(c) => valid_code(c),
        StatusModel::Error(k) => kind_model_wf(k),
        StatusModel::Timeout(oc) => match oc {
            Some(c) => valid_code(c),
            None => true,
        },
        StatusModel::Redirected(c) => valid_code(c),
        StatusModel::UnknownStatusCode(c) => valid_code(c),
        StatusModel::Excluded => true,
        StatusModel::Unsupported(k) => kind_model_wf(k),
    }
}

/// Validity of a cause model.
pub open spec fn kind_model_wf(k: crate::error::KindModel) -> bool {
    match k {
        crate::error::KindModel::Client { status, .. } => match status {
            Some(c) => valid_code(c),
            None => true,
        },
        _ => true,
    }
}

/// A verdict is valid exactly when its model is.
pub proof fn lemma_wf_via_model(s: Status)
    ensures
        s.wf() == status_model_wf(s@),
{
}

/// Equality of verdict models: same tag, equal codes, causes equal by
/// their comparable projection.
pub open spec fn status_model_eq(a: StatusModel, b: StatusModel) -> bool {
    match (a, b) {
        (StatusModel::Success(c1), StatusModel::Success(c2)) => c1 == c2,
        (StatusModel::Error(k1), StatusModel::Error(k2)) => crate::error::kind_model_eq(k1, k2),
        (StatusModel::Timeout(o1), StatusModel::Timeout(o2)) => o1 == o2,
        (StatusModel::Redirected(c1), StatusModel::Redirected(c2)) => c1 == c2,
        (
            StatusModel::UnknownStatusCode(c1),
            StatusModel::UnknownStatusCode(c2),
        ) => c1 == c2,
        (StatusModel::Excluded, StatusModel::Excluded) => true,
        (
            StatusModel::Unsupported(k1),
            StatusModel::Unsupported(k2),
        ) => crate::error::kind_model_eq(k1, k2),
        _ => false,
    }
}

/// Verdicts are equal exactly when their models are, and verdicts with
/// the same model are equal.
pub proof fn lemma_status_eq_via_model(a: Status, b: Status)
    ensures
        status_eq(a, b) == status_model_eq(a@, b@),
        a@ == b@ ==> status_eq(a, b),
{
    crate::error::lemma_kind_eq_via_model(
        match a {
            Status::Error(k) => k,
            Status::Unsupported(k) => k,
            _ => ErrorKind::MissingHost,
        },
        match b {
            Status::Error(k) => k,
            Status::Unsupported(k) => k,
            _ => ErrorKind::MissingHost,
        },
    );
    if a@ == b@ {
        lemma_status_model_eq_reflexive(a@);
    }
}

/// Model equality is reflexive.
pub proof fn lemma_status_model_eq_reflexive(s: StatusModel)
    ensures
        status_model_eq(s, s),
{
}

/// Equality of verdicts: same tag, equal codes, and causes equal by their
/// comparable projection.
pub open spec fn status_eq(a: Status, b: Status) -> bool {
    match (a, b) {
        (Status::Success(c1), Status::Success(c2)) => c1 == c2,
        (Status::Error(k1), Status::Error(k2)) => kind_eq(k1, k2),
        (Status::Timeout(o1), Status::Timeout(o2)) => o1 == o2,
        (Status::Redirected(c1), Status::Redirected(c2)) => c1 == c2,
        (Status::UnknownStatusCode(c1), Status::UnknownStatusCode(c2)) => c1 == c2,
        (Status::Excluded, Status::Excluded) => true,
        (Status::Unsupported(k1), Status::Unsupported(k2)) => kind_eq(k1, k2),
        _ => false,
    }
}

/// Verdict equality is reflexive: every verdict equals itself.
pub proof fn lemma_status_eq_reflexive(s: Status)
    ensures
        status_eq(s, s),
{
}

impl PartialEq for Status {
    fn eq(&self, other: &Self) -> (r: bool) {
        match (self, other) {
            (Status::Success(c1), Status::Success(c2)) => c1 == c2,
            (Status::Error(k1), Status::Error(k2)) => k1 == k2,
            (Status::Timeout(o1), Status::Timeout(o2)) => match (o1, o2) {
                (Option::Some(a), Option::Some(b)) => a == b,
                (Option::None, Option::None) => true,
                _ => false,
            },
            (Status::Redirected(c1), Status::Redirected(c2)) => c1 == c2,
            (Status::UnknownStatusCode(c1), Status::UnknownStatusCode(c2)) => c1 == c2,
            (Status::Excluded, Status::Excluded) => true,
            (Status::Unsupported(k1), Status::Unsupported(k2)) => k1 == k2,
            _ => false,
        }
    }
}

impl vstd::std_specs::cmp::PartialEqSpecImpl for Status {
    open spec fn obeys_eq_spec() -> bool {
        true
    }

    open spec fn eq_spec(&self, other: &Self) -> bool {
        status_eq(*self, *other)
    }
}

impl Eq for Status {}

/// Hash of a verdict, consistent with `status_eq`.
pub open spec fn spec_hash_status(s: Status) -> nat {
    match s {
        Status::Success(c) => crate::error::mix(1, c as nat),
        Status::Error(k) => crate::error::mix(2, spec_hash_kind(k)),
        Status::Timeout(oc) => crate::error::mix(3, crate::error::hash_opt_code(oc)),
        Status::Redirected(c) => crate::error::mix(4, c as nat),
        Status::UnknownStatusCode(c) => crate::error::mix(5, c as nat),
        Status::Excluded => crate::error::mix(6, 0),
        Status::Unsupported(k) => crate::error::mix(8, spec_hash_kind(k)),
    }
}

/// Equal verdicts hash equally.
pub proof fn lemma_status_eq_hash_consistent(a: Status, b: Status)
    requires
        status_eq(a, b),
    ensures
        spec_hash_status(a) == spec_hash_status(b),
{
    match (a, b) {
        (Status::Error(k1), Status::Error(k2)) => {
            crate::error::lemma_eq_hash_consistent(k1, k2);
        },
        (Status::Unsupported(k1), Status::Unsupported(k2)) => {
            crate::error::lemma_eq_hash_consistent(k1, k2);
        },
        _ => {},
    }
}

/// The relevant content of a response the transport obtained: its status
/// code and the transport's own message for an error-range status.
pub struct ResponseSummary {
    /// The response's status code.
    pub code: u16,
    /// The transport's error message for this response, used when the
    /// status falls in the error range.
    pub error_text: String,
}

impl ResponseSummary {
    pub open spec fn wf(self) -> bool {
        valid_code(self.code)
    }
}

/// The caller-supplied set of status codes to treat as success regardless
/// of default range classification.
pub struct AcceptedCodes {
    /// The accepted codes, in any order.
    pub codes: Vec<u16>,
}

impl AcceptedCodes {
    pub open spec fn spec_contains(self, c: u16) -> bool {
        self.codes@.contains(c)
    }

    pub fn new(codes: Vec<u16>) -> (r: AcceptedCodes)
        ensures
            forall|c: u16| r.spec_contains(c) == codes@.contains(c),
    {
        AcceptedCodes { codes }
    }

    pub fn contains(&self, c: u16) -> (r: bool)
        ensures
            r == self.spec_contains(c),
    {
        let mut i: usize = 0;
        while i < self.codes.len()
            invariant
                0 <= i <= self.codes@.len(),
                forall|j: int| 0 <= j < i ==> self.codes@[j] != c,
            decreases self.codes@.len() - i,
        {
            if self.codes[i] == c {
                return true;
            }
            i = i + 1;
        }
        false
    }
}

/// Whether the accepted-codes policy, if configured, accepts this code.
pub open spec fn accepted_contains(accepted: Option<AcceptedCodes>, c: u16) -> bool {
    match accepted {
        Some(a) => a.spec_contains(c),
        None => false,
    }
}

/// Classification of a response the transport obtained (no transport
/// failure). An explicitly accepted code always wins; then the error
/// range falls through to a client-error cause; then success and
/// redirection ranges; everything else is an unknown status code.
pub open spec fn spec_classify_response(
    resp: ResponseSummary,
    accepted: Option<AcceptedCodes>,
) -> Status {
    if accepted_contains(accepted, resp.code) {
        Status::Success(resp.code)
    } else if 400 <= resp.code <= 599 {
        Status::Error(ErrorKind::Client { err: resp.error_text, status: Some(resp.code) })
    } else if 200 <= resp.code <= 299 {
        Status::Success(resp.code)
    } else if 300 <= resp.code <= 399 {
        Status::Redirected(resp.code)
    } else {
        Status::UnknownStatusCode(resp.code)
    }
}

/// What the transport reports when it could not obtain a response: a
/// deadline overrun, a request it declined to build, or another failure,
/// with its message and an optional status code.
pub struct TransportFailure {
    /// The failure is a deadline overrun.
    pub timeout: bool,
    /// The request itself was malformed and could not be built; a
    /// structural problem, not a network one.
    pub builder: bool,
    /// The transport's message for the failure.
    pub error_text: String,
    /// The status code the transport attached, if any.
    pub status: Option<u16>,
}

impl TransportFailure {
    pub open spec fn wf(self) -> bool {
        match self.status {
            Some(c) => valid_code(c),
            None => true,
        }
    }
}

/// Classification of a transport failure: a timeout keeps its optional
/// status code; an unbuildable request is unsupported; anything else is
/// an error, both wrapping the client cause.
pub open spec fn spec_classify_failure(f: TransportFailure) -> Status {
    if f.timeout {
        Status::Timeout(f.status)
    } else if f.builder {
        Status::Unsupported(ErrorKind::Client { err: f.error_text, status: f.status })
    } else {
        Status::Error(ErrorKind::Client { err: f.error_text, status: f.status })
    }
}

impl Status {
    /// Classifies a response the transport obtained, under the given
    /// accepted-codes policy.
    pub fn new(response: &ResponseSummary, accepted: Option<AcceptedCodes>) -> (r: Status)
        ensures
            r == spec_classify_response(*response, accepted),
            response.wf() ==> r.wf(),
    {
        let code = response.code;
        let hit = match &accepted {
            Option::Some(a) => a.contains(code),
            Option::None => false,
        };
        if hit {
            Status::Success(code)
        } else if 400 <= code && code <= 599 {
            Status::Error(
                ErrorKind::Client { err: response.error_text.clone(), status: Some(code) },
            )
        } else if 200 <= code && code <= 299 {
            Status::Success(code)
        } else if 300 <= code && code <= 399 {
            Status::Redirected(code)
        } else {
            Status::UnknownStatusCode(code)
        }
    }

    /// Classifies a transport failure.
    pub fn from_failure(f: TransportFailure) -> (r: Status)
        ensures
            r == spec_classify_failure(f),
            f.wf() ==> r.wf(),
    {
        if f.timeout {
            Status::Timeout(f.status)
        } else if f.builder {
            Status::Unsupported(ErrorKind::Client { err: f.error_text, status: f.status })
        } else {
            Status::Error(ErrorKind::Client { err: f.error_text, status: f.status })
        }
    }

    /// Wraps any other failure cause as a failed check.
    pub fn from_error_kind(k: ErrorKind) -> (r: Status)
        ensures
            r == Status::Error(k),
    {
        Status::Error(k)
    }

    /// Wraps a failure of the remote repository-hosting API.
    pub fn from_github(message: String) -> (r: Status)
        ensures
            r == Status::Error(ErrorKind::Github { message }),
    {
        Status::Error(ErrorKind::Github { message })
    }

    /// Checks validity of the verdict's code fields, executably.
    pub fn is_wf(&self) -> (r: bool)
        ensures
            r == self.wf(),
    {
        match self {
            Status::Success(c) => 100 <= *c && *c <= 999,
            Status::Error(k) => k.is_wf(),
            Status::Timeout(oc) => match oc {
                Option::Some(c) => 100 <= *c && *c <= 999,
                Option::None => true,
            },
            Status::Redirected(c) => 100 <= *c && *c <= 999,
            Status::UnknownStatusCode(c) => 100 <= *c && *c <= 999,
            Status::Excluded => true,
            Status::Unsupported(k) => k.is_wf(),
        }
    }

    /// Returns `true` if the check was successful.
    pub fn is_success(&self) -> (r: bool)
        ensures
            r == (*self is Success),
    {
        matches!(self, Status::Success(_))
    }

    /// Returns `true` if the check failed.
    pub fn is_failure(&self) -> (r: bool)
        ensures
            r == (*self is Error),
    {
        matches!(self, Status::Error(_))
    }

    /// Returns `true` if the check was skipped by policy.
    pub fn is_excluded(&self) -> (r: bool)
        ensures
            r == (*self is Excluded),
    {
        matches!(self, Status::Excluded)
    }

    /// Returns `true` if the check exceeded its deadline.
    pub fn is_timeout(&self) -> (r: bool)
        ensures
            r == (*self is Timeout),
    {
        matches!(self, Status::Timeout(_))
    }

    /// Returns `true` if the identifier cannot be checked.
    pub fn is_unsupported(&self) -> (r: bool)
        ensures
            r == (*self is Unsupported),
    {
        matches!(self, Status::Unsupported(_))
    }
}

/// The icon for each verdict tag; every tag gets a distinct glyph.
pub open spec fn spec_icon(s: Status) -> Seq<char> {
    match s {
        Status::Success(_) => "\u{2714}"@,
        Status::Redirected(_) => "\u{21c4}"@,
        Status::UnknownStatusCode(_) => "?"@,
        Status::Excluded => "\u{2205}"@,
        Status::Error(_) => "\u{2717}"@,
        Status::Timeout(_) => "\u{29d6}"@,
        Status::Unsupported(_) => "\u{00bf}"@,
    }
}

impl Status {
    /// A short unicode symbol visualizing the verdict.
    pub fn icon(&self) -> (r: &'static str)
        ensures
            r@ == spec_icon(*self),
    {
        match self {
            Status::Success(_) => "\u{2714}",
            Status::Redirected(_) => "\u{21c4}",
            Status::UnknownStatusCode(_) => "?",
            Status::Excluded => "\u{2205}",
            Status::Error(_) => "\u{2717}",
            Status::Timeout(_) => "\u{29d6}",
            Status::Unsupported(_) => "\u{00bf}",
        }
    }
}

/// Two verdicts with different tags carry different icons.
pub proof fn lemma_icons_distinct(a: Status, b: Status)
    requires
        spec_icon(a) == spec_icon(b),
    ensures
        a is Success <==> b is Success,
        a is Redirected <==> b is Redirected,
        a is UnknownStatusCode <==> b is UnknownStatusCode,
        a is Excluded <==> b is Excluded,
        a is Error <==> b is Error,
        a is Timeout <==> b is Timeout,
        a is Unsupported <==> b is Unsupported,
{
    reveal_strlit("\u{2714}");
    reveal_strlit("\u{21c4}");
    reveal_strlit("?");
    reveal_strlit("\u{2205}");
    reveal_strlit("\u{2717}");
    reveal_strlit("\u{29d6}");
    reveal_strlit("\u{00bf}");
    assert("\u{2714}"@[0] == '\u{2714}');
    assert("\u{21c4}"@[0] == '\u{21c4}');
    assert("?"@[0] == '?');
    assert("\u{2205}"@[0] == '\u{2205}');
    assert("\u{2717}"@[0] == '\u{2717}');
    assert("\u{29d6}"@[0] == '\u{29d6}');
    assert("\u{00bf}"@[0] == '\u{00bf}');
}

/// The one-line display text of a verdict. A timeout without a status
/// code reads exactly "Timeout", with no trailing annotation.
pub open spec fn spec_status_message(s: Status) -> Seq<char> {
    match s {
        Status::Success(c) => "OK ("@ + spec_render_num(c as nat, CODE_WIDTH as nat) + ")"@,
        Status::Redirected(c) => "Redirect ("@ + spec_render_num(c as nat, CODE_WIDTH as nat)
            + ")"@,
        Status::UnknownStatusCode(c) => "Unknown status: "@ + spec_render_num(
            c as nat,
            CODE_WIDTH as nat,
        ),
        Status::Excluded => "Excluded"@,
        Status::Timeout(oc) => match oc {
            Some(c) => "Timeout: "@ + spec_render_num(c as nat, CODE_WIDTH as nat),
            None => "Timeout"@,
        },
        Status::Unsupported(k) => "Unsupported: "@ + kind_message(k),
        Status::Error(k) => "Failed: "@ + kind_message(k),
    }
}

/// Renders a status code as its three digits.
pub fn code_digits(c: u16) -> (r: String)
    requires
        valid_code(c),
    ensures
        r@ == spec_render_num(c as nat, CODE_WIDTH as nat),
{
    let mut cs: Vec<char> = Vec::new();
    push_num(&mut cs, c as u128, CODE_WIDTH);
    let r = string_from_range(&cs, 0, cs.len());
    proof {
        crate::text::lemma_render_shape(c as nat, CODE_WIDTH as nat);
        assert(cs@.subrange(0, cs@.len() as int) =~= cs@);
    }
    r
}

impl Status {
    /// Renders the one-line display text of the verdict.
    pub fn message(&self) -> (r: String)
        requires
            self.wf(),
        ensures
            r@ == spec_status_message(*self),
    {
        let mut s = String::new();
        match self {
            Status::Success(c) => {
                s.append("OK (");
                let d = code_digits(*c);
                s.append(d.as_str());
                s.append(")");
            },
            Status::Redirected(c) => {
                s.append("Redirect (");
                let d = code_digits(*c);
                s.append(d.as_str());
                s.append(")");
            },
            Status::UnknownStatusCode(c) => {
                s.append("Unknown status: ");
                let d = code_digits(*c);
                s.append(d.as_str());
            },
            Status::Excluded => {
                s.append("Excluded");
            },
            Status::Timeout(oc) => {
                match oc {
                    Option::Some(c) => {
                        s.append("Timeout: ");
                        let d = code_digits(*c);
                        s.append(d.as_str());
                    },
                    Option::None => {
                        s.append("Timeout");
                    },
                }
            },
            Status::Unsupported(k) => {
                s.append("Unsupported: ");
                let m = k.message();
                s.append(m.as_str());
            },
            Status::Error(k) => {
                s.append("Failed: ");
                let m = k.message();
                s.append(m.as_str());
            },
        }
        proof {
            assert(s@ =~= spec_status_message(*self));
        }
        s
    }

    /// A hash of the verdict, consistent with `==`.
    pub fn hash_code(&self) -> (r: u64)
        ensures
            r as nat == spec_hash_status(*self),
    {
        match self {
            Status::Success(c) => crate::error::mix_exec(1, *c as u64),
            Status::Error(k) => crate::error::mix_exec(2, k.hash_code()),
            Status::Timeout(oc) => crate::error::mix_exec(
                3,
                crate::error::hash_opt_code_exec(oc),
            ),
            Status::Redirected(c) => crate::error::mix_exec(4, *c as u64),
            Status::UnknownStatusCode(c) => crate::error::mix_exec(5, *c as u64),
            Status::Excluded => crate::error::mix_exec(6, 0),
            Status::Unsupported(k) => crate::error::mix_exec(8, k.hash_code()),
        }
    }
}

/// Classification is deterministic: the same raw outcome and policy
/// always give the same verdict.
pub proof fn lemma_classify_deterministic(
    resp: ResponseSummary,
    accepted: Option<AcceptedCodes>,
    r1: Status,
    r2: Status,
)
    requires
        r1 == spec_classify_response(resp, accepted),
        r2 == spec_classify_response(resp, accepted),
    ensures
        r1 == r2,
        status_eq(r1, r2),
{
    lemma_status_eq_reflexive(r1);
}

/// An explicitly accepted code always wins over default range
/// classification: the verdict is success with that code.
pub proof fn lemma_accepted_code_wins(resp: ResponseSummary, accepted: Option<AcceptedCodes>)
    requires
        accepted_contains(accepted, resp.code),
    ensures
        spec_classify_response(resp, accepted) == Status::Success(resp.code),
{
}

/// A transport failure flagged as a timeout with no attached status code
/// classifies as a timeout without code, whose display text is exactly
/// "Timeout".
pub proof fn lemma_timeout_without_status(f: TransportFailure)
    requires
        f.timeout,
        f.status is None,
    ensures
        spec_classify_failure(f) == Status::Timeout(None::<u16>),
        spec_status_message(spec_classify_failure(f)) == "Timeout"@,
{
}

} // verus!
