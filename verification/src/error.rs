//! The closed taxonomy of failure causes.
//!
//! Every failure of the transport, filesystem, parsing or messaging layer
//! maps to exactly one `ErrorKind` variant. A variant may carry volatile
//! text (an OS error message) for display; equality and hashing go by the
//! variant's *comparable projection*: the subset of its fields that the
//! wrapped failure exposes consistently.

use vstd::prelude::*;
use vstd::string::StringExecFns;

verus! {

/// The stable category of an I/O failure. Comparing I/O failures by
/// category, never by message text, keeps equality independent of
/// OS-specific wording.
#[derive(Clone, Copy, Debug, PartialEq, Eq, Structural)]
pub enum IoCategory {
    NotFound,
    PermissionDenied,
    ConnectionRefused,
    ConnectionReset,
    BrokenPipe,
    AlreadyExists,
    WouldBlock,
    InvalidInput,
    InvalidData,
    TimedOut,
    Interrupted,
    UnexpectedEof,
    Other,
}

impl IoCategory {
    /// A small numeric code, used by the snapshot format.
    pub open spec fn spec_code(self) -> nat {
        match self {
            IoCategory::NotFound => 0,
            IoCategory::PermissionDenied => 1,
            IoCategory::ConnectionRefused => 2,
            IoCategory::ConnectionReset => 3,
            IoCategory::BrokenPipe => 4,
            IoCategory::AlreadyExists => 5,
            IoCategory::WouldBlock => 6,
            IoCategory::InvalidInput => 7,
            IoCategory::InvalidData => 8,
            IoCategory::TimedOut => 9,
            IoCategory::Interrupted => 10,
            IoCategory::UnexpectedEof => 11,
            IoCategory::Other => 12,
        }
    }

    /// The category back from its numeric code.
    pub open spec fn spec_from_code(code: nat) -> Option<IoCategory> {
        if code == 0 {
            Some(IoCategory::NotFound)
        } else if code == 1 {
            Some(IoCategory::PermissionDenied)
        } else if code == 2 {
            Some(IoCategory::ConnectionRefused)
        } else if code == 3 {
            Some(IoCategory::ConnectionReset)
        } else if code == 4 {
            Some(IoCategory::BrokenPipe)
        } else if code == 5 {
            Some(IoCategory::AlreadyExists)
        } else if code == 6 {
            Some(IoCategory::WouldBlock)
        } else if code == 7 {
            Some(IoCategory::InvalidInput)
        } else if code == 8 {
            Some(IoCategory::InvalidData)
        } else if code == 9 {
            Some(IoCategory::TimedOut)
        } else if code == 10 {
            Some(IoCategory::Interrupted)
        } else if code == 11 {
            Some(IoCategory::UnexpectedEof)
        } else if code == 12 {
            Some(IoCategory::Other)
        } else {
            None
        }
    }

    pub fn code(&self) -> (r: u16)
        ensures
            r as nat == self.spec_code(),
            r < 1000,
    {
        match self {
            IoCategory::NotFound => 0,
            IoCategory::PermissionDenied => 1,
            IoCategory::ConnectionRefused => 2,
            IoCategory::ConnectionReset => 3,
            IoCategory::BrokenPipe => 4,
            IoCategory::AlreadyExists => 5,
            IoCategory::WouldBlock => 6,
            IoCategory::InvalidInput => 7,
            IoCategory::InvalidData => 8,
            IoCategory::TimedOut => 9,
            IoCategory::Interrupted => 10,
            IoCategory::UnexpectedEof => 11,
            IoCategory::Other => 12,
        }
    }

    pub fn from_code(code: u16) -> (r: Option<IoCategory>)
        ensures
            r == IoCategory::spec_from_code(code as nat),
    {
        if code == 0 {
            Some(IoCategory::NotFound)
        } else if code == 1 {
            Some(IoCategory::PermissionDenied)
        } else if code == 2 {
            Some(IoCategory::ConnectionRefused)
        } else if code == 3 {
            Some(IoCategory::ConnectionReset)
        } else if code == 4 {
            Some(IoCategory::BrokenPipe)
        } else if code == 5 {
            Some(IoCategory::AlreadyExists)
        } else if code == 6 {
            Some(IoCategory::WouldBlock)
        } else if code == 7 {
            Some(IoCategory::InvalidInput)
        } else if code == 8 {
            Some(IoCategory::InvalidData)
        } else if code == 9 {
            Some(IoCategory::TimedOut)
        } else if code == 10 {
            Some(IoCategory::Interrupted)
        } else if code == 11 {
            Some(IoCategory::UnexpectedEof)
        } else if code == 12 {
            Some(IoCategory::Other)
        } else {
            None
        }
    }

    /// A short label for display.
    pub fn label(&self) -> (r: &'static str)
        ensures
            r@ == self.spec_label(),
    {
        match self {
            IoCategory::NotFound => "not found",
            IoCategory::PermissionDenied => "permission denied",
            IoCategory::ConnectionRefused => "connection refused",
            IoCategory::ConnectionReset => "connection reset",
            IoCategory::BrokenPipe => "broken pipe",
            IoCategory::AlreadyExists => "already exists",
            IoCategory::WouldBlock => "would block",
            IoCategory::InvalidInput => "invalid input",
            IoCategory::InvalidData => "invalid data",
            IoCategory::TimedOut => "timed out",
            IoCategory::Interrupted => "interrupted",
            IoCategory::UnexpectedEof => "unexpected end of file",
            IoCategory::Other => "other",
        }
    }

    pub open spec fn spec_label(self) -> Seq<char> {
        match self {
            IoCategory::NotFound => "not found"@,
            IoCategory::PermissionDenied => "permission denied"@,
            IoCategory::ConnectionRefused => "connection refused"@,
            IoCategory::ConnectionReset => "connection reset"@,
            IoCategory::BrokenPipe => "broken pipe"@,
            IoCategory::AlreadyExists => "already exists"@,
            IoCategory::WouldBlock => "would block"@,
            IoCategory::InvalidInput => "invalid input"@,
            IoCategory::InvalidData => "invalid data"@,
            IoCategory::TimedOut => "timed out"@,
            IoCategory::Interrupted => "interrupted"@,
            IoCategory::UnexpectedEof => "unexpected end of file"@,
            IoCategory::Other => "other"@,
        }
    }

    /// Every category's code maps back to the category.
    pub proof fn lemma_code_round_trip(self)
        ensures
            IoCategory::spec_from_code(self.spec_code()) == Some(self),
    {
    }
}

/// The cause of a failed or unsupported check.
///
/// Variants carry the comparable projection of the underlying failure as
/// plain values, plus any volatile text needed only for display.
#[derive(Clone, Debug)]
pub enum ErrorKind {
    /// An I/O failure while reading from a path. Compared by path and
    /// category; the OS message is display-only.
    Io { path: Option<String>, category: IoCategory, message: String },
    /// A byte sequence that is not valid text.
    Encoding { message: String },
    /// A network client failure, with an optional status code.
    Client { err: String, status: Option<u16> },
    /// A failure reported by the remote repository-hosting API.
    Github { message: String },
    /// The given string parses neither as URL, file path, nor mail
    /// address. Compared by the input string and the presence (not the
    /// content) of a secondary mail-parse failure; the parser wordings
    /// are display-only.
    Parse { input: String, url_error: String, mail_error: Option<String> },
    /// The given path cannot be converted to a URL.
    UrlFromPath { path: String },
    /// The given path does not resolve to a file.
    FileNotFound { path: String },
    /// The given file URI does not point to a file.
    FileUriNotFound { uri: String },
    /// The mail address is unreachable.
    Mail { uri: String },
    /// A header value could not be parsed. No comparable payload.
    Header { message: String },
    /// A base directory or base URL is invalid.
    Base { base: String, message: String },
    /// A failure while traversing an input directory. No comparable payload.
    DirTraversal { message: String },
    /// An invalid glob pattern.
    Glob { position: usize, message: String },
    /// No token for the repository-hosting API was configured.
    MissingGitHubToken,
    /// The URI is reachable over the secure protocol but the insecure one
    /// was given.
    InsecureURL { uri: String },
    /// A message could not be delivered between tasks. No comparable payload.
    Channel { message: String },
    /// The URL has no host.
    MissingHost,
    /// The given URI is invalid.
    InvalidURI { uri: String },
}

/// The mathematical model of a failure cause: the same shape with every
/// string replaced by its character sequence.
pub enum KindModel {
    Io { path: Option<Seq<char>>, category: IoCategory, message: Seq<char> },
    Encoding { message: Seq<char> },
    Client { err: Seq<char>, status: Option<u16> },
    Github { message: Seq<char> },
    Parse { input: Seq<char>, url_error: Seq<char>, mail_error: Option<Seq<char>> },
    UrlFromPath { path: Seq<char> },
    FileNotFound { path: Seq<char> },
    FileUriNotFound { uri: Seq<char> },
    Mail { uri: Seq<char> },
    Header { message: Seq<char> },
    Base { base: Seq<char>, message: Seq<char> },
    DirTraversal { message: Seq<char> },
    Glob { position: usize, message: Seq<char> },
    MissingGitHubToken,
    InsecureURL { uri: Seq<char> },
    Channel { message: Seq<char> },
    MissingHost,
    InvalidURI { uri: Seq<char> },
}

impl View for ErrorKind {
    type V = KindModel;

    open spec fn view(&self) -> KindModel {
        match *self {
            ErrorKind::Io { path, category, message } => KindModel::Io {
                path: opt_str_view(path),
                category,
                message: message@,
            },
            ErrorKind::Encoding { message } => KindModel::Encoding { message: message@ },
            ErrorKind::Client { err, status } => KindModel::Client { err: err@, status },
            ErrorKind::Github { message } => KindModel::Github { message: message@ },
            ErrorKind::Parse { input, url_error, mail_error } => KindModel::Parse {
                input: input@,
                url_error: url_error@,
                mail_error: opt_str_view(mail_error),
            },
            ErrorKind::UrlFromPath { path } => KindModel::UrlFromPath { path: path@ },
            ErrorKind::FileNotFound { path } => KindModel::FileNotFound { path: path@ },
            ErrorKind::FileUriNotFound { uri } => KindModel::FileUriNotFound { uri: uri@ },
            ErrorKind::Mail { uri } => KindModel::Mail { uri: uri@ },
            ErrorKind::Header { message } => KindModel::Header { message: message@ },
            ErrorKind::Base { base, message } => KindModel::Base { base: base@, message: message@ },
            ErrorKind::DirTraversal { message } => KindModel::DirTraversal { message: message@ },
            ErrorKind::Glob { position, message } => KindModel::Glob {
                position,
                message: message@,
            },
            ErrorKind::MissingGitHubToken => KindModel::MissingGitHubToken,
            ErrorKind::InsecureURL { uri } => KindModel::InsecureURL { uri: uri@ },
            ErrorKind::Channel { message } => KindModel::Channel { message: message@ },
            ErrorKind::MissingHost => KindModel::MissingHost,
            ErrorKind::InvalidURI { uri } => KindModel::InvalidURI { uri: uri@ },
        }
    }
}

/// Equality of cause models, by the comparable projection; the
/// model-level counterpart of `kind_eq`.
pub open spec fn kind_model_eq(a: KindModel, b: KindModel) -> bool {
    match (a, b) {
        (
            KindModel::Io { path: p1, category: c1, .. },
            KindModel::Io { path: p2, category: c2, .. },
        ) => p1 == p2 && c1 == c2,
        (KindModel::Encoding { message: m1 }, KindModel::Encoding { message: m2 }) => m1 == m2,
        (
            KindModel::Client { err: e1, status: s1 },
            KindModel::Client { err: e2, status: s2 },
        ) => e1 == e2 && s1 == s2,
        (KindModel::Github { message: m1 }, KindModel::Github { message: m2 }) => m1 == m2,
        (
            KindModel::Parse { input: i1, mail_error: m1, .. },
            KindModel::Parse { input: i2, mail_error: m2, .. },
        ) => i1 == i2 && (m1 is Some <==> m2 is Some),
        (KindModel::UrlFromPath { path: p1 }, KindModel::UrlFromPath { path: p2 }) => p1 == p2,
        (KindModel::FileNotFound { path: p1 }, KindModel::FileNotFound { path: p2 }) => p1 == p2,
        (
            KindModel::FileUriNotFound { uri: u1 },
            KindModel::FileUriNotFound { uri: u2 },
        ) => u1 == u2,
        (KindModel::Mail { uri: u1 }, KindModel::Mail { uri: u2 }) => u1 == u2,
        (KindModel::Header { .. }, KindModel::Header { .. }) => true,
        (
            KindModel::Base { base: b1, message: m1 },
            KindModel::Base { base: b2, message: m2 },
        ) => b1 == b2 && m1 == m2,
        (KindModel::DirTraversal { .. }, KindModel::DirTraversal { .. }) => true,
        (
            KindModel::Glob { position: p1, message: m1 },
            KindModel::Glob { position: p2, message: m2 },
        ) => p1 == p2 && m1 == m2,
        (KindModel::MissingGitHubToken, KindModel::MissingGitHubToken) => true,
        (KindModel::InsecureURL { uri: u1 }, KindModel::InsecureURL { uri: u2 }) => u1 == u2,
        (KindModel::Channel { .. }, KindModel::Channel { .. }) => true,
        (KindModel::MissingHost, KindModel::MissingHost) => true,
        (KindModel::InvalidURI { uri: u1 }, KindModel::InvalidURI { uri: u2 }) => u1 == u2,
        _ => false,
    }
}

/// Causes with equal models are equal causes, and causes are equal
/// exactly when their models are, by the comparable projection.
pub proof fn lemma_kind_eq_via_model(a: ErrorKind, b: ErrorKind)
    ensures
        kind_eq(a, b) == kind_model_eq(a@, b@),
{
}

/// The view of an optional string.
pub open spec fn opt_str_view(o: Option<String>) -> Option<Seq<char>> {
    match o {
        Some(s) => Some(s@),
        None => None,
    }
}

/// Equality of failure causes: same variant, same comparable projection.
pub open spec fn kind_eq(a: ErrorKind, b: ErrorKind) -> bool {
    match (a, b) {
        (
            ErrorKind::Io { path: p1, category: c1, .. },
            ErrorKind::Io { path: p2, category: c2, .. },
        ) => opt_str_view(p1) == opt_str_view(p2) && c1 == c2,
        (ErrorKind::Encoding { message: m1 }, ErrorKind::Encoding { message: m2 }) => m1@ == m2@,
        (
            ErrorKind::Client { err: e1, status: s1 },
            ErrorKind::Client { err: e2, status: s2 },
        ) => e1@ == e2@ && s1 == s2,
        (ErrorKind::Github { message: m1 }, ErrorKind::Github { message: m2 }) => m1@ == m2@,
        (
            ErrorKind::Parse { input: i1, mail_error: m1, .. },
            ErrorKind::Parse { input: i2, mail_error: m2, .. },
        ) => i1@ == i2@ && (m1 is Some <==> m2 is Some),
        (ErrorKind::UrlFromPath { path: p1 }, ErrorKind::UrlFromPath { path: p2 }) => p1@ == p2@,
        (ErrorKind::FileNotFound { path: p1 }, ErrorKind::FileNotFound { path: p2 }) => p1@ == p2@,
        (
            ErrorKind::FileUriNotFound { uri: u1 },
            ErrorKind::FileUriNotFound { uri: u2 },
        ) => u1@ == u2@,
        (ErrorKind::Mail { uri: u1 }, ErrorKind::Mail { uri: u2 }) => u1@ == u2@,
        (ErrorKind::Header { .. }, ErrorKind::Header { .. }) => true,
        (
            ErrorKind::Base { base: b1, message: m1 },
            ErrorKind::Base { base: b2, message: m2 },
        ) => b1@ == b2@ && m1@ == m2@,
        (ErrorKind::DirTraversal { .. }, ErrorKind::DirTraversal { .. }) => true,
        (
            ErrorKind::Glob { position: p1, message: m1 },
            ErrorKind::Glob { position: p2, message: m2 },
        ) => p1 == p2 && m1@ == m2@,
        (ErrorKind::MissingGitHubToken, ErrorKind::MissingGitHubToken) => true,
        (ErrorKind::InsecureURL { uri: u1 }, ErrorKind::InsecureURL { uri: u2 }) => u1@ == u2@,
        (ErrorKind::Channel { .. }, ErrorKind::Channel { .. }) => true,
        (ErrorKind::MissingHost, ErrorKind::MissingHost) => true,
        (ErrorKind::InvalidURI { uri: u1 }, ErrorKind::InvalidURI { uri: u2 }) => u1@ == u2@,
        _ => false,
    }
}

fn opt_string_eq(a: &Option<String>, b: &Option<String>) -> (r: bool)
    ensures
        r == (opt_str_view(*a) == opt_str_view(*b)),
{
    match (a, b) {
        (Option::Some(x), Option::Some(y)) => x.eq(y),
        (Option::None, Option::None) => true,
        _ => false,
    }
}

fn opt_code_eq(a: &Option<u16>, b: &Option<u16>) -> (r: bool)
    ensures
        r == (*a == *b),
{
    match (a, b) {
        (Option::Some(x), Option::Some(y)) => x.eq(y),
        (Option::None, Option::None) => true,
        _ => false,
    }
}

impl PartialEq for ErrorKind {
    /// Comparable-projection equality, per variant.
    fn eq(&self, other: &Self) -> (r: bool) {
        match (self, other) {
            (
                ErrorKind::Io { path: p1, category: c1, .. },
                ErrorKind::Io { path: p2, category: c2, .. },
            ) => opt_string_eq(p1, p2) && *c1 == *c2,
            (
                ErrorKind::Encoding { message: m1 },
                ErrorKind::Encoding { message: m2 },
            ) => m1.eq(m2),
            (
                ErrorKind::Client { err: e1, status: s1 },
                ErrorKind::Client { err: e2, status: s2 },
            ) => e1.eq(e2) && opt_code_eq(s1, s2),
            (ErrorKind::Github { message: m1 }, ErrorKind::Github { message: m2 }) => m1.eq(m2),
            (
                ErrorKind::Parse { input: i1, mail_error: m1, .. },
                ErrorKind::Parse { input: i2, mail_error: m2, .. },
            ) => i1.eq(i2) && (m1.is_some() == m2.is_some()),
            (
                ErrorKind::UrlFromPath { path: p1 },
                ErrorKind::UrlFromPath { path: p2 },
            ) => p1.eq(p2),
            (
                ErrorKind::FileNotFound { path: p1 },
                ErrorKind::FileNotFound { path: p2 },
            ) => p1.eq(p2),
            (
                ErrorKind::FileUriNotFound { uri: u1 },
                ErrorKind::FileUriNotFound { uri: u2 },
            ) => u1.eq(u2),
            (ErrorKind::Mail { uri: u1 }, ErrorKind::Mail { uri: u2 }) => u1.eq(u2),
            (ErrorKind::Header { .. }, ErrorKind::Header { .. }) => true,
            (
                ErrorKind::Base { base: b1, message: m1 },
                ErrorKind::Base { base: b2, message: m2 },
            ) => b1.eq(b2) && m1.eq(m2),
            (ErrorKind::DirTraversal { .. }, ErrorKind::DirTraversal { .. }) => true,
            (
                ErrorKind::Glob { position: p1, message: m1 },
                ErrorKind::Glob { position: p2, message: m2 },
            ) => p1 == p2 && m1.eq(m2),
            (ErrorKind::MissingGitHubToken, ErrorKind::MissingGitHubToken) => true,
            (
                ErrorKind::InsecureURL { uri: u1 },
                ErrorKind::InsecureURL { uri: u2 },
            ) => u1.eq(u2),
            (ErrorKind::Channel { .. }, ErrorKind::Channel { .. }) => true,
            (ErrorKind::MissingHost, ErrorKind::MissingHost) => true,
            (ErrorKind::InvalidURI { uri: u1 }, ErrorKind::InvalidURI { uri: u2 }) => u1.eq(u2),
            _ => false,
        }
    }
}

impl vstd::std_specs::cmp::PartialEqSpecImpl for ErrorKind {
    open spec fn obeys_eq_spec() -> bool {
        true
    }

    open spec fn eq_spec(&self, other: &Self) -> bool {
        kind_eq(*self, *other)
    }
}

impl Eq for ErrorKind {}

/// Size of the hash space: every hash value stays below two to the 32.
pub const HASH_SPACE: u64 = 0x1_0000_0000;

/// Folds one value into a running hash.
pub open spec fn mix(h: nat, v: nat) -> nat {
    (h * 31 + v) % 0x1_0000_0000
}

/// Hash of a character sequence, folded left to right.
pub open spec fn hash_chars(s: Seq<char>) -> nat
    decreases s.len(),
{
    if s.len() == 0 {
        7
    } else {
        mix(hash_chars(s.drop_last()), (s.last() as u32) as nat)
    }
}

pub open spec fn hash_opt_str(o: Option<Seq<char>>) -> nat {
    match o {
        None => 11,
        Some(s) => mix(13, hash_chars(s)),
    }
}

pub open spec fn hash_opt_code(o: Option<u16>) -> nat {
    match o {
        None => 11,
        Some(c) => mix(13, c as nat),
    }
}

/// Hash of a failure cause. It reads exactly the fields of the comparable
/// projection, so equal causes hash equally.
pub open spec fn spec_hash_kind(k: ErrorKind) -> nat {
    match k {
        ErrorKind::Io { path, category, .. } => mix(
            mix(mix(7, 1), hash_opt_str(opt_str_view(path))),
            category.spec_code(),
        ),
        ErrorKind::Encoding { message } => mix(mix(7, 2), hash_chars(message@)),
        ErrorKind::Client { err, status } => mix(
            mix(mix(7, 3), hash_chars(err@)),
            hash_opt_code(status),
        ),
        ErrorKind::Github { message } => mix(mix(7, 4), hash_chars(message@)),
        ErrorKind::Parse { input, mail_error, .. } => mix(
            mix(mix(7, 5), hash_chars(input@)),
            if mail_error is Some {
                1
            } else {
                0
            },
        ),
        ErrorKind::UrlFromPath { path } => mix(mix(7, 6), hash_chars(path@)),
        ErrorKind::FileNotFound { path } => mix(mix(7, 8), hash_chars(path@)),
        ErrorKind::FileUriNotFound { uri } => mix(mix(7, 9), hash_chars(uri@)),
        ErrorKind::Mail { uri } => mix(mix(7, 10), hash_chars(uri@)),
        ErrorKind::Header { .. } => mix(7, 12),
        ErrorKind::Base { base, message } => mix(
            mix(mix(7, 14), hash_chars(base@)),
            hash_chars(message@),
        ),
        ErrorKind::DirTraversal { .. } => mix(7, 15),
        ErrorKind::Glob { position, message } => mix(
            mix(mix(7, 16), (position as nat) % 0x1_0000_0000),
            hash_chars(message@),
        ),
        ErrorKind::MissingGitHubToken => mix(7, 17),
        ErrorKind::InsecureURL { uri } => mix(mix(7, 18), hash_chars(uri@)),
        ErrorKind::Channel { .. } => mix(7, 19),
        ErrorKind::MissingHost => mix(7, 20),
        ErrorKind::InvalidURI { uri } => mix(mix(7, 21), hash_chars(uri@)),
    }
}

/// Equal causes hash equally: the hash reads only the comparable
/// projection that equality compares.
pub proof fn lemma_eq_hash_consistent(a: ErrorKind, b: ErrorKind)
    requires
        kind_eq(a, b),
    ensures
        spec_hash_kind(a) == spec_hash_kind(b),
{
}

/// Two I/O causes with the same path and category are equal and hash
/// equally, whatever their message texts say.
pub proof fn lemma_io_eq_ignores_message(
    path: Option<String>,
    category: IoCategory,
    m1: String,
    m2: String,
)
    ensures
        kind_eq(
            (ErrorKind::Io { path, category, message: m1 }),
            (ErrorKind::Io { path, category, message: m2 }),
        ),
        spec_hash_kind((ErrorKind::Io { path, category, message: m1 })) == spec_hash_kind(
            (ErrorKind::Io { path, category, message: m2 }),
        ),
{
}

pub(crate) fn mix_exec(h: u64, v: u64) -> (r: u64)
    requires
        h < HASH_SPACE,
        v < HASH_SPACE,
    ensures
        r as nat == mix(h as nat, v as nat),
        r < HASH_SPACE,
{
    (h * 31 + v) % HASH_SPACE
}

fn hash_str(s: &str) -> (r: u64)
    ensures
        r as nat == hash_chars(s@),
        r < HASH_SPACE,
{
    let cs = crate::text::chars_of(s);
    let mut acc: u64 = 7;
    let mut i: usize = 0;
    proof {
        assert(s@.take(0) =~= Seq::<char>::empty());
    }
    while i < cs.len()
        invariant
            cs@ == s@,
            0 <= i <= cs@.len(),
            acc < HASH_SPACE,
            acc as nat == hash_chars(s@.take(i as int)),
        decreases cs@.len() - i,
    {
        let c = cs[i];
        proof {
            let t = s@.take(i + 1);
            assert(t.drop_last() =~= s@.take(i as int));
            assert(t.last() == c);
        }
        acc = mix_exec(acc, (c as u32) as u64);
        i = i + 1;
    }
    proof {
        assert(s@.take(cs@.len() as int) =~= s@);
    }
    acc
}

fn hash_opt_str_exec(o: &Option<String>) -> (r: u64)
    ensures
        r as nat == hash_opt_str(opt_str_view(*o)),
        r < HASH_SPACE,
{
    match o {
        Option::None => 11,
        Option::Some(s) => mix_exec(13, hash_str(s.as_str())),
    }
}

pub(crate) fn hash_opt_code_exec(o: &Option<u16>) -> (r: u64)
    ensures
        r as nat == hash_opt_code(*o),
        r < HASH_SPACE,
{
    match o {
        Option::None => 11,
        Option::Some(c) => mix_exec(13, *c as u64),
    }
}

impl ErrorKind {
    /// A hash of the comparable projection, consistent with `==`.
    pub fn hash_code(&self) -> (r: u64)
        ensures
            r as nat == spec_hash_kind(*self),
            r < HASH_SPACE,
    {
        match self {
            ErrorKind::Io { path, category, .. } => mix_exec(
                mix_exec(mix_exec(7, 1), hash_opt_str_exec(path)),
                category.code() as u64,
            ),
            ErrorKind::Encoding { message } => mix_exec(mix_exec(7, 2), hash_str(message.as_str())),
            ErrorKind::Client { err, status } => mix_exec(
                mix_exec(mix_exec(7, 3), hash_str(err.as_str())),
                hash_opt_code_exec(status),
            ),
            ErrorKind::Github { message } => mix_exec(mix_exec(7, 4), hash_str(message.as_str())),
            ErrorKind::Parse { input, mail_error, .. } => mix_exec(
                mix_exec(mix_exec(7, 5), hash_str(input.as_str())),
                if mail_error.is_some() {
                    1
                } else {
                    0
                },
            ),
            ErrorKind::UrlFromPath { path } => mix_exec(mix_exec(7, 6), hash_str(path.as_str())),
            ErrorKind::FileNotFound { path } => mix_exec(mix_exec(7, 8), hash_str(path.as_str())),
            ErrorKind::FileUriNotFound { uri } => mix_exec(mix_exec(7, 9), hash_str(uri.as_str())),
            ErrorKind::Mail { uri } => mix_exec(mix_exec(7, 10), hash_str(uri.as_str())),
            ErrorKind::Header { .. } => mix_exec(7, 12),
            ErrorKind::Base { base, message } => mix_exec(
                mix_exec(mix_exec(7, 14), hash_str(base.as_str())),
                hash_str(message.as_str()),
            ),
            ErrorKind::DirTraversal { .. } => mix_exec(7, 15),
            ErrorKind::Glob { position, message } => mix_exec(
                mix_exec(mix_exec(7, 16), (*position as u64) % HASH_SPACE),
                hash_str(message.as_str()),
            ),
            ErrorKind::MissingGitHubToken => mix_exec(7, 17),
            ErrorKind::InsecureURL { uri } => mix_exec(mix_exec(7, 18), hash_str(uri.as_str())),
            ErrorKind::Channel { .. } => mix_exec(7, 19),
            ErrorKind::MissingHost => mix_exec(7, 20),
            ErrorKind::InvalidURI { uri } => mix_exec(mix_exec(7, 21), hash_str(uri.as_str())),
        }
    }
}

/// The display text of an optional path.
pub open spec fn spec_path_text(o: Option<Seq<char>>) -> Seq<char> {
    match o {
        Some(p) => p,
        None => "<MALFORMED PATH>"@,
    }
}

/// One line of human-readable text identifying the cause.
pub open spec fn kind_message(k: ErrorKind) -> Seq<char> {
    match k {
        ErrorKind::Io { path, category, message } => "Failed to read from path: `"@ + spec_path_text(
            opt_str_view(path),
        ) + "`, reason: "@ + category.spec_label() + ": "@ + message@,
        ErrorKind::Encoding { message } =>
            "Attempted to interpret an invalid sequence of bytes as a string: "@ + message@,
        ErrorKind::Client { err, .. } => "Network error while trying to connect to an endpoint: "@
            + err@,
        ErrorKind::Github { message } =>
            "Network error when trying to connect to an endpoint via the repository-hosting API: "@
            + message@,
        ErrorKind::Parse { input, url_error, .. } => "Cannot parse "@ + input@
            + " as website url, file path, or mail address: "@ + url_error@,
        ErrorKind::UrlFromPath { path } => "Invalid path to URL conversion: "@ + path@,
        ErrorKind::FileNotFound { path } => "Cannot find local file "@ + path@,
        ErrorKind::FileUriNotFound { uri } => "Cannot find file "@ + uri@,
        ErrorKind::Mail { uri } => "Unreachable mail address: "@ + uri@,
        ErrorKind::Header { message } => "Header could not be parsed: "@ + message@,
        ErrorKind::Base { base, message } => "Error with base dir `"@ + base@ + "` : "@ + message@,
        ErrorKind::DirTraversal { message } => "Cannot traverse input directory: "@ + message@,
        ErrorKind::Glob { message, .. } => "UNIX glob pattern is invalid: "@ + message@,
        ErrorKind::MissingGitHubToken =>
            "GitHub token not specified. To check GitHub links reliably, use a token."@,
        ErrorKind::InsecureURL { uri } =>
            "This URI is available in HTTPS protocol, but HTTP is provided, use '"@ + uri@
            + "' instead"@,
        ErrorKind::Channel { message } => "Cannot send/receive message from channel: "@ + message@,
        ErrorKind::MissingHost => "URL is missing a host"@,
        ErrorKind::InvalidURI { uri } => "The given URI is invalid: "@ + uri@,
    }
}

impl ErrorKind {
    /// Renders the one-line display text of the cause.
    pub fn message(&self) -> (r: String)
        ensures
            r@ == kind_message(*self),
    {
        let mut s = String::new();
        match self {
            ErrorKind::Io { path, category, message } => {
                s.append("Failed to read from path: `");
                match path {
                    Option::Some(p) => { s.append(p.as_str()) },
                    Option::None => { s.append("<MALFORMED PATH>") },
                }
                s.append("`, reason: ");
                s.append(category.label());
                s.append(": ");
                s.append(message.as_str());
            },
            ErrorKind::Encoding { message } => {
                s.append("Attempted to interpret an invalid sequence of bytes as a string: ");
                s.append(message.as_str());
            },
            ErrorKind::Client { err, .. } => {
                s.append("Network error while trying to connect to an endpoint: ");
                s.append(err.as_str());
            },
            ErrorKind::Github { message } => {
                s.append(
                    "Network error when trying to connect to an endpoint via the repository-hosting API: ",
                );
                s.append(message.as_str());
            },
            ErrorKind::Parse { input, url_error, .. } => {
                s.append("Cannot parse ");
                s.append(input.as_str());
                s.append(" as website url, file path, or mail address: ");
                s.append(url_error.as_str());
            },
            ErrorKind::UrlFromPath { path } => {
                s.append("Invalid path to URL conversion: ");
                s.append(path.as_str());
            },
            ErrorKind::FileNotFound { path } => {
                s.append("Cannot find local file ");
                s.append(path.as_str());
            },
            ErrorKind::FileUriNotFound { uri } => {
                s.append("Cannot find file ");
                s.append(uri.as_str());
            },
            ErrorKind::Mail { uri } => {
                s.append("Unreachable mail address: ");
                s.append(uri.as_str());
            },
            ErrorKind::Header { message } => {
                s.append("Header could not be parsed: ");
                s.append(message.as_str());
            },
            ErrorKind::Base { base, message } => {
                s.append("Error with base dir `");
                s.append(base.as_str());
                s.append("` : ");
                s.append(message.as_str());
            },
            ErrorKind::DirTraversal { message } => {
                s.append("Cannot traverse input directory: ");
                s.append(message.as_str());
            },
            ErrorKind::Glob { message, .. } => {
                s.append("UNIX glob pattern is invalid: ");
                s.append(message.as_str());
            },
            ErrorKind::MissingGitHubToken => {
                s.append("GitHub token not specified. To check GitHub links reliably, use a token.");
            },
            ErrorKind::InsecureURL { uri } => {
                s.append("This URI is available in HTTPS protocol, but HTTP is provided, use '");
                s.append(uri.as_str());
                s.append("' instead");
            },
            ErrorKind::Channel { message } => {
                s.append("Cannot send/receive message from channel: ");
                s.append(message.as_str());
            },
            ErrorKind::MissingHost => {
                s.append("URL is missing a host");
            },
            ErrorKind::InvalidURI { uri } => {
                s.append("The given URI is invalid: ");
                s.append(uri.as_str());
            },
        }
        proof {
            assert(s@ =~= kind_message(*self));
        }
        s
    }
}

} // verus!
