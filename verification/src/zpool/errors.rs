//! The error taxonomy shared by every zpool operation, the comparable kind
//! projection, and the deterministic classifier that turns the external
//! tool's raw diagnostic output into a typed error.

use vstd::prelude::*;

use crate::zpool::patterns::cannot_create_match;
use crate::zpool::patterns::match_cannot_create;
use crate::zpool::patterns::match_reuse;
use crate::zpool::patterns::permission_denied_tail;
use crate::zpool::patterns::reuse_match;
use crate::zpool::patterns::too_small_tail;
use crate::zpool::patterns::zol_reuse_tail;

verus! {

/// The `std::io::Error` type, declared so that an error value can carry the
/// causing I/O failure through as an opaque payload.
#[verifier::external_type_specification]
#[verifier::external_body]
pub struct ExIoError(std::io::Error);

/// The `std::num::ParseIntError` type, declared so that a failed integer
/// parse can be converted into the taxonomy.
#[verifier::external_type_specification]
#[verifier::external_body]
pub struct ExParseIntError(std::num::ParseIntError);

/// The `std::num::ParseFloatError` type, declared so that a failed numeric
/// parse can be converted into the taxonomy.
#[verifier::external_type_specification]
#[verifier::external_body]
pub struct ExParseFloatError(std::num::ParseFloatError);

/// Error raised by any zpool operation. Every failure a caller can see is one
/// of these variants; some carry a payload (the causing I/O failure, the
/// vdev/pool pair of a reuse conflict, or the free-form diagnostic text of an
/// unclassified failure).
#[derive(Debug)]
pub enum ZpoolError {
    /// The `zpool` executable was not found in the path.
    CmdNotFound,
    /// Any other I/O failure while talking to the external tool; carries the
    /// causing failure for diagnostic purposes.
    Io(std::io::Error),
    /// Trying to manipulate a pool that does not exist.
    PoolNotFound,
    /// The given topology failed validation.
    InvalidTopology,
    /// One or more vdevs of a create request already belong to an active
    /// pool. Carries the vdev path and the owning pool's name where the
    /// tool's message exposes them, and two empty strings where it does not.
    VdevReuse(String, String),
    /// Failed to parse a value out of the tool's output.
    ParseError,
    /// A device in the requested topology is smaller than the minimum size.
    DeviceTooSmall,
    /// Permission denied while creating a pool.
    PermissionDenied,
    /// Diagnostic text that matched no known pattern; carries the full
    /// decoded text.
    Other(String),
}

/// The comparable kind of a [`ZpoolError`]. Some error payloads (notably
/// `std::io::Error`) are not comparable, so control flow and tests branch on
/// this projection instead of on the error itself.
#[derive(Clone, Copy, Debug, PartialEq, Eq, Structural)]
pub enum ZpoolErrorKind {
    /// The `zpool` executable was not found in the path.
    CmdNotFound,
    /// Any other I/O failure.
    Io,
    /// Trying to manipulate a pool that does not exist.
    PoolNotFound,
    /// The given topology failed validation.
    InvalidTopology,
    /// One or more vdevs already belong to an active pool.
    VdevReuse,
    /// Failed to parse a value out of the tool's output.
    ParseError,
    /// A device in the requested topology is smaller than the minimum size.
    DeviceTooSmall,
    /// Permission denied while creating a pool.
    PermissionDenied,
    /// Diagnostic text that matched no known pattern.
    Other,
}

impl ZpoolError {
    /// The kind of this error, as a spec-level value.
    pub open spec fn kind_spec(&self) -> ZpoolErrorKind {
        match self {
            ZpoolError::CmdNotFound => ZpoolErrorKind::CmdNotFound,
            ZpoolError::Io(_) => ZpoolErrorKind::Io,
            ZpoolError::PoolNotFound => ZpoolErrorKind::PoolNotFound,
            ZpoolError::InvalidTopology => ZpoolErrorKind::InvalidTopology,
            ZpoolError::VdevReuse(_, _) => ZpoolErrorKind::VdevReuse,
            ZpoolError::ParseError => ZpoolErrorKind::ParseError,
            ZpoolError::DeviceTooSmall => ZpoolErrorKind::DeviceTooSmall,
            ZpoolError::PermissionDenied => ZpoolErrorKind::PermissionDenied,
            ZpoolError::Other(_) => ZpoolErrorKind::Other,
        }
    }

    /// Project this error onto its comparable kind.
    pub fn kind(&self) -> (r: ZpoolErrorKind)
        ensures
            r == self.kind_spec(),
    {
        match self {
            ZpoolError::CmdNotFound => ZpoolErrorKind::CmdNotFound,
            ZpoolError::Io(_) => ZpoolErrorKind::Io,
            ZpoolError::PoolNotFound => ZpoolErrorKind::PoolNotFound,
            ZpoolError::InvalidTopology => ZpoolErrorKind::InvalidTopology,
            ZpoolError::VdevReuse(_, _) => ZpoolErrorKind::VdevReuse,
            ZpoolError::ParseError => ZpoolErrorKind::ParseError,
            ZpoolError::DeviceTooSmall => ZpoolErrorKind::DeviceTooSmall,
            ZpoolError::PermissionDenied => ZpoolErrorKind::PermissionDenied,
            ZpoolError::Other(_) => ZpoolErrorKind::Other,
        }
    }
}

/// Result alias used across the zpool module.
pub type ZpoolResult<T> = Result<T, ZpoolError>;

/// Spec-level image of a [`ZpoolError`]: the variant together with the
/// character sequences of any text payload. The I/O payload is opaque, so its
/// variant carries nothing here.
pub enum ZpoolErrorView {
    /// Image of [`ZpoolError::CmdNotFound`].
    CmdNotFound,
    /// Image of [`ZpoolError::Io`].
    Io,
    /// Image of [`ZpoolError::PoolNotFound`].
    PoolNotFound,
    /// Image of [`ZpoolError::InvalidTopology`].
    InvalidTopology,
    /// Image of [`ZpoolError::VdevReuse`]: the vdev path and the pool name.
    VdevReuse(Seq<char>, Seq<char>),
    /// Image of [`ZpoolError::ParseError`].
    ParseError,
    /// Image of [`ZpoolError::DeviceTooSmall`].
    DeviceTooSmall,
    /// Image of [`ZpoolError::PermissionDenied`].
    PermissionDenied,
    /// Image of [`ZpoolError::Other`]: the full decoded diagnostic text.
    Other(Seq<char>),
}

impl View for ZpoolError {
    type V = ZpoolErrorView;

    open spec fn view(&self) -> ZpoolErrorView {
        match self {
            ZpoolError::CmdNotFound => ZpoolErrorView::CmdNotFound,
            ZpoolError::Io(_) => ZpoolErrorView::Io,
            ZpoolError::PoolNotFound => ZpoolErrorView::PoolNotFound,
            ZpoolError::InvalidTopology => ZpoolErrorView::InvalidTopology,
            ZpoolError::VdevReuse(v, p) => ZpoolErrorView::VdevReuse(v@, p@),
            ZpoolError::ParseError => ZpoolErrorView::ParseError,
            ZpoolError::DeviceTooSmall => ZpoolErrorView::DeviceTooSmall,
            ZpoolError::PermissionDenied => ZpoolErrorView::PermissionDenied,
            ZpoolError::Other(m) => ZpoolErrorView::Other(m@),
        }
    }
}

/// How a decoded diagnostic text classifies. The patterns are tried
/// most-specific-first, the first match wins, and a text that matches none of
/// them is carried through whole as unclassified:
/// 1. the vdev-reuse pattern with its two captures;
/// 2. the vdev-reuse variant that exposes no captures, yielding empty
///    placeholders — a known precision loss of the tool's message on some
///    systems, preserved rather than guessed at;
/// 3. the device-too-small pattern;
/// 4. the permission-denied pattern.
pub open spec fn classify_spec(s: Seq<char>) -> ZpoolErrorView {
    if reuse_match(s) is Some {
        ZpoolErrorView::VdevReuse(reuse_match(s)->Some_0.0, reuse_match(s)->Some_0.1)
    } else if cannot_create_match(s, zol_reuse_tail(), false) {
        ZpoolErrorView::VdevReuse(Seq::empty(), Seq::empty())
    } else if cannot_create_match(s, too_small_tail(), true) {
        ZpoolErrorView::DeviceTooSmall
    } else if cannot_create_match(s, permission_denied_tail(), false) {
        ZpoolErrorView::PermissionDenied
    } else {
        ZpoolErrorView::Other(s)
    }
}

/// The text that lossy UTF-8 decoding gives for a byte sequence.
pub uninterp spec fn lossy_of(bytes: Seq<u8>) -> Seq<char>;

/// Relies on `String::from_utf8_lossy`: the decoded text is a function of the
/// bytes alone; valid UTF-8 decodes to its characters, so ASCII bytes decode
/// one-to-one, and invalid sequences become replacement characters.
#[verifier::external_body]
fn lossy_decode(bytes: &[u8]) -> (r: String)
    ensures
        r@ == lossy_of(bytes@),
        (forall|i: int| 0 <= i < bytes@.len() ==> bytes@[i] < 128) ==> r@ == bytes@.map_values(
            |b: u8| b as char,
        ),
{
    String::from_utf8_lossy(bytes).into_owned()
}

/// Classify one decoded diagnostic text into the taxonomy, trying the
/// patterns of [`classify_spec`] most-specific-first.
pub fn classify_text(text: &str) -> (r: ZpoolError)
    ensures
        r@ == classify_spec(text@),
{
    if let Some((vdev, pool)) = match_reuse(text) {
        return ZpoolError::VdevReuse(vdev, pool);
    }
    if match_cannot_create(
        text,
        " one or more vdevs refer to the same device, or one of\nthe devices is part of an active md or lvm device\n",
        false,
    ) {
        return ZpoolError::VdevReuse(String::new(), String::new());
    }
    if match_cannot_create(text, " one or more devices is less than the minimum size ", true) {
        return ZpoolError::DeviceTooSmall;
    }
    if match_cannot_create(text, " permission denied\n", false) {
        return ZpoolError::PermissionDenied;
    }
    ZpoolError::Other(text.to_owned())
}

impl ZpoolError {
    /// Classify the raw diagnostic output of the external tool. The bytes are
    /// decoded as text first — lossily, so invalid byte sequences become
    /// replacement characters and never fail the classification itself — and
    /// the decoded text classifies as [`classify_spec`] says.
    pub fn from_stderr(stderr_raw: &[u8]) -> (r: ZpoolError)
        ensures
            r@ == classify_spec(lossy_of(stderr_raw@)),
    {
        let text = lossy_decode(stderr_raw);
        classify_text(text.as_str())
    }
}

/// Law: a diagnostic text in which the vdev-reuse pattern matches classifies
/// as a vdev-reuse error carrying exactly the captured vdev path and pool
/// name.
pub proof fn lemma_classify_reuse_exact(s: Seq<char>, vdev: Seq<char>, pool: Seq<char>)
    requires
        reuse_match(s) == Some((vdev, pool)),
    ensures
        classify_spec(s) == ZpoolErrorView::VdevReuse(vdev, pool),
{
}

/// Law: a diagnostic text that no pattern matches classifies as unclassified,
/// with a message equal to the whole text exactly.
pub proof fn lemma_classify_unmatched_exact(s: Seq<char>)
    requires
        reuse_match(s) is None,
        !cannot_create_match(s, zol_reuse_tail(), false),
        !cannot_create_match(s, too_small_tail(), true),
        !cannot_create_match(s, permission_denied_tail(), false),
    ensures
        classify_spec(s) == ZpoolErrorView::Other(s),
{
}

/// Relies on `std::io::Error::kind`: reports whether the error's kind is
/// `ErrorKind::NotFound`. Which kind an error carries depends on how the
/// operating system reported the failure, so nothing is promised of the
/// result.
#[verifier::external_body]
fn io_error_is_not_found(err: &std::io::Error) -> bool {
    err.kind() == std::io::ErrorKind::NotFound
}

impl ZpoolError {
    /// Translate a generic I/O failure into the taxonomy, given whether its
    /// underlying reason is "not found". An executable that was not found
    /// becomes [`ZpoolError::CmdNotFound`]; every other failure is carried
    /// through as [`ZpoolError::Io`].
    pub fn classify_io_failure(not_found: bool, err: std::io::Error) -> (r: ZpoolError)
        ensures
            r == if not_found {
                ZpoolError::CmdNotFound
            } else {
                ZpoolError::Io(err)
            },
    {
        if not_found {
            ZpoolError::CmdNotFound
        } else {
            ZpoolError::Io(err)
        }
    }

    /// Translate a generic I/O failure into the taxonomy. The "not found"
    /// test itself is how the operating system reported the
    /// failure, so the contract pins the result for either answer without
    /// choosing between them.
    pub fn from_io(err: std::io::Error) -> (r: ZpoolError)
        ensures
            r == ZpoolError::CmdNotFound || r == ZpoolError::Io(err),
            r.kind_spec() == ZpoolErrorKind::CmdNotFound || r.kind_spec() == ZpoolErrorKind::Io,
    {
        let not_found = io_error_is_not_found(&err);
        ZpoolError::classify_io_failure(not_found, err)
    }
}

impl From<std::num::ParseIntError> for ZpoolError {
    /// A failed integer parse is always a [`ZpoolError::ParseError`]; the
    /// payload says nothing a caller could branch on.
    fn from(err: std::num::ParseIntError) -> (r: ZpoolError)
        ensures
            r == ZpoolError::ParseError,
    {
        ZpoolError::ParseError
    }
}

impl vstd::std_specs::convert::FromSpecImpl<std::num::ParseIntError> for ZpoolError {
    open spec fn obeys_from_spec() -> bool {
        true
    }

    open spec fn from_spec(err: std::num::ParseIntError) -> ZpoolError {
        ZpoolError::ParseError
    }
}

impl From<std::num::ParseFloatError> for ZpoolError {
    /// A failed numeric parse is always a [`ZpoolError::ParseError`].
    fn from(err: std::num::ParseFloatError) -> (r: ZpoolError)
        ensures
            r == ZpoolError::ParseError,
    {
        ZpoolError::ParseError
    }
}

impl vstd::std_specs::convert::FromSpecImpl<std::num::ParseFloatError> for ZpoolError {
    open spec fn obeys_from_spec() -> bool {
        true
    }

    open spec fn from_spec(err: std::num::ParseFloatError) -> ZpoolError {
        ZpoolError::ParseError
    }
}

} // verus!
