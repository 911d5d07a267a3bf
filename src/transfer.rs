//! The transfer request, its validation, and the decisions around the copy.

use vstd::prelude::*;
use vstd::string::*;
use crate::error::{TransferError, error_message};
use crate::naming::{canonical_path, normalized, path_of};

verus! {

/// One operator request to archive a log file, as raw text fields.
#[derive(Debug, Clone)]
pub struct TransferRequest {
    /// Path of the log file to copy.
    pub file: String,
    /// Path of the folder that receives the copy.
    pub dest: String,
    /// Session id; needs at least two characters.
    pub sess: String,
    /// Mode label; must not be empty.
    pub mode: String,
    /// Operator name; must not be empty.
    pub name: String,
    /// Description; must not be empty.
    pub desc: String,
}

/// The first rule that a request breaks, checked in a fixed order, given
/// whether its source and its destination could be looked up.
pub open spec fn validation_error(
    source_exists: bool,
    dest_exists: bool,
    req: TransferRequest,
) -> Option<TransferError> {
    if !source_exists {
        Some(TransferError::SourceNotFound)
    } else if !dest_exists {
        Some(TransferError::DestinationNotFound)
    } else if req.sess@.len() < 2 {
        Some(TransferError::InvalidSession)
    } else if req.mode@.len() == 0 {
        Some(TransferError::InvalidMode)
    } else if req.name@.len() == 0 {
        Some(TransferError::InvalidName)
    } else if req.desc@.len() == 0 {
        Some(TransferError::InvalidDescription)
    } else {
        None
    }
}

/// The path that a valid request copies its file to.
pub open spec fn target_path(req: TransferRequest) -> Seq<char> {
    path_of(
        req.dest@,
        normalized(req.sess@),
        normalized(req.mode@),
        normalized(req.name@),
        normalized(req.desc@),
    )
}

/// The status text for the end of a transfer.
pub open spec fn status_text(outcome: Result<(), TransferError>) -> Seq<char> {
    match outcome {
        Ok(()) => "Sent!"@,
        Err(e) => error_message(e),
    }
}

/// Whether `s` holds at least two characters.
fn has_two_chars(s: &str) -> (r: bool)
    ensures
        r == (s@.len() >= 2),
{
    broadcast use vstd::string::axiom_spec_iter, vstd::string::next_postcondition;

    let mut it = s.chars();
    let first = it.next();
    let second = it.next();
    first.is_some() && second.is_some()
}

impl TransferRequest {
    /// A request made of the six raw fields.
    pub fn new(file: &str, dest: &str, sess: &str, mode: &str, name: &str, desc: &str) -> (r: Self)
        ensures
            r.file@ == file@,
            r.dest@ == dest@,
            r.sess@ == sess@,
            r.mode@ == mode@,
            r.name@ == name@,
            r.desc@ == desc@,
    {
        TransferRequest {
            file: String::from_str(file),
            dest: String::from_str(dest),
            sess: String::from_str(sess),
            mode: String::from_str(mode),
            name: String::from_str(name),
            desc: String::from_str(desc),
        }
    }

    /// Checks the request, first violation first: the source, the
    /// destination, then the session id, mode, name and description.
    pub fn validate(&self, source_exists: bool, dest_exists: bool) -> (r: Result<(), TransferError>)
        ensures
            r == (match validation_error(source_exists, dest_exists, *self) {
                None => Ok(()),
                Some(e) => Err(e),
            }),
    {
        if !source_exists {
            return Err(TransferError::SourceNotFound);
        }
        if !dest_exists {
            return Err(TransferError::DestinationNotFound);
        }
        if !has_two_chars(self.sess.as_str()) {
            return Err(TransferError::InvalidSession);
        }
        if self.mode.as_str().is_empty() {
            return Err(TransferError::InvalidMode);
        }
        if self.name.as_str().is_empty() {
            return Err(TransferError::InvalidName);
        }
        if self.desc.as_str().is_empty() {
            return Err(TransferError::InvalidDescription);
        }
        Ok(())
    }

    /// The path to copy the source file to, or the rule the request breaks.
    /// Nothing is derived from the fields before every check has passed.
    pub fn plan(&self, source_exists: bool, dest_exists: bool) -> (r: Result<String, TransferError>)
        ensures
            validation_error(source_exists, dest_exists, *self) is None ==> r is Ok && r->Ok_0@
                == target_path(*self),
            validation_error(source_exists, dest_exists, *self) matches Some(e) ==> r == Err::<
                String,
                TransferError,
            >(e),
    {
        match self.validate(source_exists, dest_exists) {
            Err(e) => Err(e),
            Ok(()) => Ok(
                canonical_path(
                    self.dest.as_str(),
                    self.sess.as_str(),
                    self.mode.as_str(),
                    self.name.as_str(),
                    self.desc.as_str(),
                ),
            ),
        }
    }
}

/// Turns the result of the copy into the result of the transfer: success, or
/// `CopyFailed` with the text of the underlying error.
pub fn copy_outcome(copied: Result<u64, String>) -> (r: Result<(), TransferError>)
    ensures
        copied is Ok ==> r == Ok::<(), TransferError>(()),
        copied matches Err(detail) ==> r == Err::<(), TransferError>(TransferError::CopyFailed(detail)),
{
    match copied {
        Ok(_) => Ok(()),
        Err(detail) => Err(TransferError::CopyFailed(detail)),
    }
}

/// The status text shown at the end of a transfer: a fixed confirmation on
/// success, else the error's own text.
pub fn status_message(outcome: &Result<(), TransferError>) -> (r: String)
    ensures
        r@ == status_text(*outcome),
{
    match outcome {
        Ok(()) => String::from_str("Sent!"),
        Err(e) => e.message(),
    }
}

/// A request whose source file cannot be found is refused with
/// `SourceNotFound`, whatever its other fields hold.
pub proof fn lemma_missing_source_wins(req: TransferRequest, dest_exists: bool)
    ensures
        validation_error(false, dest_exists, req) == Some(TransferError::SourceNotFound),
{
}

/// With source and destination in place, a session id of fewer than two
/// characters is refused with `InvalidSession`, however valid the rest is.
pub proof fn lemma_short_session_refused(req: TransferRequest)
    requires
        req.sess@.len() < 2,
    ensures
        validation_error(true, true, req) == Some(TransferError::InvalidSession),
{
}

/// The verdict on a request depends only on the text of its fields and on
/// whether source and destination exist: the same request, checked again,
/// meets the same verdict.
pub proof fn lemma_verdict_repeats(
    a: TransferRequest,
    b: TransferRequest,
    source_exists: bool,
    dest_exists: bool,
)
    requires
        a.file@ == b.file@,
        a.dest@ == b.dest@,
        a.sess@ == b.sess@,
        a.mode@ == b.mode@,
        a.name@ == b.name@,
        a.desc@ == b.desc@,
    ensures
        validation_error(source_exists, dest_exists, a) == validation_error(
            source_exists,
            dest_exists,
            b,
        ),
        target_path(a) == target_path(b),
{
}

/// Each of the four fields reaches the target path through the same
/// normalisation and nothing else: in the path, a field's fragment is that
/// field normalised on its own, whatever the other fields hold.
pub proof fn lemma_fields_normalized_alike(req: TransferRequest)
    ensures
        target_path(req) == req.dest@ + seq!['/'] + normalized(req.sess@) + seq!['[']
            + normalized(req.mode@) + seq![']', '['] + normalized(req.name@) + seq![']', '_']
            + normalized(req.desc@),
{
}

} // verus!
