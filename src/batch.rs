//! The batch driver: the decisions taken for each input line, and the
//! outcome of a run.
use vstd::prelude::*;
use vstd::string::*;
use crate::backend::{CallError, ResponseValue};
use crate::image::{ValidatedImage, ValidationError};

verus! {

/// A text without its leading and trailing whitespace.
pub uninterp spec fn trimmed(s: Seq<char>) -> Seq<char>;

/// Relies on `str::trim`: the text without leading and trailing white
/// space, which depends on the text alone.
#[verifier::external_body]
fn trim_text(s: &str) -> (r: &str)
    ensures
        r@ == trimmed(s@),
{
    s.trim()
}

/// The path that an input line names: the line without surrounding
/// whitespace, or none where the line is blank.
pub fn input_path(line: &str) -> (r: Option<String>)
    ensures
        r is None <==> trimmed(line@).len() == 0,
        r matches Some(p) ==> p@ == trimmed(line@),
{
    let t = trim_text(line);
    if t.unicode_len() == 0 {
        None
    } else {
        Some(String::from_str(t))
    }
}

/// One line of output: the path as given and the model's response.
#[derive(Debug)]
pub struct OutputRecord {
    pub file: String,
    pub response: ResponseValue,
}

/// What to do with an image after its validation.
#[derive(Debug)]
pub enum ItemStep {
    /// Validation failed: report the error and go on with the next path.
    Rejected(ValidationError),
    /// Validation succeeded in a dry run: nothing more to do.
    Checked,
    /// Send the image to the backend.
    Call(ValidatedImage),
}

/// The state of one run over a sequence of paths.
#[derive(Debug)]
pub struct BatchDriver {
    dry_run: bool,
    had_errors: bool,
}

impl BatchDriver {
    pub closed spec fn is_dry_run(&self) -> bool {
        self.dry_run
    }

    /// Whether any item of the run so far has failed.
    pub closed spec fn spec_had_errors(&self) -> bool {
        self.had_errors
    }

    /// A run that has seen no item yet.
    pub fn new(dry_run: bool) -> (r: BatchDriver)
        ensures
            r.is_dry_run() == dry_run,
            !r.spec_had_errors(),
    {
        BatchDriver { dry_run, had_errors: false }
    }

    pub fn dry_run(&self) -> (r: bool)
        ensures
            r == self.is_dry_run(),
    {
        self.dry_run
    }

    pub fn had_errors(&self) -> (r: bool)
        ensures
            r == self.spec_had_errors(),
    {
        self.had_errors
    }

    /// Decides what follows a validation: a failure is recorded and
    /// reported, a valid image is sent on unless the run is dry.
    pub fn after_validation(&mut self, v: Result<ValidatedImage, ValidationError>) -> (r: ItemStep)
        ensures
            final(self).is_dry_run() == old(self).is_dry_run(),
            final(self).spec_had_errors() == (old(self).spec_had_errors() || v is Err),
            v matches Err(e) ==> r == ItemStep::Rejected(e),
            v is Ok && old(self).is_dry_run() ==> r is Checked,
            v matches Ok(img) ==> (!old(self).is_dry_run() ==> r == ItemStep::Call(img)),
    {
        match v {
            Err(e) => {
                self.had_errors = true;
                ItemStep::Rejected(e)
            },
            Ok(img) => {
                if self.dry_run {
                    ItemStep::Checked
                } else {
                    ItemStep::Call(img)
                }
            },
        }
    }

    /// Decides what follows a call: a response becomes the record for the
    /// path, a failure is recorded and handed back for the report. Either
    /// way the run goes on.
    pub fn after_call(&mut self, path: String, c: Result<ResponseValue, CallError>) -> (r: Result<
        OutputRecord,
        CallError,
    >)
        ensures
            final(self).is_dry_run() == old(self).is_dry_run(),
            final(self).spec_had_errors() == (old(self).spec_had_errors() || c is Err),
            c matches Ok(v) ==> r == Ok::<OutputRecord, CallError>(
                OutputRecord { file: path, response: v },
            ),
            c matches Err(e) ==> r == Err::<OutputRecord, CallError>(e),
    {
        match c {
            Ok(v) => Ok(OutputRecord { file: path, response: v }),
            Err(e) => {
                self.had_errors = true;
                Err(e)
            },
        }
    }

    /// The exit status of the run: 1 where any item failed, in a dry run
    /// too, and 0 otherwise.
    pub fn exit_code(&self) -> (r: u8)
        ensures
            r == (if self.spec_had_errors() {
                1u8
            } else {
                0u8
            }),
    {
        if self.had_errors {
            1
        } else {
            0
        }
    }
}

} // verus!
