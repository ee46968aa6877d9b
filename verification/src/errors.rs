//! What can go wrong in the pipeline, and the list of messages shown for it.

use std::collections::HashMap;
use vstd::prelude::*;

verus! {

/// The operation that found the current output missing from the table.
#[derive(Debug, Clone, Copy, PartialEq, Eq, Structural)]
pub enum Operation {
    /// Dispatching a fetch or a reprocessing.
    Rerender,
    /// Taking over the result of a task.
    RerenderFinish,
    /// Reading the frame of the current output.
    CurrentFrame,
    /// Switching to another output.
    OutputChange,
    /// Correcting the pan.
    Translate,
    /// Taking over the frame properties that were asked for.
    OriginalProps,
    /// Moving to another frame.
    Seek,
}

/// Why an operation on the previewer failed.
#[derive(Debug, Clone, Copy, PartialEq, Eq, Structural)]
pub enum PreviewError {
    /// A reload delivered no output.
    NoOutputs,
    /// The table does not hold the current output.
    InvalidCurrentOutput(Operation),
    /// The table does not hold the output that was shown before a switch.
    InvalidOldOutput,
    /// The table does not hold the output whose frame was delivered last.
    InvalidLastOutput,
}

/// What a message is about.
#[derive(Debug, Clone, Copy, PartialEq, Eq, Structural)]
pub enum ErrorCategory {
    /// Messages of the frame source.
    VapourSynth,
    /// Failures of fetching frames or of reloading.
    Callbacks,
    /// Failures of rendering the preview.
    Preview,
}

/// The messages that are shown until they are dismissed: for each category
/// that has any, under the number of the category, the list of its messages
/// in the order in which they came.
pub struct ErrorLog {
    pub map: HashMap<u8, Vec<String>>,
}

impl ErrorCategory {
    /// The number under which the messages of the category are kept.
    pub open spec fn code(self) -> u8 {
        match self {
            ErrorCategory::VapourSynth => 0,
            ErrorCategory::Callbacks => 1,
            ErrorCategory::Preview => 2,
        }
    }

    /// The number under which the messages of the category are kept.
    pub fn number(&self) -> (r: u8)
        ensures
            r == self.code(),
    {
        match self {
            ErrorCategory::VapourSynth => 0,
            ErrorCategory::Callbacks => 1,
            ErrorCategory::Preview => 2,
        }
    }
}

impl PreviewError {
    /// The text of the error.
    pub open spec fn message_of(self) -> Seq<char> {
        match self {
            PreviewError::NoOutputs => "No outputs available"@,
            PreviewError::InvalidOldOutput => "output_needs_rerender: Invalid new output key"@,
            PreviewError::InvalidLastOutput => "UiPreviewImage::ui: Invalid last output key"@,
            PreviewError::InvalidCurrentOutput(op) => match op {
                Operation::Rerender => "rerender: Invalid current output key"@,
                Operation::RerenderFinish => "current_output_mut: Invalid current output key"@,
                Operation::CurrentFrame => "get_current_Frame: Invalid current output key"@,
                Operation::OutputChange => "output_needs_rerender: Invalid current output key"@,
                Operation::Translate => "correct_translate_for_current_output: Invalid current output key"@,
                Operation::OriginalProps => "check_original_props_finish: Invalid current output key"@,
                Operation::Seek => "check_update_seek: Invalid current output key"@,
            },
        }
    }

    /// The text of the error.
    pub fn message(&self) -> (r: &'static str)
        ensures
            r@ == self.message_of(),
    {
        match self {
            PreviewError::NoOutputs => "No outputs available",
            PreviewError::InvalidOldOutput => "output_needs_rerender: Invalid new output key",
            PreviewError::InvalidLastOutput => "UiPreviewImage::ui: Invalid last output key",
            PreviewError::InvalidCurrentOutput(op) => match op {
                Operation::Rerender => "rerender: Invalid current output key",
                Operation::RerenderFinish => "current_output_mut: Invalid current output key",
                Operation::CurrentFrame => "get_current_Frame: Invalid current output key",
                Operation::OutputChange => "output_needs_rerender: Invalid current output key",
                Operation::Translate => "correct_translate_for_current_output: Invalid current output key",
                Operation::OriginalProps => "check_original_props_finish: Invalid current output key",
                Operation::Seek => "check_update_seek: Invalid current output key",
            },
        }
    }
}

impl ErrorLog {
    /// The messages of one category; none where the list holds no entry
    /// for it.
    pub open spec fn list(self, key: ErrorCategory) -> Seq<String> {
        if self.map@.contains_key(key.code()) {
            self.map@[key.code()]@
        } else {
            Seq::empty()
        }
    }

    /// No category has an entry.
    pub open spec fn empty(self) -> bool {
        self.map@.is_empty()
    }

    /// The list without messages.
    pub fn new() -> (r: Self)
        ensures
            r.empty(),
            forall|key: ErrorCategory| r.list(key).len() == 0,
    {
        ErrorLog { map: HashMap::new() }
    }

    /// Whether no category has an entry.
    pub fn is_empty(&self) -> (r: bool)
        ensures
            r == self.empty(),
    {
        self.map.is_empty()
    }

    /// Dismisses every message.
    pub fn clear(&mut self)
        ensures
            final(self).empty(),
            forall|key: ErrorCategory| final(self).list(key).len() == 0,
    {
        self.map.clear();
    }

    /// The messages of one category, if it has an entry.
    pub fn get(&self, key: ErrorCategory) -> (r: Option<&Vec<String>>)
        ensures
            r is Some <==> self.map@.contains_key(key.code()),
            r matches Some(list) ==> list@ == self.list(key),
            r is None ==> self.list(key).len() == 0,
    {
        broadcast use vstd::std_specs::hash::group_hash_axioms;

        let code = key.number();
        self.map.get(&code)
    }

    /// The list `post` is this list with `errors` appended to the category
    /// `key`; nothing changes where `errors` is empty.
    pub open spec fn with_errors(self, key: ErrorCategory, errors: Seq<String>, post: Self) -> bool {
        &&& post.list(key) == self.list(key) + errors
        &&& forall|other: ErrorCategory| other != key ==> post.list(other) == self.list(other)
        &&& errors.len() == 0 ==> post.map@ == self.map@
        &&& errors.len() > 0 ==> post.map@.dom() == self.map@.dom().insert(key.code())
    }

    /// Appends the messages `errors` to the category `key`.
    pub fn add_errors(&mut self, key: ErrorCategory, errors: Vec<String>)
        ensures
            old(self).with_errors(key, errors@, *final(self)),
    {
        broadcast use vstd::std_specs::hash::group_hash_axioms;

        if errors.len() == 0 {
            assert(self.list(key) =~= old(self).list(key) + errors@);
            return ;
        }
        let code = key.number();
        let mut errors = errors;
        let mut list: Vec<String> = match self.map.remove(&code) {
            Some(list) => list,
            None => Vec::new(),
        };
        list.append(&mut errors);
        self.map.insert(code, list);
        proof {
            assert(self.map@.dom() =~= old(self).map@.dom().insert(code));
            assert forall|other: ErrorCategory| other != key implies self.list(other) == old(
                self,
            ).list(other) by {
                assert(other.code() != code);
            }
        }
    }

    /// The list `post` is this list with the text of `error`, if there is
    /// one, appended to the category `key`.
    pub open spec fn with_error(self, key: ErrorCategory, error: Option<PreviewError>, post: Self) -> bool {
        &&& error is None ==> post.map@ == self.map@
        &&& error matches Some(e) ==> {
            &&& post.list(key).len() == self.list(key).len() + 1
            &&& post.list(key).last()@ == e.message_of()
            &&& post.list(key).drop_last() == self.list(key)
            &&& post.map@.dom() == self.map@.dom().insert(key.code())
        }
        &&& forall|other: ErrorCategory| other != key ==> post.list(other) == self.list(other)
    }

    /// Appends the text of the error of `res`, if it holds one, to the
    /// category `key`.
    pub fn add_error<T>(&mut self, key: ErrorCategory, res: &Result<T, PreviewError>)
        ensures
            old(self).with_error(key, res.err(), *final(self)),
    {
        match res {
            Ok(_) => {},
            Err(e) => {
                let text: String = e.message().to_owned();
                let mut one: Vec<String> = Vec::new();
                one.push(text);
                self.add_errors(key, one);
                assert(self.list(key).drop_last() =~= old(self).list(key));
            },
        }
    }
}

} // verus!
