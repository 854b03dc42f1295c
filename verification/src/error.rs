//! Structured errors: the frames of the engine's error stack, the record
//! captured from them when a call fails, and the error type that operations
//! return.

use vstd::prelude::*;

verus! {

/// One entry of the engine's error stack.
#[derive(Debug, PartialEq, Eq)]
pub struct Frame {
    /// What went wrong, in the engine's words.
    pub description: String,
    /// The engine function that reported it.
    pub function: String,
    /// The engine source file that reported it.
    pub file: String,
    /// The line in that file.
    pub line: String,
    /// Major category code.
    pub major: i64,
    /// Minor category code.
    pub minor: i64,
}

/// A frame as a plain value.
pub struct FrameView {
    pub description: Seq<char>,
    pub function: Seq<char>,
    pub file: Seq<char>,
    pub line: Seq<char>,
    pub major: i64,
    pub minor: i64,
}

impl DeepView for Frame {
    type V = FrameView;

    open spec fn deep_view(&self) -> FrameView {
        FrameView {
            description: self.description@,
            function: self.function@,
            file: self.file@,
            line: self.line@,
            major: self.major,
            minor: self.minor,
        }
    }
}

impl View for Frame {
    type V = FrameView;

    open spec fn view(&self) -> FrameView {
        self.deep_view()
    }
}

/// The frame that says nothing: no text and zero category codes.
pub open spec fn blank_frame() -> FrameView {
    FrameView {
        description: Seq::empty(),
        function: Seq::empty(),
        file: Seq::empty(),
        line: Seq::empty(),
        major: 0,
        minor: 0,
    }
}

impl Clone for Frame {
    fn clone(&self) -> (copy: Frame)
        ensures
            copy@ == self@,
    {
        Frame {
            description: self.description.clone(),
            function: self.function.clone(),
            file: self.file.clone(),
            line: self.line.clone(),
            major: self.major,
            minor: self.minor,
        }
    }
}

impl Frame {
    /// A frame with no text and zero category codes.
    pub fn blank() -> (frame: Frame)
        ensures
            frame@ == blank_frame(),
    {
        Frame {
            description: String::new(),
            function: String::new(),
            file: String::new(),
            line: String::new(),
            major: 0,
            minor: 0,
        }
    }

    /// Whether this frame says nothing.
    pub fn is_blank(&self) -> (yes: bool)
        ensures
            yes == (self@ == blank_frame()),
    {
        let yes = self.description.as_str().unicode_len() == 0
            && self.function.as_str().unicode_len() == 0
            && self.file.as_str().unicode_len() == 0
            && self.line.as_str().unicode_len() == 0
            && self.major == 0
            && self.minor == 0;
        proof {
            if yes {
                assert(self.description@ =~= Seq::<char>::empty());
                assert(self.function@ =~= Seq::<char>::empty());
                assert(self.file@ =~= Seq::<char>::empty());
                assert(self.line@ =~= Seq::<char>::empty());
            }
        }
        yes
    }
}

/// A record as a plain value: the raw failure code and the frames, top first.
pub struct RecordView {
    pub code: i64,
    pub frames: Seq<FrameView>,
}

/// The record that a failure with raw code `code` yields when `drained` is
/// what the stack walk delivered, top first. The frames are kept as they
/// came; a walk that delivered nothing yields one blank frame, so that the
/// record still stands for a failure and carries its code.
pub open spec fn captured(code: i64, drained: Seq<FrameView>) -> RecordView {
    RecordView {
        code,
        frames: if drained.len() == 0 {
            seq![blank_frame()]
        } else {
            drained
        },
    }
}

/// What was captured from the engine's error stack when a call failed. It
/// always holds at least one frame; the first is the top of the stack, the
/// most specific cause.
#[derive(Debug, PartialEq, Eq)]
pub struct ErrorRecord {
    code: i64,
    frames: Vec<Frame>,
}

impl View for ErrorRecord {
    type V = RecordView;

    closed spec fn view(&self) -> RecordView {
        RecordView { code: self.code, frames: self.frames.deep_view() }
    }
}

impl Clone for ErrorRecord {
    fn clone(&self) -> (copy: ErrorRecord)
        ensures
            copy@ == self@,
    {
        proof {
            use_type_invariant(self);
        }
        let mut frames: Vec<Frame> = Vec::new();
        let mut index: usize = 0;
        while index < self.frames.len()
            invariant
                index <= self.frames@.len(),
                frames@.len() == index,
                forall|i: int| 0 <= i < index ==> frames@[i]@ == self.frames@[i]@,
            decreases self.frames@.len() - index,
        {
            frames.push(self.frames[index].clone());
            index = index + 1;
        }
        assert(frames.deep_view() =~= self.frames.deep_view());
        ErrorRecord { code: self.code, frames }
    }
}

impl ErrorRecord {
    #[verifier::type_invariant]
    spec fn holds_a_frame(self) -> bool {
        self.frames@.len() > 0
    }

    /// Builds the record of a failure from its raw code and the frames that
    /// the stack walk delivered, top first.
    pub fn capture(code: i64, drained: Vec<Frame>) -> (record: ErrorRecord)
        ensures
            record@ == captured(code, drained.deep_view()),
            record@.frames.len() > 0,
    {
        if drained.len() == 0 {
            let mut frames: Vec<Frame> = Vec::new();
            frames.push(Frame::blank());
            assert(frames.deep_view() =~= seq![blank_frame()]);
            ErrorRecord { code, frames }
        } else {
            ErrorRecord { code, frames: drained }
        }
    }

    /// The raw value by which the failed call reported its failure.
    pub fn code(&self) -> (code: i64)
        ensures
            code == self@.code,
    {
        self.code
    }

    /// The number of frames, never zero.
    pub fn len(&self) -> (n: usize)
        ensures
            n == self@.frames.len(),
            n > 0,
    {
        proof {
            use_type_invariant(self);
        }
        self.frames.len()
    }

    /// The top frame: the most specific cause.
    pub fn top(&self) -> (frame: &Frame)
        ensures
            self@.frames.len() > 0,
            frame@ == self@.frames[0],
    {
        proof {
            use_type_invariant(self);
        }
        &self.frames[0]
    }

    /// The frame at `index` counted from the top, if there is one.
    pub fn frame(&self, index: usize) -> (frame: Option<&Frame>)
        ensures
            frame is Some <==> index < self@.frames.len(),
            frame matches Some(f) ==> f@ == self@.frames[index as int],
    {
        if index < self.frames.len() {
            Some(&self.frames[index])
        } else {
            None
        }
    }

    /// All frames, top first.
    pub fn frames(&self) -> (frames: &Vec<Frame>)
        ensures
            frames.deep_view() == self@.frames,
            frames@.len() > 0,
    {
        proof {
            use_type_invariant(self);
        }
        &self.frames
    }

    /// Whether the record was made without any frame from the engine: it
    /// then holds the one blank frame and says no more than its code.
    pub fn is_minimal(&self) -> (yes: bool)
        ensures
            yes == (self@ == captured(self@.code, Seq::empty())),
    {
        proof {
            use_type_invariant(self);
        }
        let yes = self.frames.len() == 1 && self.frames[0].is_blank();
        proof {
            let minimal = captured(self@.code, Seq::empty());
            if yes {
                assert(self@.frames =~= minimal.frames);
            } else if self.frames.len() == 1 {
                assert(self@.frames[0] != minimal.frames[0]);
            } else {
                assert(self@.frames.len() != minimal.frames.len());
            }
        }
        yes
    }
}

/// The plain value of the outcome of a guarded call.
pub open spec fn raw_outcome(outcome: Result<i64, ErrorRecord>) -> Result<i64, RecordView> {
    match outcome {
        Ok(raw) => Ok(raw),
        Err(record) => Err(record@),
    }
}

/// The plain value of the outcome of a guarded call that yields text.
pub open spec fn text_outcome(outcome: Result<String, ErrorRecord>) -> Result<
    Seq<char>,
    RecordView,
> {
    match outcome {
        Ok(text) => Ok(text@),
        Err(record) => Err(record@),
    }
}

/// An error as a plain value.
pub enum ErrorView {
    Native { record: RecordView, context: Seq<Seq<char>> },
    InvalidHandle { id: i64 },
}

/// Why an operation failed.
#[derive(Debug, PartialEq, Eq)]
pub enum Error {
    /// A native call failed. `record` is what was captured from the error
    /// stack; `context` holds the notes that the layers above added, the
    /// earliest first.
    Native { record: ErrorRecord, context: Vec<String> },
    /// A handle was to be made of the invalid identifier.
    InvalidHandle { id: i64 },
}

impl View for Error {
    type V = ErrorView;

    open spec fn view(&self) -> ErrorView {
        match self {
            Error::Native { record, context } => ErrorView::Native {
                record: record@,
                context: context.deep_view(),
            },
            Error::InvalidHandle { id } => ErrorView::InvalidHandle { id: *id },
        }
    }
}

/// The error that stands for `record` alone, with no note added yet.
pub open spec fn native_error(record: RecordView) -> ErrorView {
    ErrorView::Native { record, context: Seq::empty() }
}

/// `error` with `note` added. Only a native failure takes notes, and its
/// record stays as it is.
pub open spec fn annotated(error: ErrorView, note: Seq<char>) -> ErrorView {
    match error {
        ErrorView::Native { record, context } => ErrorView::Native {
            record,
            context: context.push(note),
        },
        ErrorView::InvalidHandle { id } => error,
    }
}

impl Error {
    /// The error for a failed native call.
    pub fn native(record: ErrorRecord) -> (error: Error)
        ensures
            error@ == native_error(record@),
    {
        let context: Vec<String> = Vec::new();
        assert(context.deep_view() =~= Seq::<Seq<char>>::empty());
        Error::Native { record, context }
    }

    /// Adds a note that says what the failed call was for. The frames of a
    /// native failure are kept as they are.
    pub fn with_context(self, note: String) -> (error: Error)
        ensures
            error@ == annotated(self@, note@),
    {
        match self {
            Error::Native { record, context } => {
                let mut context = context;
                let ghost before = context.deep_view();
                context.push(note);
                assert(context.deep_view() =~= before.push(note@));
                Error::Native { record, context }
            },
            Error::InvalidHandle { id } => Error::InvalidHandle { id },
        }
    }

    /// The captured record, for a native failure.
    pub fn record(&self) -> (record: Option<&ErrorRecord>)
        ensures
            match self@ {
                ErrorView::Native { record: r, .. } => record matches Some(found) && found@ == r,
                ErrorView::InvalidHandle { .. } => record is None,
            },
    {
        match self {
            Error::Native { record, .. } => Some(record),
            Error::InvalidHandle { .. } => None,
        }
    }
}

/// What is reported when releasing an identifier failed. It goes to a log and
/// is never returned as an error.
#[derive(Debug, PartialEq, Eq)]
pub struct Diagnostic {
    /// The identifier whose release failed.
    pub id: i64,
    /// What the engine said.
    pub record: ErrorRecord,
}

} // verus!
