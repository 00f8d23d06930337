//! Descriptions of the external work a workflow asks for, and of what came
//! back from it.

use vstd::prelude::*;

verus! {

/// Views a vector of strings as a sequence of character sequences.
pub open spec fn texts(v: Seq<String>) -> Seq<Seq<char>> {
    Seq::new(v.len(), |i: int| v[i]@)
}

/// Views an optional string as an optional character sequence.
pub open spec fn opt_text(o: Option<String>) -> Option<Seq<char>> {
    match o {
        Some(s) => Some(s@),
        None => None,
    }
}

/// Appending a string to a vector appends its characters to the view.
pub proof fn lemma_texts_push(v: Seq<String>, s: String)
    ensures
        texts(v.push(s)) == texts(v).push(s@),
{
    assert(texts(v.push(s)) =~= texts(v).push(s@));
}

/// One invocation of an external program.
#[derive(Debug, Clone, PartialEq, Eq)]
pub struct Invocation {
    /// Name of the program, resolved through the search path.
    pub program: String,
    /// Arguments, in the order in which they are handed to the program.
    pub args: Vec<String>,
    /// Directory to run the program in; `None` keeps the caller's.
    pub working_dir: Option<String>,
}

/// Mathematical content of an [`Invocation`].
pub ghost struct InvocationView {
    pub program: Seq<char>,
    pub args: Seq<Seq<char>>,
    pub working_dir: Option<Seq<char>>,
}

impl View for Invocation {
    type V = InvocationView;

    open spec fn view(&self) -> InvocationView {
        InvocationView {
            program: self.program@,
            args: texts(self.args@),
            working_dir: opt_text(self.working_dir),
        }
    }
}

/// The invocation of `program` on `args`, in the caller's directory.
pub open spec fn tool(program: Seq<char>, args: Seq<Seq<char>>) -> InvocationView {
    InvocationView { program, args, working_dir: None }
}

impl Invocation {
    /// Starts an invocation of `program` without arguments.
    pub fn new(program: &str) -> (inv: Invocation)
        ensures
            inv@ == tool(program@, Seq::empty()),
    {
        let inv = Invocation {
            program: program.to_string(),
            args: Vec::new(),
            working_dir: None,
        };
        assert(inv@.args =~= Seq::empty());
        inv
    }

    /// Appends one argument.
    pub fn arg(&mut self, value: &str)
        ensures
            final(self)@ == (InvocationView {
                args: old(self)@.args.push(value@),
                ..old(self)@
            }),
    {
        let owned = value.to_string();
        proof {
            lemma_texts_push(self.args@, owned);
        }
        self.args.push(owned);
    }

    /// Appends every string of `values`, in order.
    pub fn args(&mut self, values: &Vec<String>)
        ensures
            final(self)@ == (InvocationView {
                args: old(self)@.args + texts(values@),
                ..old(self)@
            }),
    {
        let mut i: usize = 0;
        while i < values.len()
            invariant
                i <= values.len(),
                self@ == (InvocationView {
                    args: old(self)@.args + texts(values@).take(i as int),
                    ..old(self)@
                }),
            decreases values.len() - i,
        {
            let ghost before = self@.args;
            self.arg(values[i].as_str());
            assert(self@.args =~= old(self)@.args + texts(values@).take(i + 1)) by {
                assert(texts(values@).take(i + 1) =~= texts(values@).take(i as int).push(
                    values@[i as int]@,
                ));
            }
            i += 1;
        }
        assert(texts(values@).take(i as int) =~= texts(values@));
    }

    /// Sets the directory in which the program runs.
    pub fn current_dir(&mut self, dir: &str)
        ensures
            final(self)@ == (InvocationView { working_dir: Some(dir@), ..old(self)@ }),
    {
        self.working_dir = Some(dir.to_string());
    }
}

/// The three fields of the notarization service's answer.
#[derive(Debug, Clone, PartialEq, Eq)]
pub struct NotarytoolSubmitOutput {
    /// Identifier the service gave the submission.
    pub id: String,
    /// Verdict of the service.
    pub status: String,
    /// Explanation that accompanies the verdict.
    pub message: String,
}

/// Mathematical content of a [`NotarytoolSubmitOutput`].
pub ghost struct SubmitOutputView {
    pub id: Seq<char>,
    pub status: Seq<char>,
    pub message: Seq<char>,
}

impl View for NotarytoolSubmitOutput {
    type V = SubmitOutputView;

    open spec fn view(&self) -> SubmitOutputView {
        SubmitOutputView { id: self.id@, status: self.status@, message: self.message@ }
    }
}

/// Views an optional answer of the notarization service.
pub open spec fn opt_submit_output(o: Option<NotarytoolSubmitOutput>) -> Option<SubmitOutputView> {
    match o {
        Some(out) => Some(out@),
        None => None,
    }
}

/// One piece of external work that a workflow asks its caller to carry out.
#[derive(Debug, Clone, PartialEq, Eq)]
pub enum Action {
    /// Run the program, wait for it to end and capture what it printed.
    Run(Invocation),
    /// Create a fresh private directory and report the paths that the named
    /// files would have inside it, in the order of the names.
    CreateScratch { file_names: Vec<String> },
    /// Write `contents` to the file at `path`, creating it.
    WriteFile { path: String, contents: String },
    /// Find out whether `path` is a directory.
    Probe { path: String },
    /// Decode `text` as the notarization service's answer.
    ParseResponse { text: String },
}

/// Mathematical content of an [`Action`].
pub ghost enum ActionView {
    Run(InvocationView),
    CreateScratch { file_names: Seq<Seq<char>> },
    WriteFile { path: Seq<char>, contents: Seq<char> },
    Probe { path: Seq<char> },
    ParseResponse { text: Seq<char> },
}

impl View for Action {
    type V = ActionView;

    open spec fn view(&self) -> ActionView {
        match self {
            Action::Run(inv) => ActionView::Run(inv@),
            Action::CreateScratch { file_names } => ActionView::CreateScratch {
                file_names: texts(file_names@),
            },
            Action::WriteFile { path, contents } => ActionView::WriteFile {
                path: path@,
                contents: contents@,
            },
            Action::Probe { path } => ActionView::Probe { path: path@ },
            Action::ParseResponse { text } => ActionView::ParseResponse { text: text@ },
        }
    }
}

/// What came back from carrying out an [`Action`].
#[derive(Debug, Clone, PartialEq, Eq)]
pub enum Outcome {
    /// The program ran to its end. `success` tells whether its exit status
    /// reported success.
    Exited { success: bool, stdout: String, stderr: String },
    /// The scratch directory exists; `paths` answers the requested names.
    Scratch { paths: Vec<String> },
    /// The file was written.
    Written,
    /// The path was inspected.
    Probed { is_dir: bool },
    /// The text was decoded, or could not be (`None`).
    Response(Option<NotarytoolSubmitOutput>),
    /// The work could not be carried out at all.
    Failed { reason: String },
}

/// Mathematical content of an [`Outcome`].
pub ghost enum OutcomeView {
    Exited { success: bool, stdout: Seq<char>, stderr: Seq<char> },
    Scratch { paths: Seq<Seq<char>> },
    Written,
    Probed { is_dir: bool },
    Response(Option<SubmitOutputView>),
    Failed { reason: Seq<char> },
}

impl View for Outcome {
    type V = OutcomeView;

    open spec fn view(&self) -> OutcomeView {
        match self {
            Outcome::Exited { success, stdout, stderr } => OutcomeView::Exited {
                success: *success,
                stdout: stdout@,
                stderr: stderr@,
            },
            Outcome::Scratch { paths } => OutcomeView::Scratch { paths: texts(paths@) },
            Outcome::Written => OutcomeView::Written,
            Outcome::Probed { is_dir } => OutcomeView::Probed { is_dir: *is_dir },
            Outcome::Response(parsed) => OutcomeView::Response(opt_submit_output(*parsed)),
            Outcome::Failed { reason } => OutcomeView::Failed { reason: reason@ },
        }
    }
}

/// Whether a program ran to its end and reported success.
pub open spec fn succeeded(o: OutcomeView) -> bool {
    o matches OutcomeView::Exited { success, .. } && success
}

/// The diagnostic text that an outcome carries: what the program wrote to
/// its error stream, or the reason why the work could not be done.
pub open spec fn failure_detail(o: OutcomeView) -> Seq<char> {
    match o {
        OutcomeView::Exited { stderr, .. } => stderr,
        OutcomeView::Failed { reason } => reason,
        _ => Seq::empty(),
    }
}

/// What the program printed, if it ran.
pub open spec fn printed(o: OutcomeView) -> Seq<char> {
    match o {
        OutcomeView::Exited { stdout, .. } => stdout,
        _ => Seq::empty(),
    }
}

impl Outcome {
    /// Tells whether a program ran to its end and reported success.
    pub fn succeeded(&self) -> (ok: bool)
        ensures
            ok == succeeded(self@),
    {
        match self {
            Outcome::Exited { success, .. } => *success,
            _ => false,
        }
    }

    /// Extracts the diagnostic text.
    pub fn into_detail(self) -> (detail: String)
        ensures
            detail@ == failure_detail(self@),
    {
        match self {
            Outcome::Exited { stderr, .. } => stderr,
            Outcome::Failed { reason } => reason,
            _ => String::new(),
        }
    }
}

} // verus!
