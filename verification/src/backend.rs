use vstd::prelude::*;
use vstd::string::StrSliceExecFns;
use vstd::string::StringExecFns;
use vstd::string::StringSliceAdditionalSpecFns;

verus! {

/// A function of the host, by the number under which the host keeps it.
#[derive(Clone, Copy, Debug, PartialEq, Eq, Structural)]
pub struct JsFunctionWrapper(pub usize);

/// The host's sinks for the two output channels.
#[derive(Clone, Copy, Debug, PartialEq, Eq, Structural)]
pub struct ExternalBackendHandlers {
    pub print_str_stdout_handler: Option<JsFunctionWrapper>,
    pub print_str_stderr_handler: Option<JsFunctionWrapper>,
}

impl ExternalBackendHandlers {
    /// No sink on either channel.
    pub fn new() -> (r: Self)
        ensures
            r.print_str_stdout_handler is None,
            r.print_str_stderr_handler is None,
    {
        ExternalBackendHandlers { print_str_stdout_handler: None, print_str_stderr_handler: None }
    }

    pub fn with_print_str_stdout_handler(self, handler: JsFunctionWrapper) -> (r: Self)
        ensures
            r.print_str_stdout_handler == Some(handler),
            r.print_str_stderr_handler == self.print_str_stderr_handler,
    {
        ExternalBackendHandlers { print_str_stdout_handler: Some(handler), ..self }
    }

    pub fn with_print_str_stderr_handler(self, handler: JsFunctionWrapper) -> (r: Self)
        ensures
            r.print_str_stderr_handler == Some(handler),
            r.print_str_stdout_handler == self.print_str_stdout_handler,
    {
        ExternalBackendHandlers { print_str_stderr_handler: Some(handler), ..self }
    }
}

impl Default for ExternalBackendHandlers {
    fn default() -> (r: Self)
        ensures
            r.print_str_stdout_handler is None,
            r.print_str_stderr_handler is None,
    {
        ExternalBackendHandlers::new()
    }
}

/// The capturing backend: everything printed is kept, channel by channel,
/// and a channel's sink, where the host gave one, is told afterwards.
#[derive(Debug)]
pub struct CustomBackend {
    pub stdout: Vec<u8>,
    pub stderr: Vec<u8>,
    pub backend: ExternalBackendHandlers,
}

impl CustomBackend {
    /// Nothing captured, no sinks.
    pub fn new() -> (r: Self)
        ensures
            r.stdout@ == Seq::<u8>::empty(),
            r.stderr@ == Seq::<u8>::empty(),
            r.backend.print_str_stdout_handler is None,
            r.backend.print_str_stderr_handler is None,
    {
        CustomBackend {
            stdout: Vec::new(),
            stderr: Vec::new(),
            backend: ExternalBackendHandlers::new(),
        }
    }

    /// Puts the host's sinks in place; what was captured stays.
    pub fn set_backend(&mut self, backend: ExternalBackendHandlers)
        ensures
            final(self).backend == backend,
            final(self).stdout == old(self).stdout,
            final(self).stderr == old(self).stderr,
    {
        self.backend = backend;
    }

    /// A copy of what was printed to standard output so far.
    pub fn stdout(&self) -> (r: Vec<u8>)
        ensures
            r@ == self.stdout@,
    {
        copy_bytes(&self.stdout)
    }

    /// A copy of what was printed to standard error so far.
    pub fn stderr(&self) -> (r: Vec<u8>)
        ensures
            r@ == self.stderr@,
    {
        copy_bytes(&self.stderr)
    }

    /// Prints to standard output: the text's bytes are kept first, and the
    /// result names the sink that is to be told of the same text, if any.
    pub fn print_str_stdout(&mut self, s: &str) -> (notify: Option<JsFunctionWrapper>)
        ensures
            final(self).stdout@ == old(self).stdout@ + s.spec_bytes(),
            final(self).stderr == old(self).stderr,
            final(self).backend == old(self).backend,
            notify == old(self).backend.print_str_stdout_handler,
            (final(self).stdout@, final(self).stderr@) == captured_after(
                (old(self).stdout@, old(self).stderr@),
                seq![Printed::Stdout(s.spec_bytes())],
            ),
    {
        let mut bytes = s.as_bytes_vec();
        self.stdout.append(&mut bytes);
        proof {
            let one = seq![Printed::Stdout(s.spec_bytes())];
            assert(one.drop_last() =~= Seq::<Printed>::empty());
            assert(captured_after((old(self).stdout@, old(self).stderr@), one.drop_last()) == (
                old(self).stdout@,
                old(self).stderr@,
            ));
        }
        self.backend.print_str_stdout_handler
    }

    /// Prints to standard error: the text's bytes are kept first, and the
    /// result names the sink that is to be told of the same text, if any.
    pub fn print_str_stderr(&mut self, s: &str) -> (notify: Option<JsFunctionWrapper>)
        ensures
            final(self).stderr@ == old(self).stderr@ + s.spec_bytes(),
            final(self).stdout == old(self).stdout,
            final(self).backend == old(self).backend,
            notify == old(self).backend.print_str_stderr_handler,
            (final(self).stdout@, final(self).stderr@) == captured_after(
                (old(self).stdout@, old(self).stderr@),
                seq![Printed::Stderr(s.spec_bytes())],
            ),
    {
        let mut bytes = s.as_bytes_vec();
        self.stderr.append(&mut bytes);
        proof {
            let one = seq![Printed::Stderr(s.spec_bytes())];
            assert(one.drop_last() =~= Seq::<Printed>::empty());
            assert(captured_after((old(self).stdout@, old(self).stderr@), one.drop_last()) == (
                old(self).stdout@,
                old(self).stderr@,
            ));
        }
        self.backend.print_str_stderr_handler
    }
}

/// A copy of captured bytes.
pub(crate) fn copy_bytes(bytes: &Vec<u8>) -> (r: Vec<u8>)
    ensures
        r@ == bytes@,
{
    let mut out: Vec<u8> = Vec::new();
    let mut i: usize = 0;
    while i < bytes.len()
        invariant
            i <= bytes@.len(),
            out@ == bytes@.take(i as int),
        decreases bytes@.len() - i,
    {
        out.push(bytes[i]);
        assert(bytes@.take(i + 1) =~= bytes@.take(i as int).push(bytes@[i as int]));
        i += 1;
    }
    assert(bytes@.take(bytes@.len() as int) =~= bytes@);
    out
}

/// What a failed sink is reported as: its message, where it gave one.
pub open spec fn sink_message(message: Option<String>) -> Seq<char> {
    match message {
        Some(m) => m@,
        None => "Unknown error"@,
    }
}

/// The text under which a failed sink is reported.
pub fn format_error(message: Option<String>) -> (r: String)
    ensures
        r@ == sink_message(message),
{
    match message {
        Some(m) => m,
        None => String::from_str("Unknown error"),
    }
}

/// What a print operation returns once its sink has been told: success if
/// there was no sink or the sink took the text, else the sink's failure.
/// The bytes were kept before the sink was told, whatever it did.
pub fn sink_outcome(outcome: Option<Result<(), Option<String>>>) -> (r: Result<(), String>)
    ensures
        match outcome {
            None => r is Ok,
            Some(Ok(_)) => r is Ok,
            Some(Err(message)) => r matches Err(text) && text@ == sink_message(message),
        },
{
    match outcome {
        None => Ok(()),
        Some(Ok(_)) => Ok(()),
        Some(Err(message)) => Err(format_error(message)),
    }
}

/// One print of a run: the channel, and the bytes of the text.
pub enum Printed {
    Stdout(Seq<u8>),
    Stderr(Seq<u8>),
}

/// What the two channels hold after the given prints, made in their order
/// on a backend that held `start` before: each print appends to its
/// channel, as [`CustomBackend::print_str_stdout`] and
/// [`CustomBackend::print_str_stderr`] do.
pub open spec fn captured_after(start: (Seq<u8>, Seq<u8>), prints: Seq<Printed>) -> (
    Seq<u8>,
    Seq<u8>,
)
    decreases prints.len(),
{
    if prints.len() == 0 {
        start
    } else {
        let before = captured_after(start, prints.drop_last());
        match prints.last() {
            Printed::Stdout(bytes) => (before.0 + bytes, before.1),
            Printed::Stderr(bytes) => (before.0, before.1 + bytes),
        }
    }
}

} // verus!
