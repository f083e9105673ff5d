//! The handle of one launched resource: started from the launcher's report,
//! stopped at most once.

use crate::launch::{
    teardown_command, teardown_line, CommandLine, CommandLineView, LaunchError, LaunchOutput,
};
use crate::text::{trim, trimmed};
use vstd::prelude::*;

verus! {

/// What a handle stands for: the identifier of the resource, and whether its
/// teardown was issued.
pub struct HandleView {
    pub id: Seq<char>,
    pub stop_issued: bool,
}

impl HandleView {
    /// A handle names a resource: its identifier is not empty.
    pub open spec fn wf(self) -> bool {
        self.id.len() > 0
    }

    /// The state after a call of `stop`.
    pub open spec fn stopped(self) -> HandleView {
        HandleView { id: self.id, stop_issued: true }
    }

    /// The teardown that a call of `stop` issues in this state, if any.
    pub open spec fn teardown(self) -> Option<CommandLineView> {
        if self.stop_issued {
            None
        } else {
            Some(teardown_line(self.id))
        }
    }

    /// How many teardowns `calls` successive calls of `stop` issue.
    pub open spec fn teardowns(self, calls: nat) -> nat
        decreases calls,
    {
        if calls == 0 {
            0
        } else {
            (if self.teardown() is Some { 1nat } else { 0nat }) + self.stopped().teardowns(
                (calls - 1) as nat,
            )
        }
    }
}

/// The text of an optional command line.
pub open spec fn command_text(command: Option<CommandLine>) -> Option<CommandLineView> {
    match command {
        Some(c) => Some(c@),
        None => None,
    }
}

/// The launcher's report names a resource: it exited with success and its
/// output, trimmed, is not empty.
pub open spec fn names_resource(output: LaunchOutput) -> bool {
    output.success && trimmed(output.stdout@).len() > 0
}

/// What `start` makes of the launcher's report: a handle on the named resource
/// with no teardown issued, or nothing.
pub open spec fn started(output: LaunchOutput) -> Option<HandleView> {
    if names_resource(output) {
        Some(HandleView { id: trimmed(output.stdout@), stop_issued: false })
    } else {
        None
    }
}

/// Owns one launched resource. It cannot be copied, and only `start` makes one.
#[derive(Debug)]
pub struct ResourceHandle {
    id: String,
    stop_issued: bool,
}

impl View for ResourceHandle {
    type V = HandleView;

    closed spec fn view(&self) -> HandleView {
        HandleView { id: self.id@, stop_issued: self.stop_issued }
    }
}

impl ResourceHandle {
    /// Every handle names a resource.
    #[verifier::type_invariant]
    pub open spec fn inv(&self) -> bool {
        self@.wf()
    }

    /// Reads the launcher's report. A launcher that failed gives
    /// `LaunchError::Failed` with its diagnostic output; one that succeeded
    /// without naming a resource gives `LaunchError::MalformedResponse`;
    /// otherwise the handle's identifier is the trimmed output, and no teardown
    /// has been issued.
    pub fn start(output: LaunchOutput) -> (result: Result<ResourceHandle, LaunchError>)
        ensures
            names_resource(output) ==> (result matches Ok(handle) && started(output) == Some(
                handle@,
            )),
            !output.success ==> (result matches Err(LaunchError::Failed { diagnostic })
                && diagnostic@ == output.stderr@),
            output.success && !names_resource(output) ==> result matches Err(
                LaunchError::MalformedResponse,
            ),
            result matches Ok(handle) ==> handle@.wf(),
    {
        if !output.success {
            return Err(LaunchError::Failed { diagnostic: output.stderr });
        }
        let id = trim(output.stdout.as_str());
        if id.as_str().is_empty() {
            return Err(LaunchError::MalformedResponse);
        }
        Ok(ResourceHandle { id, stop_issued: false })
    }

    /// The identifier that the launcher gave the resource.
    pub fn id(&self) -> (id: &str)
        ensures
            id@ == self@.id,
            id@.len() > 0,
    {
        proof {
            use_type_invariant(self);
        }
        self.id.as_str()
    }

    /// Whether the teardown was issued.
    pub fn is_stopped(&self) -> (stopped: bool)
        ensures
            stopped == self@.stop_issued,
    {
        self.stop_issued
    }

    /// Marks the resource as stopped and, the first time only, hands out the
    /// teardown command for the caller to run. What the teardown reports is of
    /// no concern to the handle.
    pub fn stop(&mut self) -> (command: Option<CommandLine>)
        ensures
            final(self)@ == old(self)@.stopped(),
            command_text(command) == old(self)@.teardown(),
    {
        proof {
            use_type_invariant(&*self);
        }
        if self.stop_issued {
            None
        } else {
            self.stop_issued = true;
            Some(teardown_command(self.id.as_str()))
        }
    }
}

/// A stopped handle stays as it is under `stop`, and issues no teardown,
/// however often `stop` is called.
pub proof fn lemma_stopped_issues_nothing(handle: HandleView, calls: nat)
    requires
        handle.stop_issued,
    ensures
        handle.stopped() == handle,
        handle.teardown() is None,
        handle.teardowns(calls) == 0,
    decreases calls,
{
    if calls > 0 {
        lemma_stopped_issues_nothing(handle.stopped(), (calls - 1) as nat);
    }
}

/// However often `stop` is called on a handle with no teardown issued yet,
/// once or more, exactly one teardown is issued.
pub proof fn lemma_one_teardown_per_handle(handle: HandleView, calls: nat)
    requires
        !handle.stop_issued,
        calls >= 1,
    ensures
        handle.teardowns(calls) == 1,
{
    lemma_stopped_issues_nothing(handle.stopped(), (calls - 1) as nat);
}

/// `stop` is idempotent: a second call changes nothing and issues nothing.
pub proof fn lemma_stop_idempotent(handle: HandleView)
    ensures
        handle.stopped().stopped() == handle.stopped(),
        handle.stopped().teardown() is None,
{
}

/// A launch that names a resource gives a handle on which `stop`, called once
/// or more, issues exactly one teardown: that of the named resource.
pub proof fn lemma_started_resource_stops_once(output: LaunchOutput, calls: nat)
    requires
        names_resource(output),
        calls >= 1,
    ensures
        started(output) matches Some(handle) && handle.wf() && handle.teardowns(calls) == 1
            && handle.teardown() == Some(teardown_line(trimmed(output.stdout@))),
{
    lemma_one_teardown_per_handle(started(output)->0, calls);
}

/// A launcher that failed gives no handle: there is nothing to stop.
pub proof fn lemma_failed_launch_starts_nothing(output: LaunchOutput)
    requires
        !output.success,
    ensures
        started(output) is None,
{
}

} // verus!
