//! The request pipeline as a state machine.
//!
//! One incoming slash-command is driven through parsing, image fetch, staging,
//! upload and reply interpretation by this machine.  The machine itself makes
//! no network or file-system call: it hands the host an [`Action`] to perform
//! and consumes the resulting [`Event`], so everything the machine decides is
//! verified, for every outcome the outside world can produce.
//!
//! The machine guarantees that a staging file, once acquired, is released on
//! every path to completion, and that a final response is produced for every
//! input.

use vstd::prelude::*;
use crate::config::{Config, upload_url, upload_url_spec};
use crate::errors::{ErrorKind, failure_message, failure_message_spec, validation_detail};
use crate::parse::{Command, parse_command, text_well_formed, first_token, second_token};
use crate::reply::{reply_message, reply_message_spec, json_encode_string, json_string_of};
use crate::staging::{StagedImage, staging_path, staging_path_spec};

verus! {

/// The next outside step the host must perform for this request.
#[derive(Debug)]
pub enum Action {
    /// Download the image at `url` in full.
    Fetch { url: String },
    /// Write `bytes` to a new file at `path` and mark it read-only.
    Stage { path: String, bytes: Vec<u8> },
    /// Send the multipart upload: a POST to `url` with query parameters
    /// `mode=data`, `name=<emoji_name>`, `token=<api_token>` and the staged
    /// file as the `image` part.
    Upload { url: String, path: String, emoji_name: String, api_token: String },
    /// Remove the staging file at `path`.
    DeleteStaged { path: String },
    /// Send `body` back to the caller; the request is finished.
    Respond { body: String },
}

/// What came of the action the host performed.
#[derive(Debug)]
pub enum Event {
    /// The downloaded bytes, or the transport/status failure's description.
    FetchDone(Result<Vec<u8>, String>),
    /// Whether writing and protecting the staging file succeeded.
    StageDone(Result<(), String>),
    /// The endpoint's reply body, or the transport failure's description.
    UploadDone(Result<String, String>),
    /// Whether removing the staging file succeeded.  A failure is reported
    /// but never changes the outcome of the request.
    CleanupDone(Result<(), String>),
}

/// Where one request stands.
#[derive(Debug)]
pub enum Phase {
    /// Waiting for the image bytes.
    Fetching,
    /// Waiting for the staging file of `size` bytes to be written.
    Staging { size: usize },
    /// Waiting for the endpoint's reply.
    Uploading { staged: StagedImage },
    /// The outcome is determined; waiting for the staging file's removal.
    AwaitingCleanup { staged: StagedImage, message: String },
    /// The response `body` has been issued.
    Done { body: String },
}

/// The state machine for one request.
pub struct Pipeline {
    pub config: Config,
    /// This request's number; staging paths are derived from it, so distinct
    /// concurrent requests use distinct files.
    pub req_id: u64,
    pub command: Option<Command>,
    pub phase: Phase,
    /// Whether a staging file was ever successfully acquired.
    pub staged_once: bool,
    /// Whether the delete action for it has been issued.
    pub release_issued: bool,
}

/// The emoji name of the parsed command, where there is one.
pub open spec fn command_name(p: Pipeline) -> Seq<char> {
    match p.command {
        Some(cmd) => cmd.emoji_name@,
        None => Seq::<char>::empty(),
    }
}

/// Both the new phase and the response action carry the body `body`.
pub open spec fn done_with(post: Pipeline, action: Action, body: Seq<char>) -> bool {
    &&& (post.phase matches Phase::Done { body: b } && b@ == body)
    &&& (action matches Action::Respond { body: b } && b@ == body)
}

impl Pipeline {
    /// The machine's invariant, preserved by every step.
    pub open spec fn wf(&self) -> bool {
        match self.phase {
            Phase::Fetching => self.command is Some && !self.staged_once && !self.release_issued,
            Phase::Staging { .. } => self.command is Some && !self.staged_once
                && !self.release_issued,
            Phase::Uploading { staged } => self.command is Some && self.staged_once
                && !self.release_issued && staged.path@ == staging_path_spec(self.req_id as nat)
                && staged.read_only,
            Phase::AwaitingCleanup { staged, .. } => self.staged_once && self.release_issued
                && staged.path@ == staging_path_spec(self.req_id as nat),
            Phase::Done { .. } => self.staged_once ==> self.release_issued,
        }
    }

    /// Which event kind the machine is waiting for.
    pub open spec fn expects(&self, event: Event) -> bool {
        match self.phase {
            Phase::Fetching => event is FetchDone,
            Phase::Staging { .. } => event is StageDone,
            Phase::Uploading { .. } => event is UploadDone,
            Phase::AwaitingCleanup { .. } => event is CleanupDone,
            Phase::Done { .. } => false,
        }
    }
}

/// The machine's full transition relation: for each phase and event, the new
/// state and the action handed to the host.
pub open spec fn step_post(pre: Pipeline, event: Event, post: Pipeline, action: Action) -> bool {
    &&& post.config == pre.config
    &&& post.req_id == pre.req_id
    &&& match (pre.phase, event) {
        (Phase::Fetching, Event::FetchDone(res)) => match res {
            Err(d) => {
                &&& done_with(post, action, json_string_of(failure_message_spec(ErrorKind::Fetch, d@)))
                &&& post.command == pre.command
                &&& !post.staged_once && !post.release_issued
            },
            Ok(bytes) => {
                &&& (post.phase matches Phase::Staging { size } && size == bytes.len())
                &&& post.command == pre.command
                &&& !post.staged_once && !post.release_issued
                &&& (action matches Action::Stage { path, bytes: b } && path@ == staging_path_spec(
                    pre.req_id as nat,
                ) && b == bytes)
            },
        },
        (Phase::Staging { size }, Event::StageDone(res)) => match res {
            Err(d) => {
                &&& done_with(post, action, json_string_of(failure_message_spec(ErrorKind::Io, d@)))
                &&& post.command == pre.command
                &&& !post.staged_once && !post.release_issued
            },
            Ok(_) => {
                &&& (post.phase matches Phase::Uploading { staged } && staged.path@
                    == staging_path_spec(pre.req_id as nat) && staged.size_bytes == size
                    && staged.read_only)
                &&& post.command == pre.command
                &&& post.staged_once && !post.release_issued
                &&& (action matches Action::Upload { url, path, emoji_name, api_token } && url@
                    == upload_url_spec(pre.config.workspace_name@) && path@ == staging_path_spec(
                    pre.req_id as nat,
                ) && emoji_name@ == command_name(pre) && api_token@ == pre.config.api_token@)
            },
        },
        (Phase::Uploading { staged }, Event::UploadDone(res)) => {
            let msg = match res {
                Ok(body) => reply_message_spec(command_name(pre), body@),
                Err(d) => failure_message_spec(ErrorKind::UploadTransport, d@),
            };
            &&& (post.phase matches Phase::AwaitingCleanup { staged: st, message } && st == staged
                && message@ == msg)
            &&& post.command == pre.command
            &&& post.staged_once && post.release_issued
            &&& (action matches Action::DeleteStaged { path } && path@ == staged.path@)
        },
        (Phase::AwaitingCleanup { staged: _, message }, Event::CleanupDone(_)) => {
            &&& done_with(post, action, json_string_of(message@))
            &&& post.command == pre.command
            &&& post.staged_once && post.release_issued
        },
        _ => false,
    }
}

impl Pipeline {
    /// Starts one request from the raw `text` field of the webhook form.
    ///
    /// Well-formed text puts the machine in `Fetching` and asks the host for
    /// the image at the command's URL; anything else finishes at once with
    /// the validation failure response, and no network action is ever asked
    /// for.
    pub fn start(config: Config, req_id: u64, text: Option<&str>) -> (r: (Pipeline, Action))
        ensures
            r.0.wf(),
            r.0.config == config,
            r.0.req_id == req_id,
            !r.0.staged_once && !r.0.release_issued,
            match text {
                Some(t) => if text_well_formed(t@) {
                    &&& r.0.phase is Fetching
                    &&& (r.0.command matches Some(cmd) && cmd.image_url@ == first_token(t@)
                        && cmd.emoji_name@ == second_token(t@))
                    &&& (r.1 matches Action::Fetch { url } && url@ == first_token(t@))
                } else {
                    start_rejects(r.0, r.1)
                },
                None => start_rejects(r.0, r.1),
            },
    {
        match parse_command(text) {
            Err(e) => {
                let msg = failure_message(e.kind, e.detail.as_str());
                let body = json_encode_string(msg.as_str());
                let echo = body.clone();
                (
                    Pipeline {
                        config,
                        req_id,
                        command: None,
                        phase: Phase::Done { body },
                        staged_once: false,
                        release_issued: false,
                    },
                    Action::Respond { body: echo },
                )
            },
            Ok(cmd) => {
                let url = cmd.image_url.clone();
                (
                    Pipeline {
                        config,
                        req_id,
                        command: Some(cmd),
                        phase: Phase::Fetching,
                        staged_once: false,
                        release_issued: false,
                    },
                    Action::Fetch { url },
                )
            },
        }
    }

    /// Consumes the outcome of the last action and decides the next step.
    ///
    /// Every transition is pinned down by [`step_post`]; in addition, the
    /// delete action is issued exactly when `release_issued` turns on, and
    /// only ever for this request's own staging path.
    pub fn on_event(self, event: Event) -> (r: (Pipeline, Action))
        requires
            self.wf(),
            self.expects(event),
        ensures
            r.0.wf(),
            step_post(self, event, r.0, r.1),
            r.0.release_issued == (self.release_issued || r.1 is DeleteStaged),
            r.1 matches Action::DeleteStaged { path } ==> path@ == staging_path_spec(
                self.req_id as nat,
            ),
    {
        let Pipeline { config, req_id, command, phase, staged_once, release_issued } = self;
        match (phase, event) {
            (Phase::Fetching, Event::FetchDone(res)) => match res {
                Err(d) => {
                    let msg = failure_message(ErrorKind::Fetch, d.as_str());
                    let body = json_encode_string(msg.as_str());
                    let echo = body.clone();
                    (
                        Pipeline {
                            config,
                            req_id,
                            command,
                            phase: Phase::Done { body },
                            staged_once,
                            release_issued,
                        },
                        Action::Respond { body: echo },
                    )
                },
                Ok(bytes) => {
                    let path = staging_path(req_id);
                    let size = bytes.len();
                    (
                        Pipeline {
                            config,
                            req_id,
                            command,
                            phase: Phase::Staging { size },
                            staged_once,
                            release_issued,
                        },
                        Action::Stage { path, bytes },
                    )
                },
            },
            (Phase::Staging { size }, Event::StageDone(res)) => match res {
                Err(d) => {
                    let msg = failure_message(ErrorKind::Io, d.as_str());
                    let body = json_encode_string(msg.as_str());
                    let echo = body.clone();
                    (
                        Pipeline {
                            config,
                            req_id,
                            command,
                            phase: Phase::Done { body },
                            staged_once,
                            release_issued,
                        },
                        Action::Respond { body: echo },
                    )
                },
                Ok(_) => {
                    let path = staging_path(req_id);
                    let staged = StagedImage { path: path.clone(), size_bytes: size, read_only: true };
                    let url = upload_url(&config);
                    let emoji_name = match &command {
                        Some(cmd) => cmd.emoji_name.clone(),
                        None => vstd::pervasive::unreached(),
                    };
                    let api_token = config.api_token.clone();
                    (
                        Pipeline {
                            config,
                            req_id,
                            command,
                            phase: Phase::Uploading { staged },
                            staged_once: true,
                            release_issued,
                        },
                        Action::Upload { url, path, emoji_name, api_token },
                    )
                },
            },
            (Phase::Uploading { staged }, Event::UploadDone(res)) => {
                let message = match res {
                    Ok(body) => {
                        let name = match &command {
                            Some(cmd) => cmd.emoji_name.as_str(),
                            None => vstd::pervasive::unreached(),
                        };
                        reply_message(name, body.as_str())
                    },
                    Err(d) => failure_message(ErrorKind::UploadTransport, d.as_str()),
                };
                let path = staged.path.clone();
                (
                    Pipeline {
                        config,
                        req_id,
                        command,
                        phase: Phase::AwaitingCleanup { staged, message },
                        staged_once,
                        release_issued: true,
                    },
                    Action::DeleteStaged { path },
                )
            },
            (Phase::AwaitingCleanup { staged: _, message }, Event::CleanupDone(_)) => {
                let body = json_encode_string(message.as_str());
                let echo = body.clone();
                (
                    Pipeline {
                        config,
                        req_id,
                        command,
                        phase: Phase::Done { body },
                        staged_once,
                        release_issued,
                    },
                    Action::Respond { body: echo },
                )
            },
            _ => vstd::pervasive::unreached(),
        }
    }
}

/// Cleanup is never skipped: a request that ever staged a file has issued the
/// delete action for it by the time it is done, whichever branch it took.
pub proof fn lemma_cleanup_before_done(p: Pipeline)
    requires
        p.wf(),
        p.phase is Done,
        p.staged_once,
    ensures
        p.release_issued,
{
}

/// Validation failure rejects the request at once: the machine is done, and
/// the only action is the validation failure response.
pub open spec fn start_rejects(p: Pipeline, a: Action) -> bool {
    done_with(p, a, json_string_of(failure_message_spec(ErrorKind::Validation, validation_detail())))
}

/// Two staged images that agree on everything observable.
pub open spec fn staged_sim(a: StagedImage, b: StagedImage) -> bool {
    a.path@ == b.path@ && a.size_bytes == b.size_bytes && a.read_only == b.read_only
}

/// Two parsed commands with the same tokens.
pub open spec fn command_sim(a: Option<Command>, b: Option<Command>) -> bool {
    match (a, b) {
        (None, None) => true,
        (Some(x), Some(y)) => x.image_url@ == y.image_url@ && x.emoji_name@ == y.emoji_name@,
        _ => false,
    }
}

/// Two phases that agree on everything observable.
pub open spec fn phase_sim(a: Phase, b: Phase) -> bool {
    match (a, b) {
        (Phase::Fetching, Phase::Fetching) => true,
        (Phase::Staging { size: s1 }, Phase::Staging { size: s2 }) => s1 == s2,
        (Phase::Uploading { staged: g1 }, Phase::Uploading { staged: g2 }) => staged_sim(g1, g2),
        (
            Phase::AwaitingCleanup { staged: g1, message: m1 },
            Phase::AwaitingCleanup { staged: g2, message: m2 },
        ) => staged_sim(g1, g2) && m1@ == m2@,
        (Phase::Done { body: b1 }, Phase::Done { body: b2 }) => b1@ == b2@,
        _ => false,
    }
}

/// Two pipelines that may differ in their configuration, but in nothing
/// else.
pub open spec fn config_sim(a: Pipeline, b: Pipeline) -> bool {
    &&& a.req_id == b.req_id
    &&& command_sim(a.command, b.command)
    &&& phase_sim(a.phase, b.phase)
    &&& a.staged_once == b.staged_once
    &&& a.release_issued == b.release_issued
}

/// The caller never learns the workspace credentials.  Two runs over the same
/// events whose configurations differ arbitrarily stay in step and produce
/// character-for-character the same responses: the workspace name and the API
/// token reach only the upload request itself, never the reply to the caller.
pub proof fn lemma_response_independent_of_config(
    p1: Pipeline,
    p2: Pipeline,
    event: Event,
    q1: Pipeline,
    a1: Action,
    q2: Pipeline,
    a2: Action,
)
    requires
        config_sim(p1, p2),
        step_post(p1, event, q1, a1),
        step_post(p2, event, q2, a2),
    ensures
        config_sim(q1, q2),
        a1 matches Action::Respond { body: b1 } ==> (a2 matches Action::Respond { body: b2 }
            && b1@ == b2@),
{
}

} // verus!
